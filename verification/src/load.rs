//! Loading a scene: which files a layer needs, and the layer that they give.

use vstd::prelude::*;

use crate::gif::{time_after, Animation, GifFrame};
use crate::paths::join;
use crate::project_format::{EffectKind, Layer, Mask, Single};
use crate::scene::{
    create_effect_chain, LoadedLayer, TextLayer, FALLBACK_HEIGHT, FALLBACK_WIDTH,
};
use crate::text_source::{LoadedTextSource, Moment};

verus! {

/// The files of a layer's own pictures, in the order in which they are read.
pub open spec fn picture_files(
    dir: Seq<char>,
    layer: crate::project_format::LayerModel,
) -> Seq<Seq<char>> {
    match layer {
        crate::project_format::LayerModel::Image { path, .. } => seq![
            crate::paths::joined(dir, path),
        ],
        crate::project_format::LayerModel::Gif { path, .. } => seq![
            crate::paths::joined(dir, path),
        ],
        crate::project_format::LayerModel::Parallax { path, .. } => seq![
            crate::paths::joined(dir, path),
        ],
        crate::project_format::LayerModel::Xray { base, overlay, .. } => seq![
            crate::paths::joined(dir, base),
            crate::paths::joined(dir, overlay),
        ],
        crate::project_format::LayerModel::Text { .. } => seq![],
        crate::project_format::LayerModel::Adjustment { .. } => seq![],
    }
}

/// The files of a layer's own pictures.
pub fn layer_pictures(dir: &str, layer: &Layer) -> (r: Vec<String>)
    ensures
        crate::text::texts_view(r@) == picture_files(dir@, layer@),
{
    let mut r: Vec<String> = Vec::new();
    match layer {
        Layer::Image { path, .. } | Layer::Gif { path, .. } | Layer::Parallax { path, .. } => {
            r.push(join(dir, path.as_str()));
        },
        Layer::Xray { base, overlay, .. } => {
            r.push(join(dir, base.as_str()));
            r.push(join(dir, overlay.as_str()));
        },
        Layer::Text { .. } | Layer::Adjustment { .. } => {},
    }
    assert(crate::text::texts_view(r@) =~= picture_files(dir@, layer@));
    r
}

/// The file of an effect's mask: only a mask that is a picture has one.
pub open spec fn mask_file_of(dir: Seq<char>, mask: crate::project_format::MaskModel) -> Option<
    Seq<char>,
> {
    match mask {
        crate::project_format::MaskModel::Texture { path, .. } => Some(
            crate::paths::joined(dir, path),
        ),
        _ => None,
    }
}

/// The file of an effect's mask.
pub fn mask_file(dir: &str, mask: &Mask) -> (r: Option<String>)
    ensures
        match r {
            Some(f) => mask_file_of(dir@, mask@) == Some(f@),
            None => mask_file_of(dir@, mask@) is None,
        },
{
    match mask {
        Mask::Texture { path, .. } => Some(join(dir, path.as_str())),
        _ => None,
    }
}

/// The file of a shader effect's own shader.
pub open spec fn shader_file_of(
    dir: Seq<char>,
    kind: crate::project_format::EffectKindModel,
) -> Option<Seq<char>> {
    match kind {
        crate::project_format::EffectKindModel::Shader { wgsl_path, .. } => Some(
            crate::paths::joined(dir, wgsl_path),
        ),
        _ => None,
    }
}

/// The file of a shader effect's own shader.
pub fn shader_file(dir: &str, kind: &EffectKind) -> (r: Option<String>)
    ensures
        match r {
            Some(f) => shader_file_of(dir@, kind@) == Some(f@),
            None => shader_file_of(dir@, kind@) is None,
        },
{
    match kind {
        EffectKind::Shader { wgsl_path, .. } => Some(join(dir, wgsl_path.as_str())),
        _ => None,
    }
}

/// What reading a layer's own pictures gave.
pub enum LayerContent {
    /// There was nothing to read.
    Nothing,
    /// The size of the first picture.
    Picture { width: u32, height: u32 },
    /// The frames of an animation.
    Frames { frames: Vec<GifFrame>, width: u32, height: u32 },
}

/// The delays of frames as files give them, few enough to be summed.
pub open spec fn playable(frames: Seq<GifFrame>) -> bool {
    &&& 0 < frames.len() <= u32::MAX
    &&& forall|i: int| 0 <= i < frames.len() ==> 0 < (#[trigger] frames[i]).delay_ms <= u32::MAX
}

proof fn playable_total(frames: Seq<GifFrame>, n: int)
    requires
        playable(frames),
        0 <= n <= frames.len(),
    ensures
        n <= time_after(frames, n) <= n * u32::MAX,
    decreases n,
{
    if n > 0 {
        playable_total(frames, n - 1);
        assert(0 < frames[n - 1].delay_ms <= u32::MAX);
        assert(n * u32::MAX == (n - 1) * u32::MAX + u32::MAX) by (nonlinear_arith);
    }
}

impl LayerContent {
    /// The content is what the layer needs.
    pub open spec fn suits(self, layer: crate::project_format::LayerModel) -> bool {
        match layer {
            crate::project_format::LayerModel::Image { .. } => self is Picture,
            crate::project_format::LayerModel::Xray { .. } => self is Picture,
            crate::project_format::LayerModel::Parallax { .. } => self is Picture,
            crate::project_format::LayerModel::Gif { .. } => self is Frames && playable(
                self->frames@,
            ),
            crate::project_format::LayerModel::Text { .. } => true,
            crate::project_format::LayerModel::Adjustment { .. } => true,
        }
    }

    pub open spec fn size(self) -> (u32, u32) {
        match self {
            LayerContent::Nothing => (0, 0),
            LayerContent::Picture { width, height } => (width, height),
            LayerContent::Frames { width, height, .. } => (width, height),
        }
    }
}

/// The size of the pictures that a layer's effects work on: its own, or else
/// that of the canvas, which the scene's first layer gives.
pub open spec fn worked_size(content: LayerContent, loaded: Seq<LoadedLayer>) -> (u32, u32) {
    if !(content is Nothing) {
        content.size()
    } else if loaded.len() > 0 {
        loaded[0].natural_size()
    } else {
        (FALLBACK_WIDTH, FALLBACK_HEIGHT)
    }
}

/// The size of the pictures that the effects of the next layer work on, by the
/// layers that are loaded already.
pub fn effects_size(content: &LayerContent, loaded: &Vec<LoadedLayer>) -> (r: (u32, u32))
    ensures
        r == worked_size(*content, loaded@),
{
    match content {
        LayerContent::Picture { width, height } => (*width, *height),
        LayerContent::Frames { width, height, .. } => (*width, *height),
        LayerContent::Nothing => {
            if loaded.len() > 0 {
                loaded[0].size()
            } else {
                (FALLBACK_WIDTH, FALLBACK_HEIGHT)
            }
        },
    }
}

/// The layer that a project's layer becomes with its content.
pub open spec fn loads(
    layer: crate::project_format::LayerModel,
    content: LayerContent,
    canvas_aspect: Single,
    allow_commands: bool,
    now: Moment,
    l: LoadedLayer,
) -> bool {
    &&& l.wf()
    &&& crate::scene::loads_chain(layer.effects(), canvas_aspect, l.chain())
    &&& match (layer, l) {
        (
            crate::project_format::LayerModel::Image { .. },
            LoadedLayer::Image { width, height, .. },
        ) => (width, height) == content.size(),
        (
            crate::project_format::LayerModel::Gif { .. },
            LoadedLayer::Gif { animation, width, height, .. },
        ) => {
            &&& (width, height) == content.size()
            &&& content is Frames
            &&& animation.frames@ == content->frames@
            &&& animation.current == 0
        },
        (
            crate::project_format::LayerModel::Xray { radius: wanted, .. },
            LoadedLayer::Xray { radius, width, height, .. },
        ) => radius == wanted && (width, height) == content.size(),
        (
            crate::project_format::LayerModel::Parallax { strength: s, smoothing: m, .. },
            LoadedLayer::Parallax { strength, smoothing, width, height, .. },
        ) => s == strength && m == smoothing && (width, height) == content.size(),
        (
            crate::project_format::LayerModel::Text { x, y, font_size, color, source, font },
            LoadedLayer::Text(t),
        ) => {
            &&& t.x == x && t.y == y && t.font_size == font_size && t.color@ == color
            &&& t.font@ == font
            &&& t.source.config() == source
            &&& t.source.fresh(allow_commands)
            &&& t.text@ == t.source.shows(now)
        },
        (
            crate::project_format::LayerModel::Adjustment { .. },
            LoadedLayer::Adjustment { .. },
        ) => true,
        _ => false,
    }
}

fn is_playable(frames: &Vec<GifFrame>) -> (r: bool)
    ensures
        r == playable(frames@),
{
    if frames.len() == 0 || frames.len() > u32::MAX as usize {
        return false;
    }
    let mut i: usize = 0;
    while i < frames.len()
        invariant
            i <= frames@.len(),
            forall|j: int| 0 <= j < i ==> 0 < (#[trigger] frames@[j]).delay_ms <= u32::MAX,
        decreases frames.len() - i,
    {
        let delay = frames[i].delay_ms;
        if delay == 0 || delay > u32::MAX as u64 {
            return false;
        }
        i += 1;
    }
    true
}

/// Loads a layer whose pictures have been read. Nothing where the content is
/// not what the layer needs.
pub fn load_layer(
    layer: &Layer,
    content: LayerContent,
    canvas_aspect: Single,
    allow_commands: bool,
    now: Moment,
) -> (r: Option<LoadedLayer>)
    requires
        now.valid(),
    ensures
        match r {
            Some(l) => content.suits(layer@) && loads(
                layer@,
                content,
                canvas_aspect,
                allow_commands,
                now,
                l,
            ),
            None => !content.suits(layer@),
        },
{
    match layer {
        Layer::Image { effects, .. } => match content {
            LayerContent::Picture { width, height } => Some(
                LoadedLayer::Image {
                    width,
                    height,
                    effects: create_effect_chain(effects.as_slice(), canvas_aspect),
                },
            ),
            _ => None,
        },
        Layer::Gif { effects, .. } => match content {
            LayerContent::Frames { frames, width, height } => {
                if !is_playable(&frames) {
                    return None;
                }
                proof {
                    playable_total(frames@, frames@.len() as int);
                    assert(frames@.len() * u32::MAX <= u64::MAX) by (nonlinear_arith)
                        requires
                            frames@.len() <= u32::MAX,
                    ;
                }
                Some(
                    LoadedLayer::Gif {
                        animation: Animation::new(frames),
                        width,
                        height,
                        effects: create_effect_chain(effects.as_slice(), canvas_aspect),
                    },
                )
            },
            _ => None,
        },
        Layer::Xray { radius, effects, .. } => match content {
            LayerContent::Picture { width, height } => Some(
                LoadedLayer::Xray {
                    radius: *radius,
                    width,
                    height,
                    effects: create_effect_chain(effects.as_slice(), canvas_aspect),
                },
            ),
            _ => None,
        },
        Layer::Parallax { strength, smoothing, effects, .. } => match content {
            LayerContent::Picture { width, height } => Some(
                LoadedLayer::Parallax {
                    strength: *strength,
                    smoothing: *smoothing,
                    width,
                    height,
                    effects: create_effect_chain(effects.as_slice(), canvas_aspect),
                },
            ),
            _ => None,
        },
        Layer::Text { x, y, font_size, color, source, font } => {
            let source = LoadedTextSource::from_project(source, allow_commands);
            let text = source.poll(now);
            Some(
                LoadedLayer::Text(
                    TextLayer {
                        text,
                        source,
                        font: font.clone(),
                        x: *x,
                        y: *y,
                        font_size: *font_size,
                        color: *color,
                    },
                ),
            )
        },
        Layer::Adjustment { effects } => Some(
            LoadedLayer::Adjustment {
                effects: create_effect_chain(effects.as_slice(), canvas_aspect),
            },
        ),
    }
}

/// A layer is dynamic once loaded just when its project says so.
pub proof fn loaded_layer_is_as_dynamic(
    layer: crate::project_format::LayerModel,
    content: LayerContent,
    canvas_aspect: Single,
    allow_commands: bool,
    now: Moment,
    l: LoadedLayer,
)
    requires
        loads(layer, content, canvas_aspect, allow_commands, now, l),
    ensures
        l.dynamic() == layer.dynamic(),
{
    let effects = layer.effects();
    if l.chain() is Some {
        let chain = l.chain()->0;
        assert forall|i: int| 0 <= i < chain.len() implies (#[trigger] chain[i]).animated()
            == effects[i].kind.animated() by {
            assert(crate::scene::loads_kind(effects[i].kind, chain[i].kind));
        }
        if l.has_animated_effect() {
            let i = choose|i: int|
                0 <= i < chain.len() && (#[trigger] chain[i]).enabled && chain[i].animated();
            assert(effects[i].enabled && effects[i].kind.animated());
        }
        if exists|i: int|
            0 <= i < effects.len() && (#[trigger] effects[i]).enabled
                && effects[i].kind.animated() {
            let i = choose|i: int|
                0 <= i < effects.len() && (#[trigger] effects[i]).enabled
                    && effects[i].kind.animated();
            assert(chain[i].enabled && chain[i].animated());
        }
    }
}


/// A picture is what a layer that shows one needs, and frames what an animation
/// does: one at least, each with a delay. A text or an adjustment needs nothing.
pub proof fn layers_need_their_content(
    layer: crate::project_format::LayerModel,
    content: LayerContent,
)
    ensures
        layer is Image || layer is Xray || layer is Parallax ==> (content.suits(layer)
            <==> content is Picture),
        layer is Gif && !(content is Frames) ==> !content.suits(layer),
        layer is Gif ==> (content matches LayerContent::Frames { frames, .. } ==> {
            &&& frames@.len() == 0 ==> !content.suits(layer)
            &&& content.suits(layer) ==> forall|i: int|
                0 <= i < frames@.len() ==> (#[trigger] frames@[i]).delay_ms > 0
            &&& 0 < frames@.len() <= u32::MAX && (forall|i: int|
                0 <= i < frames@.len() ==> 0 < (#[trigger] frames@[i]).delay_ms <= u32::MAX)
                ==> content.suits(layer)
        }),
        layer is Text || layer is Adjustment ==> content.suits(layer),
{
}

/// The effects of an animation work on pictures of its own size.
pub proof fn effects_of_animations_work_on_their_size(
    frames: Vec<GifFrame>,
    width: u32,
    height: u32,
    loaded: Seq<LoadedLayer>,
)
    ensures
        worked_size(LayerContent::Frames { frames, width, height }, loaded) == (width, height),
{
}

} // verus!
