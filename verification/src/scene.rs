//! A loaded scene: what the engine keeps of each layer, and the changes that
//! an editor, a clock or the cursor make to it.

use vstd::prelude::*;

use crate::gif::Animation;
use crate::project_format::{
    copy_singles, Effect, EffectKind, Mask, Single, TextFont, TextSource, ONE, ZERO,
};
use crate::text_source::{LoadedTextSource, Moment};
use crate::uniforms::{
    blur_uniform_bytes, coloradjust_uniform_bytes, mask_uniform_bytes, shader_uniform_bytes,
    smoke_uniform_bytes, vignette_uniform_bytes, xray_uniform_bytes,
};

verus! {

/// A smoke effect's parameters, written to its buffer together with the
/// cursor.
#[derive(Debug, Clone, Copy)]
pub struct SmokeEffect {
    pub color: [Single; 4],
    pub decay: Single,
    pub radius: Single,
}

/// Which effect a loaded effect is, with the parameters that are written to
/// its buffer in every frame rather than when they change.
pub enum LoadedEffectKind {
    Vignette,
    ColorAdjust,
    Blur,
    Smoke(SmokeEffect),
    Shader { params: Vec<Single> },
}

/// Which mask a loaded effect has.
#[derive(Debug, Clone, Copy, PartialEq, Eq, Structural)]
pub enum MaskKind {
    Unmasked,
    Circle,
    Gradient,
    Texture,
}

/// A loaded effect.
pub struct LoadedEffect {
    pub kind: LoadedEffectKind,
    pub mask: MaskKind,
    /// The aspect of the pictures that the effect works on, which its mask's
    /// shader reads.
    pub canvas_aspect: Single,
    pub enabled: bool,
}

/// A loaded text layer.
pub struct TextLayer {
    /// What was last shown.
    pub text: String,
    pub source: LoadedTextSource,
    pub font: TextFont,
    pub x: Single,
    pub y: Single,
    pub font_size: Single,
    pub color: [Single; 4],
}

/// A loaded layer. A layer whose project gives it no effects has none, rather
/// than an empty stack.
pub enum LoadedLayer {
    Image { width: u32, height: u32, effects: Option<Vec<LoadedEffect>> },
    Gif { animation: Animation, width: u32, height: u32, effects: Option<Vec<LoadedEffect>> },
    Xray { radius: Single, width: u32, height: u32, effects: Option<Vec<LoadedEffect>> },
    Parallax {
        strength: Single,
        smoothing: Single,
        width: u32,
        height: u32,
        effects: Option<Vec<LoadedEffect>>,
    },
    Text(TextLayer),
    Adjustment { effects: Option<Vec<LoadedEffect>> },
}

/// The canvas of a scene whose first layer has no size of its own.
pub const FALLBACK_WIDTH: u32 = 1920;

pub const FALLBACK_HEIGHT: u32 = 1080;

impl LoadedLayer {
    /// The layer's stack of effects, if it has one.
    pub open spec fn chain(self) -> Option<Seq<LoadedEffect>> {
        let effects = match self {
            LoadedLayer::Image { effects, .. } => effects,
            LoadedLayer::Gif { effects, .. } => effects,
            LoadedLayer::Xray { effects, .. } => effects,
            LoadedLayer::Parallax { effects, .. } => effects,
            LoadedLayer::Adjustment { effects } => effects,
            LoadedLayer::Text(_) => None,
        };
        match effects {
            Some(e) => Some(e@),
            None => None,
        }
    }

    /// The text layer that this layer is.
    pub open spec fn as_text(self) -> TextLayer {
        self->Text_0
    }

    /// The layer draws a picture of its own.
    pub open spec fn has_picture(self) -> bool {
        !(self is Text) && !(self is Adjustment)
    }

    /// The size of the layer's own picture, or that of a canvas without one.
    pub open spec fn natural_size(self) -> (u32, u32) {
        match self {
            LoadedLayer::Image { width, height, .. } => (width, height),
            LoadedLayer::Gif { width, height, .. } => (width, height),
            LoadedLayer::Xray { width, height, .. } => (width, height),
            LoadedLayer::Parallax { width, height, .. } => (width, height),
            LoadedLayer::Text(_) => (FALLBACK_WIDTH, FALLBACK_HEIGHT),
            LoadedLayer::Adjustment { .. } => (FALLBACK_WIDTH, FALLBACK_HEIGHT),
        }
    }

    /// Some effect of the layer is switched on and changes by itself.
    pub open spec fn has_animated_effect(self) -> bool {
        self.chain() is Some && exists|i: int|
            0 <= i < self.chain()->0.len() && (#[trigger] self.chain()->0[i]).enabled
                && self.chain()->0[i].animated()
    }

    /// The layer has to be drawn again and again.
    pub open spec fn dynamic(self) -> bool {
        ||| self is Gif
        ||| self is Xray
        ||| self is Parallax
        ||| self matches LoadedLayer::Text(t) && t.source.config().dynamic()
        ||| self.has_animated_effect()
    }

    pub open spec fn wf(self) -> bool {
        self matches LoadedLayer::Gif { animation, .. } ==> animation.wf()
    }

    /// The layer's stack of effects, if it has one.
    pub fn effects(&self) -> (r: Option<&Vec<LoadedEffect>>)
        ensures
            match r {
                Some(e) => self.chain() == Some(e@),
                None => self.chain() is None,
            },
    {
        match self {
            LoadedLayer::Image { effects, .. }
            | LoadedLayer::Gif { effects, .. }
            | LoadedLayer::Xray { effects, .. }
            | LoadedLayer::Parallax { effects, .. }
            | LoadedLayer::Adjustment { effects } => effects.as_ref(),
            LoadedLayer::Text(_) => None,
        }
    }

    /// The size of the layer's own picture.
    pub fn size(&self) -> (r: (u32, u32))
        ensures
            r == self.natural_size(),
    {
        match self {
            LoadedLayer::Image { width, height, .. }
            | LoadedLayer::Gif { width, height, .. }
            | LoadedLayer::Xray { width, height, .. }
            | LoadedLayer::Parallax { width, height, .. } => (*width, *height),
            LoadedLayer::Text(_) | LoadedLayer::Adjustment { .. } => (
                FALLBACK_WIDTH,
                FALLBACK_HEIGHT,
            ),
        }
    }

    /// Whether the layer needs to be drawn again and again.
    pub fn is_dynamic(&self) -> (r: bool)
        ensures
            r == self.dynamic(),
    {
        let by_itself = match self {
            LoadedLayer::Image { .. } | LoadedLayer::Adjustment { .. } => false,
            LoadedLayer::Gif { .. }
            | LoadedLayer::Xray { .. }
            | LoadedLayer::Parallax { .. } => true,
            LoadedLayer::Text(text) => text.source.is_dynamic(),
        };
        by_itself || any_animated(self)
    }

    /// Changes the radius of an x-ray layer; nothing on any other.
    pub fn set_xray_radius(&mut self, radius: Single)
        ensures
            *final(self) == old(self).with_radius(radius),
    {
        match self {
            LoadedLayer::Xray { radius: current, .. } => {
                *current = radius;
            },
            _ => {},
        }
    }

    pub open spec fn with_radius(self, radius: Single) -> LoadedLayer {
        match self {
            LoadedLayer::Xray { width, height, effects, .. } => LoadedLayer::Xray {
                radius,
                width,
                height,
                effects,
            },
            _ => self,
        }
    }

    /// Changes the pan of a parallax layer; nothing on any other.
    pub fn set_parallax_params(&mut self, strength: Single, smoothing: Single)
        ensures
            *final(self) == old(self).with_pan(strength, smoothing),
    {
        match self {
            LoadedLayer::Parallax { strength: current, smoothing: eased, .. } => {
                *current = strength;
                *eased = smoothing;
            },
            _ => {},
        }
    }

    pub open spec fn with_pan(self, strength: Single, smoothing: Single) -> LoadedLayer {
        match self {
            LoadedLayer::Parallax { width, height, effects, .. } => LoadedLayer::Parallax {
                strength,
                smoothing,
                width,
                height,
                effects,
            },
            _ => self,
        }
    }

    /// Changes what a text layer shows and where; nothing on any other. The
    /// source is loaded anew only where its configuration has changed. What
    /// was last shown stays until the sources are next asked.
    pub fn set_text_params(
        &mut self,
        source: &TextSource,
        x: Single,
        y: Single,
        font_size: Single,
        color: [Single; 4],
        allow_commands: bool,
    )
        ensures
            !(*old(self) is Text) ==> *final(self) == *old(self),
            *old(self) is Text ==> *final(self) is Text && text_set(
                old(self).as_text(),
                source@,
                allow_commands,
                final(self).as_text(),
            ),
            *old(self) is Text ==> {
                &&& final(self).as_text().x == x
                &&& final(self).as_text().y == y
                &&& final(self).as_text().font_size == font_size
                &&& final(self).as_text().color == color
            },
    {
        match self {
            LoadedLayer::Text(text) => {
                if !text.source.matches(source) {
                    text.source = LoadedTextSource::from_project(source, allow_commands);
                }
                text.x = x;
                text.y = y;
                text.font_size = font_size;
                text.color = color;
            },
            _ => {},
        }
    }
}

/// A text layer once it has another source, or the same one as before.
pub open spec fn text_set(
    before: TextLayer,
    source: crate::project_format::TextSourceModel,
    allow_commands: bool,
    after: TextLayer,
) -> bool {
    &&& after.text == before.text
    &&& after.font == before.font
    &&& after.source.config() == source
    &&& before.source.config() == source ==> after.source == before.source
    &&& before.source.config() != source ==> after.source.fresh(allow_commands)
}

/// The size of a scene's canvas: that of the layer at the bottom.
pub open spec fn canvas_size(layers: Seq<LoadedLayer>) -> (u32, u32) {
    layers[0].natural_size()
}

/// Whatever is put on top of a scene, its canvas stays that of its first layer.
pub proof fn bottom_layer_sets_the_canvas(layers: Seq<LoadedLayer>, first: LoadedLayer)
    ensures
        canvas_size(seq![first] + layers) == first.natural_size(),
{
}

impl LoadedEffect {
    pub open spec fn animated(self) -> bool {
        self.kind is Smoke || self.kind is Shader
    }
}

fn any_animated(layer: &LoadedLayer) -> (r: bool)
    ensures
        r == layer.has_animated_effect(),
{
    match layer.effects() {
        None => false,
        Some(effects) => {
            let mut i: usize = 0;
            while i < effects.len()
                invariant
                    i <= effects@.len(),
                    layer.chain() == Some(effects@),
                    forall|j: int|
                        0 <= j < i ==> !((#[trigger] effects@[j]).enabled
                            && effects@[j].animated()),
                decreases effects.len() - i,
            {
                let effect = &effects[i];
                let animated = match &effect.kind {
                    LoadedEffectKind::Smoke(_) | LoadedEffectKind::Shader { .. } => true,
                    _ => false,
                };
                if effect.enabled && animated {
                    assert(layer.chain()->0[i as int].animated());
                    return true;
                }
                i += 1;
            }
            false
        },
    }
}

// --- Loading ---------------------------------------------------------------

/// The loaded form of an effect's kind.
pub open spec fn loads_kind(kind: crate::project_format::EffectKindModel, l: LoadedEffectKind) -> bool {
    match kind {
        crate::project_format::EffectKindModel::Vignette { .. } => l is Vignette,
        crate::project_format::EffectKindModel::ColorAdjust { .. } => l is ColorAdjust,
        crate::project_format::EffectKindModel::Blur { .. } => l is Blur,
        crate::project_format::EffectKindModel::Smoke { color, decay, radius } => {
            &&& l is Smoke
            &&& l->Smoke_0.color@ == color
            &&& l->Smoke_0.decay == decay
            &&& l->Smoke_0.radius == radius
        },
        crate::project_format::EffectKindModel::Shader { params, .. } => {
            l is Shader && l->params@ == params
        },
    }
}

/// Which mask a mask is.
pub open spec fn mask_kind(mask: crate::project_format::MaskModel) -> MaskKind {
    match mask {
        crate::project_format::MaskModel::Unmasked => MaskKind::Unmasked,
        crate::project_format::MaskModel::Circle { .. } => MaskKind::Circle,
        crate::project_format::MaskModel::Gradient { .. } => MaskKind::Gradient,
        crate::project_format::MaskModel::Texture { .. } => MaskKind::Texture,
    }
}

fn kind_of_mask(mask: &Mask) -> (r: MaskKind)
    ensures
        r == mask_kind(mask@),
{
    match mask {
        Mask::Unmasked => MaskKind::Unmasked,
        Mask::Circle { .. } => MaskKind::Circle,
        Mask::Gradient { .. } => MaskKind::Gradient,
        Mask::Texture { .. } => MaskKind::Texture,
    }
}

/// The loaded form of an effect.
pub open spec fn loads_effect(
    effect: crate::project_format::EffectModel,
    canvas_aspect: Single,
    l: LoadedEffect,
) -> bool {
    &&& loads_kind(effect.kind, l.kind)
    &&& l.mask == mask_kind(effect.mask)
    &&& l.enabled == effect.enabled
    &&& l.canvas_aspect == canvas_aspect
}

/// The loaded form of a stack of effects: one loaded effect for each, none at
/// all where there is no effect.
pub open spec fn loads_chain(
    effects: Seq<crate::project_format::EffectModel>,
    canvas_aspect: Single,
    l: Option<Seq<LoadedEffect>>,
) -> bool {
    match l {
        None => effects.len() == 0,
        Some(chain) => {
            &&& effects.len() > 0
            &&& chain.len() == effects.len()
            &&& forall|i: int|
                0 <= i < chain.len() ==> loads_effect(
                    effects[i],
                    canvas_aspect,
                    #[trigger] chain[i],
                )
        },
    }
}

fn load_kind(kind: &EffectKind) -> (r: LoadedEffectKind)
    ensures
        loads_kind(kind@, r),
{
    match kind {
        EffectKind::Vignette { .. } => LoadedEffectKind::Vignette,
        EffectKind::ColorAdjust { .. } => LoadedEffectKind::ColorAdjust,
        EffectKind::Blur { .. } => LoadedEffectKind::Blur,
        EffectKind::Smoke { color, decay, radius } => LoadedEffectKind::Smoke(
            SmokeEffect { color: *color, decay: *decay, radius: *radius },
        ),
        EffectKind::Shader { params, .. } => LoadedEffectKind::Shader {
            params: copy_singles(params),
        },
    }
}

/// Loads a stack of effects that works on pictures of the given aspect.
pub fn create_effect_chain(effects: &[Effect], canvas_aspect: Single) -> (r: Option<
    Vec<LoadedEffect>,
>)
    ensures
        loads_chain(
            crate::project_format::effects_view(effects@),
            canvas_aspect,
            match r {
                Some(v) => Some(v@),
                None => None,
            },
        ),
{
    if effects.len() == 0 {
        return None;
    }
    let ghost model = crate::project_format::effects_view(effects@);
    let mut chain: Vec<LoadedEffect> = Vec::new();
    let mut i: usize = 0;
    while i < effects.len()
        invariant
            i <= effects@.len(),
            model == crate::project_format::effects_view(effects@),
            chain@.len() == i,
            forall|j: int|
                0 <= j < i ==> loads_effect(model[j], canvas_aspect, #[trigger] chain@[j]),
        decreases effects.len() - i,
    {
        let effect = &effects[i];
        assert(model[i as int] == effect@);
        chain.push(
            LoadedEffect {
                kind: load_kind(&effect.kind),
                mask: kind_of_mask(&effect.mask),
                canvas_aspect,
                enabled: effect.enabled,
            },
        );
        i += 1;
    }
    Some(chain)
}

/// The size of the buffer that holds an effect's parameters, in whole groups of
/// four singles.
pub open spec fn params_size(kind: crate::project_format::EffectKindModel) -> int {
    match kind {
        crate::project_format::EffectKindModel::Smoke { .. } => 32,
        crate::project_format::EffectKindModel::Shader { params, .. } => 16 * ((params.len() as int
            + 7) / 4),
        _ => 16,
    }
}

/// The size of the buffer that holds an effect's parameters.
pub fn uniform_size(kind: &EffectKind) -> (r: u64)
    requires
        params_size(kind@) <= u64::MAX,
    ensures
        r == params_size(kind@),
{
    match kind {
        EffectKind::Smoke { .. } => 32,
        EffectKind::Shader { params, .. } => {
            let count: usize = params.len();
            let groups: u64 = if count % 4 == 0 {
                count as u64 / 4
            } else {
                count as u64 / 4 + 1
            };
            assert(groups + 1 == (count + 7) / 4);
            16 * (groups + 1)
        },
        _ => 16,
    }
}

/// One buffer of an effect.
#[derive(Debug, Clone, Copy, PartialEq, Eq, Structural)]
pub enum BufferRole {
    Params,
    BlurHorizontal,
    BlurVertical,
    MaskParams,
}

/// Bytes to write to a buffer of an effect.
pub struct BufferWrite {
    pub effect: usize,
    pub role: BufferRole,
    pub bytes: Vec<u8>,
}

pub struct WriteModel {
    pub effect: int,
    pub role: BufferRole,
    pub bytes: Seq<u8>,
}

impl View for BufferWrite {
    type V = WriteModel;

    open spec fn view(&self) -> WriteModel {
        WriteModel { effect: self.effect as int, role: self.role, bytes: self.bytes@ }
    }
}

pub open spec fn writes_view(writes: Seq<BufferWrite>) -> Seq<WriteModel> {
    writes.map_values(|w: BufferWrite| w@)
}

/// What has to be written for the parameters of an effect's kind to take
/// hold; nothing for the kinds whose buffers are written in every frame.
pub open spec fn kind_writes(
    i: int,
    kind: crate::project_format::EffectKindModel,
) -> Seq<WriteModel> {
    match kind {
        crate::project_format::EffectKindModel::Vignette { strength, softness } => seq![
            WriteModel {
                effect: i,
                role: BufferRole::Params,
                bytes: crate::uniforms::singles_bytes(seq![strength, softness, ZERO, ZERO]),
            },
        ],
        crate::project_format::EffectKindModel::ColorAdjust { brightness, contrast, saturation } =>
        seq![
            WriteModel {
                effect: i,
                role: BufferRole::Params,
                bytes: crate::uniforms::singles_bytes(
                    seq![brightness, contrast, saturation, ZERO],
                ),
            },
        ],
        crate::project_format::EffectKindModel::Blur { radius } => seq![
            WriteModel {
                effect: i,
                role: BufferRole::BlurHorizontal,
                bytes: crate::uniforms::singles_bytes(seq![radius, ONE, ZERO, ZERO]),
            },
            WriteModel {
                effect: i,
                role: BufferRole::BlurVertical,
                bytes: crate::uniforms::singles_bytes(seq![radius, ZERO, ONE, ZERO]),
            },
        ],
        _ => seq![],
    }
}

/// What has to be written for the parameters of an effect's mask to take hold.
pub open spec fn mask_write(
    i: int,
    mask: crate::project_format::MaskModel,
    canvas_aspect: Single,
) -> WriteModel {
    WriteModel {
        effect: i,
        role: BufferRole::MaskParams,
        bytes: crate::uniforms::singles_bytes(crate::uniforms::mask_singles(mask, canvas_aspect)),
    }
}

/// A loaded effect is of the same kind as an effect, with the same kind of
/// mask, so that it can take over the effect's parameters. A shader has to
/// have as many parameters: its buffer has no room for more.
pub open spec fn same_shape(
    loaded: LoadedEffect,
    effect: crate::project_format::EffectModel,
) -> bool {
    &&& loaded.mask == mask_kind(effect.mask)
    &&& match effect.kind {
        crate::project_format::EffectKindModel::Vignette { .. } => loaded.kind is Vignette,
        crate::project_format::EffectKindModel::ColorAdjust { .. } => loaded.kind is ColorAdjust,
        crate::project_format::EffectKindModel::Blur { .. } => loaded.kind is Blur,
        crate::project_format::EffectKindModel::Smoke { .. } => loaded.kind is Smoke,
        crate::project_format::EffectKindModel::Shader { params, .. } => loaded.kind is Shader
            && loaded.kind->params@.len() == params.len(),
    }
}

fn has_same_shape(loaded: &LoadedEffect, effect: &Effect) -> (r: bool)
    ensures
        r == same_shape(*loaded, effect@),
{
    let kind = match (&loaded.kind, &effect.kind) {
        (LoadedEffectKind::Vignette, EffectKind::Vignette { .. }) => true,
        (LoadedEffectKind::ColorAdjust, EffectKind::ColorAdjust { .. }) => true,
        (LoadedEffectKind::Blur, EffectKind::Blur { .. }) => true,
        (LoadedEffectKind::Smoke(_), EffectKind::Smoke { .. }) => true,
        (
            LoadedEffectKind::Shader { params: current },
            EffectKind::Shader { params, .. },
        ) => current.len() == params.len(),
        _ => false,
    };
    kind && loaded.mask == kind_of_mask(&effect.mask)
}

/// What has to be written for an effect's parameters to take hold; nothing
/// where the loaded effect has another shape.
pub open spec fn effect_writes(
    i: int,
    loaded: LoadedEffect,
    effect: crate::project_format::EffectModel,
) -> Seq<WriteModel> {
    if same_shape(loaded, effect) {
        kind_writes(i, effect.kind).push(mask_write(i, effect.mask, loaded.canvas_aspect))
    } else {
        seq![]
    }
}

/// What has to be written for the parameters of the first `n` effects to take
/// hold.
pub open spec fn chain_writes(
    chain: Seq<LoadedEffect>,
    effects: Seq<crate::project_format::EffectModel>,
    n: int,
) -> Seq<WriteModel>
    decreases n,
{
    if n <= 0 {
        seq![]
    } else {
        chain_writes(chain, effects, n - 1) + effect_writes(n - 1, chain[n - 1], effects[n - 1])
    }
}

/// A loaded effect after new parameters: as if it had been loaded with them,
/// or as it was where it has another shape.
pub open spec fn effect_after(
    loaded: LoadedEffect,
    effect: crate::project_format::EffectModel,
    after: LoadedEffect,
) -> bool {
    if same_shape(loaded, effect) {
        loads_effect(effect, loaded.canvas_aspect, after)
    } else {
        after == loaded
    }
}

fn sixteen(bytes: [u8; 16]) -> (r: Vec<u8>)
    ensures
        r@ == bytes@,
{
    crate::text::copy_range(bytes.as_slice(), 0, 16)
}

fn thirty_two(bytes: [u8; 32]) -> (r: Vec<u8>)
    ensures
        r@ == bytes@,
{
    crate::text::copy_range(bytes.as_slice(), 0, 32)
}

fn push_kind_writes(i: usize, kind: &EffectKind, writes: &mut Vec<BufferWrite>)
    ensures
        writes_view(final(writes)@) == writes_view(old(writes)@) + kind_writes(i as int, kind@),
{
    let ghost before = writes_view(writes@);
    match kind {
        EffectKind::Vignette { strength, softness } => {
            writes.push(
                BufferWrite {
                    effect: i,
                    role: BufferRole::Params,
                    bytes: sixteen(vignette_uniform_bytes(*strength, *softness)),
                },
            );
        },
        EffectKind::ColorAdjust { brightness, contrast, saturation } => {
            writes.push(
                BufferWrite {
                    effect: i,
                    role: BufferRole::Params,
                    bytes: sixteen(coloradjust_uniform_bytes(*brightness, *contrast, *saturation)),
                },
            );
        },
        EffectKind::Blur { radius } => {
            writes.push(
                BufferWrite {
                    effect: i,
                    role: BufferRole::BlurHorizontal,
                    bytes: sixteen(blur_uniform_bytes(*radius, (ONE, ZERO))),
                },
            );
            writes.push(
                BufferWrite {
                    effect: i,
                    role: BufferRole::BlurVertical,
                    bytes: sixteen(blur_uniform_bytes(*radius, (ZERO, ONE))),
                },
            );
        },
        EffectKind::Smoke { .. } | EffectKind::Shader { .. } => {},
    }
    assert(writes_view(writes@) =~= before + kind_writes(i as int, kind@));
}

fn push_mask_write(i: usize, mask: &Mask, canvas_aspect: Single, writes: &mut Vec<BufferWrite>)
    ensures
        writes_view(final(writes)@) == writes_view(old(writes)@).push(
            mask_write(i as int, mask@, canvas_aspect),
        ),
{
    let bytes = thirty_two(mask_uniform_bytes(mask, canvas_aspect));
    let ghost before = writes_view(writes@);
    writes.push(BufferWrite { effect: i, role: BufferRole::MaskParams, bytes });
    assert(writes_view(writes@) =~= before.push(mask_write(i as int, mask@, canvas_aspect)));
}

fn set_one_effect(loaded: &mut LoadedEffect, i: usize, effect: &Effect, writes: &mut Vec<BufferWrite>)
    ensures
        effect_after(*old(loaded), effect@, *final(loaded)),
        writes_view(final(writes)@) == writes_view(old(writes)@) + effect_writes(
            i as int,
            *old(loaded),
            effect@,
        ),
{
    let ghost before = writes_view(writes@);
    if !has_same_shape(loaded, effect) {
        assert(before + effect_writes(i as int, *old(loaded), effect@) =~= before);
        return;
    }
    loaded.enabled = effect.enabled;
    match (&mut loaded.kind, &effect.kind) {
        (LoadedEffectKind::Smoke(smoke), EffectKind::Smoke { color, decay, radius }) => {
            smoke.color = *color;
            smoke.decay = *decay;
            smoke.radius = *radius;
        },
        (LoadedEffectKind::Shader { params: current }, EffectKind::Shader { params, .. }) => {
            *current = copy_singles(params);
        },
        _ => {},
    }
    push_kind_writes(i, &effect.kind, writes);
    push_mask_write(i, &effect.mask, loaded.canvas_aspect, writes);
    assert(writes_view(writes@) =~= before + effect_writes(i as int, *old(loaded), effect@));
}

fn set_chain(chain: &mut Vec<LoadedEffect>, effects: &[Effect]) -> (writes: Vec<BufferWrite>)
    ensures
        chain_after(
            old(chain)@,
            crate::project_format::effects_view(effects@),
            final(chain)@,
        ),
        writes_view(writes@) == chain_writes(
            old(chain)@,
            crate::project_format::effects_view(effects@),
            shorter(old(chain)@.len() as int, effects@.len() as int),
        ),
{
    let mut writes: Vec<BufferWrite> = Vec::new();
    let ghost model = crate::project_format::effects_view(effects@);
    let ghost before = chain@;
    let mut i: usize = 0;
    assert(writes_view(writes@) =~= seq![]);
    while i < chain.len() && i < effects.len()
        invariant
            model == crate::project_format::effects_view(effects@),
            chain@.len() == before.len(),
            i <= chain@.len(),
            i <= effects@.len(),
            forall|j: int|
                0 <= j < i ==> effect_after(before[j], model[j], #[trigger] chain@[j]),
            forall|j: int| i <= j < chain@.len() ==> #[trigger] chain@[j] == before[j],
            writes_view(writes@) == chain_writes(before, model, i as int),
        decreases chain.len() - i,
    {
        assert(model[i as int] == effects@[i as int]@);
        assert(chain@[i as int] == before[i as int]);
        set_one_effect(&mut chain[i], i, &effects[i], &mut writes);
        i += 1;
    }
    writes
}

fn set_optional_chain(chain: &mut Option<Vec<LoadedEffect>>, effects: &[Effect]) -> (writes: Vec<
    BufferWrite,
>)
    ensures
        match (*old(chain), *final(chain)) {
            (Some(before), Some(after)) => {
                &&& chain_after(before@, crate::project_format::effects_view(effects@), after@)
                &&& writes_view(writes@) == chain_writes(
                    before@,
                    crate::project_format::effects_view(effects@),
                    shorter(before@.len() as int, effects@.len() as int),
                )
            },
            (None, None) => writes@.len() == 0,
            _ => false,
        },
{
    match chain {
        None => Vec::new(),
        Some(loaded) => set_chain(loaded, effects),
    }
}

pub open spec fn shorter(a: int, b: int) -> int {
    if a < b {
        a
    } else {
        b
    }
}

/// A stack of effects after new parameters: those past the shorter of the two
/// lists stay.
pub open spec fn chain_after(
    chain: Seq<LoadedEffect>,
    effects: Seq<crate::project_format::EffectModel>,
    after: Seq<LoadedEffect>,
) -> bool {
    &&& after.len() == chain.len()
    &&& forall|j: int|
        0 <= j < chain.len() ==> if j < effects.len() {
            effect_after(chain[j], effects[j], #[trigger] after[j])
        } else {
            after[j] == chain[j]
        }
}

/// The layer is the same but for its stack of effects.
pub open spec fn same_but_effects(a: LoadedLayer, b: LoadedLayer) -> bool {
    match (a, b) {
        (
            LoadedLayer::Image { width: w, height: h, .. },
            LoadedLayer::Image { width, height, .. },
        ) => w == width && h == height,
        (
            LoadedLayer::Gif { animation: g, width: w, height: h, .. },
            LoadedLayer::Gif { animation, width, height, .. },
        ) => g == animation && w == width && h == height,
        (
            LoadedLayer::Xray { radius: r, width: w, height: h, .. },
            LoadedLayer::Xray { radius, width, height, .. },
        ) => r == radius && w == width && h == height,
        (
            LoadedLayer::Parallax { strength: s, smoothing: m, width: w, height: h, .. },
            LoadedLayer::Parallax { strength, smoothing, width, height, .. },
        ) => s == strength && m == smoothing && w == width && h == height,
        (LoadedLayer::Text(s), LoadedLayer::Text(t)) => s == t,
        (LoadedLayer::Adjustment { .. }, LoadedLayer::Adjustment { .. }) => true,
        _ => false,
    }
}

// --- What the buffers begin with -------------------------------------------

/// -1,000,000: far off every canvas, where the cursor is until it is known.
pub const FAR_AWAY: Single = 0xc974_2400;

/// What the parameter buffers of an effect begin with. The cursor is far off
/// the canvas, and no time has gone by.
pub open spec fn first_kind_writes(
    i: int,
    kind: crate::project_format::EffectKindModel,
    canvas_aspect: Single,
) -> Seq<WriteModel> {
    match kind {
        crate::project_format::EffectKindModel::Smoke { color, decay, radius } => seq![
            WriteModel {
                effect: i,
                role: BufferRole::Params,
                bytes: crate::uniforms::singles_bytes(
                    color + seq![FAR_AWAY, FAR_AWAY, decay, radius],
                ),
            },
        ],
        crate::project_format::EffectKindModel::Shader { params, .. } => seq![
            WriteModel {
                effect: i,
                role: BufferRole::Params,
                bytes: crate::uniforms::singles_bytes(
                    seq![FAR_AWAY, FAR_AWAY, ZERO, canvas_aspect] + params,
                ),
            },
        ],
        _ => kind_writes(i, kind),
    }
}

/// What the buffers of the first `n` effects begin with.
pub open spec fn chain_first_writes(
    effects: Seq<crate::project_format::EffectModel>,
    canvas_aspect: Single,
    n: int,
) -> Seq<WriteModel>
    decreases n,
{
    if n <= 0 {
        seq![]
    } else {
        chain_first_writes(effects, canvas_aspect, n - 1) + first_kind_writes(
            n - 1,
            effects[n - 1].kind,
            canvas_aspect,
        ).push(mask_write(n - 1, effects[n - 1].mask, canvas_aspect))
    }
}

/// The bytes that the buffers of a stack of effects begin with.
pub fn first_writes(effects: &[Effect], canvas_aspect: Single) -> (writes: Vec<BufferWrite>)
    ensures
        writes_view(writes@) == chain_first_writes(
            crate::project_format::effects_view(effects@),
            canvas_aspect,
            effects@.len() as int,
        ),
{
    let ghost model = crate::project_format::effects_view(effects@);
    let mut writes: Vec<BufferWrite> = Vec::new();
    let mut i: usize = 0;
    assert(writes_view(writes@) =~= seq![]);
    while i < effects.len()
        invariant
            model == crate::project_format::effects_view(effects@),
            i <= effects@.len(),
            writes_view(writes@) == chain_first_writes(model, canvas_aspect, i as int),
        decreases effects.len() - i,
    {
        let effect = &effects[i];
        let ghost before = writes_view(writes@);
        assert(model[i as int] == effect@);
        match &effect.kind {
            EffectKind::Smoke { color, decay, radius } => {
                let bytes = thirty_two(
                    smoke_uniform_bytes(*color, (FAR_AWAY, FAR_AWAY), *decay, *radius),
                );
                writes.push(BufferWrite { effect: i, role: BufferRole::Params, bytes });
            },
            EffectKind::Shader { params, .. } => {
                let bytes = shader_uniform_bytes(
                    (FAR_AWAY, FAR_AWAY),
                    ZERO,
                    canvas_aspect,
                    params,
                );
                writes.push(BufferWrite { effect: i, role: BufferRole::Params, bytes });
            },
            other => push_kind_writes(i, other, &mut writes),
        }
        let ghost first = first_kind_writes(i as int, effect@.kind, canvas_aspect);
        assert(writes_view(writes@) =~= before + first);
        push_mask_write(i, &effect.mask, canvas_aspect, &mut writes);
        assert(writes_view(writes@) =~= before + first.push(
            mask_write(i as int, effect@.mask, canvas_aspect),
        ));
        i += 1;
    }
    writes
}

impl LoadedLayer {
    /// Takes over the parameters of `effects` without loading anything, and
    /// says which bytes go to which buffers for them to take hold. An effect
    /// whose kind or kind of mask is another than the loaded one's is passed
    /// over, and so is one past the end of the shorter list.
    pub fn set_effect_params(&mut self, effects: &[Effect]) -> (writes: Vec<BufferWrite>)
        ensures
            same_but_effects(*old(self), *final(self)),
            match (old(self).chain(), final(self).chain()) {
                (Some(before), Some(after)) => {
                    &&& chain_after(before, crate::project_format::effects_view(effects@), after)
                    &&& writes_view(writes@) == chain_writes(
                        before,
                        crate::project_format::effects_view(effects@),
                        shorter(before.len() as int, effects@.len() as int),
                    )
                },
                (None, None) => writes@.len() == 0,
                _ => false,
            },
    {
        match self {
            LoadedLayer::Image { effects: chain, .. } => set_optional_chain(chain, effects),
            LoadedLayer::Gif { effects: chain, .. } => set_optional_chain(chain, effects),
            LoadedLayer::Xray { effects: chain, .. } => set_optional_chain(chain, effects),
            LoadedLayer::Parallax { effects: chain, .. } => set_optional_chain(chain, effects),
            LoadedLayer::Adjustment { effects: chain } => set_optional_chain(chain, effects),
            LoadedLayer::Text(_) => Vec::new(),
        }
    }
}

// --- From frame to frame ---------------------------------------------------

/// The layer after `elapsed_ms` of play: an animation shows the frame that
/// stands then, any other layer is as it was.
pub open spec fn gif_advanced(before: LoadedLayer, after: LoadedLayer, elapsed_ms: u64) -> bool {
    match (before, after) {
        (
            LoadedLayer::Gif { animation: a, width: w, height: h, effects: e },
            LoadedLayer::Gif { animation, width, height, effects },
        ) => {
            &&& animation.wf()
            &&& animation.frames == a.frames
            &&& animation.total_ms == a.total_ms
            &&& crate::gif::stands_at(
                a.frames@,
                (elapsed_ms % a.total_ms) as int,
                animation.current as int,
            )
            &&& w == width && h == height && e == effects
        },
        (LoadedLayer::Gif { .. }, _) => false,
        _ => after == before,
    }
}

/// The layer shows another frame than before.
pub open spec fn frame_changed(before: LoadedLayer, after: LoadedLayer) -> bool {
    match (before, after) {
        (
            LoadedLayer::Gif { animation: a, .. },
            LoadedLayer::Gif { animation: b, .. },
        ) => a.current != b.current,
        _ => false,
    }
}

/// Indices in growing order.
pub open spec fn growing(s: Seq<usize>) -> bool {
    forall|i: int, j: int| 0 <= i < j < s.len() ==> s[i] < s[j]
}

pub open spec fn all_wf(layers: Seq<LoadedLayer>) -> bool {
    forall|i: int| 0 <= i < layers.len() ==> (#[trigger] layers[i]).wf()
}

fn advance_layer(layer: &mut LoadedLayer, elapsed_ms: u64) -> (changed: bool)
    requires
        old(layer).wf(),
    ensures
        gif_advanced(*old(layer), *final(layer), elapsed_ms),
        changed == frame_changed(*old(layer), *final(layer)),
        final(layer).wf(),
{
    match layer {
        LoadedLayer::Gif { animation, .. } => animation.advance(elapsed_ms),
        _ => false,
    }
}

/// Moves every animation to the frame that stands `elapsed_ms` after the
/// scene was loaded. Gives the layers that show another frame than before.
fn advance_all_gifs(layers: &mut Vec<LoadedLayer>, elapsed_ms: u64) -> (changed: Vec<usize>)
    requires
        all_wf(old(layers)@),
    ensures
        all_wf(final(layers)@),
        final(layers)@.len() == old(layers)@.len(),
        forall|i: int|
            0 <= i < old(layers)@.len() ==> gif_advanced(
                old(layers)@[i],
                #[trigger] final(layers)@[i],
                elapsed_ms,
            ),
        growing(changed@),
        forall|i: usize| #[trigger]
            changed@.contains(i) <==> i < old(layers)@.len() && frame_changed(
                old(layers)@[i as int],
                final(layers)@[i as int],
            ),
{
    let ghost before = layers@;
    let mut changed: Vec<usize> = Vec::new();
    let mut i: usize = 0;
    while i < layers.len()
        invariant
            layers@.len() == before.len(),
            i <= layers@.len(),
            all_wf(layers@),
            all_wf(before),
            forall|j: int|
                0 <= j < i ==> gif_advanced(before[j], #[trigger] layers@[j], elapsed_ms),
            forall|j: int| i <= j < before.len() ==> #[trigger] layers@[j] == before[j],
            growing(changed@),
            forall|k: int| 0 <= k < changed@.len() ==> #[trigger] changed@[k] < i,
            forall|j: usize| #[trigger]
                changed@.contains(j) <==> j < i && frame_changed(
                    before[j as int],
                    layers@[j as int],
                ),
        decreases layers.len() - i,
    {
        let ghost previous = changed@;
        assert(layers@[i as int] == before[i as int]);
        if advance_layer(&mut layers[i], elapsed_ms) {
            changed.push(i);
            proof {
                pushed_contains(previous, i);
            }
        }
        i += 1;
    }
    changed
}

proof fn pushed_contains(s: Seq<usize>, x: usize)
    ensures
        forall|y: usize| #[trigger] s.push(x).contains(y) <==> s.contains(y) || y == x,
{
    assert forall|y: usize| #[trigger] s.push(x).contains(y) <==> s.contains(y) || y == x by {
        assert(s.push(x)[s.len() as int] == x);
        if s.contains(y) {
            let k = choose|k: int| 0 <= k < s.len() && s[k] == y;
            assert(s.push(x)[k] == y);
        }
    }
}

/// The layer after its source has been asked: a text layer shows what its
/// source now gives, any other layer is as it was.
pub open spec fn text_advanced(before: LoadedLayer, after: LoadedLayer, now: Moment) -> bool {
    match (before, after) {
        (LoadedLayer::Text(a), LoadedLayer::Text(b)) => {
            &&& b.text@ == a.source.shows(now)
            &&& a.text@ == b.text@ ==> a.text == b.text
            &&& a.source == b.source
            &&& a.font == b.font
            &&& a.x == b.x && a.y == b.y && a.font_size == b.font_size && a.color == b.color
        },
        (LoadedLayer::Text(_), _) => false,
        _ => after == before,
    }
}

/// The layer shows another string than before.
pub open spec fn text_changed(before: LoadedLayer, after: LoadedLayer) -> bool {
    match (before, after) {
        (LoadedLayer::Text(a), LoadedLayer::Text(b)) => a.text@ != b.text@,
        _ => false,
    }
}

fn advance_text_layer(layer: &mut LoadedLayer, now: Moment) -> (changed: bool)
    requires
        now.valid(),
    ensures
        text_advanced(*old(layer), *final(layer), now),
        changed == text_changed(*old(layer), *final(layer)),
{
    match layer {
        LoadedLayer::Text(text) => {
            let shown = text.source.poll(now);
            if shown == text.text {
                false
            } else {
                text.text = shown;
                true
            }
        },
        _ => false,
    }
}

/// Asks every text layer's source what to show. Gives the layers whose string
/// has changed: only those have to be shaped again.
fn advance_all_texts(layers: &mut Vec<LoadedLayer>, now: Moment) -> (changed: Vec<usize>)
    requires
        now.valid(),
    ensures
        final(layers)@.len() == old(layers)@.len(),
        forall|i: int|
            0 <= i < old(layers)@.len() ==> text_advanced(
                old(layers)@[i],
                #[trigger] final(layers)@[i],
                now,
            ),
        growing(changed@),
        forall|i: usize| #[trigger]
            changed@.contains(i) <==> i < old(layers)@.len() && text_changed(
                old(layers)@[i as int],
                final(layers)@[i as int],
            ),
{
    let ghost before = layers@;
    let mut changed: Vec<usize> = Vec::new();
    let mut i: usize = 0;
    while i < layers.len()
        invariant
            now.valid(),
            layers@.len() == before.len(),
            i <= layers@.len(),
            forall|j: int| 0 <= j < i ==> text_advanced(before[j], #[trigger] layers@[j], now),
            forall|j: int| i <= j < before.len() ==> #[trigger] layers@[j] == before[j],
            growing(changed@),
            forall|k: int| 0 <= k < changed@.len() ==> #[trigger] changed@[k] < i,
            forall|j: usize| #[trigger]
                changed@.contains(j) <==> j < i && text_changed(
                    before[j as int],
                    layers@[j as int],
                ),
        decreases layers.len() - i,
    {
        let ghost previous = changed@;
        assert(layers@[i as int] == before[i as int]);
        if advance_text_layer(&mut layers[i], now) {
            changed.push(i);
            proof {
                pushed_contains(previous, i);
            }
        }
        i += 1;
    }
    changed
}

/// Asking the sources twice at the same moment changes nothing the second
/// time.
pub proof fn second_poll_changes_nothing(
    before: LoadedLayer,
    after: LoadedLayer,
    again: LoadedLayer,
    now: Moment,
)
    requires
        text_advanced(before, after, now),
        text_advanced(after, again, now),
    ensures
        !text_changed(after, again),
{
}

/// What the x-ray layers among the first `n` read about the cursor.
pub open spec fn xray_writes(
    layers: Seq<LoadedLayer>,
    cursor_px: (Single, Single),
    n: int,
) -> Seq<(int, Seq<u8>)>
    decreases n,
{
    if n <= 0 {
        seq![]
    } else {
        let before = xray_writes(layers, cursor_px, n - 1);
        match layers[n - 1] {
            LoadedLayer::Xray { radius, .. } => before.push(
                (
                    n - 1,
                    crate::uniforms::singles_bytes(
                        seq![cursor_px.0, cursor_px.1, radius, ZERO],
                    ),
                ),
            ),
            _ => before,
        }
    }
}

pub open spec fn layer_writes_view(writes: Seq<(usize, [u8; 16])>) -> Seq<(int, Seq<u8>)> {
    writes.map_values(|w: (usize, [u8; 16])| (w.0 as int, w.1@))
}

/// The bytes for the buffer of every x-ray layer, with the cursor at
/// `cursor_px`.
fn write_xray_cursors(layers: &Vec<LoadedLayer>, cursor_px: (Single, Single)) -> (writes: Vec<
    (usize, [u8; 16]),
>)
    ensures
        layer_writes_view(writes@) == xray_writes(layers@, cursor_px, layers@.len() as int),
{
    let mut writes: Vec<(usize, [u8; 16])> = Vec::new();
    let mut i: usize = 0;
    assert(layer_writes_view(writes@) =~= seq![]);
    while i < layers.len()
        invariant
            i <= layers@.len(),
            layer_writes_view(writes@) == xray_writes(layers@, cursor_px, i as int),
        decreases layers.len() - i,
    {
        let ghost before = writes@;
        match &layers[i] {
            LoadedLayer::Xray { radius, .. } => {
                let bytes = xray_uniform_bytes(cursor_px, *radius);
                writes.push((i, bytes));
                assert(layer_writes_view(writes@) =~= layer_writes_view(before).push(
                    (i as int, bytes@),
                ));
            },
            _ => {},
        }
        i += 1;
    }
    writes
}

/// Bytes to write to the parameter buffer of an effect of a layer.
pub struct FrameWrite {
    pub layer: usize,
    pub effect: usize,
    pub bytes: Vec<u8>,
}

pub open spec fn frame_writes_view(writes: Seq<FrameWrite>) -> Seq<(int, int, Seq<u8>)> {
    writes.map_values(|w: FrameWrite| (w.layer as int, w.effect as int, w.bytes@))
}

/// Which of the effects that are written in every frame, and what they read
/// then: the cursor as a fraction of the canvas, and for a shader the time.
#[derive(Debug, Clone, Copy)]
pub enum FrameState {
    Smoke { cursor_uv: (Single, Single) },
    Shader { cursor_uv: (Single, Single), time: Single },
}

/// What an effect reads in a frame; nothing for an effect of another kind.
pub open spec fn live_bytes(effect: LoadedEffect, at: FrameState) -> Option<Seq<u8>> {
    match (effect.kind, at) {
        (LoadedEffectKind::Smoke(smoke), FrameState::Smoke { cursor_uv }) => Some(
            crate::uniforms::singles_bytes(
                smoke.color@ + seq![cursor_uv.0, cursor_uv.1, smoke.decay, smoke.radius],
            ),
        ),
        (LoadedEffectKind::Shader { params }, FrameState::Shader { cursor_uv, time }) => Some(
            crate::uniforms::singles_bytes(
                seq![cursor_uv.0, cursor_uv.1, time, effect.canvas_aspect] + params@,
            ),
        ),
        _ => None,
    }
}

/// Nothing that is written to an effect's buffer is larger than the buffer:
/// neither at first, nor when a parameter changes, nor in a frame.
pub proof fn writes_fit_the_buffer(
    kind: crate::project_format::EffectKindModel,
    effect: LoadedEffect,
    i: int,
    at: FrameState,
)
    requires
        loads_kind(kind, effect.kind),
    ensures
        forall|k: int|
            0 <= k < first_kind_writes(i, kind, effect.canvas_aspect).len() ==> (
            #[trigger] first_kind_writes(i, kind, effect.canvas_aspect)[k]).bytes.len()
                <= params_size(kind),
        forall|k: int|
            0 <= k < kind_writes(i, kind).len() ==> (#[trigger] kind_writes(
                i,
                kind,
            )[k]).bytes.len() <= params_size(kind),
        live_bytes(effect, at) matches Some(bytes) ==> bytes.len() <= params_size(kind),
{
    match kind {
        crate::project_format::EffectKindModel::Vignette { strength, softness } => {
            crate::uniforms::singles_bytes_len(seq![strength, softness, ZERO, ZERO]);
        },
        crate::project_format::EffectKindModel::ColorAdjust { brightness, contrast, saturation } => {
            crate::uniforms::singles_bytes_len(seq![brightness, contrast, saturation, ZERO]);
        },
        crate::project_format::EffectKindModel::Blur { radius } => {
            crate::uniforms::singles_bytes_len(seq![radius, ONE, ZERO, ZERO]);
            crate::uniforms::singles_bytes_len(seq![radius, ZERO, ONE, ZERO]);
        },
        crate::project_format::EffectKindModel::Smoke { color, decay, radius } => {
            crate::uniforms::singles_bytes_len(color + seq![FAR_AWAY, FAR_AWAY, decay, radius]);
        },
        crate::project_format::EffectKindModel::Shader { params, .. } => {
            crate::uniforms::singles_bytes_len(
                seq![FAR_AWAY, FAR_AWAY, ZERO, effect.canvas_aspect] + params,
            );
        },
    }
    match (effect.kind, at) {
        (LoadedEffectKind::Smoke(smoke), FrameState::Smoke { cursor_uv }) => {
            crate::uniforms::singles_bytes_len(
                smoke.color@ + seq![cursor_uv.0, cursor_uv.1, smoke.decay, smoke.radius],
            );
        },
        (LoadedEffectKind::Shader { params }, FrameState::Shader { cursor_uv, time }) => {
            crate::uniforms::singles_bytes_len(
                seq![cursor_uv.0, cursor_uv.1, time, effect.canvas_aspect] + params@,
            );
        },
        _ => {},
    }
}

/// What is written for an effect's new parameters fits the buffer that was
/// made for the effect when it was loaded.
pub proof fn new_parameters_fit_the_buffer(
    first: crate::project_format::EffectModel,
    loaded: LoadedEffect,
    next: crate::project_format::EffectModel,
    i: int,
)
    requires
        loads_effect(first, loaded.canvas_aspect, loaded),
    ensures
        forall|k: int|
            0 <= k < effect_writes(i, loaded, next).len() && (#[trigger] effect_writes(
                i,
                loaded,
                next,
            )[k]).role != BufferRole::MaskParams ==> effect_writes(i, loaded, next)[k].bytes.len()
                <= params_size(first.kind),
{
    match next.kind {
        crate::project_format::EffectKindModel::Vignette { strength, softness } => {
            crate::uniforms::singles_bytes_len(seq![strength, softness, ZERO, ZERO]);
        },
        crate::project_format::EffectKindModel::ColorAdjust { brightness, contrast, saturation } => {
            crate::uniforms::singles_bytes_len(seq![brightness, contrast, saturation, ZERO]);
        },
        crate::project_format::EffectKindModel::Blur { radius } => {
            crate::uniforms::singles_bytes_len(seq![radius, ONE, ZERO, ZERO]);
            crate::uniforms::singles_bytes_len(seq![radius, ZERO, ONE, ZERO]);
        },
        _ => {},
    }
}

/// What the first `n` effects of layer `layer` read in a frame.
pub open spec fn chain_frame_writes(
    layer: int,
    chain: Seq<LoadedEffect>,
    at: FrameState,
    n: int,
) -> Seq<(int, int, Seq<u8>)>
    decreases n,
{
    if n <= 0 {
        seq![]
    } else {
        let before = chain_frame_writes(layer, chain, at, n - 1);
        match live_bytes(chain[n - 1], at) {
            Some(bytes) => before.push((layer, n - 1, bytes)),
            None => before,
        }
    }
}

/// What the effects of the first `n` layers read in a frame.
pub open spec fn scene_frame_writes(
    layers: Seq<LoadedLayer>,
    at: FrameState,
    n: int,
) -> Seq<(int, int, Seq<u8>)>
    decreases n,
{
    if n <= 0 {
        seq![]
    } else {
        let before = scene_frame_writes(layers, at, n - 1);
        match layers[n - 1].chain() {
            Some(chain) => before + chain_frame_writes(n - 1, chain, at, chain.len() as int),
            None => before,
        }
    }
}

fn live_bytes_of(effect: &LoadedEffect, at: FrameState) -> (r: Option<Vec<u8>>)
    ensures
        match r {
            Some(b) => live_bytes(*effect, at) == Some(b@),
            None => live_bytes(*effect, at) is None,
        },
{
    match (&effect.kind, at) {
        (LoadedEffectKind::Smoke(smoke), FrameState::Smoke { cursor_uv }) => Some(
            thirty_two(smoke_uniform_bytes(smoke.color, cursor_uv, smoke.decay, smoke.radius)),
        ),
        (LoadedEffectKind::Shader { params }, FrameState::Shader { cursor_uv, time }) => Some(
            shader_uniform_bytes(cursor_uv, time, effect.canvas_aspect, params),
        ),
        _ => None,
    }
}

/// The bytes for the buffers of the effects that are written in every frame.
fn frame_writes(layers: &Vec<LoadedLayer>, at: FrameState) -> (writes: Vec<FrameWrite>)
    ensures
        frame_writes_view(writes@) == scene_frame_writes(layers@, at, layers@.len() as int),
{
    let mut writes: Vec<FrameWrite> = Vec::new();
    let mut i: usize = 0;
    assert(frame_writes_view(writes@) =~= seq![]);
    while i < layers.len()
        invariant
            i <= layers@.len(),
            frame_writes_view(writes@) == scene_frame_writes(layers@, at, i as int),
        decreases layers.len() - i,
    {
        match layers[i].effects() {
            Some(chain) => {
                let ghost before = frame_writes_view(writes@);
                let mut k: usize = 0;
                assert(before + chain_frame_writes(i as int, chain@, at, 0) =~= before);
                while k < chain.len()
                    invariant
                        k <= chain@.len(),
                        frame_writes_view(writes@) == before + chain_frame_writes(
                            i as int,
                            chain@,
                            at,
                            k as int,
                        ),
                    decreases chain.len() - k,
                {
                    let ghost previous = frame_writes_view(writes@);
                    match live_bytes_of(&chain[k], at) {
                        Some(bytes) => {
                            let ghost b = bytes@;
                            writes.push(FrameWrite { layer: i, effect: k, bytes });
                            assert(frame_writes_view(writes@) =~= previous.push(
                                (i as int, k as int, b),
                            ));
                            assert(frame_writes_view(writes@) =~= before + chain_frame_writes(
                                i as int,
                                chain@,
                                at,
                                k as int + 1,
                            ));
                        },
                        None => {},
                    }
                    k += 1;
                }
            },
            None => {},
        }
        i += 1;
    }
    writes
}

/// The renderer of a scene: the canvas that positions and sizes of text are
/// fractions of. The pictures themselves lie with the graphics device.
pub struct SceneRenderer {
    pub canvas_width: u32,
    pub canvas_height: u32,
}

impl SceneRenderer {
    /// A renderer whose canvas is not known yet.
    pub fn new() -> (r: SceneRenderer)
        ensures
            r.canvas_width == FALLBACK_WIDTH,
            r.canvas_height == FALLBACK_HEIGHT,
    {
        SceneRenderer { canvas_width: FALLBACK_WIDTH, canvas_height: FALLBACK_HEIGHT }
    }

    /// Changes the canvas that text is laid out on. Gives the layers that have
    /// to be laid out again: every text layer.
    pub fn set_text_viewport(&mut self, layers: &Vec<LoadedLayer>, width: u32, height: u32) -> (r:
        Vec<usize>)
        ensures
            final(self).canvas_width == width,
            final(self).canvas_height == height,
            growing(r@),
            forall|i: usize| #[trigger]
                r@.contains(i) <==> i < layers@.len() && layers@[i as int] is Text,
    {
        self.canvas_width = width;
        self.canvas_height = height;
        let mut r: Vec<usize> = Vec::new();
        let mut i: usize = 0;
        while i < layers.len()
            invariant
                i <= layers@.len(),
                growing(r@),
                forall|k: int| 0 <= k < r@.len() ==> #[trigger] r@[k] < i,
                forall|j: usize| #[trigger]
                    r@.contains(j) <==> j < i && layers@[j as int] is Text,
            decreases layers.len() - i,
        {
            let ghost previous = r@;
            match &layers[i] {
                LoadedLayer::Text(_) => {
                    r.push(i);
                    proof {
                        pushed_contains(previous, i);
                    }
                },
                _ => {},
            }
            i += 1;
        }
        r
    }

    /// Moves every animation to the frame that stands `elapsed_ms` after the
    /// scene was loaded. Gives the layers that show another frame than before.
    pub fn advance_gifs(&self, layers: &mut Vec<LoadedLayer>, elapsed_ms: u64) -> (changed: Vec<
        usize,
    >)
        requires
            all_wf(old(layers)@),
        ensures
            all_wf(final(layers)@),
            final(layers)@.len() == old(layers)@.len(),
            forall|i: int|
                0 <= i < old(layers)@.len() ==> gif_advanced(
                    old(layers)@[i],
                    #[trigger] final(layers)@[i],
                    elapsed_ms,
                ),
            growing(changed@),
            forall|i: usize| #[trigger]
                changed@.contains(i) <==> i < old(layers)@.len() && frame_changed(
                    old(layers)@[i as int],
                    final(layers)@[i as int],
                ),
    {
        advance_all_gifs(layers, elapsed_ms)
    }

    /// Asks every text layer's source what to show. Gives the layers whose
    /// string has changed: only those have to be shaped again.
    pub fn advance_text_sources(&self, layers: &mut Vec<LoadedLayer>, now: Moment) -> (changed: Vec<
        usize,
    >)
        requires
            now.valid(),
        ensures
            final(layers)@.len() == old(layers)@.len(),
            forall|i: int|
                0 <= i < old(layers)@.len() ==> text_advanced(
                    old(layers)@[i],
                    #[trigger] final(layers)@[i],
                    now,
                ),
            growing(changed@),
            forall|i: usize| #[trigger]
                changed@.contains(i) <==> i < old(layers)@.len() && text_changed(
                    old(layers)@[i as int],
                    final(layers)@[i as int],
                ),
    {
        advance_all_texts(layers, now)
    }

    /// The bytes for the buffer of every x-ray layer, with the cursor at
    /// `cursor_px`.
    pub fn update_xray_cursors(&self, layers: &Vec<LoadedLayer>, cursor_px: (Single, Single)) -> (
    writes: Vec<(usize, [u8; 16])>)
        ensures
            layer_writes_view(writes@) == xray_writes(layers@, cursor_px, layers@.len() as int),
    {
        write_xray_cursors(layers, cursor_px)
    }

    /// The bytes for the buffer of every smoke effect, with the cursor at a
    /// fraction of the canvas.
    pub fn update_smoke_cursors(&self, layers: &Vec<LoadedLayer>, cursor_uv: (Single, Single)) -> (
    writes: Vec<FrameWrite>)
        ensures
            frame_writes_view(writes@) == scene_frame_writes(
                layers@,
                FrameState::Smoke { cursor_uv },
                layers@.len() as int,
            ),
    {
        frame_writes(layers, FrameState::Smoke { cursor_uv })
    }

    /// The bytes for the buffer of every shader effect.
    pub fn update_shader_effects(
        &self,
        layers: &Vec<LoadedLayer>,
        cursor_uv: (Single, Single),
        time: Single,
    ) -> (writes: Vec<FrameWrite>)
        ensures
            frame_writes_view(writes@) == scene_frame_writes(
                layers@,
                FrameState::Shader { cursor_uv, time },
                layers@.len() as int,
            ),
    {
        frame_writes(layers, FrameState::Shader { cursor_uv, time })
    }
}

} // verus!
