//! The editor's preview: when its scene has to be loaded anew, and what
//! changes without loading.

use vstd::prelude::*;

use crate::editor::{
    build_preview_project, path_text, project_effects, EditorEffect, EditorEffectKind, EditorLayer,
    EditorMask, EditorTextFont,
};
use crate::paint::expand_gray_to_rgba;
use crate::project_format::{Project, Single};
use crate::scene::{BufferWrite, LoadedLayer};

verus! {

/// What of an effect's kind needs the effect to be loaded anew when it
/// changes.
pub enum EffectKindSignature {
    Vignette,
    ColorAdjust,
    Blur,
    Smoke,
    /// The shader's file and the number of its parameters.
    Shader(String, usize),
}

/// What of a mask needs it to be loaded anew when it changes.
pub enum MaskSignature {
    Unmasked,
    Circle,
    Gradient,
    Texture(String),
}

pub struct EffectSignature {
    pub kind: EffectKindSignature,
    pub mask: MaskSignature,
}

pub enum TextFontSignature {
    Bundled,
    Custom(String),
}

/// What of a layer needs the scene to be loaded anew when it changes: its
/// files, and the make-up of its effects, but none of its numbers.
pub enum LayerSignature {
    Image(String, Vec<EffectSignature>),
    Xray(String, String, Vec<EffectSignature>),
    Gif(String, Vec<EffectSignature>),
    Parallax(String, Vec<EffectSignature>),
    Adjustment(Vec<EffectSignature>),
    Text(TextFontSignature),
}

pub enum KindSignatureModel {
    Vignette,
    ColorAdjust,
    Blur,
    Smoke,
    Shader(Seq<char>, int),
}

pub enum MaskSignatureModel {
    Unmasked,
    Circle,
    Gradient,
    Texture(Seq<char>),
}

pub struct EffectSignatureModel {
    pub kind: KindSignatureModel,
    pub mask: MaskSignatureModel,
}

pub enum FontSignatureModel {
    Bundled,
    Custom(Seq<char>),
}

pub enum LayerSignatureModel {
    Image(Seq<char>, Seq<EffectSignatureModel>),
    Xray(Seq<char>, Seq<char>, Seq<EffectSignatureModel>),
    Gif(Seq<char>, Seq<EffectSignatureModel>),
    Parallax(Seq<char>, Seq<EffectSignatureModel>),
    Adjustment(Seq<EffectSignatureModel>),
    Text(FontSignatureModel),
}

impl View for EffectSignature {
    type V = EffectSignatureModel;

    open spec fn view(&self) -> EffectSignatureModel {
        EffectSignatureModel {
            kind: match self.kind {
                EffectKindSignature::Vignette => KindSignatureModel::Vignette,
                EffectKindSignature::ColorAdjust => KindSignatureModel::ColorAdjust,
                EffectKindSignature::Blur => KindSignatureModel::Blur,
                EffectKindSignature::Smoke => KindSignatureModel::Smoke,
                EffectKindSignature::Shader(path, n) => KindSignatureModel::Shader(path@, n as int),
            },
            mask: match self.mask {
                MaskSignature::Unmasked => MaskSignatureModel::Unmasked,
                MaskSignature::Circle => MaskSignatureModel::Circle,
                MaskSignature::Gradient => MaskSignatureModel::Gradient,
                MaskSignature::Texture(path) => MaskSignatureModel::Texture(path@),
            },
        }
    }
}

pub open spec fn effect_signatures_view(s: Seq<EffectSignature>) -> Seq<EffectSignatureModel> {
    s.map_values(|e: EffectSignature| e@)
}

impl View for LayerSignature {
    type V = LayerSignatureModel;

    open spec fn view(&self) -> LayerSignatureModel {
        match self {
            LayerSignature::Image(path, effects) => LayerSignatureModel::Image(
                path@,
                effect_signatures_view(effects@),
            ),
            LayerSignature::Xray(base, overlay, effects) => LayerSignatureModel::Xray(
                base@,
                overlay@,
                effect_signatures_view(effects@),
            ),
            LayerSignature::Gif(path, effects) => LayerSignatureModel::Gif(
                path@,
                effect_signatures_view(effects@),
            ),
            LayerSignature::Parallax(path, effects) => LayerSignatureModel::Parallax(
                path@,
                effect_signatures_view(effects@),
            ),
            LayerSignature::Adjustment(effects) => LayerSignatureModel::Adjustment(
                effect_signatures_view(effects@),
            ),
            LayerSignature::Text(font) => LayerSignatureModel::Text(
                match font {
                    TextFontSignature::Bundled => FontSignatureModel::Bundled,
                    TextFontSignature::Custom(path) => FontSignatureModel::Custom(path@),
                },
            ),
        }
    }
}

pub open spec fn signatures_view(s: Seq<LayerSignature>) -> Seq<LayerSignatureModel> {
    s.map_values(|l: LayerSignature| l@)
}

/// The signature of an effect.
pub open spec fn effect_signature_of(
    e: crate::editor::EditorEffectModel,
) -> EffectSignatureModel {
    EffectSignatureModel {
        kind: match e.kind {
            crate::editor::EditorEffectKindModel::Vignette { .. } => KindSignatureModel::Vignette,
            crate::editor::EditorEffectKindModel::ColorAdjust { .. } =>
                KindSignatureModel::ColorAdjust,
            crate::editor::EditorEffectKindModel::Blur { .. } => KindSignatureModel::Blur,
            crate::editor::EditorEffectKindModel::Smoke { .. } => KindSignatureModel::Smoke,
            crate::editor::EditorEffectKindModel::Shader { wgsl_path, params } =>
                KindSignatureModel::Shader(
                crate::editor::path_or_empty(wgsl_path),
                params.len() as int,
            ),
        },
        mask: match e.mask {
            crate::editor::EditorMaskModel::Unmasked => MaskSignatureModel::Unmasked,
            crate::editor::EditorMaskModel::Circle { .. } => MaskSignatureModel::Circle,
            crate::editor::EditorMaskModel::Gradient { .. } => MaskSignatureModel::Gradient,
            crate::editor::EditorMaskModel::Texture { path, .. } => MaskSignatureModel::Texture(
                crate::editor::path_or_empty(path),
            ),
        },
    }
}

pub open spec fn effect_signatures_of(
    effects: Seq<crate::editor::EditorEffectModel>,
) -> Seq<EffectSignatureModel> {
    effects.map_values(|e: crate::editor::EditorEffectModel| effect_signature_of(e))
}

/// The signature of a layer.
pub open spec fn layer_signature_of(l: crate::editor::EditorLayerModel) -> LayerSignatureModel {
    match l {
        crate::editor::EditorLayerModel::Image { path, effects } => LayerSignatureModel::Image(
            crate::editor::path_or_empty(path),
            effect_signatures_of(effects),
        ),
        crate::editor::EditorLayerModel::Xray { base, overlay, effects, .. } =>
            LayerSignatureModel::Xray(
            crate::editor::path_or_empty(base),
            crate::editor::path_or_empty(overlay),
            effect_signatures_of(effects),
        ),
        crate::editor::EditorLayerModel::Gif { path, effects } => LayerSignatureModel::Gif(
            crate::editor::path_or_empty(path),
            effect_signatures_of(effects),
        ),
        crate::editor::EditorLayerModel::Parallax { path, effects, .. } =>
            LayerSignatureModel::Parallax(
            crate::editor::path_or_empty(path),
            effect_signatures_of(effects),
        ),
        crate::editor::EditorLayerModel::Adjustment { effects } => LayerSignatureModel::Adjustment(
            effect_signatures_of(effects),
        ),
        crate::editor::EditorLayerModel::Text { font, .. } => LayerSignatureModel::Text(
            match font {
                crate::editor::EditorTextFontModel::Bundled => FontSignatureModel::Bundled,
                crate::editor::EditorTextFontModel::Custom { path } => FontSignatureModel::Custom(
                    crate::editor::path_or_empty(path),
                ),
            },
        ),
    }
}

pub open spec fn signature_of(layers: Seq<crate::editor::EditorLayerModel>) -> Seq<
    LayerSignatureModel,
> {
    layers.map_values(|l: crate::editor::EditorLayerModel| layer_signature_of(l))
}

/// The signature of an effect.
pub fn effect_signature(effect: &EditorEffect) -> (r: EffectSignature)
    ensures
        r@ == effect_signature_of(effect@),
{
    EffectSignature {
        kind: match &effect.kind {
            EditorEffectKind::Vignette { .. } => EffectKindSignature::Vignette,
            EditorEffectKind::ColorAdjust { .. } => EffectKindSignature::ColorAdjust,
            EditorEffectKind::Blur { .. } => EffectKindSignature::Blur,
            EditorEffectKind::Smoke { .. } => EffectKindSignature::Smoke,
            EditorEffectKind::Shader { wgsl_path, params } => EffectKindSignature::Shader(
                path_text(wgsl_path),
                params.len(),
            ),
        },
        mask: match &effect.mask {
            EditorMask::Unmasked => MaskSignature::Unmasked,
            EditorMask::Circle { .. } => MaskSignature::Circle,
            EditorMask::Gradient { .. } => MaskSignature::Gradient,
            EditorMask::Texture { path, .. } => MaskSignature::Texture(path_text(path)),
        },
    }
}

fn effect_signatures(effects: &Vec<EditorEffect>) -> (r: Vec<EffectSignature>)
    ensures
        effect_signatures_view(r@) == effect_signatures_of(crate::editor::edits_view(effects@)),
{
    let mut r: Vec<EffectSignature> = Vec::new();
    let mut i: usize = 0;
    while i < effects.len()
        invariant
            i <= effects@.len(),
            r@.len() == i,
            forall|k: int| 0 <= k < i ==> (#[trigger] r@[k])@ == effect_signature_of(effects@[k]@),
        decreases effects.len() - i,
    {
        r.push(effect_signature(&effects[i]));
        i += 1;
    }
    assert(effect_signatures_view(r@) =~= effect_signatures_of(
        crate::editor::edits_view(effects@),
    ));
    r
}

fn layer_signature(layer: &EditorLayer) -> (r: LayerSignature)
    ensures
        r@ == layer_signature_of(layer@),
{
    match layer {
        EditorLayer::Image { path, effects } => LayerSignature::Image(
            path_text(path),
            effect_signatures(effects),
        ),
        EditorLayer::Xray { base, overlay, effects, .. } => LayerSignature::Xray(
            path_text(base),
            path_text(overlay),
            effect_signatures(effects),
        ),
        EditorLayer::Gif { path, effects } => LayerSignature::Gif(
            path_text(path),
            effect_signatures(effects),
        ),
        EditorLayer::Parallax { path, effects, .. } => LayerSignature::Parallax(
            path_text(path),
            effect_signatures(effects),
        ),
        EditorLayer::Adjustment { effects } => LayerSignature::Adjustment(
            effect_signatures(effects),
        ),
        EditorLayer::Text { font, .. } => LayerSignature::Text(
            match font {
                EditorTextFont::Bundled => TextFontSignature::Bundled,
                EditorTextFont::Custom { path } => TextFontSignature::Custom(path_text(path)),
            },
        ),
    }
}

/// The signature of a scene.
pub fn build_signature(layers: &Vec<EditorLayer>) -> (r: Vec<LayerSignature>)
    requires
        crate::editor::layers_complete(crate::editor::editor_view(layers@)),
    ensures
        signatures_view(r@) == signature_of(crate::editor::editor_view(layers@)),
{
    let mut r: Vec<LayerSignature> = Vec::new();
    let mut i: usize = 0;
    while i < layers.len()
        invariant
            i <= layers@.len(),
            r@.len() == i,
            forall|k: int| 0 <= k < i ==> (#[trigger] r@[k])@ == layer_signature_of(layers@[k]@),
        decreases layers.len() - i,
    {
        r.push(layer_signature(&layers[i]));
        i += 1;
    }
    assert(signatures_view(r@) =~= signature_of(crate::editor::editor_view(layers@)));
    r
}

fn same_effect_signature(a: &EffectSignature, b: &EffectSignature) -> (r: bool)
    ensures
        r == (a@ == b@),
{
    let kind = match (&a.kind, &b.kind) {
        (EffectKindSignature::Vignette, EffectKindSignature::Vignette) => true,
        (EffectKindSignature::ColorAdjust, EffectKindSignature::ColorAdjust) => true,
        (EffectKindSignature::Blur, EffectKindSignature::Blur) => true,
        (EffectKindSignature::Smoke, EffectKindSignature::Smoke) => true,
        (EffectKindSignature::Shader(p, m), EffectKindSignature::Shader(q, n)) => *p == *q && *m
            == *n,
        _ => false,
    };
    let mask = match (&a.mask, &b.mask) {
        (MaskSignature::Unmasked, MaskSignature::Unmasked) => true,
        (MaskSignature::Circle, MaskSignature::Circle) => true,
        (MaskSignature::Gradient, MaskSignature::Gradient) => true,
        (MaskSignature::Texture(p), MaskSignature::Texture(q)) => *p == *q,
        _ => false,
    };
    kind && mask
}

fn same_effect_signatures(a: &Vec<EffectSignature>, b: &Vec<EffectSignature>) -> (r: bool)
    ensures
        r == (effect_signatures_view(a@) == effect_signatures_view(b@)),
{
    let ghost va = effect_signatures_view(a@);
    let ghost vb = effect_signatures_view(b@);
    if a.len() != b.len() {
        assert(va.len() != vb.len());
        return false;
    }
    let mut i: usize = 0;
    while i < a.len()
        invariant
            a@.len() == b@.len(),
            i <= a@.len(),
            va == effect_signatures_view(a@),
            vb == effect_signatures_view(b@),
            forall|k: int| 0 <= k < i ==> va[k] == vb[k],
        decreases a.len() - i,
    {
        assert(va[i as int] == a@[i as int]@);
        assert(vb[i as int] == b@[i as int]@);
        if !same_effect_signature(&a[i], &b[i]) {
            return false;
        }
        i += 1;
    }
    assert(va =~= vb);
    true
}

fn same_layer_signature(a: &LayerSignature, b: &LayerSignature) -> (r: bool)
    ensures
        r == (a@ == b@),
{
    match (a, b) {
        (LayerSignature::Image(p, e), LayerSignature::Image(q, f)) => *p == *q
            && same_effect_signatures(e, f),
        (LayerSignature::Xray(p, o, e), LayerSignature::Xray(q, u, f)) => *p == *q && *o == *u
            && same_effect_signatures(e, f),
        (LayerSignature::Gif(p, e), LayerSignature::Gif(q, f)) => *p == *q
            && same_effect_signatures(e, f),
        (LayerSignature::Parallax(p, e), LayerSignature::Parallax(q, f)) => *p == *q
            && same_effect_signatures(e, f),
        (LayerSignature::Adjustment(e), LayerSignature::Adjustment(f)) => same_effect_signatures(
            e,
            f,
        ),
        (LayerSignature::Text(s), LayerSignature::Text(t)) => match (s, t) {
            (TextFontSignature::Bundled, TextFontSignature::Bundled) => true,
            (TextFontSignature::Custom(p), TextFontSignature::Custom(q)) => *p == *q,
            _ => false,
        },
        _ => false,
    }
}

/// Whether two signatures are the same.
pub fn same_signature(a: &Vec<LayerSignature>, b: &Vec<LayerSignature>) -> (r: bool)
    ensures
        r == (signatures_view(a@) == signatures_view(b@)),
{
    let ghost va = signatures_view(a@);
    let ghost vb = signatures_view(b@);
    if a.len() != b.len() {
        assert(va.len() != vb.len());
        return false;
    }
    let mut i: usize = 0;
    while i < a.len()
        invariant
            a@.len() == b@.len(),
            i <= a@.len(),
            va == signatures_view(a@),
            vb == signatures_view(b@),
            forall|k: int| 0 <= k < i ==> va[k] == vb[k],
        decreases a.len() - i,
    {
        assert(va[i as int] == a@[i as int]@);
        assert(vb[i as int] == b@[i as int]@);
        if !same_layer_signature(&a[i], &b[i]) {
            return false;
        }
        i += 1;
    }
    assert(va =~= vb);
    true
}

/// What a preview has to do to show the layers.
pub enum SceneAction {
    /// There is nothing to show.
    Clear,
    /// The scene that is loaded will do.
    Keep,
    /// The project has to be loaded, and has this signature.
    Load { project: Project, signature: Vec<LayerSignature> },
}

pub enum SceneActionModel {
    Clear,
    Keep,
    Load { project: crate::project_format::ProjectModel, signature: Seq<LayerSignatureModel> },
}

pub open spec fn action_view(action: SceneAction) -> SceneActionModel {
    match action {
        SceneAction::Clear => SceneActionModel::Clear,
        SceneAction::Keep => SceneActionModel::Keep,
        SceneAction::Load { project, signature } => SceneActionModel::Load {
            project: project@,
            signature: signatures_view(signature@),
        },
    }
}

/// What a preview with the given signature, if it has a scene, has to do to show
/// the layers.
pub open spec fn needed_action(
    loaded: Option<Seq<LayerSignatureModel>>,
    layers: Seq<crate::editor::EditorLayerModel>,
) -> SceneActionModel {
    if !crate::editor::savable(layers) {
        SceneActionModel::Clear
    } else if loaded == Some(signature_of(layers)) {
        SceneActionModel::Keep
    } else {
        SceneActionModel::Load {
            project: crate::editor::previewed_project(layers),
            signature: signature_of(layers),
        }
    }
}

/// What a preview with the given signature, if it has a scene, has to do.
pub fn ensure_scene(loaded: &Option<Vec<LayerSignature>>, layers: &Vec<EditorLayer>) -> (r:
    SceneAction)
    ensures
        action_view(r) == needed_action(
            match *loaded {
                Some(signature) => Some(signatures_view(signature@)),
                None => None,
            },
            crate::editor::editor_view(layers@),
        ),
{
    match build_preview_project(layers) {
        None => SceneAction::Clear,
        Some(project) => {
            let signature = build_signature(layers);
            match loaded {
                Some(current) => if same_signature(current, &signature) {
                    SceneAction::Keep
                } else {
                    SceneAction::Load { project, signature }
                },
                None => SceneAction::Load { project, signature },
            }
        },
    }
}

// --- Changes without loading -----------------------------------------------

/// A loaded layer after the numbers of the edited layer at its place have been
/// taken over.
pub open spec fn synced(
    before: LoadedLayer,
    layer: crate::editor::EditorLayerModel,
    scaled_radius: Single,
    after: LoadedLayer,
) -> bool {
    match layer {
        crate::editor::EditorLayerModel::Text { x, y, font_size, color, source, .. } => {
            if before is Text {
                &&& after is Text
                &&& after.as_text().x == x
                &&& after.as_text().y == y
                &&& after.as_text().font_size == font_size
                &&& after.as_text().color@ == color
                &&& after.as_text().source.config() == source
                &&& after.as_text().text == before.as_text().text
                &&& after.as_text().font == before.as_text().font
                &&& if before.as_text().source.config() == source {
                    after.as_text().source == before.as_text().source
                } else {
                    after.as_text().source.fresh(true)
                }
            } else {
                after == before
            }
        },
        _ => {
            let numbers = match layer {
                crate::editor::EditorLayerModel::Xray { .. } => before.with_radius(scaled_radius),
                crate::editor::EditorLayerModel::Parallax { strength, smoothing, .. } =>
                    before.with_pan(strength, smoothing),
                _ => before,
            };
            &&& crate::scene::same_but_effects(numbers, after)
            &&& match (before.chain(), after.chain()) {
                (Some(b), Some(a)) => crate::scene::chain_after(
                    b,
                    crate::editor::projected_effects(layer.stack()->0),
                    a,
                ),
                (None, None) => true,
                _ => false,
            }
        },
    }
}

/// The bytes that have to be written for the effects of the edited layer.
pub open spec fn sync_writes(
    before: LoadedLayer,
    layer: crate::editor::EditorLayerModel,
) -> Seq<crate::scene::WriteModel> {
    match (before.chain(), layer.stack()) {
        (Some(chain), Some(stack)) => crate::scene::chain_writes(
            chain,
            crate::editor::projected_effects(stack),
            crate::scene::shorter(chain.len() as int, stack.len() as int),
        ),
        _ => seq![],
    }
}

fn sync_effect_params(loaded: &mut LoadedLayer, effects: &Vec<EditorEffect>) -> (writes: Vec<
    BufferWrite,
>)
    ensures
        crate::scene::same_but_effects(*old(loaded), *final(loaded)),
        match (old(loaded).chain(), final(loaded).chain()) {
            (Some(b), Some(a)) => {
                &&& crate::scene::chain_after(
                    b,
                    crate::editor::projected_effects(crate::editor::edits_view(effects@)),
                    a,
                )
                &&& crate::scene::writes_view(writes@) == crate::scene::chain_writes(
                    b,
                    crate::editor::projected_effects(crate::editor::edits_view(effects@)),
                    crate::scene::shorter(b.len() as int, effects@.len() as int),
                )
            },
            (None, None) => writes@.len() == 0,
            _ => false,
        },
{
    let projected = project_effects(effects);
    assert(crate::project_format::effects_view(projected@).len() == effects@.len());
    loaded.set_effect_params(projected.as_slice())
}

/// Takes the numbers of an edited layer over to the loaded one. An x-ray
/// layer's radius comes scaled to the preview. A command of the editor's own
/// project may run.
pub fn sync_layer(loaded: &mut LoadedLayer, layer: &EditorLayer, scaled_radius: Single) -> (writes:
    Vec<BufferWrite>)
    ensures
        synced(*old(loaded), layer@, scaled_radius, *final(loaded)),
        crate::scene::writes_view(writes@) == sync_writes(*old(loaded), layer@),
{
    match layer {
        EditorLayer::Xray { effects, .. } => {
            loaded.set_xray_radius(scaled_radius);
            let writes = sync_effect_params(loaded, effects);
            assert(crate::scene::writes_view(writes@) =~= sync_writes(*old(loaded), layer@));
            writes
        },
        EditorLayer::Parallax { strength, smoothing, effects, .. } => {
            loaded.set_parallax_params(*strength, *smoothing);
            let writes = sync_effect_params(loaded, effects);
            assert(crate::scene::writes_view(writes@) =~= sync_writes(*old(loaded), layer@));
            writes
        },
        EditorLayer::Text { x, y, font_size, color, source, .. } => {
            loaded.set_text_params(&source.to_project(), *x, *y, *font_size, *color, true);
            let writes: Vec<BufferWrite> = Vec::new();
            assert(crate::scene::writes_view(writes@) =~= sync_writes(*old(loaded), layer@));
            writes
        },
        EditorLayer::Image { effects, .. }
        | EditorLayer::Gif { effects, .. }
        | EditorLayer::Adjustment { effects } => {
            let writes = sync_effect_params(loaded, effects);
            assert(crate::scene::writes_view(writes@) =~= sync_writes(*old(loaded), layer@));
            writes
        },
    }
}

/// The writes that a layer's effects need.
pub struct LayerWrites {
    pub layer: usize,
    pub writes: Vec<BufferWrite>,
}

/// Takes the numbers of the edited layers over to the loaded ones, place by
/// place, as far as both lists go. `scaled_radii` gives each place's radius
/// scaled to the preview.
pub fn sync_live_params(
    loaded: &mut Vec<LoadedLayer>,
    layers: &Vec<EditorLayer>,
    scaled_radii: &Vec<Single>,
) -> (writes: Vec<LayerWrites>)
    requires
        scaled_radii@.len() == layers@.len(),
    ensures
        final(loaded)@.len() == old(loaded)@.len(),
        forall|i: int|
            0 <= i < old(loaded)@.len() ==> if i < layers@.len() {
                synced(
                    old(loaded)@[i],
                    layers@[i]@,
                    scaled_radii@[i],
                    #[trigger] final(loaded)@[i],
                )
            } else {
                final(loaded)@[i] == old(loaded)@[i]
            },
        writes@.len() == crate::scene::shorter(
            old(loaded)@.len() as int,
            layers@.len() as int,
        ),
        forall|i: int|
            0 <= i < writes@.len() ==> (#[trigger] writes@[i]).layer == i
                && crate::scene::writes_view(writes@[i].writes@) == sync_writes(
                old(loaded)@[i],
                layers@[i]@,
            ),
{
    let ghost before = loaded@;
    let mut writes: Vec<LayerWrites> = Vec::new();
    let mut i: usize = 0;
    while i < loaded.len() && i < layers.len()
        invariant
            scaled_radii@.len() == layers@.len(),
            loaded@.len() == before.len(),
            i <= loaded@.len(),
            i <= layers@.len(),
            writes@.len() == i,
            forall|k: int|
                0 <= k < i ==> synced(
                    before[k],
                    layers@[k]@,
                    scaled_radii@[k],
                    #[trigger] loaded@[k],
                ),
            forall|k: int| i <= k < before.len() ==> #[trigger] loaded@[k] == before[k],
            forall|k: int|
                0 <= k < i ==> (#[trigger] writes@[k]).layer == k && crate::scene::writes_view(
                    writes@[k].writes@,
                ) == sync_writes(before[k], layers@[k]@),
        decreases loaded.len() - i,
    {
        assert(loaded@[i as int] == before[i as int]);
        let radius = scaled_radii[i];
        let w = sync_layer(&mut loaded[i], &layers[i], radius);
        writes.push(LayerWrites { layer: i, writes: w });
        i += 1;
    }
    writes
}

/// A mask that has been painted, and its pixels.
pub struct PaintedMask {
    pub layer: usize,
    pub effect: usize,
    pub rgba: Vec<u8>,
}

pub open spec fn painted_masks_view(m: Seq<PaintedMask>) -> Seq<(int, int, Seq<u8>)> {
    m.map_values(|p: PaintedMask| (p.layer as int, p.effect as int, p.rgba@))
}

/// The painted masks among the first `n` effects of a layer.
pub open spec fn stack_painted(
    layer: int,
    effects: Seq<crate::editor::EditorEffectModel>,
    n: int,
) -> Seq<(int, int, Seq<u8>)>
    decreases n,
{
    if n <= 0 {
        seq![]
    } else {
        let before = stack_painted(layer, effects, n - 1);
        match effects[n - 1].mask {
            crate::editor::EditorMaskModel::Texture { paint: Some(gray), .. } => before.push(
                (layer, n - 1, crate::paint::expanded(gray)),
            ),
            _ => before,
        }
    }
}

/// The painted masks of the first `n` layers.
pub open spec fn all_painted(
    layers: Seq<crate::editor::EditorLayerModel>,
    n: int,
) -> Seq<(int, int, Seq<u8>)>
    decreases n,
{
    if n <= 0 {
        seq![]
    } else {
        let before = all_painted(layers, n - 1);
        match layers[n - 1].stack() {
            Some(effects) => before + stack_painted(n - 1, effects, effects.len() as int),
            None => before,
        }
    }
}

/// The masks that have to be written over a scene that has just been loaded:
/// loading reads them from files that lack the latest strokes.
pub fn restore_painted_masks(loaded: usize, layers: &Vec<EditorLayer>) -> (r: Vec<PaintedMask>)
    ensures
        painted_masks_view(r@) == all_painted(
            crate::editor::editor_view(layers@),
            crate::scene::shorter(loaded as int, layers@.len() as int),
        ),
{
    let ghost model = crate::editor::editor_view(layers@);
    let mut r: Vec<PaintedMask> = Vec::new();
    let mut i: usize = 0;
    assert(painted_masks_view(r@) =~= seq![]);
    while i < loaded && i < layers.len()
        invariant
            i <= loaded,
            i <= layers@.len(),
            model == crate::editor::editor_view(layers@),
            painted_masks_view(r@) == all_painted(model, i as int),
        decreases layers.len() - i,
    {
        assert(model[i as int] == layers@[i as int]@);
        match layers[i].effects() {
            Some(effects) => {
                let ghost before = painted_masks_view(r@);
                let ghost stack = crate::editor::edits_view(effects@);
                let mut k: usize = 0;
                assert(before + stack_painted(i as int, stack, 0) =~= before);
                while k < effects.len()
                    invariant
                        k <= effects@.len(),
                        stack == crate::editor::edits_view(effects@),
                        painted_masks_view(r@) == before + stack_painted(
                            i as int,
                            stack,
                            k as int,
                        ),
                    decreases effects.len() - k,
                {
                    let ghost previous = painted_masks_view(r@);
                    assert(stack[k as int] == effects@[k as int]@);
                    match &effects[k].mask {
                        EditorMask::Texture { paint: Some(buffer), .. } => {
                            let rgba = expand_gray_to_rgba(buffer.as_slice());
                            let ghost pixels = rgba@;
                            r.push(PaintedMask { layer: i, effect: k, rgba });
                            assert(painted_masks_view(r@) =~= previous.push(
                                (i as int, k as int, pixels),
                            ));
                        },
                        _ => {},
                    }
                    assert(painted_masks_view(r@) =~= before + stack_painted(
                        i as int,
                        stack,
                        k as int + 1,
                    ));
                    k += 1;
                }
            },
            None => {},
        }
        i += 1;
    }
    r
}

// --- Laws ------------------------------------------------------------------

/// The effect without its numbers, switches and strokes.
pub open spec fn bare_effect(e: crate::editor::EditorEffectModel) -> crate::editor::EditorEffectModel {
    crate::editor::EditorEffectModel {
        kind: match e.kind {
            crate::editor::EditorEffectKindModel::Vignette { .. } =>
                crate::editor::EditorEffectKindModel::Vignette { strength: 0, softness: 0 },
            crate::editor::EditorEffectKindModel::ColorAdjust { .. } =>
                crate::editor::EditorEffectKindModel::ColorAdjust {
                brightness: 0,
                contrast: 0,
                saturation: 0,
            },
            crate::editor::EditorEffectKindModel::Blur { .. } =>
                crate::editor::EditorEffectKindModel::Blur { radius: 0 },
            crate::editor::EditorEffectKindModel::Smoke { .. } =>
                crate::editor::EditorEffectKindModel::Smoke {
                color: seq![],
                decay: 0,
                radius: 0,
            },
            crate::editor::EditorEffectKindModel::Shader { wgsl_path, params } =>
                crate::editor::EditorEffectKindModel::Shader {
                wgsl_path,
                params: Seq::new(params.len(), |i: int| 0u32),
            },
        },
        mask: match e.mask {
            crate::editor::EditorMaskModel::Unmasked => crate::editor::EditorMaskModel::Unmasked,
            crate::editor::EditorMaskModel::Circle { .. } =>
                crate::editor::EditorMaskModel::Circle {
                transform: crate::project_format::Transform2D::centred(),
                feather: 0,
                invert: false,
            },
            crate::editor::EditorMaskModel::Gradient { .. } =>
                crate::editor::EditorMaskModel::Gradient {
                transform: crate::project_format::Transform2D::centred(),
                feather: 0,
                invert: false,
            },
            crate::editor::EditorMaskModel::Texture { path, .. } =>
                crate::editor::EditorMaskModel::Texture {
                path,
                invert: false,
                paint: None,
                painting: false,
                brush_radius: 0,
                brush_softness: 0,
                last_paint_pos: None,
            },
        },
        enabled: true,
    }
}

pub open spec fn bare_effects(effects: Seq<crate::editor::EditorEffectModel>) -> Seq<
    crate::editor::EditorEffectModel,
> {
    effects.map_values(|e: crate::editor::EditorEffectModel| bare_effect(e))
}

/// The layer without its numbers, switches, strings and strokes.
pub open spec fn bare_layer(l: crate::editor::EditorLayerModel) -> crate::editor::EditorLayerModel {
    match l {
        crate::editor::EditorLayerModel::Image { path, effects } =>
            crate::editor::EditorLayerModel::Image { path, effects: bare_effects(effects) },
        crate::editor::EditorLayerModel::Xray { base, overlay, effects, .. } =>
            crate::editor::EditorLayerModel::Xray {
            base,
            overlay,
            radius: 0,
            effects: bare_effects(effects),
        },
        crate::editor::EditorLayerModel::Gif { path, effects } =>
            crate::editor::EditorLayerModel::Gif { path, effects: bare_effects(effects) },
        crate::editor::EditorLayerModel::Parallax { path, effects, .. } =>
            crate::editor::EditorLayerModel::Parallax {
            path,
            strength: 0,
            smoothing: 0,
            effects: bare_effects(effects),
        },
        crate::editor::EditorLayerModel::Text { font, .. } =>
            crate::editor::EditorLayerModel::Text {
            x: 0,
            y: 0,
            font_size: 0,
            color: seq![],
            source: crate::project_format::TextSourceModel::Literal { text: seq![] },
            font,
        },
        crate::editor::EditorLayerModel::Adjustment { effects } =>
            crate::editor::EditorLayerModel::Adjustment { effects: bare_effects(effects) },
    }
}

/// Two complete layers have one signature just when they differ in nothing but
/// numbers, switches, strings and strokes: dragging a slider never loads the
/// scene anew, and a changed file always does.
pub proof fn signature_is_what_needs_loading(
    a: crate::editor::EditorLayerModel,
    b: crate::editor::EditorLayerModel,
)
    requires
        a.complete(),
        b.complete(),
    ensures
        layer_signature_of(a) == layer_signature_of(b) <==> bare_layer(a) == bare_layer(b),
{
    if a.stack() is Some && b.stack() is Some {
        stack_signature(a.stack()->0, b.stack()->0);
    }
}

proof fn stack_signature(
    a: Seq<crate::editor::EditorEffectModel>,
    b: Seq<crate::editor::EditorEffectModel>,
)
    requires
        crate::editor::all_complete(a),
        crate::editor::all_complete(b),
    ensures
        effect_signatures_of(a) == effect_signatures_of(b) <==> bare_effects(a) == bare_effects(b),
{
    let sa = effect_signatures_of(a);
    let sb = effect_signatures_of(b);
    let ba = bare_effects(a);
    let bb = bare_effects(b);
    assert(sa.len() == a.len() && sb.len() == b.len());
    if sa == sb {
        assert forall|i: int| 0 <= i < a.len() implies ba[i] == bb[i] by {
            assert(sa[i] == sb[i]);
            assert(a[i].complete() && b[i].complete());
            one_signature(a[i], b[i]);
        }
        assert(ba =~= bb);
    }
    if ba == bb {
        assert(ba.len() == a.len());
        assert(bb.len() == b.len());
        assert forall|i: int| 0 <= i < a.len() implies sa[i] == sb[i] by {
            assert(ba[i] == bb[i]);
            assert(a[i].complete() && b[i].complete());
            one_signature(a[i], b[i]);
        }
        assert(sa =~= sb);
    }
}

proof fn one_signature(a: crate::editor::EditorEffectModel, b: crate::editor::EditorEffectModel)
    requires
        a.complete(),
        b.complete(),
    ensures
        effect_signature_of(a) == effect_signature_of(b) <==> bare_effect(a) == bare_effect(b),
{
    match (a.kind, b.kind) {
        (
            crate::editor::EditorEffectKindModel::Shader { params: p, .. },
            crate::editor::EditorEffectKindModel::Shader { params: q, .. },
        ) => {
            let zp = Seq::new(p.len(), |i: int| 0u32);
            let zq = Seq::new(q.len(), |i: int| 0u32);
            if p.len() == q.len() {
                assert(zp =~= zq);
            } else {
                assert(zp.len() != zq.len());
            }
        },
        _ => {},
    }
}


/// A preview loads the layers when it has no scene, and keeps the scene as long
/// as nothing but numbers, switches, texts and strokes change; as soon as a file
/// or a kind does, or a layer comes, goes or moves, it loads the layers anew.
/// Where something is missing there is nothing to show.
pub proof fn preview_loads_what_changed(
    before: Seq<crate::editor::EditorLayerModel>,
    layers: Seq<crate::editor::EditorLayerModel>,
)
    requires
        crate::editor::savable(before),
        crate::editor::savable(layers),
    ensures
        needed_action(None, layers) == (SceneActionModel::Load {
            project: crate::editor::previewed_project(layers),
            signature: signature_of(layers),
        }),
        ({
            let unchanged = before.len() == layers.len() && forall|i: int|
                0 <= i < layers.len() ==> bare_layer(#[trigger] before[i]) == bare_layer(layers[i]);
            &&& unchanged ==> needed_action(Some(signature_of(before)), layers) is Keep
            &&& !unchanged ==> needed_action(Some(signature_of(before)), layers) == needed_action(
                None,
                layers,
            )
        }),
        forall|shown: Option<Seq<LayerSignatureModel>>|
            (#[trigger] needed_action(shown, seq![])) is Clear,
{
    let unchanged = before.len() == layers.len() && forall|i: int|
        0 <= i < layers.len() ==> bare_layer(#[trigger] before[i]) == bare_layer(layers[i]);
    let a = signature_of(before);
    let b = signature_of(layers);
    if unchanged {
        assert forall|i: int| 0 <= i < layers.len() implies a[i] == b[i] by {
            assert(before[i].complete() && layers[i].complete());
            assert(bare_layer(before[i]) == bare_layer(layers[i]));
            signature_is_what_needs_loading(before[i], layers[i]);
        }
        assert(a =~= b);
    } else if a == b {
        assert(before.len() == a.len() && layers.len() == b.len());
        assert forall|i: int| 0 <= i < layers.len() implies bare_layer(#[trigger] before[i])
            == bare_layer(layers[i]) by {
            assert(before[i].complete() && layers[i].complete());
            assert(a[i] == b[i]);
            signature_is_what_needs_loading(before[i], layers[i]);
        }
    }
}

} // verus!
