//! What the shaders read: every parameter of an effect, its mask and the cursor
//! stands at its own place of the buffer that the shader reads it from.

use vstd::prelude::*;

use crate::project_format::{
    EffectKindModel, EffectModel, MaskModel, Single, HALF, ONE, THREE, TWO, ZERO,
};
use crate::scene::{
    BufferRole, FrameState, LoadedEffect, LoadedEffectKind, LoadedLayer, WriteModel,
};

verus! {

/// The number that a shader reads at place `i` of a buffer.
pub open spec fn reads(bytes: Seq<u8>, i: int) -> Single {
    crate::bytes::from_le4(bytes.subrange(4 * i, 4 * i + 4))
}

/// The buffer holds the numbers, and nothing else.
proof fn buffer_holds(values: Seq<Single>)
    ensures
        crate::uniforms::singles_bytes(values).len() == 4 * values.len(),
        forall|i: int|
            0 <= i < values.len() ==> #[trigger] reads(crate::uniforms::singles_bytes(values), i)
                == values[i],
{
    crate::uniforms::singles_bytes_len(values);
    assert forall|i: int| 0 <= i < values.len() implies #[trigger] reads(
        crate::uniforms::singles_bytes(values),
        i,
    ) == values[i] by {
        crate::uniforms::single_reads_back(values, i);
    }
}

// --- Masks -----------------------------------------------------------------

/// The bytes that the mask shader reads.
pub open spec fn mask_bytes(mask: MaskModel, canvas_aspect: Single) -> Seq<u8> {
    crate::uniforms::singles_bytes(crate::uniforms::mask_singles(mask, canvas_aspect))
}

/// The mask shader reads the mask as it was set: the place, scale and rotation
/// of a circle or a gradient, how soft its edge is, whether it is inverted, and
/// which kind of mask it is; and last the canvas's aspect.
pub proof fn mask_reads_back(mask: MaskModel, canvas_aspect: Single)
    ensures
        ({
            let b = mask_bytes(mask, canvas_aspect);
            &&& b.len() == 32
            &&& reads(b, 7) == canvas_aspect
            &&& match mask {
                MaskModel::Unmasked => {
                    &&& reads(b, 0) == HALF && reads(b, 1) == HALF
                    &&& reads(b, 2) == ONE && reads(b, 3) == ZERO
                    &&& reads(b, 4) == ZERO
                    &&& reads(b, 5) == ZERO
                    &&& reads(b, 6) == ZERO
                },
                MaskModel::Circle { transform, feather, invert } => {
                    &&& reads(b, 0) == transform.x
                    &&& reads(b, 1) == transform.y
                    &&& reads(b, 2) == transform.scale
                    &&& reads(b, 3) == transform.rotation
                    &&& reads(b, 4) == feather
                    &&& reads(b, 5) == (if invert { ONE } else { ZERO })
                    &&& reads(b, 6) == ONE
                },
                MaskModel::Gradient { transform, feather, invert } => {
                    &&& reads(b, 0) == transform.x
                    &&& reads(b, 1) == transform.y
                    &&& reads(b, 2) == transform.scale
                    &&& reads(b, 3) == transform.rotation
                    &&& reads(b, 4) == feather
                    &&& reads(b, 5) == (if invert { ONE } else { ZERO })
                    &&& reads(b, 6) == TWO
                },
                MaskModel::Texture { invert, .. } => {
                    &&& reads(b, 0) == HALF && reads(b, 1) == HALF
                    &&& reads(b, 2) == ONE && reads(b, 3) == ZERO
                    &&& reads(b, 4) == ZERO
                    &&& reads(b, 5) == (if invert { ONE } else { ZERO })
                    &&& reads(b, 6) == THREE
                },
            }
        }),
{
    buffer_holds(crate::uniforms::mask_singles(mask, canvas_aspect));
}

/// Masks that differ in anything but the file of their picture are read
/// differently: wherever a circle or a gradient is dragged to, the shader sees
/// it there.
pub proof fn masks_are_told_apart(a: MaskModel, b: MaskModel, canvas_aspect: Single)
    requires
        mask_bytes(a, canvas_aspect) == mask_bytes(b, canvas_aspect),
    ensures
        match (a, b) {
            (MaskModel::Unmasked, MaskModel::Unmasked) => true,
            (MaskModel::Circle { .. }, MaskModel::Circle { .. }) => a == b,
            (MaskModel::Gradient { .. }, MaskModel::Gradient { .. }) => a == b,
            (MaskModel::Texture { invert: x, .. }, MaskModel::Texture { invert: y, .. }) => x == y,
            _ => false,
        },
{
    mask_reads_back(a, canvas_aspect);
    mask_reads_back(b, canvas_aspect);
}

// --- Parameters ------------------------------------------------------------

/// What is written when an effect's parameters change: each of them at its own
/// place. A blur's two passes read the same radius, the one with the direction
/// to the right, the other with the one downwards.
pub proof fn parameters_read_back(i: int, kind: EffectKindModel)
    ensures
        ({
            let w = crate::scene::kind_writes(i, kind);
            &&& forall|k: int| 0 <= k < w.len() ==> (#[trigger] w[k]).effect == i
            &&& match kind {
                EffectKindModel::Vignette { strength, softness } => {
                    &&& w.len() == 1
                    &&& w[0].role == BufferRole::Params
                    &&& w[0].bytes.len() == 16
                    &&& reads(w[0].bytes, 0) == strength
                    &&& reads(w[0].bytes, 1) == softness
                },
                EffectKindModel::ColorAdjust { brightness, contrast, saturation } => {
                    &&& w.len() == 1
                    &&& w[0].role == BufferRole::Params
                    &&& w[0].bytes.len() == 16
                    &&& reads(w[0].bytes, 0) == brightness
                    &&& reads(w[0].bytes, 1) == contrast
                    &&& reads(w[0].bytes, 2) == saturation
                },
                EffectKindModel::Blur { radius } => {
                    &&& w.len() == 2
                    &&& w[0].role == BufferRole::BlurHorizontal
                    &&& w[1].role == BufferRole::BlurVertical
                    &&& reads(w[0].bytes, 0) == radius && reads(w[1].bytes, 0) == radius
                    &&& reads(w[0].bytes, 1) == ONE && reads(w[0].bytes, 2) == ZERO
                    &&& reads(w[1].bytes, 1) == ZERO && reads(w[1].bytes, 2) == ONE
                },
                EffectKindModel::Smoke { .. } => w.len() == 0,
                EffectKindModel::Shader { .. } => w.len() == 0,
            }
        }),
{
    match kind {
        EffectKindModel::Vignette { strength, softness } => {
            buffer_holds(seq![strength, softness, ZERO, ZERO]);
        },
        EffectKindModel::ColorAdjust { brightness, contrast, saturation } => {
            buffer_holds(seq![brightness, contrast, saturation, ZERO]);
        },
        EffectKindModel::Blur { radius } => {
            buffer_holds(seq![radius, ONE, ZERO, ZERO]);
            buffer_holds(seq![radius, ZERO, ONE, ZERO]);
        },
        _ => {},
    }
}

/// What a smoke effect reads in a frame: its colour, the cursor, how it decays
/// and how far it reaches.
pub proof fn smoke_reads_back(effect: LoadedEffect, cursor_uv: (Single, Single))
    requires
        effect.kind is Smoke,
    ensures
        ({
            let smoke = effect.kind->Smoke_0;
            let at = FrameState::Smoke { cursor_uv };
            let b = crate::scene::live_bytes(effect, at)->0;
            &&& crate::scene::live_bytes(effect, at) is Some
            &&& b.len() == 32
            &&& forall|c: int| 0 <= c < 4 ==> #[trigger] reads(b, c) == smoke.color@[c]
            &&& reads(b, 4) == cursor_uv.0
            &&& reads(b, 5) == cursor_uv.1
            &&& reads(b, 6) == smoke.decay
            &&& reads(b, 7) == smoke.radius
        }),
        forall|at: FrameState|
            at is Shader ==> #[trigger] crate::scene::live_bytes(effect, at) is None,
{
    let smoke = effect.kind->Smoke_0;
    buffer_holds(smoke.color@ + seq![cursor_uv.0, cursor_uv.1, smoke.decay, smoke.radius]);
}

/// What a shader effect reads in a frame: the cursor, the time, the canvas's
/// aspect, and behind them its own parameters in their order.
pub proof fn shader_reads_back(effect: LoadedEffect, cursor_uv: (Single, Single), time: Single)
    requires
        effect.kind is Shader,
    ensures
        ({
            let params = effect.kind->params@;
            let at = FrameState::Shader { cursor_uv, time };
            let b = crate::scene::live_bytes(effect, at)->0;
            &&& crate::scene::live_bytes(effect, at) is Some
            &&& b.len() == 16 + 4 * params.len()
            &&& reads(b, 0) == cursor_uv.0
            &&& reads(b, 1) == cursor_uv.1
            &&& reads(b, 2) == time
            &&& reads(b, 3) == effect.canvas_aspect
            &&& forall|p: int| 4 <= p < 4 + params.len() ==> #[trigger] reads(b, p) == params[p - 4]
        }),
        forall|at: FrameState|
            at is Smoke ==> #[trigger] crate::scene::live_bytes(effect, at) is None,
{
    let params = effect.kind->params@;
    let values = seq![cursor_uv.0, cursor_uv.1, time, effect.canvas_aspect] + params;
    buffer_holds(values);
    assert forall|p: int| 4 <= p < 4 + params.len() implies #[trigger] reads(
        crate::uniforms::singles_bytes(values),
        p,
    ) == params[p - 4] by {
        assert(values[p] == params[p - 4]);
    }
}

/// A buffer begins with what it holds later: with what a change of parameters
/// writes, or, where it is written in every frame, with what the frame writes
/// while the cursor is far away and no time has gone by.
pub proof fn buffers_begin_as_they_go_on(i: int, kind: EffectKindModel, effect: LoadedEffect)
    requires
        crate::scene::loads_kind(kind, effect.kind),
    ensures
        ({
            let far = (crate::scene::FAR_AWAY, crate::scene::FAR_AWAY);
            let first = crate::scene::first_kind_writes(i, kind, effect.canvas_aspect);
            &&& kind is Smoke || kind is Shader ==> {
                let at = if kind is Smoke {
                    FrameState::Smoke { cursor_uv: far }
                } else {
                    FrameState::Shader { cursor_uv: far, time: ZERO }
                };
                &&& first.len() == 1
                &&& first[0].effect == i
                &&& first[0].role == BufferRole::Params
                &&& crate::scene::live_bytes(effect, at) == Some(first[0].bytes)
            }
            &&& !(kind is Smoke) && !(kind is Shader) ==> first == crate::scene::kind_writes(i, kind)
        }),
{
}

/// The x-ray shader reads the cursor and the layer's radius; every x-ray layer
/// is written, and no other.
pub proof fn xray_reads_back(layers: Seq<LoadedLayer>, cursor_px: (Single, Single), n: int)
    requires
        0 <= n <= layers.len(),
    ensures
        ({
            let w = crate::scene::xray_writes(layers, cursor_px, n);
            &&& forall|k: int|
                0 <= k < w.len() ==> {
                    let (layer, bytes) = #[trigger] w[k];
                    &&& 0 <= layer < n
                    &&& layers[layer] is Xray
                    &&& bytes.len() == 16
                    &&& reads(bytes, 0) == cursor_px.0
                    &&& reads(bytes, 1) == cursor_px.1
                    &&& reads(bytes, 2) == layers[layer]->Xray_radius
                }
            &&& forall|l: int|
                0 <= l < n && #[trigger] layers[l] is Xray ==> exists|k: int|
                    0 <= k < w.len() && (#[trigger] w[k]).0 == l
        }),
    decreases n,
{
    if n > 0 {
        xray_reads_back(layers, cursor_px, n - 1);
        let before = crate::scene::xray_writes(layers, cursor_px, n - 1);
        let w = crate::scene::xray_writes(layers, cursor_px, n);
        match layers[n - 1] {
            LoadedLayer::Xray { radius, .. } => {
                buffer_holds(seq![cursor_px.0, cursor_px.1, radius, ZERO]);
                assert(w[before.len() as int].0 == n - 1);
                assert forall|l: int| 0 <= l < n && #[trigger] layers[l] is Xray implies exists|
                    k: int,
                |
                    0 <= k < w.len() && (#[trigger] w[k]).0 == l by {
                    if l < n - 1 {
                        let k = choose|k: int| 0 <= k < before.len() && (#[trigger] before[k]).0 == l;
                        assert(w[k] == before[k]);
                    }
                }
            },
            _ => {},
        }
    }
}

// --- Which effect is written -----------------------------------------------

/// What is written for an effect whose shape is the loaded one's goes to that
/// effect, and ends with its mask; nothing is written for any other.
pub proof fn effect_is_written(i: int, loaded: LoadedEffect, effect: EffectModel)
    ensures
        ({
            let w = crate::scene::effect_writes(i, loaded, effect);
            &&& forall|k: int| 0 <= k < w.len() ==> (#[trigger] w[k]).effect == i
            &&& crate::scene::same_shape(loaded, effect) ==> {
                &&& w.len() > 0
                &&& w.last().role == BufferRole::MaskParams
                &&& w.last().bytes == mask_bytes(effect.mask, loaded.canvas_aspect)
                &&& w.drop_last() == crate::scene::kind_writes(i, effect.kind)
            }
            &&& !crate::scene::same_shape(loaded, effect) ==> w.len() == 0
        }),
{
    let w = crate::scene::effect_writes(i, loaded, effect);
    if crate::scene::same_shape(loaded, effect) {
        assert(w.drop_last() =~= crate::scene::kind_writes(i, effect.kind));
    }
}

/// The write is one that an effect needs.
pub open spec fn needed_by(
    w: WriteModel,
    e: int,
    chain: Seq<LoadedEffect>,
    effects: Seq<EffectModel>,
) -> bool {
    crate::scene::effect_writes(e, chain[e], effects[e]).contains(w)
}

/// A stack's writes are those of its effects: each goes to the effect that needs
/// it, and none that an effect needs is left out.
pub proof fn chain_is_written(
    chain: Seq<LoadedEffect>,
    effects: Seq<EffectModel>,
    n: int,
)
    requires
        0 <= n <= chain.len(),
        n <= effects.len(),
    ensures
        ({
            let all = crate::scene::chain_writes(chain, effects, n);
            &&& forall|k: int|
                0 <= k < all.len() ==> 0 <= (#[trigger] all[k]).effect < n && needed_by(
                    all[k],
                    all[k].effect,
                    chain,
                    effects,
                )
            &&& forall|e: int, w: WriteModel|
                0 <= e < n && #[trigger] needed_by(w, e, chain, effects) ==> all.contains(w)
        }),
    decreases n,
{
    if n > 0 {
        chain_is_written(chain, effects, n - 1);
        let before = crate::scene::chain_writes(chain, effects, n - 1);
        let more = crate::scene::effect_writes(n - 1, chain[n - 1], effects[n - 1]);
        let all = crate::scene::chain_writes(chain, effects, n);
        effect_is_written(n - 1, chain[n - 1], effects[n - 1]);
        assert forall|k: int| 0 <= k < all.len() implies 0 <= (#[trigger] all[k]).effect < n
            && needed_by(all[k], all[k].effect, chain, effects) by {
            if k < before.len() {
                assert(all[k] == before[k]);
            } else {
                assert(all[k] == more[k - before.len()]);
                assert(more.contains(all[k]));
            }
        }
        assert forall|e: int, w: WriteModel|
            0 <= e < n && #[trigger] needed_by(w, e, chain, effects) implies all.contains(w) by {
            if e < n - 1 {
                assert(before.contains(w));
                let k = choose|k: int| 0 <= k < before.len() && before[k] == w;
                assert(all[k] == w);
            } else {
                let k = choose|k: int| 0 <= k < more.len() && more[k] == w;
                assert(all[before.len() + k] == w);
            }
        }
    }
}

/// Whether a loaded effect can take an effect's parameters over goes by the
/// effect that it was loaded from: they have to be of one kind, with one kind of
/// mask, and shaders with as many parameters.
pub proof fn shapes_are_kinds(
    first: EffectModel,
    canvas_aspect: Single,
    loaded: LoadedEffect,
    next: EffectModel,
)
    requires
        crate::scene::loads_effect(first, canvas_aspect, loaded),
    ensures
        crate::scene::same_shape(loaded, next) <==> (match (first.kind, next.kind) {
            (EffectKindModel::Vignette { .. }, EffectKindModel::Vignette { .. }) => true,
            (EffectKindModel::ColorAdjust { .. }, EffectKindModel::ColorAdjust { .. }) => true,
            (EffectKindModel::Blur { .. }, EffectKindModel::Blur { .. }) => true,
            (EffectKindModel::Smoke { .. }, EffectKindModel::Smoke { .. }) => true,
            (
                EffectKindModel::Shader { params: a, .. },
                EffectKindModel::Shader { params: b, .. },
            ) => a.len() == b.len(),
            _ => false,
        } && match (first.mask, next.mask) {
            (MaskModel::Unmasked, MaskModel::Unmasked) => true,
            (MaskModel::Circle { .. }, MaskModel::Circle { .. }) => true,
            (MaskModel::Gradient { .. }, MaskModel::Gradient { .. }) => true,
            (MaskModel::Texture { .. }, MaskModel::Texture { .. }) => true,
            _ => false,
        }),
{
}

/// Every effect that is written in every frame is, with what it reads then, and
/// no other: the writes of a stack name its effects.
pub proof fn frame_writes_are_live(
    layer: int,
    chain: Seq<LoadedEffect>,
    at: FrameState,
    n: int,
)
    requires
        0 <= n <= chain.len(),
    ensures
        ({
            let all = crate::scene::chain_frame_writes(layer, chain, at, n);
            &&& forall|k: int|
                0 <= k < all.len() ==> {
                    let (l, e, bytes) = #[trigger] all[k];
                    &&& l == layer
                    &&& 0 <= e < n
                    &&& crate::scene::live_bytes(chain[e], at) == Some(bytes)
                }
            &&& forall|e: int|
                0 <= e < n && crate::scene::live_bytes(#[trigger] chain[e], at) is Some
                    ==> all.contains((layer, e, crate::scene::live_bytes(chain[e], at)->0))
        }),
    decreases n,
{
    if n > 0 {
        frame_writes_are_live(layer, chain, at, n - 1);
        let before = crate::scene::chain_frame_writes(layer, chain, at, n - 1);
        let all = crate::scene::chain_frame_writes(layer, chain, at, n);
        match crate::scene::live_bytes(chain[n - 1], at) {
            Some(bytes) => {
                assert(all[before.len() as int] == (layer, n - 1, bytes));
                assert forall|e: int|
                    0 <= e < n && crate::scene::live_bytes(#[trigger] chain[e], at) is Some implies
                    all.contains((layer, e, crate::scene::live_bytes(chain[e], at)->0)) by {
                    if e < n - 1 {
                        let w = (layer, e, crate::scene::live_bytes(chain[e], at)->0);
                        assert(before.contains(w));
                        let k = choose|k: int| 0 <= k < before.len() && before[k] == w;
                        assert(all[k] == w);
                    }
                }
            },
            None => {},
        }
    }
}

/// The same of a scene: each write names the layer and the effect that reads it.
pub proof fn scene_writes_are_live(layers: Seq<LoadedLayer>, at: FrameState, n: int)
    requires
        0 <= n <= layers.len(),
    ensures
        ({
            let all = crate::scene::scene_frame_writes(layers, at, n);
            &&& forall|k: int|
                0 <= k < all.len() ==> {
                    let (l, e, bytes) = #[trigger] all[k];
                    &&& 0 <= l < n
                    &&& layers[l].chain() is Some
                    &&& 0 <= e < layers[l].chain()->0.len()
                    &&& crate::scene::live_bytes(layers[l].chain()->0[e], at) == Some(bytes)
                }
            &&& forall|l: int, e: int|
                0 <= l < n && layers[l].chain() is Some && 0 <= e < layers[l].chain()->0.len()
                    && crate::scene::live_bytes(#[trigger] layers[l].chain()->0[e], at) is Some
                    ==> all.contains(
                    (l, e, crate::scene::live_bytes(layers[l].chain()->0[e], at)->0),
                )
        }),
    decreases n,
{
    if n > 0 {
        scene_writes_are_live(layers, at, n - 1);
        let before = crate::scene::scene_frame_writes(layers, at, n - 1);
        let all = crate::scene::scene_frame_writes(layers, at, n);
        match layers[n - 1].chain() {
            Some(chain) => {
                frame_writes_are_live(n - 1, chain, at, chain.len() as int);
                let more = crate::scene::chain_frame_writes(n - 1, chain, at, chain.len() as int);
                assert forall|k: int| 0 <= k < all.len() implies #[trigger] all[k] == (if k
                    < before.len() {
                    before[k]
                } else {
                    more[k - before.len()]
                }) by {
                }
                assert forall|l: int, e: int|
                    0 <= l < n && layers[l].chain() is Some && 0 <= e < layers[l].chain()->0.len()
                        && crate::scene::live_bytes(#[trigger] layers[l].chain()->0[e], at) is Some
                    implies all.contains(
                    (l, e, crate::scene::live_bytes(layers[l].chain()->0[e], at)->0),
                ) by {
                    let w = (l, e, crate::scene::live_bytes(layers[l].chain()->0[e], at)->0);
                    if l < n - 1 {
                        assert(before.contains(w));
                        let k = choose|k: int| 0 <= k < before.len() && before[k] == w;
                        assert(all[k] == w);
                    } else {
                        assert(chain[e] == layers[l].chain()->0[e]);
                        assert(more.contains(w));
                        let k = choose|k: int| 0 <= k < more.len() && more[k] == w;
                        assert(all[before.len() + k] == w);
                    }
                }
            },
            None => {},
        }
    }
}

// --- What is loaded --------------------------------------------------------

/// A loaded stack has an effect for each of the project's, in their order,
/// switched as the project says, of the same kind and with the same numbers.
pub proof fn loaded_stack_is_the_projects(
    effects: Seq<EffectModel>,
    canvas_aspect: Single,
    chain: Option<Seq<LoadedEffect>>,
    i: int,
)
    requires
        crate::scene::loads_chain(effects, canvas_aspect, chain),
        0 <= i < effects.len(),
    ensures
        chain is Some,
        chain->0.len() == effects.len(),
        chain->0[i].enabled == effects[i].enabled,
        chain->0[i].canvas_aspect == canvas_aspect,
        match effects[i].kind {
            EffectKindModel::Vignette { .. } => chain->0[i].kind is Vignette,
            EffectKindModel::ColorAdjust { .. } => chain->0[i].kind is ColorAdjust,
            EffectKindModel::Blur { .. } => chain->0[i].kind is Blur,
            EffectKindModel::Smoke { color, decay, radius } => {
                chain->0[i].kind matches LoadedEffectKind::Smoke(s) && s.color@ == color && s.decay
                    == decay && s.radius == radius
            },
            EffectKindModel::Shader { params, .. } => {
                chain->0[i].kind matches LoadedEffectKind::Shader { params: p } && p@ == params
            },
        },
{
    assert(crate::scene::loads_effect(effects[i], canvas_aspect, chain->0[i]));
}

/// A loaded layer is of the project's kind, has the project's numbers, and shows
/// what was read.
pub proof fn loaded_layer_is_the_projects(
    layer: crate::project_format::LayerModel,
    content: crate::load::LayerContent,
    canvas_aspect: Single,
    allow_commands: bool,
    now: crate::text_source::Moment,
    l: LoadedLayer,
)
    requires
        crate::load::loads(layer, content, canvas_aspect, allow_commands, now, l),
    ensures
        l is Image <==> layer is Image,
        l is Gif <==> layer is Gif,
        l is Adjustment <==> layer is Adjustment,
        l matches LoadedLayer::Xray { radius, .. } ==> (
        layer matches crate::project_format::LayerModel::Xray { radius: wanted, .. } && radius
            == wanted),
        l matches LoadedLayer::Parallax { strength, smoothing, .. } ==> (
        layer matches crate::project_format::LayerModel::Parallax { strength: s, smoothing: m, .. }
            && strength == s && smoothing == m),
        l matches LoadedLayer::Text(t) ==> (layer matches crate::project_format::LayerModel::Text {
            x,
            y,
            font_size,
            color,
            source,
            font,
        } && t.x == x && t.y == y && t.font_size == font_size && t.color@ == color
            && t.source.config() == source && t.font@ == font && t.text@ == t.source.shows(now)),
        l.has_picture() ==> match content {
            crate::load::LayerContent::Picture { width, height } => l.natural_size() == (
                width,
                height,
            ),
            crate::load::LayerContent::Frames { width, height, .. } => l.natural_size() == (
                width,
                height,
            ),
            crate::load::LayerContent::Nothing => true,
        },
        l is Text || l is Adjustment ==> l.natural_size() == (1920u32, 1080u32),
{
}

/// What is shown of a text layer after its source was asked is what the source
/// gives then, and what is shown of an animation is the frame that stands then;
/// nothing else of the layers changes.
pub proof fn frames_move_on(
    before: LoadedLayer,
    texts: LoadedLayer,
    gifs: LoadedLayer,
    now: crate::text_source::Moment,
    elapsed_ms: u64,
)
    requires
        crate::scene::text_advanced(before, texts, now),
        crate::scene::gif_advanced(before, gifs, elapsed_ms),
    ensures
        before is Text ==> texts is Text && texts.as_text().text@ == before.as_text().source.shows(
            now,
        ) && texts.as_text().source == before.as_text().source,
        !(before is Text) ==> texts == before,
        before matches LoadedLayer::Gif { animation: a, .. } ==> (gifs matches LoadedLayer::Gif {
            animation: b,
            ..
        } && b.frames == a.frames && 0 <= b.current < a.frames@.len() && crate::gif::time_after(
            a.frames@,
            b.current as int,
        ) <= elapsed_ms % a.total_ms < crate::gif::time_after(a.frames@, b.current + 1)),
        !(before is Gif) ==> gifs == before,
        texts.natural_size() == before.natural_size() && texts.chain() == before.chain(),
        gifs.natural_size() == before.natural_size() && gifs.chain() == before.chain(),
{
}

/// Changing the radius of an x-ray layer or the pan of a parallax layer changes
/// just that, and nothing of any other layer.
pub proof fn live_numbers_take_hold(
    layer: LoadedLayer,
    radius: Single,
    strength: Single,
    smoothing: Single,
)
    ensures
        layer is Xray ==> (layer.with_radius(radius) matches LoadedLayer::Xray { radius: r, .. } && r
            == radius),
        !(layer is Xray) ==> layer.with_radius(radius) == layer,
        layer is Parallax ==> (layer.with_pan(strength, smoothing) matches LoadedLayer::Parallax {
            strength: s,
            smoothing: m,
            ..
        } && s == strength && m == smoothing),
        !(layer is Parallax) ==> layer.with_pan(strength, smoothing) == layer,
        layer.with_radius(radius).natural_size() == layer.natural_size(),
        layer.with_radius(radius).chain() == layer.chain(),
        layer.with_pan(strength, smoothing).natural_size() == layer.natural_size(),
        layer.with_pan(strength, smoothing).chain() == layer.chain(),
{
}

/// A scene that is kept shows every number of the edited layer: whenever an
/// effect's signature has not changed, the loaded effect takes the edited
/// effect's parameters over, as if it had just been loaded with them.
pub proof fn kept_effect_shows_the_edit(
    shown: crate::editor::EditorEffectModel,
    edited: crate::editor::EditorEffectModel,
    canvas_aspect: Single,
    loaded: LoadedEffect,
    after: LoadedEffect,
)
    requires
        crate::preview::effect_signature_of(shown) == crate::preview::effect_signature_of(edited),
        crate::scene::loads_effect(shown.projected(), canvas_aspect, loaded),
        crate::scene::effect_after(loaded, edited.projected(), after),
    ensures
        crate::scene::loads_effect(edited.projected(), canvas_aspect, after),
        after.enabled == edited.enabled,
{
}


// --- What changes and what stays -------------------------------------------

/// A source that is set anew goes on where it is the same: a command that has
/// given something is not run again from the start, and shows no `NULL` in
/// between. Another source starts afresh. What is shown stays meanwhile.
pub proof fn unchanged_source_goes_on(
    before: crate::scene::TextLayer,
    source: crate::project_format::TextSourceModel,
    allow_commands: bool,
    after: crate::scene::TextLayer,
    now: crate::text_source::Moment,
)
    requires
        crate::scene::text_set(before, source, allow_commands, after),
    ensures
        after.text@ == before.text@,
        after.font@ == before.font@,
        after.source.config() == source,
        before.source.config() == source ==> after.source.shows(now) == before.source.shows(now),
        before.source.config() != source ==> (
        after.source matches crate::text_source::LoadedTextSource::Command(c) ==> c.runs
            == allow_commands && c.latest is None),
{
}

/// The preview takes the edited numbers over: a text layer its place, its size,
/// its colour and its source, an x-ray layer its radius, a parallax layer its
/// pan. Everything that was loaded stays.
pub proof fn preview_takes_the_numbers_over(
    before: LoadedLayer,
    layer: crate::editor::EditorLayerModel,
    scaled_radius: Single,
    after: LoadedLayer,
)
    requires
        crate::preview::synced(before, layer, scaled_radius, after),
    ensures
        layer matches crate::editor::EditorLayerModel::Text {
            x,
            y,
            font_size,
            color,
            source,
            ..
        } ==> before is Text ==> {
            let t = after.as_text();
            &&& after is Text
            &&& t.x == x && t.y == y && t.font_size == font_size && t.color@ == color
            &&& t.source.config() == source
            &&& t.text == before.as_text().text && t.font == before.as_text().font
            &&& before.as_text().source.config() == source ==> t.source == before.as_text().source
            &&& before.as_text().source.config() != source ==> (
            t.source matches crate::text_source::LoadedTextSource::Command(c) ==> c.runs && c.latest
                is None)
        },
        layer is Xray && before is Xray ==> (after matches LoadedLayer::Xray { radius, .. } && radius
            == scaled_radius),
        layer matches crate::editor::EditorLayerModel::Parallax { strength: s, smoothing: m, .. }
            ==> before is Parallax ==> (after matches LoadedLayer::Parallax {
            strength,
            smoothing,
            ..
        } && strength == s && smoothing == m),
        !(layer is Xray) && before is Xray ==> (after matches LoadedLayer::Xray { radius, .. }
            && radius == before->Xray_radius),
        after.natural_size() == before.natural_size(),
        after.chain() is Some <==> before.chain() is Some,
        after.chain() matches Some(chain) ==> before.chain()->0.len() == chain.len(),
{
}

/// New parameters go to every effect that can take them, and to no other: those
/// past the shorter list stay as they were.
pub proof fn parameters_go_to_their_effects(
    chain: Seq<LoadedEffect>,
    effects: Seq<EffectModel>,
    after: Seq<LoadedEffect>,
    j: int,
)
    requires
        crate::scene::chain_after(chain, effects, after),
        0 <= j < chain.len(),
    ensures
        after.len() == chain.len(),
        j >= effects.len() ==> after[j] == chain[j],
        j < effects.len() && crate::scene::same_shape(chain[j], effects[j]) ==> {
            &&& after[j].enabled == effects[j].enabled
            &&& after[j].canvas_aspect == chain[j].canvas_aspect
            &&& effects[j].kind matches EffectKindModel::Smoke { color, decay, radius } ==> (
            after[j].kind matches LoadedEffectKind::Smoke(s) && s.color@ == color && s.decay
                == decay && s.radius == radius)
            &&& effects[j].kind matches EffectKindModel::Shader { params, .. } ==> (
            after[j].kind matches LoadedEffectKind::Shader { params: p } && p@ == params)
        },
        j < effects.len() && !crate::scene::same_shape(chain[j], effects[j]) ==> after[j]
            == chain[j],
{
    assert(j < effects.len() ==> crate::scene::effect_after(chain[j], effects[j], after[j]));
}

/// The layer stays but for its effects: its size, its radius, its pan, its frame
/// and its text.
pub proof fn nothing_but_effects_changes(a: LoadedLayer, b: LoadedLayer)
    requires
        crate::scene::same_but_effects(a, b),
    ensures
        a.natural_size() == b.natural_size(),
        a.has_picture() == b.has_picture(),
        a matches LoadedLayer::Xray { radius, .. } ==> (b matches LoadedLayer::Xray { radius: r, .. }
            && r == radius),
        a matches LoadedLayer::Parallax { strength, smoothing, .. } ==> (
        b matches LoadedLayer::Parallax { strength: s, smoothing: m, .. } && s == strength && m
            == smoothing),
        a matches LoadedLayer::Gif { animation, .. } ==> (b matches LoadedLayer::Gif {
            animation: g,
            ..
        } && g == animation),
        a is Text ==> a == b,
{
}

/// The write is one that an effect's buffers begin with.
pub open spec fn begins_with(
    w: WriteModel,
    e: int,
    effects: Seq<EffectModel>,
    canvas_aspect: Single,
) -> bool {
    ||| crate::scene::first_kind_writes(e, effects[e].kind, canvas_aspect).contains(w)
    ||| w == WriteModel {
        effect: e,
        role: BufferRole::MaskParams,
        bytes: mask_bytes(effects[e].mask, canvas_aspect),
    }
}

/// Every buffer of every effect begins with what its effect says, its mask's
/// among them, and nothing else is written.
pub proof fn every_buffer_begins(
    effects: Seq<EffectModel>,
    canvas_aspect: Single,
    n: int,
)
    requires
        0 <= n <= effects.len(),
    ensures
        ({
            let all = crate::scene::chain_first_writes(effects, canvas_aspect, n);
            &&& forall|k: int|
                0 <= k < all.len() ==> 0 <= (#[trigger] all[k]).effect < n && begins_with(
                    all[k],
                    all[k].effect,
                    effects,
                    canvas_aspect,
                )
            &&& forall|e: int, w: WriteModel|
                0 <= e < n && #[trigger] begins_with(w, e, effects, canvas_aspect) ==> all.contains(
                    w,
                )
        }),
    decreases n,
{
    if n > 0 {
        every_buffer_begins(effects, canvas_aspect, n - 1);
        let before = crate::scene::chain_first_writes(effects, canvas_aspect, n - 1);
        let own = crate::scene::first_kind_writes(n - 1, effects[n - 1].kind, canvas_aspect);
        let mask = crate::scene::mask_write(n - 1, effects[n - 1].mask, canvas_aspect);
        let more = own.push(mask);
        let all = crate::scene::chain_first_writes(effects, canvas_aspect, n);
        assert forall|k: int| 0 <= k < all.len() implies 0 <= (#[trigger] all[k]).effect < n
            && begins_with(all[k], all[k].effect, effects, canvas_aspect) by {
            if k < before.len() {
                assert(all[k] == before[k]);
            } else {
                let at = k - before.len();
                assert(all[k] == more[at]);
                if at < own.len() {
                    assert(own[at] == all[k]);
                    assert(own.contains(all[k]));
                }
            }
        }
        assert forall|e: int, w: WriteModel|
            0 <= e < n && #[trigger] begins_with(w, e, effects, canvas_aspect) implies all.contains(
            w,
        ) by {
            if e < n - 1 {
                assert(before.contains(w));
                let k = choose|k: int| 0 <= k < before.len() && before[k] == w;
                assert(all[k] == w);
            } else if own.contains(w) {
                let k = choose|k: int| 0 <= k < own.len() && own[k] == w;
                assert(more[k] == w);
                assert(all[before.len() + k] == w);
            } else {
                assert(more[own.len() as int] == w);
                assert(all[before.len() as int + own.len()] == w);
            }
        }
    }
}

/// A buffer is made of whole groups of four numbers, with room for what its
/// effect reads and for less than a group more.
pub proof fn buffers_are_just_large_enough(kind: EffectKindModel)
    ensures
        crate::scene::params_size(kind) % 16 == 0,
        kind matches EffectKindModel::Shader { params, .. } ==> 16 + 4 * params.len()
            <= crate::scene::params_size(kind) < 32 + 4 * params.len(),
        kind is Smoke ==> crate::scene::params_size(kind) == 32,
        kind is Vignette || kind is ColorAdjust || kind is Blur ==> crate::scene::params_size(kind)
            == 16,
{
}

/// A change is one that can be seen: another frame of the animation, or another
/// text.
pub proof fn changes_are_seen(before: LoadedLayer, after: LoadedLayer)
    ensures
        before matches LoadedLayer::Gif { animation: a, .. } ==> (after matches LoadedLayer::Gif {
            animation: b,
            ..
        } ==> (crate::scene::frame_changed(before, after) <==> a.current != b.current)),
        before matches LoadedLayer::Text(a) ==> (after matches LoadedLayer::Text(b) ==> (
        crate::scene::text_changed(before, after) <==> a.text@ != b.text@)),
        crate::scene::frame_changed(before, after) ==> before is Gif,
        crate::scene::text_changed(before, after) ==> before is Text,
{
}

/// Which layers have to be drawn again and again: those that play, that follow
/// the cursor, whose text changes, and those with an effect switched on that
/// goes by the time.
pub proof fn moving_layers_are_dynamic(l: LoadedLayer)
    ensures
        l is Gif || l is Xray || l is Parallax ==> l.dynamic(),
        l matches LoadedLayer::Text(t) ==> (l.dynamic() <==> !(t.source is Literal)),
        l.chain() matches Some(chain) ==> forall|i: int|
            0 <= i < chain.len() && (#[trigger] chain[i]).enabled && (chain[i].kind is Smoke
                || chain[i].kind is Shader) ==> l.dynamic(),
        (l is Image || l is Adjustment) && (l.chain() matches Some(chain) ==> forall|i: int|
            0 <= i < chain.len() ==> !(#[trigger] chain[i]).enabled || !(chain[i].kind is Smoke
                || chain[i].kind is Shader)) ==> !l.dynamic(),
{
}

/// The pictures that a layer's effects work on have the layer's own size, where
/// it has a picture, or else the size of the canvas, which the first layer
/// gives.
pub proof fn effects_work_on_the_right_size(
    width: u32,
    height: u32,
    loaded: Seq<LoadedLayer>,
)
    ensures
        crate::load::worked_size(
            crate::load::LayerContent::Picture { width, height },
            loaded,
        ) == (width, height),
        loaded.len() > 0 ==> crate::load::worked_size(
            crate::load::LayerContent::Nothing,
            loaded,
        ) == loaded[0].natural_size(),
        loaded.len() == 0 ==> crate::load::worked_size(
            crate::load::LayerContent::Nothing,
            loaded,
        ) == (1920u32, 1080u32),
{
}

/// Every painted mask is written over the scene, with its strokes, for the
/// effect that it is of; nothing else is.
pub proof fn painted_masks_are_restored(
    layer: int,
    effects: Seq<crate::editor::EditorEffectModel>,
    n: int,
)
    requires
        0 <= n <= effects.len(),
    ensures
        ({
            let all = crate::preview::stack_painted(layer, effects, n);
            &&& forall|k: int|
                0 <= k < all.len() ==> {
                    let (l, e, rgba) = #[trigger] all[k];
                    &&& l == layer && 0 <= e < n
                    &&& effects[e].mask matches crate::editor::EditorMaskModel::Texture {
                        paint: Some(gray),
                        ..
                    } && rgba == crate::paint::expanded(gray)
                }
            &&& forall|e: int|
                0 <= e < n && ((#[trigger] effects[e]).mask matches
                    crate::editor::EditorMaskModel::Texture { paint: Some(gray), .. }) ==> exists|
                    k: int,
                |
                    0 <= k < all.len() && (#[trigger] all[k]).1 == e
        }),
    decreases n,
{
    if n > 0 {
        painted_masks_are_restored(layer, effects, n - 1);
        let before = crate::preview::stack_painted(layer, effects, n - 1);
        let all = crate::preview::stack_painted(layer, effects, n);
        assert forall|e: int|
            0 <= e < n && ((#[trigger] effects[e]).mask matches
                crate::editor::EditorMaskModel::Texture { paint: Some(gray), .. }) implies exists|
            k: int,
        |
            0 <= k < all.len() && (#[trigger] all[k]).1 == e by {
            if e < n - 1 {
                let k = choose|k: int| 0 <= k < before.len() && (#[trigger] before[k]).1 == e;
                assert(all[k] == before[k]);
            } else {
                assert(all[before.len() as int].1 == e);
            }
        }
    }
}


/// The same of a scene: every painted mask of every layer is written over it,
/// for the layer and the effect that it is of.
pub proof fn every_painted_mask_is_restored(
    layers: Seq<crate::editor::EditorLayerModel>,
    n: int,
    l: int,
    e: int,
) -> (k: int)
    requires
        0 <= l < n <= layers.len(),
        layers[l].stack() is Some,
        0 <= e < layers[l].stack()->0.len(),
        layers[l].stack()->0[e].mask matches crate::editor::EditorMaskModel::Texture {
            paint: Some(gray),
            ..
        },
    ensures
        0 <= k < crate::preview::all_painted(layers, n).len(),
        crate::preview::all_painted(layers, n)[k].0 == l,
        crate::preview::all_painted(layers, n)[k].1 == e,
        layers[l].stack()->0[e].mask matches crate::editor::EditorMaskModel::Texture {
            paint: Some(gray),
            ..
        } && crate::preview::all_painted(layers, n)[k].2 == crate::paint::expanded(gray),
    decreases n,
{
    let before = crate::preview::all_painted(layers, n - 1);
    if l < n - 1 {
        every_painted_mask_is_restored(layers, n - 1, l, e)
    } else {
        let stack = layers[l].stack()->0;
        let own = crate::preview::stack_painted(l, stack, stack.len() as int);
        painted_masks_are_restored(l, stack, stack.len() as int);
        assert(stack[e].mask matches crate::editor::EditorMaskModel::Texture {
            paint: Some(gray),
            ..
        });
        let k = choose|k: int| 0 <= k < own.len() && (#[trigger] own[k]).1 == e;
        assert(crate::preview::all_painted(layers, n)[before.len() + k] == own[k]);
        before.len() + k
    }
}

} // verus!
