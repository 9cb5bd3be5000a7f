//! What drawing a frame promises of its steps: which shader each of them runs,
//! and in which order the layers and their effects come.

use vstd::prelude::*;

use crate::draw_plan::{Bindings, Pass, Pipeline, ShaderFile, Step};
use crate::scene::{LoadedEffect, LoadedEffectKind, LoadedLayer};

verus! {

// --- Shaders ---------------------------------------------------------------

/// The shader of a pipeline is the one that draws a layer's own picture: the
/// x-ray shader for x-ray layers, the parallax shader for parallax layers, the
/// plain one for pictures and animations.
pub open spec fn draws_picture_of(pipeline: Pipeline, layer: LoadedLayer) -> bool {
    &&& pipeline.spec_info().shader == ShaderFile::Xray <==> layer is Xray
    &&& pipeline.spec_info().shader == ShaderFile::Parallax <==> layer is Parallax
    &&& pipeline.spec_info().shader == ShaderFile::Image <==> layer is Image || layer is Gif
}

/// The shader of a pipeline is that of an effect, and the pass is one that the
/// effect has.
pub open spec fn runs_pass_of(pipeline: Pipeline, pass: Pass, kind: LoadedEffectKind) -> bool {
    let shader = pipeline.spec_info().shader;
    &&& shader == ShaderFile::Vignette <==> kind is Vignette
    &&& shader == ShaderFile::ColorAdjust <==> kind is ColorAdjust
    &&& shader == ShaderFile::Blur <==> kind is Blur
    &&& shader == ShaderFile::Smoke <==> kind is Smoke
    &&& shader == ShaderFile::User <==> kind is Shader
    &&& pass == Pass::Smoke <==> kind is Smoke
    &&& pass == Pass::Only <==> !(kind is Smoke) && !(kind is Blur)
}

/// The step is right for its layer and its effect.
pub open spec fn step_suits(layers: Seq<LoadedLayer>, step: Step) -> bool {
    match step {
        Step::Base { layer, pipeline } => {
            &&& layer < layers.len()
            &&& layers[layer as int].chain() is Some
            &&& draws_picture_of(pipeline, layers[layer as int])
        },
        Step::Draw { layer, pipeline, accumulated } => {
            &&& layer < layers.len()
            &&& accumulated == (layers[layer as int].chain() is Some)
            &&& if accumulated {
                pipeline.spec_info().shader == ShaderFile::Image
            } else {
                draws_picture_of(pipeline, layers[layer as int])
            }
        },
        Step::Filter { layer, effect, pass, pipeline } => {
            &&& layer < layers.len()
            &&& layers[layer as int].chain() is Some
            &&& effect < layers[layer as int].chain()->0.len()
            &&& runs_pass_of(pipeline, pass, layers[layer as int].chain()->0[effect as int].kind)
        },
        Step::Blend { layer, effect, from_state } => {
            &&& layer < layers.len()
            &&& layers[layer as int].chain() is Some
            &&& effect < layers[layer as int].chain()->0.len()
            &&& from_state == (layers[layer as int].chain()->0[effect as int].kind is Smoke)
        },
        Step::CopyState { layer, effect } => {
            &&& layer < layers.len()
            &&& layers[layer as int].chain() is Some
            &&& effect < layers[layer as int].chain()->0.len()
            &&& layers[layer as int].chain()->0[effect as int].kind is Smoke
        },
        Step::Snapshot { layer } => layer < layers.len() && layers[layer as int] is Adjustment,
        Step::Replace { layer } => layer < layers.len() && layers[layer as int] is Adjustment,
        Step::Composite { .. } => true,
        Step::Text => true,
    }
}

pub open spec fn all_suit(layers: Seq<LoadedLayer>, steps: Seq<Step>) -> bool {
    forall|k: int| 0 <= k < steps.len() ==> step_suits(layers, #[trigger] steps[k])
}

proof fn all_suit_concat(layers: Seq<LoadedLayer>, a: Seq<Step>, b: Seq<Step>)
    requires
        all_suit(layers, a),
        all_suit(layers, b),
    ensures
        all_suit(layers, a + b),
{
    assert forall|k: int| 0 <= k < (a + b).len() implies step_suits(
        layers,
        #[trigger] (a + b)[k],
    ) by {
        if k < a.len() {
            assert((a + b)[k] == a[k]);
        } else {
            assert((a + b)[k] == b[k - a.len()]);
        }
    }
}

proof fn chain_suits(layers: Seq<LoadedLayer>, i: usize, n: int)
    requires
        crate::draw_plan::countable(layers),
        i < layers.len(),
        layers[i as int].chain() is Some,
        0 <= n <= layers[i as int].chain()->0.len(),
    ensures
        all_suit(layers, crate::draw_plan::chain_steps(i, layers[i as int].chain()->0, n)),
    decreases n,
{
    if n > 0 {
        chain_suits(layers, i, n - 1);
        let chain = layers[i as int].chain()->0;
        let more = crate::draw_plan::effect_steps(i, (n - 1) as usize, chain[n - 1].kind);
        assert(all_suit(layers, more));
        all_suit_concat(layers, crate::draw_plan::chain_steps(i, chain, n - 1), more);
    }
}

proof fn prepare_suits(layers: Seq<LoadedLayer>, n: int)
    requires
        crate::draw_plan::countable(layers),
        0 <= n <= layers.len(),
    ensures
        all_suit(layers, crate::draw_plan::prepare_all(layers, n)),
    decreases n,
{
    if n > 0 {
        prepare_suits(layers, n - 1);
        let k = (n - 1) as usize;
        let layer = layers[n - 1];
        if layer.has_picture() && layer.chain() is Some {
            let chain = layer.chain()->0;
            chain_suits(layers, k, chain.len() as int);
            let base = seq![
                Step::Base { layer: k, pipeline: crate::draw_plan::own_pipeline(layer, true) },
            ];
            assert(all_suit(layers, base));
            all_suit_concat(
                layers,
                base,
                crate::draw_plan::chain_steps(k, chain, chain.len() as int),
            );
        }
        all_suit_concat(
            layers,
            crate::draw_plan::prepare_all(layers, n - 1),
            crate::draw_plan::prepare_steps(k, layer),
        );
    }
}

proof fn draw_suits(layers: Seq<LoadedLayer>, n: int)
    requires
        crate::draw_plan::countable(layers),
        0 <= n <= layers.len(),
    ensures
        all_suit(layers, crate::draw_plan::draw_all(layers, n)),
    decreases n,
{
    if n > 0 {
        draw_suits(layers, n - 1);
        let k = (n - 1) as usize;
        let layer = layers[n - 1];
        if layer.has_picture() {
            assert(all_suit(layers, crate::draw_plan::draw_steps(k, layer)));
        } else if layer.chain() is Some {
            let chain = layer.chain()->0;
            chain_suits(layers, k, chain.len() as int);
            let snap = seq![Step::Snapshot { layer: k }];
            let end = seq![Step::Composite { clear: false }, Step::Replace { layer: k }];
            let steps = crate::draw_plan::chain_steps(k, chain, chain.len() as int);
            assert(all_suit(layers, snap));
            assert(all_suit(layers, end));
            all_suit_concat(layers, snap, steps);
            all_suit_concat(layers, snap + steps, end);
        }
        all_suit_concat(
            layers,
            crate::draw_plan::draw_all(layers, n - 1),
            crate::draw_plan::draw_steps(k, layer),
        );
    }
}

/// A step of a plan is a step of preparing, a step of drawing, or one of the
/// two that every plan has.
proof fn plan_splits(layers: Seq<LoadedLayer>, k: int)
    requires
        0 <= k < crate::draw_plan::plan_of(layers).len(),
    ensures
        ({
            let n = layers.len() as int;
            let first = crate::draw_plan::prepare_all(layers, n);
            let second = crate::draw_plan::draw_all(layers, n);
            let step = crate::draw_plan::plan_of(layers)[k];
            &&& crate::draw_plan::plan_of(layers).len() == first.len() + second.len() + 2
            &&& k < first.len() ==> step == first[k]
            &&& k == first.len() ==> step == (Step::Composite { clear: true })
            &&& first.len() < k < first.len() + 1 + second.len() ==> step == second[k - first.len()
                - 1]
            &&& k == first.len() + 1 + second.len() ==> step == Step::Text
        }),
{
}

/// Every layer and every effect is drawn by its own shader: each step of a plan
/// is right for the layer and the effect that it is for. An x-ray layer reveals
/// and a parallax layer pans, with effects and without.
pub proof fn plan_runs_the_right_shaders(layers: Seq<LoadedLayer>, k: int)
    requires
        crate::draw_plan::countable(layers),
        0 <= k < crate::draw_plan::plan_of(layers).len(),
    ensures
        step_suits(layers, crate::draw_plan::plan_of(layers)[k]),
{
    plan_splits(layers, k);
    prepare_suits(layers, layers.len() as int);
    draw_suits(layers, layers.len() as int);
}

/// Pipelines of one shader are bound to the same things: the x-ray shader reads
/// two pictures, the mask shader a mask, the plain one nothing but a picture,
/// and every other a picture and its parameters.
pub proof fn bindings_follow_the_shader(pipeline: Pipeline)
    ensures
        ({
            let info = pipeline.spec_info();
            &&& info.bindings == Bindings::TwoTexturesSamplerUniform <==> info.shader
                == ShaderFile::Xray
            &&& info.bindings == Bindings::TextureSamplerUniformMask <==> info.shader
                == ShaderFile::MaskBlend
            &&& info.bindings == Bindings::TextureSampler <==> info.shader == ShaderFile::Image
        }),
{
}

// --- Order -----------------------------------------------------------------

/// The layer whose picture a step puts on the canvas or takes from it.
pub open spec fn canvas_layer(step: Step) -> Option<usize> {
    match step {
        Step::Draw { layer, .. } => Some(layer),
        Step::Snapshot { layer } => Some(layer),
        Step::Replace { layer } => Some(layer),
        _ => None,
    }
}

/// Steps put layers on the canvas bottom to top, each of them once, and only
/// layers below `n`.
pub open spec fn bottom_to_top(steps: Seq<Step>, n: int) -> bool {
    &&& forall|a: int|
        0 <= a < steps.len() && canvas_layer(#[trigger] steps[a]) is Some ==> canvas_layer(
            steps[a],
        )->0 < n
    &&& forall|a: int, b: int|
        0 <= a < b < steps.len() && canvas_layer(#[trigger] steps[a]) is Some && canvas_layer(
            #[trigger] steps[b],
        ) is Some ==> {
            &&& canvas_layer(steps[a])->0 <= canvas_layer(steps[b])->0
            &&& canvas_layer(steps[a]) == canvas_layer(steps[b]) ==> steps[a] is Snapshot
                && steps[b] is Replace
        }
}

pub open spec fn off_canvas(steps: Seq<Step>) -> bool {
    forall|a: int| 0 <= a < steps.len() ==> canvas_layer(#[trigger] steps[a]) is None
}

proof fn chain_is_off_canvas(i: usize, chain: Seq<LoadedEffect>, n: int)
    ensures
        off_canvas(crate::draw_plan::chain_steps(i, chain, n)),
    decreases n,
{
    if n > 0 {
        chain_is_off_canvas(i, chain, n - 1);
    }
}

proof fn prepare_is_off_canvas(layers: Seq<LoadedLayer>, n: int)
    ensures
        off_canvas(crate::draw_plan::prepare_all(layers, n)),
    decreases n,
{
    if n > 0 {
        prepare_is_off_canvas(layers, n - 1);
        match layers[n - 1].chain() {
            Some(chain) => chain_is_off_canvas((n - 1) as usize, chain, chain.len() as int),
            None => {},
        }
    }
}

proof fn draw_is_bottom_to_top(layers: Seq<LoadedLayer>, n: int)
    requires
        0 <= n <= layers.len() <= usize::MAX,
    ensures
        bottom_to_top(crate::draw_plan::draw_all(layers, n), n),
    decreases n,
{
    if n > 0 {
        draw_is_bottom_to_top(layers, n - 1);
        let k = (n - 1) as usize;
        let before = crate::draw_plan::draw_all(layers, n - 1);
        let more = crate::draw_plan::draw_steps(k, layers[n - 1]);
        let all = crate::draw_plan::draw_all(layers, n);
        match layers[n - 1].chain() {
            Some(chain) => chain_is_off_canvas(k, chain, chain.len() as int),
            None => {},
        }
        if !layers[n - 1].has_picture() && layers[n - 1].chain() is Some {
            let chain = layers[n - 1].chain()->0;
            let steps = crate::draw_plan::chain_steps(k, chain, chain.len() as int);
            assert(more[0] == (Step::Snapshot { layer: k }));
            assert forall|a: int| 0 < a <= steps.len() implies #[trigger] more[a] == steps[a - 1] by {
            }
            assert(more[steps.len() as int + 1] == (Step::Composite { clear: false }));
            assert(more[steps.len() as int + 2] == (Step::Replace { layer: k }));
            assert(more.len() == steps.len() + 3);
        }
        assert forall|a: int|
            0 <= a < more.len() && canvas_layer(#[trigger] more[a]) is Some implies canvas_layer(
            more[a],
        ) == Some(k) by {
        }
        assert forall|a: int| 0 <= a < all.len() implies #[trigger] all[a] == (if a
            < before.len() {
            before[a]
        } else {
            more[a - before.len()]
        }) by {
        }
        assert forall|a: int, b: int|
            0 <= a < b < all.len() && canvas_layer(#[trigger] all[a]) is Some && canvas_layer(
                #[trigger] all[b],
            ) is Some implies {
            &&& canvas_layer(all[a])->0 <= canvas_layer(all[b])->0
            &&& canvas_layer(all[a]) == canvas_layer(all[b]) ==> all[a] is Snapshot
                && all[b] is Replace
        } by {
            if b < before.len() {
                assert(all[a] == before[a]);
                assert(all[b] == before[b]);
            } else if a < before.len() {
                assert(all[a] == before[a]);
                assert(all[b] == more[b - before.len()]);
            } else {
                assert(all[a] == more[a - before.len()]);
                assert(all[b] == more[b - before.len()]);
            }
        }
    }
}

/// The layers go on the canvas bottom to top, each of them once: what a plan
/// draws later lies above what it draws before, and a layer lies above all the
/// layers in front of it in the list.
pub proof fn plan_draws_bottom_to_top(layers: Seq<LoadedLayer>)
    requires
        crate::draw_plan::countable(layers),
    ensures
        bottom_to_top(crate::draw_plan::plan_of(layers), layers.len() as int),
{
    let plan = crate::draw_plan::plan_of(layers);
    let n = layers.len() as int;
    let first = crate::draw_plan::prepare_all(layers, n);
    let second = crate::draw_plan::draw_all(layers, n);
    prepare_is_off_canvas(layers, n);
    draw_is_bottom_to_top(layers, n);
    assert forall|a: int|
        0 <= a < plan.len() && canvas_layer(#[trigger] plan[a]) is Some implies first.len() < a
        < first.len() + 1 + second.len() && plan[a] == second[a - first.len() - 1] by {
        plan_splits(layers, a);
        if a < first.len() {
            assert(canvas_layer(first[a]) is None);
        }
    }
}

proof fn draw_all_holds(layers: Seq<LoadedLayer>, i: int, n: int, j: int)
    requires
        0 <= i < n <= layers.len(),
        0 <= j < crate::draw_plan::draw_steps(i as usize, layers[i]).len(),
    ensures
        exists|k: int|
            0 <= k < crate::draw_plan::draw_all(layers, n).len()
                && #[trigger] crate::draw_plan::draw_all(layers, n)[k]
                == crate::draw_plan::draw_steps(i as usize, layers[i])[j],
    decreases n,
{
    let all = crate::draw_plan::draw_all(layers, n);
    let before = crate::draw_plan::draw_all(layers, n - 1);
    let wanted = crate::draw_plan::draw_steps(i as usize, layers[i])[j];
    if i == n - 1 {
        assert(all[before.len() + j] == wanted);
    } else {
        draw_all_holds(layers, i, n - 1, j);
        let k = choose|k: int| 0 <= k < before.len() && #[trigger] before[k] == wanted;
        assert(all[k] == wanted);
    }
}

proof fn prepare_all_holds(layers: Seq<LoadedLayer>, i: int, n: int, j: int)
    requires
        0 <= i < n <= layers.len(),
        0 <= j < crate::draw_plan::prepare_steps(i as usize, layers[i]).len(),
    ensures
        exists|k: int|
            0 <= k < crate::draw_plan::prepare_all(layers, n).len()
                && #[trigger] crate::draw_plan::prepare_all(layers, n)[k]
                == crate::draw_plan::prepare_steps(i as usize, layers[i])[j],
    decreases n,
{
    let all = crate::draw_plan::prepare_all(layers, n);
    let before = crate::draw_plan::prepare_all(layers, n - 1);
    let wanted = crate::draw_plan::prepare_steps(i as usize, layers[i])[j];
    if i == n - 1 {
        assert(all[before.len() + j] == wanted);
    } else {
        prepare_all_holds(layers, i, n - 1, j);
        let k = choose|k: int| 0 <= k < before.len() && #[trigger] before[k] == wanted;
        assert(all[k] == wanted);
    }
}

/// The steps draw the layer's own picture, or what its effects have made of it.
pub open spec fn draws(steps: Seq<Step>, layer: int) -> bool {
    exists|k: int|
        0 <= k < steps.len() && (#[trigger] steps[k] matches Step::Draw { layer: l, .. } && l
            == layer)
}

/// The steps blend the output of an effect into what its layer shows.
pub open spec fn applies(steps: Seq<Step>, layer: int, effect: int) -> bool {
    exists|k: int|
        0 <= k < steps.len() && (#[trigger] steps[k] matches Step::Blend { layer: l, effect: e, .. }
            && l == layer && e == effect)
}

/// No layer with a picture is left out.
pub proof fn plan_draws_every_picture(layers: Seq<LoadedLayer>, i: int)
    requires
        crate::draw_plan::countable(layers),
        0 <= i < layers.len(),
        !(layers[i] is Text) && !(layers[i] is Adjustment),
    ensures
        draws(crate::draw_plan::plan_of(layers), i),
{
    let n = layers.len() as int;
    draw_all_holds(layers, i, n, 0);
    let first = crate::draw_plan::prepare_all(layers, n);
    let second = crate::draw_plan::draw_all(layers, n);
    let wanted = crate::draw_plan::draw_steps(i as usize, layers[i])[0];
    let k = choose|k: int| 0 <= k < second.len() && #[trigger] second[k] == wanted;
    plan_splits(layers, k + first.len() + 1);
    assert(crate::draw_plan::plan_of(layers)[k + first.len() + 1] == wanted);
}

proof fn chain_holds(i: usize, chain: Seq<LoadedEffect>, e: int, n: int) -> (k: int)
    requires
        0 <= e < n <= chain.len() <= usize::MAX,
        chain[e].enabled,
    ensures
        0 <= k < crate::draw_plan::chain_steps(i, chain, n).len(),
        crate::draw_plan::chain_steps(i, chain, n)[k] matches Step::Blend { layer, effect, .. }
            && layer == i && effect == e,
    decreases n,
{
    let before = crate::draw_plan::chain_steps(i, chain, n - 1);
    if e < n - 1 {
        let k = chain_holds(i, chain, e, n - 1);
        assert(crate::draw_plan::chain_steps(i, chain, n)[k] == before[k]);
        k
    } else {
        let more = crate::draw_plan::effect_steps(i, (n - 1) as usize, chain[n - 1].kind);
        let k = before.len() + more.len() - 1;
        assert(crate::draw_plan::chain_steps(i, chain, n)[k] == more[more.len() - 1]);
        k
    }
}

/// No effect that is switched on is left out: of a picture, or of what lies
/// below an adjustment layer.
pub proof fn plan_applies_every_effect(layers: Seq<LoadedLayer>, i: int, e: int)
    requires
        crate::draw_plan::countable(layers),
        0 <= i < layers.len(),
        layers[i].chain() is Some,
        0 <= e < layers[i].chain()->0.len(),
        layers[i].chain()->0[e].enabled,
    ensures
        applies(crate::draw_plan::plan_of(layers), i, e),
{
    let n = layers.len() as int;
    let chain = layers[i].chain()->0;
    let steps = crate::draw_plan::chain_steps(i as usize, chain, chain.len() as int);
    let at = chain_holds(i as usize, chain, e, chain.len() as int);
    let first = crate::draw_plan::prepare_all(layers, n);
    let second = crate::draw_plan::draw_all(layers, n);
    let plan = crate::draw_plan::plan_of(layers);
    if layers[i].has_picture() {
        let own = crate::draw_plan::prepare_steps(i as usize, layers[i]);
        assert(own[at + 1] == steps[at]);
        prepare_all_holds(layers, i, n, at + 1);
        let k = choose|k: int| 0 <= k < first.len() && #[trigger] first[k] == own[at + 1];
        plan_splits(layers, k);
        assert(plan[k] == steps[at]);
    } else {
        let own = crate::draw_plan::draw_steps(i as usize, layers[i]);
        assert(own[at + 1] == steps[at]);
        draw_all_holds(layers, i, n, at + 1);
        let k = choose|k: int| 0 <= k < second.len() && #[trigger] second[k] == own[at + 1];
        plan_splits(layers, k + first.len() + 1);
        assert(plan[k + first.len() + 1] == steps[at]);
    }
}

/// The layer that the effect of a step belongs to.
pub open spec fn effects_layer(step: Step) -> usize {
    let (layer, _) = crate::draw_plan::step_effect(step)->0;
    layer
}

/// The place in its stack of the effect that a step belongs to.
pub open spec fn effects_place(step: Step) -> usize {
    let (_, place) = crate::draw_plan::step_effect(step)->0;
    place
}

/// Steps of one layer's effects come in the order of the effects.
pub open spec fn effects_in_order(steps: Seq<Step>) -> bool {
    forall|a: int, b: int|
        0 <= a < b < steps.len() && crate::draw_plan::step_effect(#[trigger] steps[a]) is Some
            && crate::draw_plan::step_effect(#[trigger] steps[b]) is Some
            && effects_layer(steps[a]) == effects_layer(steps[b]) ==> effects_place(steps[a]) <= effects_place(steps[b])
}

/// The effects that the steps belong to are those of one layer, below `n`.
pub open spec fn of_layer(steps: Seq<Step>, i: int, n: int) -> bool {
    forall|a: int|
        0 <= a < steps.len() && crate::draw_plan::step_effect(#[trigger] steps[a]) is Some
            ==> effects_layer(steps[a]) == i && effects_place(steps[a]) < n
}

proof fn chain_in_order(i: usize, chain: Seq<LoadedEffect>, n: int)
    requires
        0 <= n <= chain.len() <= usize::MAX,
    ensures
        effects_in_order(crate::draw_plan::chain_steps(i, chain, n)),
        of_layer(crate::draw_plan::chain_steps(i, chain, n), i as int, n),
    decreases n,
{
    if n > 0 {
        chain_in_order(i, chain, n - 1);
        let before = crate::draw_plan::chain_steps(i, chain, n - 1);
        let all = crate::draw_plan::chain_steps(i, chain, n);
        let more = if chain[n - 1].enabled {
            crate::draw_plan::effect_steps(i, (n - 1) as usize, chain[n - 1].kind)
        } else {
            seq![]
        };
        assert(all =~= before + more);
        assert forall|a: int| 0 <= a < more.len() implies crate::draw_plan::step_effect(
            #[trigger] more[a],
        ) == Some((i, (n - 1) as usize)) by {
        }
        assert forall|a: int| 0 <= a < all.len() implies #[trigger] all[a] == (if a
            < before.len() {
            before[a]
        } else {
            more[a - before.len()]
        }) by {
        }
        assert forall|a: int, b: int|
            0 <= a < b < all.len() && crate::draw_plan::step_effect(#[trigger] all[a]) is Some
                && crate::draw_plan::step_effect(#[trigger] all[b]) is Some
                && effects_layer(all[a]) == effects_layer(all[b]) implies effects_place(all[a])
            <= effects_place(all[b]) by {
            if b < before.len() {
                assert(all[a] == before[a]);
                assert(all[b] == before[b]);
            } else if a < before.len() {
                assert(all[a] == before[a]);
            } else {
                assert(all[a] == more[a - before.len()]);
            }
        }
    }
}

/// Every effect's steps belong to layers below `n` that have a picture, or to
/// layers that have none.
pub open spec fn of_layers(
    layers: Seq<LoadedLayer>,
    steps: Seq<Step>,
    n: int,
    pictures: bool,
) -> bool {
    forall|a: int|
        0 <= a < steps.len() && crate::draw_plan::step_effect(#[trigger] steps[a]) is Some ==> {
            &&& effects_layer(steps[a]) < n
            &&& layers[effects_layer(steps[a]) as int].has_picture()
                == pictures
        }
}

proof fn joined_in_order(
    layers: Seq<LoadedLayer>,
    before: Seq<Step>,
    more: Seq<Step>,
    n: int,
    pictures: bool,
)
    requires
        1 <= n <= layers.len() <= usize::MAX,
        effects_in_order(before),
        effects_in_order(more),
        of_layers(layers, before, n - 1, pictures),
        of_layer(more, n - 1, usize::MAX + 1),
        layers[n - 1].has_picture() == pictures || more.len() == 0,
    ensures
        effects_in_order(before + more),
        of_layers(layers, before + more, n, pictures),
{
    let all = before + more;
    assert forall|a: int| 0 <= a < all.len() implies #[trigger] all[a] == (if a < before.len() {
        before[a]
    } else {
        more[a - before.len()]
    }) by {
    }
    assert forall|a: int, b: int|
        0 <= a < b < all.len() && crate::draw_plan::step_effect(#[trigger] all[a]) is Some
            && crate::draw_plan::step_effect(#[trigger] all[b]) is Some
            && effects_layer(all[a]) == effects_layer(all[b]) implies effects_place(all[a]) <= effects_place(all[b]) by {
        if b < before.len() {
            assert(all[a] == before[a]);
            assert(all[b] == before[b]);
        } else if a < before.len() {
            assert(all[a] == before[a]);
            assert(all[b] == more[b - before.len()]);
        } else {
            assert(all[a] == more[a - before.len()]);
            assert(all[b] == more[b - before.len()]);
        }
    }
}

proof fn framed_in_order(front: Seq<Step>, steps: Seq<Step>, back: Seq<Step>, i: int)
    requires
        effects_in_order(steps),
        of_layer(steps, i, usize::MAX + 1),
        forall|a: int|
            0 <= a < front.len() ==> crate::draw_plan::step_effect(#[trigger] front[a]) is None,
        forall|a: int|
            0 <= a < back.len() ==> crate::draw_plan::step_effect(#[trigger] back[a]) is None,
    ensures
        effects_in_order(front + steps + back),
        of_layer(front + steps + back, i, usize::MAX + 1),
{
    let all = front + steps + back;
    assert forall|a: int|
        0 <= a < all.len() && crate::draw_plan::step_effect(#[trigger] all[a]) is Some implies 0
        <= a - front.len() < steps.len() && all[a] == steps[a - front.len()] by {
        if a < front.len() {
            assert(all[a] == front[a]);
        } else if a >= front.len() + steps.len() {
            assert(all[a] == back[a - front.len() - steps.len()]);
        }
    }
}

proof fn prepare_in_order(layers: Seq<LoadedLayer>, n: int)
    requires
        crate::draw_plan::countable(layers),
        0 <= n <= layers.len(),
    ensures
        effects_in_order(crate::draw_plan::prepare_all(layers, n)),
        of_layers(layers, crate::draw_plan::prepare_all(layers, n), n, true),
    decreases n,
{
    if n > 0 {
        prepare_in_order(layers, n - 1);
        let k = (n - 1) as usize;
        let layer = layers[n - 1];
        let more = crate::draw_plan::prepare_steps(k, layer);
        if layer.has_picture() && layer.chain() is Some {
            let chain = layer.chain()->0;
            let steps = crate::draw_plan::chain_steps(k, chain, chain.len() as int);
            let base = seq![
                Step::Base { layer: k, pipeline: crate::draw_plan::own_pipeline(layer, true) },
            ];
            chain_in_order(k, chain, chain.len() as int);
            framed_in_order(base, steps, seq![], n - 1);
            assert(more =~= base + steps + seq![]);
        }
        joined_in_order(layers, crate::draw_plan::prepare_all(layers, n - 1), more, n, true);
    }
}

proof fn draw_in_order(layers: Seq<LoadedLayer>, n: int)
    requires
        crate::draw_plan::countable(layers),
        0 <= n <= layers.len(),
    ensures
        effects_in_order(crate::draw_plan::draw_all(layers, n)),
        of_layers(layers, crate::draw_plan::draw_all(layers, n), n, false),
    decreases n,
{
    if n > 0 {
        draw_in_order(layers, n - 1);
        let k = (n - 1) as usize;
        let layer = layers[n - 1];
        let before = crate::draw_plan::draw_all(layers, n - 1);
        let more = crate::draw_plan::draw_steps(k, layer);
        if layer.has_picture() {
            assert(crate::draw_plan::step_effect(more[0]) is None);
            let all = crate::draw_plan::draw_all(layers, n);
            assert(all =~= before.push(more[0]));
            assert forall|a: int| 0 <= a < before.len() implies #[trigger] all[a] == before[a] by {
            }
        } else {
            if layer.chain() is Some {
                let chain = layer.chain()->0;
                let steps = crate::draw_plan::chain_steps(k, chain, chain.len() as int);
                chain_in_order(k, chain, chain.len() as int);
                framed_in_order(
                    seq![Step::Snapshot { layer: k }],
                    steps,
                    seq![Step::Composite { clear: false }, Step::Replace { layer: k }],
                    n - 1,
                );
            }
            joined_in_order(layers, before, more, n, false);
        }
    }
}

/// A layer's effects work on each other's outcome in the order of its stack.
pub proof fn plan_keeps_the_order_of_effects(layers: Seq<LoadedLayer>)
    requires
        crate::draw_plan::countable(layers),
    ensures
        effects_in_order(crate::draw_plan::plan_of(layers)),
{
    let n = layers.len() as int;
    let plan = crate::draw_plan::plan_of(layers);
    let first = crate::draw_plan::prepare_all(layers, n);
    let second = crate::draw_plan::draw_all(layers, n);
    prepare_in_order(layers, n);
    draw_in_order(layers, n);
    assert forall|a: int, b: int|
        0 <= a < b < plan.len() && crate::draw_plan::step_effect(#[trigger] plan[a]) is Some
            && crate::draw_plan::step_effect(#[trigger] plan[b]) is Some
            && effects_layer(plan[a]) == effects_layer(plan[b]) implies effects_place(plan[a])
        <= effects_place(plan[b]) by {
        plan_splits(layers, a);
        plan_splits(layers, b);
        if a < first.len() && b > first.len() {
            assert(layers[effects_layer(first[a]) as int].has_picture());
            assert(!layers[effects_layer(second[b - first.len() - 1]) as int].has_picture());
        }
    }
}

} // verus!
