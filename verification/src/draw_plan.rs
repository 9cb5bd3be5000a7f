//! How a frame is drawn: the passes in their order, and what they leave on
//! the canvas.

use vstd::prelude::*;

use crate::scene::{LoadedEffect, LoadedEffectKind, LoadedLayer, SceneRenderer};

verus! {

/// A pipeline that draws one full-canvas triangle.
#[derive(Debug, Clone, Copy, PartialEq, Eq, Structural)]
pub enum Pipeline {
    Image,
    ImageOffscreen,
    ImageReplace,
    Xray,
    XrayOffscreen,
    Parallax,
    ParallaxOffscreen,
    Vignette,
    ColorAdjust,
    Blur,
    Smoke,
    Shader,
    MaskBlend,
}

/// The shader of a pipeline.
#[derive(Debug, Clone, Copy, PartialEq, Eq, Structural)]
pub enum ShaderFile {
    Image,
    Xray,
    Parallax,
    Vignette,
    ColorAdjust,
    Blur,
    Smoke,
    MaskBlend,
    /// The one of a shader effect's own file.
    User,
}

/// What a pipeline's bindings hold, in the order of their numbers.
#[derive(Debug, Clone, Copy, PartialEq, Eq, Structural)]
pub enum Bindings {
    /// A texture and a sampler.
    TextureSampler,
    /// A texture, a sampler and a uniform buffer.
    TextureSamplerUniform,
    /// Two textures, a sampler and a uniform buffer.
    TwoTexturesSamplerUniform,
    /// A texture, a sampler, a uniform buffer and a mask's texture.
    TextureSamplerUniformMask,
}

/// How a pipeline is built.
#[derive(Debug, Clone, Copy, PartialEq, Eq, Structural)]
pub struct PipelineInfo {
    pub shader: ShaderFile,
    pub bindings: Bindings,
    /// Whether it draws into a layer's own textures rather than on the canvas.
    pub offscreen: bool,
    /// Whether it blends with what is there, rather than replacing it.
    pub blends: bool,
}

impl Pipeline {
    pub open spec fn spec_info(self) -> PipelineInfo {
        let (shader, bindings, offscreen, blends) = match self {
            Pipeline::Image => (ShaderFile::Image, Bindings::TextureSampler, false, true),
            Pipeline::ImageOffscreen => (ShaderFile::Image, Bindings::TextureSampler, true, false),
            Pipeline::ImageReplace => (ShaderFile::Image, Bindings::TextureSampler, false, false),
            Pipeline::Xray => (ShaderFile::Xray, Bindings::TwoTexturesSamplerUniform, false, true),
            Pipeline::XrayOffscreen => (
                ShaderFile::Xray,
                Bindings::TwoTexturesSamplerUniform,
                true,
                false,
            ),
            Pipeline::Parallax => (
                ShaderFile::Parallax,
                Bindings::TextureSamplerUniform,
                false,
                true,
            ),
            Pipeline::ParallaxOffscreen => (
                ShaderFile::Parallax,
                Bindings::TextureSamplerUniform,
                true,
                false,
            ),
            Pipeline::Vignette => (
                ShaderFile::Vignette,
                Bindings::TextureSamplerUniform,
                true,
                false,
            ),
            Pipeline::ColorAdjust => (
                ShaderFile::ColorAdjust,
                Bindings::TextureSamplerUniform,
                true,
                false,
            ),
            Pipeline::Blur => (ShaderFile::Blur, Bindings::TextureSamplerUniform, true, false),
            Pipeline::Smoke => (ShaderFile::Smoke, Bindings::TextureSamplerUniform, true, false),
            Pipeline::Shader => (ShaderFile::User, Bindings::TextureSamplerUniform, true, false),
            Pipeline::MaskBlend => (
                ShaderFile::MaskBlend,
                Bindings::TextureSamplerUniformMask,
                true,
                true,
            ),
        };
        PipelineInfo { shader, bindings, offscreen, blends }
    }

    /// How the pipeline is built.
    pub fn info(&self) -> (r: PipelineInfo)
        ensures
            r == self.spec_info(),
    {
        let (shader, bindings, offscreen, blends) = match self {
            Pipeline::Image => (ShaderFile::Image, Bindings::TextureSampler, false, true),
            Pipeline::ImageOffscreen => (ShaderFile::Image, Bindings::TextureSampler, true, false),
            Pipeline::ImageReplace => (ShaderFile::Image, Bindings::TextureSampler, false, false),
            Pipeline::Xray => (ShaderFile::Xray, Bindings::TwoTexturesSamplerUniform, false, true),
            Pipeline::XrayOffscreen => (
                ShaderFile::Xray,
                Bindings::TwoTexturesSamplerUniform,
                true,
                false,
            ),
            Pipeline::Parallax => (
                ShaderFile::Parallax,
                Bindings::TextureSamplerUniform,
                false,
                true,
            ),
            Pipeline::ParallaxOffscreen => (
                ShaderFile::Parallax,
                Bindings::TextureSamplerUniform,
                true,
                false,
            ),
            Pipeline::Vignette => (
                ShaderFile::Vignette,
                Bindings::TextureSamplerUniform,
                true,
                false,
            ),
            Pipeline::ColorAdjust => (
                ShaderFile::ColorAdjust,
                Bindings::TextureSamplerUniform,
                true,
                false,
            ),
            Pipeline::Blur => (ShaderFile::Blur, Bindings::TextureSamplerUniform, true, false),
            Pipeline::Smoke => (ShaderFile::Smoke, Bindings::TextureSamplerUniform, true, false),
            Pipeline::Shader => (ShaderFile::User, Bindings::TextureSamplerUniform, true, false),
            Pipeline::MaskBlend => (
                ShaderFile::MaskBlend,
                Bindings::TextureSamplerUniformMask,
                true,
                true,
            ),
        };
        PipelineInfo { shader, bindings, offscreen, blends }
    }
}

/// A pass of an effect.
#[derive(Debug, Clone, Copy, PartialEq, Eq, Structural)]
pub enum Pass {
    /// The only pass of an effect: from the accumulator to the scratch
    /// texture.
    Only,
    /// The first pass of a blur: from the accumulator to the blur's own
    /// texture.
    Horizontal,
    /// The second pass of a blur: from there to the scratch texture.
    Vertical,
    /// The pass of a smoke effect: from the copy of its state to its state.
    Smoke,
}

/// One step of drawing a frame.
#[derive(Debug, Clone, Copy, PartialEq, Eq, Structural)]
pub enum Step {
    /// Clears a layer's accumulator and draws the layer's own picture there.
    Base { layer: usize, pipeline: Pipeline },
    /// Clears the texture that the pass writes, and runs the pass.
    Filter { layer: usize, effect: usize, pass: Pass, pipeline: Pipeline },
    /// Copies a smoke effect's state, so that the pass can read it.
    CopyState { layer: usize, effect: usize },
    /// Blends an effect's output into the layer's accumulator by the effect's
    /// mask.
    Blend { layer: usize, effect: usize, from_state: bool },
    /// Begins to draw on the canvas, cleared or as it is.
    Composite { clear: bool },
    /// Draws a layer on the canvas: its own picture, or its accumulator.
    Draw { layer: usize, pipeline: Pipeline, accumulated: bool },
    /// Copies the canvas to a layer's accumulator.
    Snapshot { layer: usize },
    /// Draws a layer's accumulator on the canvas in place of what is there.
    Replace { layer: usize },
    /// Draws every text layer on the canvas.
    Text,
}

// --- What a plan is --------------------------------------------------------

/// The pipeline that draws a layer's own picture.
pub open spec fn own_pipeline(layer: LoadedLayer, offscreen: bool) -> Pipeline {
    match layer {
        LoadedLayer::Xray { .. } => if offscreen {
            Pipeline::XrayOffscreen
        } else {
            Pipeline::Xray
        },
        LoadedLayer::Parallax { .. } => if offscreen {
            Pipeline::ParallaxOffscreen
        } else {
            Pipeline::Parallax
        },
        _ => if offscreen {
            Pipeline::ImageOffscreen
        } else {
            Pipeline::Image
        },
    }
}

/// The steps of one effect that is switched on.
pub open spec fn effect_steps(layer: usize, effect: usize, kind: LoadedEffectKind) -> Seq<Step> {
    match kind {
        LoadedEffectKind::Vignette => seq![
            Step::Filter { layer, effect, pass: Pass::Only, pipeline: Pipeline::Vignette },
            Step::Blend { layer, effect, from_state: false },
        ],
        LoadedEffectKind::ColorAdjust => seq![
            Step::Filter { layer, effect, pass: Pass::Only, pipeline: Pipeline::ColorAdjust },
            Step::Blend { layer, effect, from_state: false },
        ],
        LoadedEffectKind::Shader { .. } => seq![
            Step::Filter { layer, effect, pass: Pass::Only, pipeline: Pipeline::Shader },
            Step::Blend { layer, effect, from_state: false },
        ],
        LoadedEffectKind::Blur => seq![
            Step::Filter { layer, effect, pass: Pass::Horizontal, pipeline: Pipeline::Blur },
            Step::Filter { layer, effect, pass: Pass::Vertical, pipeline: Pipeline::Blur },
            Step::Blend { layer, effect, from_state: false },
        ],
        LoadedEffectKind::Smoke(_) => seq![
            Step::CopyState { layer, effect },
            Step::Filter { layer, effect, pass: Pass::Smoke, pipeline: Pipeline::Smoke },
            Step::Blend { layer, effect, from_state: true },
        ],
    }
}

/// The steps of the first `n` effects of a layer.
pub open spec fn chain_steps(layer: usize, chain: Seq<LoadedEffect>, n: int) -> Seq<Step>
    decreases n,
{
    if n <= 0 {
        seq![]
    } else {
        let before = chain_steps(layer, chain, n - 1);
        if chain[n - 1].enabled {
            before + effect_steps(layer, (n - 1) as usize, chain[n - 1].kind)
        } else {
            before
        }
    }
}

/// The steps that a layer needs before the canvas is drawn on: with effects,
/// its own picture goes through them.
pub open spec fn prepare_steps(i: usize, layer: LoadedLayer) -> Seq<Step> {
    match layer.chain() {
        Some(chain) => if layer.has_picture() {
            seq![Step::Base { layer: i, pipeline: own_pipeline(layer, true) }] + chain_steps(
                i,
                chain,
                chain.len() as int,
            )
        } else {
            seq![]
        },
        None => seq![],
    }
}

/// The steps that the first `n` layers need before the canvas is drawn on.
pub open spec fn prepare_all(layers: Seq<LoadedLayer>, n: int) -> Seq<Step>
    decreases n,
{
    if n <= 0 {
        seq![]
    } else {
        prepare_all(layers, n - 1) + prepare_steps((n - 1) as usize, layers[n - 1])
    }
}

/// The steps that put a layer on the canvas.
pub open spec fn draw_steps(i: usize, layer: LoadedLayer) -> Seq<Step> {
    if layer.has_picture() {
        match layer.chain() {
            Some(_) => seq![Step::Draw { layer: i, pipeline: Pipeline::Image, accumulated: true }],
            None => seq![
                Step::Draw {
                    layer: i,
                    pipeline: own_pipeline(layer, false),
                    accumulated: false,
                },
            ],
        }
    } else {
        match layer.chain() {
            Some(chain) => seq![Step::Snapshot { layer: i }] + chain_steps(
                i,
                chain,
                chain.len() as int,
            ) + seq![Step::Composite { clear: false }, Step::Replace { layer: i }],
            None => seq![],
        }
    }
}

/// The steps that put the first `n` layers on the canvas.
pub open spec fn draw_all(layers: Seq<LoadedLayer>, n: int) -> Seq<Step>
    decreases n,
{
    if n <= 0 {
        seq![]
    } else {
        draw_all(layers, n - 1) + draw_steps((n - 1) as usize, layers[n - 1])
    }
}

/// The steps that draw a frame of a scene.
pub open spec fn plan_of(layers: Seq<LoadedLayer>) -> Seq<Step> {
    prepare_all(layers, layers.len() as int).push(Step::Composite { clear: true }) + draw_all(
        layers,
        layers.len() as int,
    ).push(Step::Text)
}

// --- Making a plan ---------------------------------------------------------

fn own_pipeline_of(layer: &LoadedLayer, offscreen: bool) -> (r: Pipeline)
    ensures
        r == own_pipeline(*layer, offscreen),
{
    match layer {
        LoadedLayer::Xray { .. } => if offscreen {
            Pipeline::XrayOffscreen
        } else {
            Pipeline::Xray
        },
        LoadedLayer::Parallax { .. } => if offscreen {
            Pipeline::ParallaxOffscreen
        } else {
            Pipeline::Parallax
        },
        _ => if offscreen {
            Pipeline::ImageOffscreen
        } else {
            Pipeline::Image
        },
    }
}

fn push_effect(steps: &mut Vec<Step>, layer: usize, effect: usize, kind: &LoadedEffectKind)
    ensures
        final(steps)@ == old(steps)@ + effect_steps(layer, effect, *kind),
{
    let from_state = match kind {
        LoadedEffectKind::Vignette => {
            steps.push(
                Step::Filter { layer, effect, pass: Pass::Only, pipeline: Pipeline::Vignette },
            );
            false
        },
        LoadedEffectKind::ColorAdjust => {
            steps.push(
                Step::Filter { layer, effect, pass: Pass::Only, pipeline: Pipeline::ColorAdjust },
            );
            false
        },
        LoadedEffectKind::Shader { .. } => {
            steps.push(
                Step::Filter { layer, effect, pass: Pass::Only, pipeline: Pipeline::Shader },
            );
            false
        },
        LoadedEffectKind::Blur => {
            steps.push(
                Step::Filter { layer, effect, pass: Pass::Horizontal, pipeline: Pipeline::Blur },
            );
            steps.push(
                Step::Filter { layer, effect, pass: Pass::Vertical, pipeline: Pipeline::Blur },
            );
            false
        },
        LoadedEffectKind::Smoke(_) => {
            steps.push(Step::CopyState { layer, effect });
            steps.push(
                Step::Filter { layer, effect, pass: Pass::Smoke, pipeline: Pipeline::Smoke },
            );
            true
        },
    };
    steps.push(Step::Blend { layer, effect, from_state });
    assert(steps@ =~= old(steps)@ + effect_steps(layer, effect, *kind));
}

fn push_chain(steps: &mut Vec<Step>, layer: usize, chain: &Vec<LoadedEffect>)
    ensures
        final(steps)@ == old(steps)@ + chain_steps(layer, chain@, chain@.len() as int),
{
    let ghost before = steps@;
    let mut k: usize = 0;
    assert(before + chain_steps(layer, chain@, 0) =~= before);
    while k < chain.len()
        invariant
            k <= chain@.len(),
            steps@ == before + chain_steps(layer, chain@, k as int),
        decreases chain.len() - k,
    {
        if chain[k].enabled {
            push_effect(steps, layer, k, &chain[k].kind);
        }
        assert(steps@ =~= before + chain_steps(layer, chain@, k as int + 1));
        k += 1;
    }
}

fn has_picture(layer: &LoadedLayer) -> (r: bool)
    ensures
        r == layer.has_picture(),
{
    match layer {
        LoadedLayer::Text(_) | LoadedLayer::Adjustment { .. } => false,
        _ => true,
    }
}

fn push_prepare(steps: &mut Vec<Step>, i: usize, layer: &LoadedLayer)
    ensures
        final(steps)@ == old(steps)@ + prepare_steps(i, *layer),
{
    match layer.effects() {
        Some(chain) => {
            if has_picture(layer) {
                steps.push(Step::Base { layer: i, pipeline: own_pipeline_of(layer, true) });
                push_chain(steps, i, chain);
            }
        },
        None => {},
    }
    assert(steps@ =~= old(steps)@ + prepare_steps(i, *layer));
}

fn push_draw(steps: &mut Vec<Step>, i: usize, layer: &LoadedLayer)
    ensures
        final(steps)@ == old(steps)@ + draw_steps(i, *layer),
{
    match layer.effects() {
        Some(chain) => {
            if has_picture(layer) {
                steps.push(
                    Step::Draw { layer: i, pipeline: Pipeline::Image, accumulated: true },
                );
            } else {
                steps.push(Step::Snapshot { layer: i });
                push_chain(steps, i, chain);
                steps.push(Step::Composite { clear: false });
                steps.push(Step::Replace { layer: i });
            }
        },
        None => {
            if has_picture(layer) {
                steps.push(
                    Step::Draw {
                        layer: i,
                        pipeline: own_pipeline_of(layer, false),
                        accumulated: false,
                    },
                );
            }
        },
    }
    assert(steps@ =~= old(steps)@ + draw_steps(i, *layer));
}

impl SceneRenderer {
    /// The steps that draw a frame: first every layer with effects goes
    /// through them, then the layers are put on the canvas bottom to top, and
    /// the text on top of them.
    pub fn record_draw(&self, layers: &Vec<LoadedLayer>) -> (steps: Vec<Step>)
        ensures
            steps@ == plan_of(layers@),
    {
        let mut steps: Vec<Step> = Vec::new();
        let mut i: usize = 0;
        assert(steps@ =~= prepare_all(layers@, 0));
        while i < layers.len()
            invariant
                i <= layers@.len(),
                steps@ == prepare_all(layers@, i as int),
            decreases layers.len() - i,
        {
            push_prepare(&mut steps, i, &layers[i]);
            i += 1;
        }
        steps.push(Step::Composite { clear: true });
        let ghost prepared = steps@;
        let mut k: usize = 0;
        assert(prepared + draw_all(layers@, 0) =~= prepared);
        while k < layers.len()
            invariant
                k <= layers@.len(),
                steps@ == prepared + draw_all(layers@, k as int),
            decreases layers.len() - k,
        {
            push_draw(&mut steps, k, &layers[k]);
            assert(steps@ =~= prepared + draw_all(layers@, k as int + 1));
            k += 1;
        }
        steps.push(Step::Text);
        assert(steps@ =~= plan_of(layers@));
        steps
    }
}

// --- What a plan draws -----------------------------------------------------

/// A texture that the steps read and write.
pub enum Texture {
    Canvas,
    Accumulator { layer: usize },
    Scratch { layer: usize },
    BlurTemp { layer: usize },
    SmokeState { layer: usize, effect: usize },
    SmokeCopy { layer: usize, effect: usize },
}

/// A picture, by how it came about.
pub enum Picture {
    Blank,
    /// A layer's own picture.
    Own { layer: usize },
    /// What a pass of an effect makes of a picture.
    Filtered { layer: usize, effect: usize, pass: Pass, input: Box<Picture> },
    /// An effect's output blended over a picture by the effect's mask.
    Blended { layer: usize, effect: usize, under: Box<Picture>, output: Box<Picture> },
    /// A picture with another one on top.
    Over { under: Box<Picture>, top: Box<Picture> },
    /// A picture with the text layers on top.
    WithText { under: Box<Picture> },
}

/// What the textures hold.
pub type Textures = spec_fn(Texture) -> Picture;

pub open spec fn put(s: Textures, at: Texture, p: Picture) -> Textures {
    |t: Texture|
        if t == at {
            p
        } else {
            s(t)
        }
}

/// The texture that a step writes.
pub open spec fn written(step: Step) -> Texture {
    match step {
        Step::Base { layer, .. } => Texture::Accumulator { layer },
        Step::Filter { layer, effect, pass, .. } => match pass {
            Pass::Only => Texture::Scratch { layer },
            Pass::Horizontal => Texture::BlurTemp { layer },
            Pass::Vertical => Texture::Scratch { layer },
            Pass::Smoke => Texture::SmokeState { layer, effect },
        },
        Step::CopyState { layer, effect } => Texture::SmokeCopy { layer, effect },
        Step::Blend { layer, .. } => Texture::Accumulator { layer },
        Step::Composite { .. } => Texture::Canvas,
        Step::Draw { .. } => Texture::Canvas,
        Step::Snapshot { layer } => Texture::Accumulator { layer },
        Step::Replace { .. } => Texture::Canvas,
        Step::Text => Texture::Canvas,
    }
}

/// The texture that a step reads, if it reads one of these.
pub open spec fn sampled(step: Step) -> Option<Texture> {
    match step {
        Step::Base { .. } => None,
        Step::Filter { layer, effect, pass, .. } => match pass {
            Pass::Only => Some(Texture::Accumulator { layer }),
            Pass::Horizontal => Some(Texture::Accumulator { layer }),
            Pass::Vertical => Some(Texture::BlurTemp { layer }),
            Pass::Smoke => Some(Texture::SmokeCopy { layer, effect }),
        },
        Step::CopyState { layer, effect } => Some(Texture::SmokeState { layer, effect }),
        Step::Blend { layer, effect, from_state } => if from_state {
            Some(Texture::SmokeState { layer, effect })
        } else {
            Some(Texture::Scratch { layer })
        },
        Step::Composite { .. } => None,
        Step::Draw { layer, accumulated, .. } => if accumulated {
            Some(Texture::Accumulator { layer })
        } else {
            None
        },
        Step::Snapshot { .. } => Some(Texture::Canvas),
        Step::Replace { layer } => Some(Texture::Accumulator { layer }),
        Step::Text => None,
    }
}

/// The picture that a step leaves in the texture that it writes.
pub open spec fn made(s: Textures, step: Step) -> Picture {
    match step {
        Step::Base { layer, .. } => Picture::Own { layer },
        Step::Filter { layer, effect, pass, .. } => Picture::Filtered {
            layer,
            effect,
            pass,
            input: Box::new(s(sampled(step)->0)),
        },
        Step::CopyState { .. } => s(sampled(step)->0),
        Step::Blend { layer, effect, .. } => Picture::Blended {
            layer,
            effect,
            under: Box::new(s(Texture::Accumulator { layer })),
            output: Box::new(s(sampled(step)->0)),
        },
        Step::Composite { clear } => if clear {
            Picture::Blank
        } else {
            s(Texture::Canvas)
        },
        Step::Draw { layer, accumulated, .. } => Picture::Over {
            under: Box::new(s(Texture::Canvas)),
            top: Box::new(
                if accumulated {
                    s(Texture::Accumulator { layer })
                } else {
                    Picture::Own { layer }
                },
            ),
        },
        Step::Snapshot { .. } => s(Texture::Canvas),
        Step::Replace { layer } => s(Texture::Accumulator { layer }),
        Step::Text => Picture::WithText { under: Box::new(s(Texture::Canvas)) },
    }
}

/// What the textures hold after the steps.
pub open spec fn run(s: Textures, steps: Seq<Step>) -> Textures
    decreases steps.len(),
{
    if steps.len() == 0 {
        s
    } else {
        let before = run(s, steps.drop_last());
        put(before, written(steps.last()), made(before, steps.last()))
    }
}

/// What an effect makes of the picture that a layer has reached.
pub open spec fn effect_output(
    s: Textures,
    layer: usize,
    effect: usize,
    kind: LoadedEffectKind,
    input: Picture,
) -> Picture {
    match kind {
        LoadedEffectKind::Blur => Picture::Filtered {
            layer,
            effect,
            pass: Pass::Vertical,
            input: Box::new(
                Picture::Filtered { layer, effect, pass: Pass::Horizontal, input: Box::new(input) },
            ),
        },
        LoadedEffectKind::Smoke(_) => Picture::Filtered {
            layer,
            effect,
            pass: Pass::Smoke,
            input: Box::new(s(Texture::SmokeState { layer, effect })),
        },
        _ => Picture::Filtered { layer, effect, pass: Pass::Only, input: Box::new(input) },
    }
}

/// What the first `n` effects of a layer make of a picture: each that is
/// switched on is blended over what the ones before it left.
pub open spec fn chain_picture(
    s: Textures,
    layer: usize,
    chain: Seq<LoadedEffect>,
    base: Picture,
    n: int,
) -> Picture
    decreases n,
{
    if n <= 0 {
        base
    } else {
        let before = chain_picture(s, layer, chain, base, n - 1);
        if chain[n - 1].enabled {
            Picture::Blended {
                layer,
                effect: (n - 1) as usize,
                under: Box::new(before),
                output: Box::new(
                    effect_output(s, layer, (n - 1) as usize, chain[n - 1].kind, before),
                ),
            }
        } else {
            before
        }
    }
}

/// What the first `n` layers show: each picture over the ones below it, after
/// its effects; an adjustment layer's effects made of all that is below it. A
/// text layer shows nothing here.
pub open spec fn stack_picture(s: Textures, layers: Seq<LoadedLayer>, n: int) -> Picture
    decreases n,
{
    if n <= 0 {
        Picture::Blank
    } else {
        let i = (n - 1) as usize;
        let layer = layers[n - 1];
        let below = stack_picture(s, layers, n - 1);
        if layer.has_picture() {
            let own = Picture::Own { layer: i };
            Picture::Over {
                under: Box::new(below),
                top: Box::new(
                    match layer.chain() {
                        Some(chain) => chain_picture(s, i, chain, own, chain.len() as int),
                        None => own,
                    },
                ),
            }
        } else {
            match layer.chain() {
                Some(chain) => chain_picture(s, i, chain, below, chain.len() as int),
                None => below,
            }
        }
    }
}

/// What a scene shows, with smoke as the last frame left it in `s`.
pub open spec fn scene_picture(s: Textures, layers: Seq<LoadedLayer>) -> Picture {
    Picture::WithText { under: Box::new(stack_picture(s, layers, layers.len() as int)) }
}

// --- Laws ------------------------------------------------------------------

/// The texture is one of the layer's.
pub open spec fn belongs(t: Texture, i: usize) -> bool {
    match t {
        Texture::Canvas => false,
        Texture::Accumulator { layer } => layer == i,
        Texture::Scratch { layer } => layer == i,
        Texture::BlurTemp { layer } => layer == i,
        Texture::SmokeState { layer, .. } => layer == i,
        Texture::SmokeCopy { layer, .. } => layer == i,
    }
}

/// Steps one after the other.
proof fn run_concat(s: Textures, a: Seq<Step>, b: Seq<Step>)
    ensures
        run(s, a + b) == run(run(s, a), b),
    decreases b.len(),
{
    if b.len() == 0 {
        assert(a + b =~= a);
    } else {
        run_concat(s, a, b.drop_last());
        assert((a + b).drop_last() =~= a + b.drop_last());
        assert((a + b).last() == b.last());
    }
}

proof fn run_one(s: Textures, step: Step)
    ensures
        run(s, seq![step]) == put(s, written(step), made(s, step)),
{
    let steps = seq![step];
    assert(steps.drop_last() =~= Seq::<Step>::empty());
    assert(run(s, steps.drop_last()) == s);
}

proof fn run_push(s: Textures, steps: Seq<Step>, step: Step)
    ensures
        run(s, steps.push(step)) == put(run(s, steps), written(step), made(run(s, steps), step)),
{
    assert(steps.push(step).drop_last() =~= steps);
}

/// One effect's steps leave its blended output in the accumulator, and touch
/// nothing of other layers nor of other effects' states.
proof fn effect_steps_run(s: Textures, layer: usize, effect: usize, kind: LoadedEffectKind)
    ensures
        ({
            let after = run(s, effect_steps(layer, effect, kind));
            let acc = s(Texture::Accumulator { layer });
            &&& after(Texture::Accumulator { layer }) == (Picture::Blended {
                layer,
                effect,
                under: Box::new(acc),
                output: Box::new(effect_output(s, layer, effect, kind, acc)),
            })
            &&& forall|t: Texture| !belongs(t, layer) ==> #[trigger] after(t) == s(t)
            &&& forall|e: usize|
                e != effect ==> #[trigger] after(Texture::SmokeState { layer, effect: e }) == s(
                    Texture::SmokeState { layer, effect: e },
                )
        }),
{
    let steps = effect_steps(layer, effect, kind);
    reveal_with_fuel(run, 4);
    if steps.len() == 2 {
        assert(steps.drop_last().drop_last() =~= Seq::<Step>::empty());
    } else {
        assert(steps.drop_last().drop_last().drop_last() =~= Seq::<Step>::empty());
    }
}

/// A layer's stack of effects leaves in the accumulator what the effects make
/// of what was there, and touches nothing of other layers.
proof fn chain_steps_run(
    s0: Textures,
    s: Textures,
    layer: usize,
    chain: Seq<LoadedEffect>,
    n: int,
)
    requires
        0 <= n <= chain.len() <= usize::MAX,
        forall|e: usize| #[trigger]
            s(Texture::SmokeState { layer, effect: e }) == s0(
                Texture::SmokeState { layer, effect: e },
            ),
    ensures
        ({
            let after = run(s, chain_steps(layer, chain, n));
            &&& after(Texture::Accumulator { layer }) == chain_picture(
                s0,
                layer,
                chain,
                s(Texture::Accumulator { layer }),
                n,
            )
            &&& forall|t: Texture| !belongs(t, layer) ==> #[trigger] after(t) == s(t)
            &&& forall|e: usize|
                e >= n ==> #[trigger] after(Texture::SmokeState { layer, effect: e }) == s(
                    Texture::SmokeState { layer, effect: e },
                )
        }),
    decreases n,
{
    if n > 0 {
        chain_steps_run(s0, s, layer, chain, n - 1);
        let before = chain_steps(layer, chain, n - 1);
        let mid = run(s, before);
        let i = (n - 1) as usize;
        if chain[n - 1].enabled {
            let more = effect_steps(layer, i, chain[n - 1].kind);
            run_concat(s, before, more);
            effect_steps_run(mid, layer, i, chain[n - 1].kind);
            let after = run(s, chain_steps(layer, chain, n));
            assert(after == run(mid, more));
            assert(mid(Texture::SmokeState { layer, effect: i }) == s0(
                Texture::SmokeState { layer, effect: i },
            ));
            assert forall|t: Texture| !belongs(t, layer) implies #[trigger] after(t) == s(t) by {
                assert(mid(t) == s(t));
            }
            assert forall|e: usize| e >= n implies #[trigger] after(
                Texture::SmokeState { layer, effect: e },
            ) == s(Texture::SmokeState { layer, effect: e }) by {
                assert(mid(Texture::SmokeState { layer, effect: e }) == s(
                    Texture::SmokeState { layer, effect: e },
                ));
            }
        }
    }
}

/// What the textures of a layer that has gone through its effects hold.
pub open spec fn prepared(s0: Textures, s: Textures, layers: Seq<LoadedLayer>, i: int) -> bool {
    layers[i].has_picture() && layers[i].chain() is Some ==> s(
        Texture::Accumulator { layer: i as usize },
    ) == chain_picture(
        s0,
        i as usize,
        layers[i].chain()->0,
        Picture::Own { layer: i as usize },
        layers[i].chain()->0.len() as int,
    )
}

/// The layer's textures are not touched before the canvas is drawn on.
pub open spec fn untouched_before(layer: LoadedLayer) -> bool {
    !(layer.has_picture() && layer.chain() is Some)
}

/// Every stack of effects can be counted.
pub open spec fn countable(layers: Seq<LoadedLayer>) -> bool {
    layers.len() <= usize::MAX && forall|i: int|
        0 <= i < layers.len() && (#[trigger] layers[i]).chain() is Some
            ==> layers[i].chain()->0.len() <= usize::MAX
}

proof fn prepare_all_run(s0: Textures, layers: Seq<LoadedLayer>, n: int)
    requires
        countable(layers),
        0 <= n <= layers.len(),
    ensures
        ({
            let after = run(s0, prepare_all(layers, n));
            &&& forall|i: int| 0 <= i < n ==> #[trigger] prepared(s0, after, layers, i)
            &&& forall|i: int, t: Texture|
                0 <= i < layers.len() && (i >= n || untouched_before(layers[i])) && #[trigger] belongs(
                    t,
                    i as usize,
                ) ==> after(t) == s0(t)
        }),
    decreases n,
{
    if n > 0 {
        prepare_all_run(s0, layers, n - 1);
        let mid = run(s0, prepare_all(layers, n - 1));
        let k = (n - 1) as usize;
        let more = prepare_steps(k, layers[n - 1]);
        run_concat(s0, prepare_all(layers, n - 1), more);
        let after = run(s0, prepare_all(layers, n));
        assert(after == run(mid, more));
        if untouched_before(layers[n - 1]) {
            assert(more =~= Seq::<Step>::empty());
            assert(after == mid);
            assert forall|i: int| 0 <= i < n implies #[trigger] prepared(s0, after, layers, i) by {
                if i < n - 1 {
                    assert(prepared(s0, mid, layers, i));
                }
            }
        } else {
            let chain = layers[n - 1].chain()->0;
            let base = Step::Base { layer: k, pipeline: own_pipeline(layers[n - 1], true) };
            let steps = chain_steps(k, chain, chain.len() as int);
            run_concat(mid, seq![base], steps);
            run_one(mid, base);
            let based = run(mid, seq![base]);
            assert forall|e: usize| #[trigger]
                based(Texture::SmokeState { layer: k, effect: e }) == s0(
                    Texture::SmokeState { layer: k, effect: e },
                ) by {
                assert(belongs(Texture::SmokeState { layer: k, effect: e }, (n - 1) as usize));
                assert(mid(Texture::SmokeState { layer: k, effect: e }) == s0(
                    Texture::SmokeState { layer: k, effect: e },
                ));
            }
            chain_steps_run(s0, based, k, chain, chain.len() as int);
            assert(after == run(based, steps));
            assert(prepared(s0, after, layers, n - 1));
            assert forall|i: int| 0 <= i < n implies #[trigger] prepared(s0, after, layers, i) by {
                if i < n - 1 {
                    assert(prepared(s0, mid, layers, i));
                    assert(!belongs(Texture::Accumulator { layer: i as usize }, k));
                    assert(after(Texture::Accumulator { layer: i as usize }) == based(
                        Texture::Accumulator { layer: i as usize },
                    ));
                }
            }
            assert forall|i: int, t: Texture|
                0 <= i < layers.len() && (i >= n || untouched_before(layers[i]))
                    && #[trigger] belongs(t, i as usize) implies after(t) == s0(t) by {
                assert(mid(t) == s0(t));
                assert(!belongs(t, k));
                assert(after(t) == based(t));
            }
        }
    }
}

proof fn draw_all_run(s0: Textures, s1: Textures, layers: Seq<LoadedLayer>, n: int)
    requires
        countable(layers),
        0 <= n <= layers.len(),
        s1(Texture::Canvas) == Picture::Blank,
        forall|i: int| 0 <= i < layers.len() ==> #[trigger] prepared(s0, s1, layers, i),
        forall|i: int, t: Texture|
            0 <= i < layers.len() && untouched_before(layers[i]) && #[trigger] belongs(
                t,
                i as usize,
            ) ==> s1(t) == s0(t),
    ensures
        ({
            let after = run(s1, draw_all(layers, n));
            &&& after(Texture::Canvas) == stack_picture(s0, layers, n)
            &&& forall|i: int, t: Texture|
                n <= i < layers.len() && #[trigger] belongs(t, i as usize) ==> after(t) == s1(t)
        }),
    decreases n,
{
    if n > 0 {
        draw_all_run(s0, s1, layers, n - 1);
        let mid = run(s1, draw_all(layers, n - 1));
        let k = (n - 1) as usize;
        let layer = layers[n - 1];
        let more = draw_steps(k, layer);
        run_concat(s1, draw_all(layers, n - 1), more);
        let after = run(s1, draw_all(layers, n));
        assert(after == run(mid, more));
        assert(prepared(s0, s1, layers, n - 1));
        assert(belongs(Texture::Accumulator { layer: k }, (n - 1) as usize));
        if layer.has_picture() {
            let step = match layer.chain() {
                Some(_) => Step::Draw { layer: k, pipeline: Pipeline::Image, accumulated: true },
                None => Step::Draw {
                    layer: k,
                    pipeline: own_pipeline(layer, false),
                    accumulated: false,
                },
            };
            assert(more =~= seq![step]);
            run_one(mid, step);
        } else if layer.chain() is Some {
            let chain = layer.chain()->0;
            let steps = chain_steps(k, chain, chain.len() as int);
            let snap = Step::Snapshot { layer: k };
            let end = seq![Step::Composite { clear: false }, Step::Replace { layer: k }];
            run_concat(mid, seq![snap] + steps, end);
            run_concat(mid, seq![snap], steps);
            run_one(mid, snap);
            let snapped = run(mid, seq![snap]);
            assert forall|e: usize| #[trigger]
                snapped(Texture::SmokeState { layer: k, effect: e }) == s0(
                    Texture::SmokeState { layer: k, effect: e },
                ) by {
                assert(belongs(Texture::SmokeState { layer: k, effect: e }, (n - 1) as usize));
                assert(mid(Texture::SmokeState { layer: k, effect: e }) == s1(
                    Texture::SmokeState { layer: k, effect: e },
                ));
            }
            chain_steps_run(s0, snapped, k, chain, chain.len() as int);
            let adjusted = run(snapped, steps);
            assert(!belongs(Texture::Canvas, k));
            reveal_with_fuel(run, 3);
            assert(end.drop_last().drop_last() =~= Seq::<Step>::empty());
            assert(after == run(adjusted, end));
            assert forall|i: int, t: Texture|
                n <= i < layers.len() && #[trigger] belongs(t, i as usize) implies after(t) == s1(
                t,
            ) by {
                assert(mid(t) == s1(t));
                assert(!belongs(t, k));
                assert(adjusted(t) == snapped(t));
            }
        } else {
            assert(more =~= Seq::<Step>::empty());
        }
    }
}

/// Drawing a frame leaves on the canvas what the scene shows: the layers
/// bottom to top, each after the effects that are switched on, an adjustment
/// layer's effects on all that is below it, and the text on top of all.
pub proof fn plan_draws_the_scene(s: Textures, layers: Seq<LoadedLayer>)
    requires
        countable(layers),
    ensures
        run(s, plan_of(layers))(Texture::Canvas) == scene_picture(s, layers),
{
    let n = layers.len() as int;
    let first = prepare_all(layers, n).push(Step::Composite { clear: true });
    prepare_all_run(s, layers, n);
    let ready = run(s, prepare_all(layers, n));
    run_push(s, prepare_all(layers, n), Step::Composite { clear: true });
    let cleared = run(s, first);
    assert forall|i: int| 0 <= i < n implies #[trigger] prepared(s, cleared, layers, i) by {
        assert(prepared(s, ready, layers, i));
        assert(cleared(Texture::Accumulator { layer: i as usize }) == ready(
            Texture::Accumulator { layer: i as usize },
        ));
    }
    assert forall|i: int, t: Texture|
        0 <= i < layers.len() && untouched_before(layers[i]) && #[trigger] belongs(
            t,
            i as usize,
        ) implies cleared(t) == s(t) by {
        assert(ready(t) == s(t));
    }
    draw_all_run(s, cleared, layers, n);
    run_concat(s, first, draw_all(layers, n).push(Step::Text));
    run_push(cleared, draw_all(layers, n), Step::Text);
}

/// No step reads the texture that it writes.
pub proof fn no_step_reads_what_it_writes(step: Step)
    ensures
        sampled(step) != Some(written(step)),
{
}

/// The text is drawn last.
pub proof fn text_is_drawn_last(layers: Seq<LoadedLayer>)
    ensures
        plan_of(layers).len() > 0,
        plan_of(layers).last() == Step::Text,
{
}

/// The effect that a step belongs to, if it belongs to one.
pub open spec fn step_effect(step: Step) -> Option<(usize, usize)> {
    match step {
        Step::Filter { layer, effect, .. } => Some((layer, effect)),
        Step::CopyState { layer, effect } => Some((layer, effect)),
        Step::Blend { layer, effect, .. } => Some((layer, effect)),
        _ => None,
    }
}

/// The step belongs to no effect, or to one that is there and switched on.
pub open spec fn for_enabled(layers: Seq<LoadedLayer>, step: Step) -> bool {
    step_effect(step) matches Some((layer, effect)) ==> {
        &&& layer < layers.len()
        &&& layers[layer as int].chain() is Some
        &&& effect < layers[layer as int].chain()->0.len()
        &&& layers[layer as int].chain()->0[effect as int].enabled
    }
}

/// An effect that is switched off takes no step.
pub proof fn disabled_effects_take_no_step(layers: Seq<LoadedLayer>, k: int)
    requires
        countable(layers),
        0 <= k < plan_of(layers).len(),
    ensures
        for_enabled(layers, plan_of(layers)[k]),
{
    let n = layers.len() as int;
    prepare_all_enabled(layers, n);
    draw_all_enabled(layers, n);
    let first = prepare_all(layers, n).push(Step::Composite { clear: true });
    let second = draw_all(layers, n).push(Step::Text);
    if k < first.len() {
        assert(plan_of(layers)[k] == first[k]);
        if k < first.len() - 1 {
            assert(first[k] == prepare_all(layers, n)[k]);
        }
    } else {
        let j = k - first.len();
        assert(plan_of(layers)[k] == second[j]);
        if j < second.len() - 1 {
            assert(second[j] == draw_all(layers, n)[j]);
        }
    }
}

pub open spec fn all_enabled(layers: Seq<LoadedLayer>, steps: Seq<Step>) -> bool {
    forall|k: int| 0 <= k < steps.len() ==> for_enabled(layers, #[trigger] steps[k])
}

proof fn all_enabled_concat(layers: Seq<LoadedLayer>, a: Seq<Step>, b: Seq<Step>)
    requires
        all_enabled(layers, a),
        all_enabled(layers, b),
    ensures
        all_enabled(layers, a + b),
{
    assert forall|k: int| 0 <= k < (a + b).len() implies for_enabled(
        layers,
        #[trigger] (a + b)[k],
    ) by {
        if k < a.len() {
            assert((a + b)[k] == a[k]);
        } else {
            assert((a + b)[k] == b[k - a.len()]);
        }
    }
}

proof fn chain_steps_enabled(layers: Seq<LoadedLayer>, i: usize, n: int)
    requires
        countable(layers),
        i < layers.len(),
        layers[i as int].chain() is Some,
        0 <= n <= layers[i as int].chain()->0.len(),
    ensures
        all_enabled(layers, chain_steps(i, layers[i as int].chain()->0, n)),
    decreases n,
{
    if n > 0 {
        chain_steps_enabled(layers, i, n - 1);
        let chain = layers[i as int].chain()->0;
        if chain[n - 1].enabled {
            let more = effect_steps(i, (n - 1) as usize, chain[n - 1].kind);
            assert(all_enabled(layers, more));
            all_enabled_concat(layers, chain_steps(i, chain, n - 1), more);
        }
    }
}

proof fn prepare_all_enabled(layers: Seq<LoadedLayer>, n: int)
    requires
        countable(layers),
        0 <= n <= layers.len(),
    ensures
        all_enabled(layers, prepare_all(layers, n)),
    decreases n,
{
    if n > 0 {
        prepare_all_enabled(layers, n - 1);
        let k = (n - 1) as usize;
        let layer = layers[n - 1];
        if layer.has_picture() && layer.chain() is Some {
            let chain = layer.chain()->0;
            chain_steps_enabled(layers, k, chain.len() as int);
            let base = seq![Step::Base { layer: k, pipeline: own_pipeline(layer, true) }];
            assert(all_enabled(layers, base));
            all_enabled_concat(layers, base, chain_steps(k, chain, chain.len() as int));
        }
        all_enabled_concat(layers, prepare_all(layers, n - 1), prepare_steps(k, layer));
    }
}

proof fn draw_all_enabled(layers: Seq<LoadedLayer>, n: int)
    requires
        countable(layers),
        0 <= n <= layers.len(),
    ensures
        all_enabled(layers, draw_all(layers, n)),
    decreases n,
{
    if n > 0 {
        draw_all_enabled(layers, n - 1);
        let k = (n - 1) as usize;
        let layer = layers[n - 1];
        if !layer.has_picture() && layer.chain() is Some {
            let chain = layer.chain()->0;
            chain_steps_enabled(layers, k, chain.len() as int);
            let snap = seq![Step::Snapshot { layer: k }];
            let end = seq![Step::Composite { clear: false }, Step::Replace { layer: k }];
            assert(all_enabled(layers, snap));
            assert(all_enabled(layers, end));
            all_enabled_concat(layers, snap, chain_steps(k, chain, chain.len() as int));
            all_enabled_concat(layers, snap + chain_steps(k, chain, chain.len() as int), end);
        }
        all_enabled_concat(layers, draw_all(layers, n - 1), draw_steps(k, layer));
    }
}

/// The pipeline of a step, if it draws through one.
pub open spec fn step_pipeline(step: Step) -> Option<Pipeline> {
    match step {
        Step::Base { pipeline, .. } => Some(pipeline),
        Step::Filter { pipeline, .. } => Some(pipeline),
        Step::Blend { .. } => Some(Pipeline::MaskBlend),
        Step::Draw { pipeline, .. } => Some(pipeline),
        Step::Replace { .. } => Some(Pipeline::ImageReplace),
        _ => None,
    }
}

/// The step's pipeline was built for the texture that it writes: on the canvas
/// one of the canvas's pipelines, elsewhere one of the others; and it blends
/// just where what is there is to be kept.
pub open spec fn pipeline_fits(step: Step) -> bool {
    step_pipeline(step) matches Some(p) ==> {
        &&& p.spec_info().offscreen == (written(step) != Texture::Canvas)
        &&& p.spec_info().blends == (step is Blend || step is Draw)
    }
}

/// Every step of a plan uses a pipeline that was built for it.
pub proof fn plan_pipelines_fit(layers: Seq<LoadedLayer>, k: int)
    requires
        0 <= k < plan_of(layers).len(),
    ensures
        pipeline_fits(plan_of(layers)[k]),
{
    let n = layers.len() as int;
    prepare_all_fits(layers, n);
    draw_all_fits(layers, n);
    let first = prepare_all(layers, n).push(Step::Composite { clear: true });
    let second = draw_all(layers, n).push(Step::Text);
    if k < first.len() {
        assert(plan_of(layers)[k] == first[k]);
        if k < first.len() - 1 {
            assert(first[k] == prepare_all(layers, n)[k]);
        }
    } else {
        let j = k - first.len();
        assert(plan_of(layers)[k] == second[j]);
        if j < second.len() - 1 {
            assert(second[j] == draw_all(layers, n)[j]);
        }
    }
}

pub open spec fn all_fit(steps: Seq<Step>) -> bool {
    forall|k: int| 0 <= k < steps.len() ==> pipeline_fits(#[trigger] steps[k])
}

proof fn all_fit_concat(a: Seq<Step>, b: Seq<Step>)
    requires
        all_fit(a),
        all_fit(b),
    ensures
        all_fit(a + b),
{
    assert forall|k: int| 0 <= k < (a + b).len() implies pipeline_fits(#[trigger] (a + b)[k]) by {
        if k < a.len() {
            assert((a + b)[k] == a[k]);
        } else {
            assert((a + b)[k] == b[k - a.len()]);
        }
    }
}

proof fn chain_steps_fit(i: usize, chain: Seq<LoadedEffect>, n: int)
    requires
        0 <= n <= chain.len(),
    ensures
        all_fit(chain_steps(i, chain, n)),
    decreases n,
{
    if n > 0 {
        chain_steps_fit(i, chain, n - 1);
        let more = effect_steps(i, (n - 1) as usize, chain[n - 1].kind);
        assert(all_fit(more));
        all_fit_concat(chain_steps(i, chain, n - 1), more);
    }
}

proof fn prepare_all_fits(layers: Seq<LoadedLayer>, n: int)
    requires
        0 <= n <= layers.len(),
    ensures
        all_fit(prepare_all(layers, n)),
    decreases n,
{
    if n > 0 {
        prepare_all_fits(layers, n - 1);
        let k = (n - 1) as usize;
        let layer = layers[n - 1];
        if layer.has_picture() && layer.chain() is Some {
            let chain = layer.chain()->0;
            chain_steps_fit(k, chain, chain.len() as int);
            let base = seq![Step::Base { layer: k, pipeline: own_pipeline(layer, true) }];
            assert(all_fit(base));
            all_fit_concat(base, chain_steps(k, chain, chain.len() as int));
        }
        all_fit_concat(prepare_all(layers, n - 1), prepare_steps(k, layer));
    }
}

proof fn draw_all_fits(layers: Seq<LoadedLayer>, n: int)
    requires
        0 <= n <= layers.len(),
    ensures
        all_fit(draw_all(layers, n)),
    decreases n,
{
    if n > 0 {
        draw_all_fits(layers, n - 1);
        let k = (n - 1) as usize;
        let layer = layers[n - 1];
        if layer.has_picture() {
            assert(all_fit(draw_steps(k, layer)));
        } else if layer.chain() is Some {
            let chain = layer.chain()->0;
            chain_steps_fit(k, chain, chain.len() as int);
            let snap = seq![Step::Snapshot { layer: k }];
            let end = seq![Step::Composite { clear: false }, Step::Replace { layer: k }];
            assert(all_fit(snap));
            assert(all_fit(end));
            all_fit_concat(snap, chain_steps(k, chain, chain.len() as int));
            all_fit_concat(snap + chain_steps(k, chain, chain.len() as int), end);
        }
        all_fit_concat(draw_all(layers, n - 1), draw_steps(k, layer));
    }
}

} // verus!
