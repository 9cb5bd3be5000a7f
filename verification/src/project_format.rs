//! A wallpaper project: a list of layers, bottom to top, each with its stack
//! of effects, as the project's manifest describes them.
//!
//! Numbers that the renderer treats as IEEE 754 singles are held as their bit
//! patterns, so that the library carries them without computing with them.

use vstd::prelude::*;

verus! {

/// The bit pattern of an IEEE 754 single.
pub type Single = u32;

/// 0.0
pub const ZERO: Single = 0;

/// 0.5
pub const HALF: Single = 0x3f00_0000;

/// 1.0
pub const ONE: Single = 0x3f80_0000;

/// 2.0
pub const TWO: Single = 0x4000_0000;

/// 3.0
pub const THREE: Single = 0x4040_0000;

/// The name of a project's manifest inside its directory.
pub const MANIFEST_FILE_NAME: &'static str = "project.json";

// --- Text ------------------------------------------------------------------

/// Where the string that a text layer shows comes from.
pub enum TextSource {
    /// A fixed string.
    Literal { text: String },
    /// The local time, by a strftime-style format such as `%H:%M`.
    Clock { format: String },
    /// What a shell command prints, run again every `interval_secs`.
    Command { command: String, interval_secs: u32 },
}

pub enum TextSourceModel {
    Literal { text: Seq<char> },
    Clock { format: Seq<char> },
    Command { command: Seq<char>, interval_secs: u32 },
}

impl View for TextSource {
    type V = TextSourceModel;

    open spec fn view(&self) -> TextSourceModel {
        match self {
            TextSource::Literal { text } => TextSourceModel::Literal { text: text@ },
            TextSource::Clock { format } => TextSourceModel::Clock { format: format@ },
            TextSource::Command { command, interval_secs } => TextSourceModel::Command {
                command: command@,
                interval_secs: *interval_secs,
            },
        }
    }
}

impl Clone for TextSource {
    fn clone(&self) -> (r: Self)
        ensures
            r@ == self@,
    {
        match self {
            TextSource::Literal { text } => TextSource::Literal { text: text.clone() },
            TextSource::Clock { format } => TextSource::Clock { format: format.clone() },
            TextSource::Command { command, interval_secs } => TextSource::Command {
                command: command.clone(),
                interval_secs: *interval_secs,
            },
        }
    }
}

impl TextSource {
    /// Whether this source can ever give a different string over time.
    pub fn is_dynamic(&self) -> (r: bool)
        ensures
            r == self@.dynamic(),
    {
        match self {
            TextSource::Literal { .. } => false,
            TextSource::Clock { .. } | TextSource::Command { .. } => true,
        }
    }
}

impl TextSourceModel {
    pub open spec fn dynamic(self) -> bool {
        !(self is Literal)
    }
}

/// The font of a text layer: the one that comes with the engine, or a file
/// of the project.
pub enum TextFont {
    Bundled,
    Custom { path: String },
}

pub enum TextFontModel {
    Bundled,
    Custom { path: Seq<char> },
}

impl View for TextFont {
    type V = TextFontModel;

    open spec fn view(&self) -> TextFontModel {
        match self {
            TextFont::Bundled => TextFontModel::Bundled,
            TextFont::Custom { path } => TextFontModel::Custom { path: path@ },
        }
    }
}

impl Clone for TextFont {
    fn clone(&self) -> (r: Self)
        ensures
            r@ == self@,
    {
        match self {
            TextFont::Bundled => TextFont::Bundled,
            TextFont::Custom { path } => TextFont::Custom { path: path.clone() },
        }
    }
}

// --- Masks and effects -----------------------------------------------------

/// Position, scale and rotation of something drawn on top of a layer. `x` and
/// `y` are fractions of the canvas, `rotation` is in degrees.
#[derive(Debug, Clone, Copy, PartialEq, Eq, Structural)]
pub struct Transform2D {
    pub x: Single,
    pub y: Single,
    pub scale: Single,
    pub rotation: Single,
}

impl Transform2D {
    /// Centred, neither scaled nor rotated.
    pub open spec fn centred() -> Transform2D {
        Transform2D { x: HALF, y: HALF, scale: ONE, rotation: ZERO }
    }
}

impl Default for Transform2D {
    fn default() -> (r: Self)
        ensures
            r == Transform2D::centred(),
    {
        Transform2D { x: HALF, y: HALF, scale: ONE, rotation: ZERO }
    }
}

/// Where an effect applies. Its value says how much of the effect's output
/// replaces its input.
pub enum Mask {
    /// The whole layer.
    Unmasked,
    Circle { transform: Transform2D, feather: Single, invert: bool },
    Gradient { transform: Transform2D, feather: Single, invert: bool },
    /// A greyscale picture whose brightness is the mask's value.
    Texture { path: String, invert: bool },
}

pub enum MaskModel {
    Unmasked,
    Circle { transform: Transform2D, feather: Single, invert: bool },
    Gradient { transform: Transform2D, feather: Single, invert: bool },
    Texture { path: Seq<char>, invert: bool },
}

impl View for Mask {
    type V = MaskModel;

    open spec fn view(&self) -> MaskModel {
        match self {
            Mask::Unmasked => MaskModel::Unmasked,
            Mask::Circle { transform, feather, invert } => MaskModel::Circle {
                transform: *transform,
                feather: *feather,
                invert: *invert,
            },
            Mask::Gradient { transform, feather, invert } => MaskModel::Gradient {
                transform: *transform,
                feather: *feather,
                invert: *invert,
            },
            Mask::Texture { path, invert } => MaskModel::Texture { path: path@, invert: *invert },
        }
    }
}

impl Clone for Mask {
    fn clone(&self) -> (r: Self)
        ensures
            r@ == self@,
    {
        match self {
            Mask::Unmasked => Mask::Unmasked,
            Mask::Circle { transform, feather, invert } => Mask::Circle {
                transform: *transform,
                feather: *feather,
                invert: *invert,
            },
            Mask::Gradient { transform, feather, invert } => Mask::Gradient {
                transform: *transform,
                feather: *feather,
                invert: *invert,
            },
            Mask::Texture { path, invert } => Mask::Texture {
                path: path.clone(),
                invert: *invert,
            },
        }
    }
}

impl Default for Mask {
    fn default() -> (r: Self)
        ensures
            r@ == MaskModel::Unmasked,
    {
        Mask::Unmasked
    }
}

/// Which effect it is, with its own parameters.
pub enum EffectKind {
    Vignette { strength: Single, softness: Single },
    ColorAdjust { brightness: Single, contrast: Single, saturation: Single },
    Blur { radius: Single },
    /// A coloured trail behind the cursor that fades from frame to frame.
    Smoke { color: [Single; 4], decay: Single, radius: Single },
    /// A user's own shader, with the values of its parameters in the order of
    /// its declarations.
    Shader { wgsl_path: String, params: Vec<Single> },
}

pub enum EffectKindModel {
    Vignette { strength: Single, softness: Single },
    ColorAdjust { brightness: Single, contrast: Single, saturation: Single },
    Blur { radius: Single },
    Smoke { color: Seq<Single>, decay: Single, radius: Single },
    Shader { wgsl_path: Seq<char>, params: Seq<Single> },
}

impl View for EffectKind {
    type V = EffectKindModel;

    open spec fn view(&self) -> EffectKindModel {
        match self {
            EffectKind::Vignette { strength, softness } => EffectKindModel::Vignette {
                strength: *strength,
                softness: *softness,
            },
            EffectKind::ColorAdjust { brightness, contrast, saturation } =>
                EffectKindModel::ColorAdjust {
                brightness: *brightness,
                contrast: *contrast,
                saturation: *saturation,
            },
            EffectKind::Blur { radius } => EffectKindModel::Blur { radius: *radius },
            EffectKind::Smoke { color, decay, radius } => EffectKindModel::Smoke {
                color: color@,
                decay: *decay,
                radius: *radius,
            },
            EffectKind::Shader { wgsl_path, params } => EffectKindModel::Shader {
                wgsl_path: wgsl_path@,
                params: params@,
            },
        }
    }
}

impl EffectKindModel {
    /// Whether the effect changes from frame to frame by itself.
    pub open spec fn animated(self) -> bool {
        self is Smoke || self is Shader
    }
}

/// A copy of a run of singles.
pub fn copy_singles(v: &Vec<Single>) -> (r: Vec<Single>)
    ensures
        r@ == v@,
{
    let r = v.clone();
    assert(r@ =~= v@);
    r
}

impl Clone for EffectKind {
    fn clone(&self) -> (r: Self)
        ensures
            r@ == self@,
    {
        match self {
            EffectKind::Vignette { strength, softness } => EffectKind::Vignette {
                strength: *strength,
                softness: *softness,
            },
            EffectKind::ColorAdjust { brightness, contrast, saturation } =>
                EffectKind::ColorAdjust {
                brightness: *brightness,
                contrast: *contrast,
                saturation: *saturation,
            },
            EffectKind::Blur { radius } => EffectKind::Blur { radius: *radius },
            EffectKind::Smoke { color, decay, radius } => EffectKind::Smoke {
                color: *color,
                decay: *decay,
                radius: *radius,
            },
            EffectKind::Shader { wgsl_path, params } => EffectKind::Shader {
                wgsl_path: wgsl_path.clone(),
                params: copy_singles(params),
            },
        }
    }
}

/// One entry of a layer's stack of effects.
pub struct Effect {
    pub kind: EffectKind,
    pub mask: Mask,
    pub enabled: bool,
}

pub struct EffectModel {
    pub kind: EffectKindModel,
    pub mask: MaskModel,
    pub enabled: bool,
}

impl View for Effect {
    type V = EffectModel;

    open spec fn view(&self) -> EffectModel {
        EffectModel { kind: self.kind@, mask: self.mask@, enabled: self.enabled }
    }
}

impl Clone for Effect {
    fn clone(&self) -> (r: Self)
        ensures
            r@ == self@,
    {
        Effect { kind: self.kind.clone(), mask: self.mask.clone(), enabled: self.enabled }
    }
}

/// The models of a run of effects.
pub open spec fn effects_view(effects: Seq<Effect>) -> Seq<EffectModel> {
    effects.map_values(|e: Effect| e@)
}

/// A copy of a stack of effects.
pub fn copy_effects(effects: &Vec<Effect>) -> (r: Vec<Effect>)
    ensures
        effects_view(r@) == effects_view(effects@),
{
    let r = effects.clone();
    assert(effects_view(r@) =~= effects_view(effects@));
    r
}

// --- Layers ----------------------------------------------------------------

/// One layer of a project. Asset paths are relative to the project's
/// directory.
pub enum Layer {
    /// A picture.
    Image { path: String, effects: Vec<Effect> },
    /// A picture with a second one visible in a circle around the cursor.
    Xray { base: String, overlay: String, radius: Single, effects: Vec<Effect> },
    /// A looping animation.
    Gif { path: String, effects: Vec<Effect> },
    /// A picture that pans against the cursor.
    Parallax { path: String, strength: Single, smoothing: Single, effects: Vec<Effect> },
    /// A string, drawn on top of every other layer.
    Text {
        x: Single,
        y: Single,
        font_size: Single,
        color: [Single; 4],
        source: TextSource,
        font: TextFont,
    },
    /// No picture of its own: its effects run on what the layers below it
    /// have been composited to.
    Adjustment { effects: Vec<Effect> },
}

pub enum LayerModel {
    Image { path: Seq<char>, effects: Seq<EffectModel> },
    Xray { base: Seq<char>, overlay: Seq<char>, radius: Single, effects: Seq<EffectModel> },
    Gif { path: Seq<char>, effects: Seq<EffectModel> },
    Parallax {
        path: Seq<char>,
        strength: Single,
        smoothing: Single,
        effects: Seq<EffectModel>,
    },
    Text {
        x: Single,
        y: Single,
        font_size: Single,
        color: Seq<Single>,
        source: TextSourceModel,
        font: TextFontModel,
    },
    Adjustment { effects: Seq<EffectModel> },
}

impl View for Layer {
    type V = LayerModel;

    open spec fn view(&self) -> LayerModel {
        match self {
            Layer::Image { path, effects } => LayerModel::Image {
                path: path@,
                effects: effects_view(effects@),
            },
            Layer::Xray { base, overlay, radius, effects } => LayerModel::Xray {
                base: base@,
                overlay: overlay@,
                radius: *radius,
                effects: effects_view(effects@),
            },
            Layer::Gif { path, effects } => LayerModel::Gif {
                path: path@,
                effects: effects_view(effects@),
            },
            Layer::Parallax { path, strength, smoothing, effects } => LayerModel::Parallax {
                path: path@,
                strength: *strength,
                smoothing: *smoothing,
                effects: effects_view(effects@),
            },
            Layer::Text { x, y, font_size, color, source, font } => LayerModel::Text {
                x: *x,
                y: *y,
                font_size: *font_size,
                color: color@,
                source: source@,
                font: font@,
            },
            Layer::Adjustment { effects } => LayerModel::Adjustment {
                effects: effects_view(effects@),
            },
        }
    }
}

impl Clone for Layer {
    fn clone(&self) -> (r: Self)
        ensures
            r@ == self@,
    {
        match self {
            Layer::Image { path, effects } => Layer::Image {
                path: path.clone(),
                effects: copy_effects(effects),
            },
            Layer::Xray { base, overlay, radius, effects } => Layer::Xray {
                base: base.clone(),
                overlay: overlay.clone(),
                radius: *radius,
                effects: copy_effects(effects),
            },
            Layer::Gif { path, effects } => Layer::Gif {
                path: path.clone(),
                effects: copy_effects(effects),
            },
            Layer::Parallax { path, strength, smoothing, effects } => Layer::Parallax {
                path: path.clone(),
                strength: *strength,
                smoothing: *smoothing,
                effects: copy_effects(effects),
            },
            Layer::Text { x, y, font_size, color, source, font } => Layer::Text {
                x: *x,
                y: *y,
                font_size: *font_size,
                color: *color,
                source: source.clone(),
                font: font.clone(),
            },
            Layer::Adjustment { effects } => Layer::Adjustment { effects: copy_effects(effects) },
        }
    }
}

impl LayerModel {
    /// The layer's stack of effects; none for a text layer.
    pub open spec fn effects(self) -> Seq<EffectModel> {
        match self {
            LayerModel::Image { effects, .. } => effects,
            LayerModel::Xray { effects, .. } => effects,
            LayerModel::Gif { effects, .. } => effects,
            LayerModel::Parallax { effects, .. } => effects,
            LayerModel::Adjustment { effects } => effects,
            LayerModel::Text { .. } => seq![],
        }
    }

    /// Whether the layer has to be drawn again and again: because it reacts
    /// to the cursor or moves by itself, or because an effect that is switched
    /// on does.
    pub open spec fn dynamic(self) -> bool {
        ||| self is Xray
        ||| self is Gif
        ||| self is Parallax
        ||| self matches LayerModel::Text { source, .. } && source.dynamic()
        ||| exists|i: int|
            0 <= i < self.effects().len() && (#[trigger] self.effects()[i]).enabled
                && self.effects()[i].kind.animated()
    }
}

/// Whether some effect of the stack is switched on and animated.
pub(crate) fn any_animated(effects: &[Effect]) -> (r: bool)
    ensures
        r == exists|i: int|
            0 <= i < effects_view(effects@).len() && (#[trigger] effects_view(
                effects@,
            )[i]).enabled && effects_view(effects@)[i].kind.animated(),
{
    let mut i: usize = 0;
    while i < effects.len()
        invariant
            i <= effects@.len(),
            forall|j: int|
                0 <= j < i ==> !((#[trigger] effects_view(effects@)[j]).enabled && effects_view(
                    effects@,
                )[j].kind.animated()),
        decreases effects.len() - i,
    {
        let effect = &effects[i];
        assert(effects_view(effects@)[i as int] == effect@);
        let animated = match &effect.kind {
            EffectKind::Smoke { .. } | EffectKind::Shader { .. } => true,
            _ => false,
        };
        if effect.enabled && animated {
            return true;
        }
        i += 1;
    }
    false
}

impl Layer {
    /// The layer's stack of effects; none for a text layer.
    pub fn effects(&self) -> (r: &[Effect])
        ensures
            effects_view(r@) == self@.effects(),
    {
        match self {
            Layer::Image { effects, .. }
            | Layer::Xray { effects, .. }
            | Layer::Gif { effects, .. }
            | Layer::Parallax { effects, .. }
            | Layer::Adjustment { effects } => effects.as_slice(),
            Layer::Text { .. } => {
                let none: &[Effect] = &[];
                assert(effects_view(none@) =~= seq![]);
                none
            },
        }
    }

    /// Whether the layer needs to be drawn again and again.
    pub fn is_dynamic(&self) -> (r: bool)
        ensures
            r == self@.dynamic(),
    {
        let by_itself = match self {
            Layer::Xray { .. } | Layer::Gif { .. } | Layer::Parallax { .. } => true,
            Layer::Text { source, .. } => source.is_dynamic(),
            Layer::Image { .. } | Layer::Adjustment { .. } => false,
        };
        by_itself || any_animated(self.effects())
    }
}

// --- Projects --------------------------------------------------------------

/// A project as its manifest describes it.
pub struct Project {
    pub name: String,
    pub description: String,
    /// Bottom to top.
    pub layers: Vec<Layer>,
    /// The rate at which dynamic layers are drawn.
    pub fps: u32,
}

pub struct ProjectModel {
    pub name: Seq<char>,
    pub description: Seq<char>,
    pub layers: Seq<LayerModel>,
    pub fps: u32,
}

/// The models of a run of layers.
pub open spec fn layers_view(layers: Seq<Layer>) -> Seq<LayerModel> {
    layers.map_values(|l: Layer| l@)
}

impl View for Project {
    type V = ProjectModel;

    open spec fn view(&self) -> ProjectModel {
        ProjectModel {
            name: self.name@,
            description: self.description@,
            layers: layers_view(self.layers@),
            fps: self.fps,
        }
    }
}

/// The rate of a manifest that does not give one.
pub fn default_fps() -> (r: u32)
    ensures
        r == 30,
{
    30
}

} // verus!
