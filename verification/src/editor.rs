//! The layers of a project while they are edited: files that may still be
//! missing, masks that are being painted, and what of them a preview shows.

use vstd::prelude::*;

use crate::project_format::{
    copy_singles, Effect, EffectKind, Layer, Mask, Project, Single, TextFont, TextSource,
    Transform2D,
};

verus! {

/// 0.05
pub const DEFAULT_BRUSH_RADIUS: Single = 0x3d4c_cccd;

/// 0.5
pub const DEFAULT_BRUSH_SOFTNESS: Single = 0x3f00_0000;

/// The side of the square in which masks are painted, in pixels.
pub const PAINT_MASK_RESOLUTION: u32 = 1024;

// --- Text ------------------------------------------------------------------

/// A text layer's source in the editor.
pub enum EditorTextSource {
    Literal(String),
    Clock { format: String },
    Command { command: String, interval_secs: u32 },
}

impl View for EditorTextSource {
    type V = crate::project_format::TextSourceModel;

    open spec fn view(&self) -> crate::project_format::TextSourceModel {
        match self {
            EditorTextSource::Literal(text) => crate::project_format::TextSourceModel::Literal {
                text: text@,
            },
            EditorTextSource::Clock { format } => crate::project_format::TextSourceModel::Clock {
                format: format@,
            },
            EditorTextSource::Command { command, interval_secs } =>
                crate::project_format::TextSourceModel::Command {
                command: command@,
                interval_secs: *interval_secs,
            },
        }
    }
}

impl EditorTextSource {
    /// Whether the source runs a command.
    pub fn is_command(&self) -> (r: bool)
        ensures
            r == (self@ is Command),
    {
        match self {
            EditorTextSource::Command { .. } => true,
            _ => false,
        }
    }

    /// The source as a project holds it.
    pub fn to_project(&self) -> (r: TextSource)
        ensures
            r@ == self@,
    {
        match self {
            EditorTextSource::Literal(text) => TextSource::Literal { text: text.clone() },
            EditorTextSource::Clock { format } => TextSource::Clock { format: format.clone() },
            EditorTextSource::Command { command, interval_secs } => TextSource::Command {
                command: command.clone(),
                interval_secs: *interval_secs,
            },
        }
    }

    /// The source that a project holds.
    pub fn from_project(source: TextSource) -> (r: EditorTextSource)
        ensures
            r@ == source@,
    {
        match source {
            TextSource::Literal { text } => EditorTextSource::Literal(text),
            TextSource::Clock { format } => EditorTextSource::Clock { format },
            TextSource::Command { command, interval_secs } => EditorTextSource::Command {
                command,
                interval_secs,
            },
        }
    }
}

/// A text layer's font in the editor.
pub enum EditorTextFont {
    Bundled,
    Custom { path: Option<String> },
}

pub enum EditorTextFontModel {
    Bundled,
    Custom { path: Option<Seq<char>> },
}

impl View for EditorTextFont {
    type V = EditorTextFontModel;

    open spec fn view(&self) -> EditorTextFontModel {
        match self {
            EditorTextFont::Bundled => EditorTextFontModel::Bundled,
            EditorTextFont::Custom { path } => EditorTextFontModel::Custom {
                path: crate::text::opt_view(*path),
            },
        }
    }
}

/// The path, or nothing where none has been picked.
pub open spec fn path_or_empty(path: Option<Seq<char>>) -> Seq<char> {
    match path {
        Some(p) => p,
        None => seq![],
    }
}

/// The path, or the empty one where none has been picked.
pub(crate) fn path_text(path: &Option<String>) -> (r: String)
    ensures
        r@ == path_or_empty(crate::text::opt_view(*path)),
{
    match path {
        Some(p) => p.clone(),
        None => String::new(),
    }
}

impl EditorTextFontModel {
    pub open spec fn complete(self) -> bool {
        self matches EditorTextFontModel::Custom { path } ==> path is Some
    }

    pub open spec fn projected(self) -> crate::project_format::TextFontModel {
        match self {
            EditorTextFontModel::Bundled => crate::project_format::TextFontModel::Bundled,
            EditorTextFontModel::Custom { path } => crate::project_format::TextFontModel::Custom {
                path: path_or_empty(path),
            },
        }
    }
}

impl EditorTextFont {
    /// Whether the font can be used: a font of the user's own has a file.
    pub fn is_complete(&self) -> (r: bool)
        ensures
            r == self@.complete(),
    {
        match self {
            EditorTextFont::Bundled => true,
            EditorTextFont::Custom { path } => path.is_some(),
        }
    }

    /// The font as a project holds it.
    pub fn to_project(&self) -> (r: TextFont)
        ensures
            r@ == self@.projected(),
    {
        match self {
            EditorTextFont::Bundled => TextFont::Bundled,
            EditorTextFont::Custom { path } => TextFont::Custom { path: path_text(path) },
        }
    }

    /// The font that a project holds.
    pub fn from_project(font: &TextFont, project_dir: &str) -> (r: EditorTextFont)
        ensures
            r@ == opened_font(project_dir@, font@),
    {
        match font {
            TextFont::Bundled => EditorTextFont::Bundled,
            TextFont::Custom { path } => EditorTextFont::Custom {
                path: Some(crate::paths::join(project_dir, path.as_str())),
            },
        }
    }
}

impl Default for EditorTextFont {
    fn default() -> (r: Self)
        ensures
            r@ == EditorTextFontModel::Bundled,
    {
        EditorTextFont::Bundled
    }
}

/// The font of a project in `dir`.
pub open spec fn opened_font(
    dir: Seq<char>,
    font: crate::project_format::TextFontModel,
) -> EditorTextFontModel {
    match font {
        crate::project_format::TextFontModel::Bundled => EditorTextFontModel::Bundled,
        crate::project_format::TextFontModel::Custom { path } => EditorTextFontModel::Custom {
            path: Some(crate::paths::joined(dir, path)),
        },
    }
}

// --- Masks and effects -----------------------------------------------------

/// An effect's mask in the editor.
pub enum EditorMask {
    Unmasked,
    Circle { transform: Transform2D, feather: Single, invert: bool },
    Gradient { transform: Transform2D, feather: Single, invert: bool },
    Texture {
        path: Option<String>,
        invert: bool,
        /// What has been painted, one byte for each pixel of a square.
        paint: Option<Vec<u8>>,
        painting: bool,
        brush_radius: Single,
        brush_softness: Single,
        last_paint_pos: Option<(Single, Single)>,
    },
}

pub enum EditorMaskModel {
    Unmasked,
    Circle { transform: Transform2D, feather: Single, invert: bool },
    Gradient { transform: Transform2D, feather: Single, invert: bool },
    Texture {
        path: Option<Seq<char>>,
        invert: bool,
        paint: Option<Seq<u8>>,
        painting: bool,
        brush_radius: Single,
        brush_softness: Single,
        last_paint_pos: Option<(Single, Single)>,
    },
}

impl View for EditorMask {
    type V = EditorMaskModel;

    open spec fn view(&self) -> EditorMaskModel {
        match self {
            EditorMask::Unmasked => EditorMaskModel::Unmasked,
            EditorMask::Circle { transform, feather, invert } => EditorMaskModel::Circle {
                transform: *transform,
                feather: *feather,
                invert: *invert,
            },
            EditorMask::Gradient { transform, feather, invert } => EditorMaskModel::Gradient {
                transform: *transform,
                feather: *feather,
                invert: *invert,
            },
            EditorMask::Texture {
                path,
                invert,
                paint,
                painting,
                brush_radius,
                brush_softness,
                last_paint_pos,
            } => EditorMaskModel::Texture {
                path: crate::text::opt_view(*path),
                invert: *invert,
                paint: match paint {
                    Some(b) => Some(b@),
                    None => None,
                },
                painting: *painting,
                brush_radius: *brush_radius,
                brush_softness: *brush_softness,
                last_paint_pos: *last_paint_pos,
            },
        }
    }
}

impl EditorMaskModel {
    pub open spec fn complete(self) -> bool {
        self matches EditorMaskModel::Texture { path, .. } ==> path is Some
    }

    pub open spec fn projected(self) -> crate::project_format::MaskModel {
        match self {
            EditorMaskModel::Unmasked => crate::project_format::MaskModel::Unmasked,
            EditorMaskModel::Circle { transform, feather, invert } =>
                crate::project_format::MaskModel::Circle { transform, feather, invert },
            EditorMaskModel::Gradient { transform, feather, invert } =>
                crate::project_format::MaskModel::Gradient { transform, feather, invert },
            EditorMaskModel::Texture { path, invert, .. } =>
                crate::project_format::MaskModel::Texture { path: path_or_empty(path), invert },
        }
    }
}

/// A mask of a project in `dir`, when it has just been opened.
pub open spec fn opened_mask(
    dir: Seq<char>,
    mask: crate::project_format::MaskModel,
) -> EditorMaskModel {
    match mask {
        crate::project_format::MaskModel::Unmasked => EditorMaskModel::Unmasked,
        crate::project_format::MaskModel::Circle { transform, feather, invert } =>
            EditorMaskModel::Circle { transform, feather, invert },
        crate::project_format::MaskModel::Gradient { transform, feather, invert } =>
            EditorMaskModel::Gradient { transform, feather, invert },
        crate::project_format::MaskModel::Texture { path, invert } => EditorMaskModel::Texture {
            path: Some(crate::paths::joined(dir, path)),
            invert,
            paint: None,
            painting: false,
            brush_radius: DEFAULT_BRUSH_RADIUS,
            brush_softness: DEFAULT_BRUSH_SOFTNESS,
            last_paint_pos: None,
        },
    }
}

impl EditorMask {
    /// The mask as a project holds it.
    pub fn to_project(&self) -> (r: Mask)
        ensures
            r@ == self@.projected(),
    {
        match self {
            EditorMask::Unmasked => Mask::Unmasked,
            EditorMask::Circle { transform, feather, invert } => Mask::Circle {
                transform: *transform,
                feather: *feather,
                invert: *invert,
            },
            EditorMask::Gradient { transform, feather, invert } => Mask::Gradient {
                transform: *transform,
                feather: *feather,
                invert: *invert,
            },
            EditorMask::Texture { path, invert, .. } => Mask::Texture {
                path: path_text(path),
                invert: *invert,
            },
        }
    }

    fn from_project(mask: &Mask, project_dir: &str) -> (r: EditorMask)
        ensures
            r@ == opened_mask(project_dir@, mask@),
    {
        match mask {
            Mask::Unmasked => EditorMask::Unmasked,
            Mask::Circle { transform, feather, invert } => EditorMask::Circle {
                transform: *transform,
                feather: *feather,
                invert: *invert,
            },
            Mask::Gradient { transform, feather, invert } => EditorMask::Gradient {
                transform: *transform,
                feather: *feather,
                invert: *invert,
            },
            Mask::Texture { path, invert } => EditorMask::Texture {
                path: Some(crate::paths::join(project_dir, path.as_str())),
                invert: *invert,
                paint: None,
                painting: false,
                brush_radius: DEFAULT_BRUSH_RADIUS,
                brush_softness: DEFAULT_BRUSH_SOFTNESS,
                last_paint_pos: None,
            },
        }
    }

    fn is_complete(&self) -> (r: bool)
        ensures
            r == self@.complete(),
    {
        match self {
            EditorMask::Texture { path, .. } => path.is_some(),
            _ => true,
        }
    }
}

/// Which effect it is, in the editor.
pub enum EditorEffectKind {
    Vignette { strength: Single, softness: Single },
    ColorAdjust { brightness: Single, contrast: Single, saturation: Single },
    Blur { radius: Single },
    Smoke { color: [Single; 4], decay: Single, radius: Single },
    Shader { wgsl_path: Option<String>, params: Vec<Single> },
}

pub enum EditorEffectKindModel {
    Vignette { strength: Single, softness: Single },
    ColorAdjust { brightness: Single, contrast: Single, saturation: Single },
    Blur { radius: Single },
    Smoke { color: Seq<Single>, decay: Single, radius: Single },
    Shader { wgsl_path: Option<Seq<char>>, params: Seq<Single> },
}

impl View for EditorEffectKind {
    type V = EditorEffectKindModel;

    open spec fn view(&self) -> EditorEffectKindModel {
        match self {
            EditorEffectKind::Vignette { strength, softness } => EditorEffectKindModel::Vignette {
                strength: *strength,
                softness: *softness,
            },
            EditorEffectKind::ColorAdjust { brightness, contrast, saturation } =>
                EditorEffectKindModel::ColorAdjust {
                brightness: *brightness,
                contrast: *contrast,
                saturation: *saturation,
            },
            EditorEffectKind::Blur { radius } => EditorEffectKindModel::Blur { radius: *radius },
            EditorEffectKind::Smoke { color, decay, radius } => EditorEffectKindModel::Smoke {
                color: color@,
                decay: *decay,
                radius: *radius,
            },
            EditorEffectKind::Shader { wgsl_path, params } => EditorEffectKindModel::Shader {
                wgsl_path: crate::text::opt_view(*wgsl_path),
                params: params@,
            },
        }
    }
}

impl EditorEffectKindModel {
    pub open spec fn complete(self) -> bool {
        self matches EditorEffectKindModel::Shader { wgsl_path, .. } ==> wgsl_path is Some
    }

    pub open spec fn projected(self) -> crate::project_format::EffectKindModel {
        match self {
            EditorEffectKindModel::Vignette { strength, softness } =>
                crate::project_format::EffectKindModel::Vignette { strength, softness },
            EditorEffectKindModel::ColorAdjust { brightness, contrast, saturation } =>
                crate::project_format::EffectKindModel::ColorAdjust {
                brightness,
                contrast,
                saturation,
            },
            EditorEffectKindModel::Blur { radius } =>
                crate::project_format::EffectKindModel::Blur { radius },
            EditorEffectKindModel::Smoke { color, decay, radius } =>
                crate::project_format::EffectKindModel::Smoke { color, decay, radius },
            EditorEffectKindModel::Shader { wgsl_path, params } =>
                crate::project_format::EffectKindModel::Shader {
                wgsl_path: path_or_empty(wgsl_path),
                params,
            },
        }
    }

    pub open spec fn named(self) -> Seq<char> {
        match self {
            EditorEffectKindModel::Vignette { .. } => "Vignette"@,
            EditorEffectKindModel::ColorAdjust { .. } => "Color adjust"@,
            EditorEffectKindModel::Blur { .. } => "Blur"@,
            EditorEffectKindModel::Smoke { .. } => "Smoke"@,
            EditorEffectKindModel::Shader { .. } => "Shader"@,
        }
    }
}

/// An effect's kind of a project in `dir`.
pub open spec fn opened_kind(
    dir: Seq<char>,
    kind: crate::project_format::EffectKindModel,
) -> EditorEffectKindModel {
    match kind {
        crate::project_format::EffectKindModel::Vignette { strength, softness } =>
            EditorEffectKindModel::Vignette { strength, softness },
        crate::project_format::EffectKindModel::ColorAdjust { brightness, contrast, saturation } =>
            EditorEffectKindModel::ColorAdjust { brightness, contrast, saturation },
        crate::project_format::EffectKindModel::Blur { radius } => EditorEffectKindModel::Blur {
            radius,
        },
        crate::project_format::EffectKindModel::Smoke { color, decay, radius } =>
            EditorEffectKindModel::Smoke { color, decay, radius },
        crate::project_format::EffectKindModel::Shader { wgsl_path, params } =>
            EditorEffectKindModel::Shader {
            wgsl_path: Some(crate::paths::joined(dir, wgsl_path)),
            params,
        },
    }
}

impl EditorEffectKind {
    /// The effect's kind as a project holds it.
    pub fn to_project(&self) -> (r: EffectKind)
        ensures
            r@ == self@.projected(),
    {
        match self {
            EditorEffectKind::Vignette { strength, softness } => EffectKind::Vignette {
                strength: *strength,
                softness: *softness,
            },
            EditorEffectKind::ColorAdjust { brightness, contrast, saturation } =>
                EffectKind::ColorAdjust {
                brightness: *brightness,
                contrast: *contrast,
                saturation: *saturation,
            },
            EditorEffectKind::Blur { radius } => EffectKind::Blur { radius: *radius },
            EditorEffectKind::Smoke { color, decay, radius } => EffectKind::Smoke {
                color: *color,
                decay: *decay,
                radius: *radius,
            },
            EditorEffectKind::Shader { wgsl_path, params } => EffectKind::Shader {
                wgsl_path: path_text(wgsl_path),
                params: copy_singles(params),
            },
        }
    }

    fn from_project(kind: &EffectKind, project_dir: &str) -> (r: EditorEffectKind)
        ensures
            r@ == opened_kind(project_dir@, kind@),
    {
        match kind {
            EffectKind::Vignette { strength, softness } => EditorEffectKind::Vignette {
                strength: *strength,
                softness: *softness,
            },
            EffectKind::ColorAdjust { brightness, contrast, saturation } =>
                EditorEffectKind::ColorAdjust {
                brightness: *brightness,
                contrast: *contrast,
                saturation: *saturation,
            },
            EffectKind::Blur { radius } => EditorEffectKind::Blur { radius: *radius },
            EffectKind::Smoke { color, decay, radius } => EditorEffectKind::Smoke {
                color: *color,
                decay: *decay,
                radius: *radius,
            },
            EffectKind::Shader { wgsl_path, params } => EditorEffectKind::Shader {
                wgsl_path: Some(crate::paths::join(project_dir, wgsl_path.as_str())),
                params: copy_singles(params),
            },
        }
    }

    /// What the editor calls the effect.
    pub fn effect_kind_label(&self) -> (r: &'static str)
        ensures
            r@ == self@.named(),
    {
        match self {
            EditorEffectKind::Vignette { .. } => "Vignette",
            EditorEffectKind::ColorAdjust { .. } => "Color adjust",
            EditorEffectKind::Blur { .. } => "Blur",
            EditorEffectKind::Smoke { .. } => "Smoke",
            EditorEffectKind::Shader { .. } => "Shader",
        }
    }

    fn is_complete(&self) -> (r: bool)
        ensures
            r == self@.complete(),
    {
        match self {
            EditorEffectKind::Shader { wgsl_path, .. } => wgsl_path.is_some(),
            _ => true,
        }
    }
}

/// An effect in the editor.
pub struct EditorEffect {
    pub kind: EditorEffectKind,
    pub mask: EditorMask,
    pub enabled: bool,
}

pub struct EditorEffectModel {
    pub kind: EditorEffectKindModel,
    pub mask: EditorMaskModel,
    pub enabled: bool,
}

impl View for EditorEffect {
    type V = EditorEffectModel;

    open spec fn view(&self) -> EditorEffectModel {
        EditorEffectModel { kind: self.kind@, mask: self.mask@, enabled: self.enabled }
    }
}

impl EditorEffectModel {
    pub open spec fn complete(self) -> bool {
        self.mask.complete() && self.kind.complete()
    }

    pub open spec fn projected(self) -> crate::project_format::EffectModel {
        crate::project_format::EffectModel {
            kind: self.kind.projected(),
            mask: self.mask.projected(),
            enabled: self.enabled,
        }
    }
}

impl EditorEffect {
    /// Whether the effect has every file that it needs.
    pub fn is_complete(&self) -> (r: bool)
        ensures
            r == self@.complete(),
    {
        self.mask.is_complete() && self.kind.is_complete()
    }

    /// The effect as a project holds it.
    pub fn to_project(&self) -> (r: Effect)
        ensures
            r@ == self@.projected(),
    {
        Effect {
            kind: self.kind.to_project(),
            mask: self.mask.to_project(),
            enabled: self.enabled,
        }
    }
}

/// The models of a run of effects.
pub open spec fn edits_view(effects: Seq<EditorEffect>) -> Seq<EditorEffectModel> {
    effects.map_values(|e: EditorEffect| e@)
}

/// Every effect has the files that it needs.
pub open spec fn all_complete(effects: Seq<EditorEffectModel>) -> bool {
    forall|i: int| 0 <= i < effects.len() ==> (#[trigger] effects[i]).complete()
}

/// The effects as a project holds them.
pub open spec fn projected_effects(effects: Seq<EditorEffectModel>) -> Seq<
    crate::project_format::EffectModel,
> {
    effects.map_values(|e: EditorEffectModel| e.projected())
}

fn effects_complete(effects: &Vec<EditorEffect>) -> (r: bool)
    ensures
        r == all_complete(edits_view(effects@)),
{
    let mut i: usize = 0;
    while i < effects.len()
        invariant
            i <= effects@.len(),
            forall|j: int| 0 <= j < i ==> (#[trigger] edits_view(effects@)[j]).complete(),
        decreases effects.len() - i,
    {
        assert(edits_view(effects@)[i as int] == effects@[i as int]@);
        if !effects[i].is_complete() {
            return false;
        }
        i += 1;
    }
    true
}

/// The effects as a project holds them.
pub fn project_effects(effects: &Vec<EditorEffect>) -> (r: Vec<Effect>)
    ensures
        crate::project_format::effects_view(r@) == projected_effects(edits_view(effects@)),
{
    let mut r: Vec<Effect> = Vec::new();
    let mut i: usize = 0;
    while i < effects.len()
        invariant
            i <= effects@.len(),
            r@.len() == i,
            forall|j: int| 0 <= j < i ==> (#[trigger] r@[j])@ == effects@[j]@.projected(),
        decreases effects.len() - i,
    {
        r.push(effects[i].to_project());
        i += 1;
    }
    assert(crate::project_format::effects_view(r@) =~= projected_effects(edits_view(effects@)));
    r
}

/// An effect of a project in `dir`, when it has just been opened.
pub open spec fn opened_effect(
    dir: Seq<char>,
    effect: crate::project_format::EffectModel,
) -> EditorEffectModel {
    EditorEffectModel {
        kind: opened_kind(dir, effect.kind),
        mask: opened_mask(dir, effect.mask),
        enabled: effect.enabled,
    }
}

pub open spec fn opened_effects(
    dir: Seq<char>,
    effects: Seq<crate::project_format::EffectModel>,
) -> Seq<EditorEffectModel> {
    effects.map_values(|e: crate::project_format::EffectModel| opened_effect(dir, e))
}

/// The effects of a project that is opened: their files are below the
/// project's directory, and nothing is being painted.
pub fn editor_effects_from_project(effects: &Vec<Effect>, project_dir: &str) -> (r: Vec<
    EditorEffect,
>)
    ensures
        edits_view(r@) == opened_effects(
            project_dir@,
            crate::project_format::effects_view(effects@),
        ),
{
    let mut r: Vec<EditorEffect> = Vec::new();
    let mut i: usize = 0;
    while i < effects.len()
        invariant
            i <= effects@.len(),
            r@.len() == i,
            forall|j: int|
                0 <= j < i ==> (#[trigger] r@[j])@ == opened_effect(project_dir@, effects@[j]@),
        decreases effects.len() - i,
    {
        let effect = &effects[i];
        r.push(
            EditorEffect {
                kind: EditorEffectKind::from_project(&effect.kind, project_dir),
                mask: EditorMask::from_project(&effect.mask, project_dir),
                enabled: effect.enabled,
            },
        );
        i += 1;
    }
    assert(edits_view(r@) =~= opened_effects(
        project_dir@,
        crate::project_format::effects_view(effects@),
    ));
    r
}

// --- Layers ----------------------------------------------------------------

/// A layer in the editor.
pub enum EditorLayer {
    Image { path: Option<String>, effects: Vec<EditorEffect> },
    Xray {
        base: Option<String>,
        overlay: Option<String>,
        radius: Single,
        effects: Vec<EditorEffect>,
    },
    Gif { path: Option<String>, effects: Vec<EditorEffect> },
    Parallax {
        path: Option<String>,
        strength: Single,
        smoothing: Single,
        effects: Vec<EditorEffect>,
    },
    Text {
        x: Single,
        y: Single,
        font_size: Single,
        color: [Single; 4],
        source: EditorTextSource,
        font: EditorTextFont,
    },
    Adjustment { effects: Vec<EditorEffect> },
}

pub enum EditorLayerModel {
    Image { path: Option<Seq<char>>, effects: Seq<EditorEffectModel> },
    Xray {
        base: Option<Seq<char>>,
        overlay: Option<Seq<char>>,
        radius: Single,
        effects: Seq<EditorEffectModel>,
    },
    Gif { path: Option<Seq<char>>, effects: Seq<EditorEffectModel> },
    Parallax {
        path: Option<Seq<char>>,
        strength: Single,
        smoothing: Single,
        effects: Seq<EditorEffectModel>,
    },
    Text {
        x: Single,
        y: Single,
        font_size: Single,
        color: Seq<Single>,
        source: crate::project_format::TextSourceModel,
        font: EditorTextFontModel,
    },
    Adjustment { effects: Seq<EditorEffectModel> },
}

impl View for EditorLayer {
    type V = EditorLayerModel;

    open spec fn view(&self) -> EditorLayerModel {
        match self {
            EditorLayer::Image { path, effects } => EditorLayerModel::Image {
                path: crate::text::opt_view(*path),
                effects: edits_view(effects@),
            },
            EditorLayer::Xray { base, overlay, radius, effects } => EditorLayerModel::Xray {
                base: crate::text::opt_view(*base),
                overlay: crate::text::opt_view(*overlay),
                radius: *radius,
                effects: edits_view(effects@),
            },
            EditorLayer::Gif { path, effects } => EditorLayerModel::Gif {
                path: crate::text::opt_view(*path),
                effects: edits_view(effects@),
            },
            EditorLayer::Parallax { path, strength, smoothing, effects } =>
                EditorLayerModel::Parallax {
                path: crate::text::opt_view(*path),
                strength: *strength,
                smoothing: *smoothing,
                effects: edits_view(effects@),
            },
            EditorLayer::Text { x, y, font_size, color, source, font } => EditorLayerModel::Text {
                x: *x,
                y: *y,
                font_size: *font_size,
                color: color@,
                source: source@,
                font: font@,
            },
            EditorLayer::Adjustment { effects } => EditorLayerModel::Adjustment {
                effects: edits_view(effects@),
            },
        }
    }
}

pub open spec fn editor_view(layers: Seq<EditorLayer>) -> Seq<EditorLayerModel> {
    layers.map_values(|l: EditorLayer| l@)
}

impl EditorLayerModel {
    /// The layer's stack of effects; a text layer has none.
    pub open spec fn stack(self) -> Option<Seq<EditorEffectModel>> {
        match self {
            EditorLayerModel::Image { effects, .. } => Some(effects),
            EditorLayerModel::Xray { effects, .. } => Some(effects),
            EditorLayerModel::Gif { effects, .. } => Some(effects),
            EditorLayerModel::Parallax { effects, .. } => Some(effects),
            EditorLayerModel::Adjustment { effects } => Some(effects),
            EditorLayerModel::Text { .. } => None,
        }
    }

    /// The layer with another stack of effects.
    pub open spec fn with_stack(self, stack: Seq<EditorEffectModel>) -> EditorLayerModel {
        match self {
            EditorLayerModel::Image { path, .. } => EditorLayerModel::Image {
                path,
                effects: stack,
            },
            EditorLayerModel::Xray { base, overlay, radius, .. } => EditorLayerModel::Xray {
                base,
                overlay,
                radius,
                effects: stack,
            },
            EditorLayerModel::Gif { path, .. } => EditorLayerModel::Gif { path, effects: stack },
            EditorLayerModel::Parallax { path, strength, smoothing, .. } =>
                EditorLayerModel::Parallax { path, strength, smoothing, effects: stack },
            EditorLayerModel::Adjustment { .. } => EditorLayerModel::Adjustment { effects: stack },
            EditorLayerModel::Text { .. } => self,
        }
    }

    /// The layer has every file that it needs.
    pub open spec fn complete(self) -> bool {
        &&& match self {
            EditorLayerModel::Image { path, .. } => path is Some,
            EditorLayerModel::Xray { base, overlay, .. } => base is Some && overlay is Some,
            EditorLayerModel::Gif { path, .. } => path is Some,
            EditorLayerModel::Parallax { path, .. } => path is Some,
            EditorLayerModel::Text { font, .. } => font.complete(),
            EditorLayerModel::Adjustment { .. } => true,
        }
        &&& self.stack() matches Some(effects) ==> all_complete(effects)
    }

    /// The layer as a project holds it, with the files where they are.
    pub open spec fn projected(self) -> crate::project_format::LayerModel {
        match self {
            EditorLayerModel::Image { path, effects } =>
                crate::project_format::LayerModel::Image {
                path: path_or_empty(path),
                effects: projected_effects(effects),
            },
            EditorLayerModel::Xray { base, overlay, radius, effects } =>
                crate::project_format::LayerModel::Xray {
                base: path_or_empty(base),
                overlay: path_or_empty(overlay),
                radius,
                effects: projected_effects(effects),
            },
            EditorLayerModel::Gif { path, effects } => crate::project_format::LayerModel::Gif {
                path: path_or_empty(path),
                effects: projected_effects(effects),
            },
            EditorLayerModel::Parallax { path, strength, smoothing, effects } =>
                crate::project_format::LayerModel::Parallax {
                path: path_or_empty(path),
                strength,
                smoothing,
                effects: projected_effects(effects),
            },
            EditorLayerModel::Text { x, y, font_size, color, source, font } =>
                crate::project_format::LayerModel::Text {
                x,
                y,
                font_size,
                color,
                source,
                font: font.projected(),
            },
            EditorLayerModel::Adjustment { effects } =>
                crate::project_format::LayerModel::Adjustment {
                effects: projected_effects(effects),
            },
        }
    }

    pub open spec fn named(self) -> Seq<char> {
        match self {
            EditorLayerModel::Image { .. } => "Image"@,
            EditorLayerModel::Xray { .. } => "Xray"@,
            EditorLayerModel::Gif { .. } => "Gif"@,
            EditorLayerModel::Parallax { .. } => "Parallax"@,
            EditorLayerModel::Text { .. } => "Text"@,
            EditorLayerModel::Adjustment { .. } => "Adjustment"@,
        }
    }
}

impl EditorLayer {
    /// What the editor calls the layer.
    pub fn label(&self) -> (r: &'static str)
        ensures
            r@ == self@.named(),
    {
        match self {
            EditorLayer::Image { .. } => "Image",
            EditorLayer::Xray { .. } => "Xray",
            EditorLayer::Gif { .. } => "Gif",
            EditorLayer::Parallax { .. } => "Parallax",
            EditorLayer::Text { .. } => "Text",
            EditorLayer::Adjustment { .. } => "Adjustment",
        }
    }

    /// Whether the layer has every file that it needs.
    pub fn is_complete(&self) -> (r: bool)
        ensures
            r == self@.complete(),
    {
        match self {
            EditorLayer::Image { path, effects }
            | EditorLayer::Gif { path, effects }
            | EditorLayer::Parallax { path, effects, .. } => path.is_some()
                && effects_complete(effects),
            EditorLayer::Xray { base, overlay, effects, .. } => base.is_some() && overlay.is_some()
                && effects_complete(effects),
            EditorLayer::Text { font, .. } => font.is_complete(),
            EditorLayer::Adjustment { effects } => effects_complete(effects),
        }
    }

    /// The layer's stack of effects, to be changed.
    pub fn effects_mut(&mut self) -> (r: Option<&mut Vec<EditorEffect>>)
        ensures
            match r {
                Some(e) => old(self)@.stack() == Some(edits_view(e@)) && final(self)@ == old(
                    self,
                )@.with_stack(edits_view(final(e)@)),
                None => old(self)@.stack() is None && *final(self) == *old(self),
            },
    {
        match self {
            EditorLayer::Image { effects, .. } => Some(effects),
            EditorLayer::Xray { effects, .. } => Some(effects),
            EditorLayer::Gif { effects, .. } => Some(effects),
            EditorLayer::Parallax { effects, .. } => Some(effects),
            EditorLayer::Adjustment { effects } => Some(effects),
            EditorLayer::Text { .. } => None,
        }
    }

    /// The layer's stack of effects; a text layer has none.
    pub fn effects(&self) -> (r: Option<&Vec<EditorEffect>>)
        ensures
            match r {
                Some(e) => self@.stack() == Some(edits_view(e@)),
                None => self@.stack() is None,
            },
    {
        match self {
            EditorLayer::Image { effects, .. }
            | EditorLayer::Xray { effects, .. }
            | EditorLayer::Gif { effects, .. }
            | EditorLayer::Parallax { effects, .. }
            | EditorLayer::Adjustment { effects } => Some(effects),
            EditorLayer::Text { .. } => None,
        }
    }

    /// The layer as a project holds it, with the files where they are.
    pub fn to_project(&self) -> (r: Layer)
        ensures
            r@ == self@.projected(),
    {
        match self {
            EditorLayer::Image { path, effects } => Layer::Image {
                path: path_text(path),
                effects: project_effects(effects),
            },
            EditorLayer::Xray { base, overlay, radius, effects } => Layer::Xray {
                base: path_text(base),
                overlay: path_text(overlay),
                radius: *radius,
                effects: project_effects(effects),
            },
            EditorLayer::Gif { path, effects } => Layer::Gif {
                path: path_text(path),
                effects: project_effects(effects),
            },
            EditorLayer::Parallax { path, strength, smoothing, effects } => Layer::Parallax {
                path: path_text(path),
                strength: *strength,
                smoothing: *smoothing,
                effects: project_effects(effects),
            },
            EditorLayer::Text { x, y, font_size, color, source, font } => Layer::Text {
                x: *x,
                y: *y,
                font_size: *font_size,
                color: *color,
                source: source.to_project(),
                font: font.to_project(),
            },
            EditorLayer::Adjustment { effects } => Layer::Adjustment {
                effects: project_effects(effects),
            },
        }
    }
}

/// Every layer has the files that it needs.
pub open spec fn layers_complete(layers: Seq<EditorLayerModel>) -> bool {
    forall|i: int| 0 <= i < layers.len() ==> (#[trigger] layers[i]).complete()
}

/// There is something to save or to preview.
pub open spec fn savable(layers: Seq<EditorLayerModel>) -> bool {
    layers.len() > 0 && layers_complete(layers)
}

/// Whether there is something to save or to preview: at least one layer, and
/// no file missing.
pub fn can_save(layers: &Vec<EditorLayer>) -> (r: bool)
    ensures
        r == savable(editor_view(layers@)),
{
    if layers.len() == 0 {
        return false;
    }
    let mut i: usize = 0;
    while i < layers.len()
        invariant
            i <= layers@.len(),
            forall|j: int| 0 <= j < i ==> (#[trigger] editor_view(layers@)[j]).complete(),
        decreases layers.len() - i,
    {
        assert(editor_view(layers@)[i as int] == layers@[i as int]@);
        if !layers[i].is_complete() {
            return false;
        }
        i += 1;
    }
    true
}

/// The layers as a project holds them, with the files where they are.
pub open spec fn projected_layers(layers: Seq<EditorLayerModel>) -> Seq<
    crate::project_format::LayerModel,
> {
    layers.map_values(|l: EditorLayerModel| l.projected())
}

/// The project that a preview of the layers loads.
pub open spec fn previewed_project(
    layers: Seq<EditorLayerModel>,
) -> crate::project_format::ProjectModel {
    crate::project_format::ProjectModel {
        name: seq![],
        description: seq![],
        layers: projected_layers(layers),
        fps: 30,
    }
}

/// The project that a preview of the layers loads; nothing while there is
/// nothing to preview.
pub fn build_preview_project(layers: &Vec<EditorLayer>) -> (r: Option<Project>)
    ensures
        match r {
            Some(p) => savable(editor_view(layers@)) && p@ == previewed_project(
                editor_view(layers@),
            ),
            None => !savable(editor_view(layers@)),
        },
{
    if !can_save(layers) {
        return None;
    }
    let mut converted: Vec<Layer> = Vec::new();
    let mut i: usize = 0;
    while i < layers.len()
        invariant
            i <= layers@.len(),
            converted@.len() == i,
            forall|j: int| 0 <= j < i ==> (#[trigger] converted@[j])@ == layers@[j]@.projected(),
        decreases layers.len() - i,
    {
        converted.push(layers[i].to_project());
        i += 1;
    }
    assert(crate::project_format::layers_view(converted@) =~= projected_layers(
        editor_view(layers@),
    ));
    Some(
        Project {
            name: String::new(),
            description: String::new(),
            layers: converted,
            fps: 30,
        },
    )
}

/// The widest that a preview is, in pixels.
pub const PREVIEW_MAX_WIDTH: u32 = 480;

/// The size of a preview: no wider than the most, and no wider than the
/// picture, with the picture's proportions.
pub open spec fn preview_dimensions(w: u32, h: u32) -> (int, int) {
    if w == 0 || h == 0 {
        (PREVIEW_MAX_WIDTH as int, PREVIEW_MAX_WIDTH * 9 / 16)
    } else {
        let width = if w < PREVIEW_MAX_WIDTH {
            w as int
        } else {
            PREVIEW_MAX_WIDTH as int
        };
        let height = (width * h) / (w as int);
        (width, if height < 1 {
            1
        } else {
            height
        })
    }
}

/// The size of the preview of a picture.
pub fn preview_size(natural_width: u32, natural_height: u32) -> (r: (u32, u32))
    ensures
        r.0 == preview_dimensions(natural_width, natural_height).0,
        r.1 == preview_dimensions(natural_width, natural_height).1,
        0 < r.0 <= PREVIEW_MAX_WIDTH,
        0 < r.1,
{
    if natural_width == 0 || natural_height == 0 {
        return (PREVIEW_MAX_WIDTH, PREVIEW_MAX_WIDTH * 9 / 16);
    }
    let width: u32 = if natural_width < PREVIEW_MAX_WIDTH {
        natural_width
    } else {
        PREVIEW_MAX_WIDTH
    };
    assert(width as int * natural_height as int <= 480 * 0xffff_ffff) by (nonlinear_arith)
        requires
            width <= 480,
            natural_height <= 0xffff_ffff,
    ;
    let height: u64 = (width as u64 * natural_height as u64) / natural_width as u64;
    assert(height <= natural_height) by (nonlinear_arith)
        requires
            height == (width * natural_height) / (natural_width as int),
            width <= natural_width,
            natural_width > 0,
    ;
    if height < 1 {
        (width, 1)
    } else {
        (width, height as u32)
    }
}


/// A preview is never nothing, no wider than the most and no wider than the
/// picture; it has the picture's proportions, but for a part of a pixel, and a
/// small picture's own size. Where there is no picture it is sixteen to nine.
pub proof fn preview_has_the_proportions(w: u32, h: u32)
    ensures
        ({
            let (pw, ph) = preview_dimensions(w, h);
            &&& 0 < pw <= PREVIEW_MAX_WIDTH
            &&& 0 < ph
            &&& w == 0 || h == 0 ==> 9 * pw == 16 * ph && pw == PREVIEW_MAX_WIDTH
            &&& w > 0 && h > 0 ==> {
                &&& pw <= w
                &&& w >= PREVIEW_MAX_WIDTH ==> pw == PREVIEW_MAX_WIDTH
                &&& w <= PREVIEW_MAX_WIDTH ==> pw == w && ph == h
                &&& pw * h < (ph + 1) * w
                &&& ph > 1 ==> ph * w <= pw * h
            }
        }),
{
    let (pw, ph) = preview_dimensions(w, h);
    if w > 0 && h > 0 {
        let q = (pw * h) / (w as int);
        assert(q * w <= pw * h < (q + 1) * w) by (nonlinear_arith)
            requires
                q == (pw * h) / (w as int),
                w > 0,
        ;
        assert(pw * h < (ph + 1) * w) by (nonlinear_arith)
            requires
                pw * h < (q + 1) * w,
                q <= ph,
                w > 0,
        ;
        if pw == w {
            assert(q == h) by (nonlinear_arith)
                requires
                    q * w <= pw * h < (q + 1) * w,
                    pw == w,
                    w > 0,
            ;
        }
    }
}


/// Another stack of effects changes nothing else of a layer; a text layer takes
/// none.
pub proof fn stack_is_all_that_changes(l: EditorLayerModel, stack: Seq<EditorEffectModel>)
    ensures
        !(l is Text) ==> l.with_stack(stack).stack() == Some(stack),
        l is Text ==> l.with_stack(stack) == l && l.stack() is None,
        l.stack() matches Some(own) ==> l.with_stack(stack).with_stack(own) == l,
        crate::project_laws::edited_pictures(l.with_stack(stack))
            == crate::project_laws::edited_pictures(l),
{
}


/// Layers and effects are called by their kinds.
pub proof fn kinds_have_their_names(l: EditorLayerModel, e: EditorEffectKindModel)
    ensures
        l is Image ==> l.named() == "Image"@,
        l is Xray ==> l.named() == "Xray"@,
        l is Gif ==> l.named() == "Gif"@,
        l is Parallax ==> l.named() == "Parallax"@,
        l is Text ==> l.named() == "Text"@,
        l is Adjustment ==> l.named() == "Adjustment"@,
        e is Vignette ==> e.named() == "Vignette"@,
        e is ColorAdjust ==> e.named() == "Color adjust"@,
        e is Blur ==> e.named() == "Blur"@,
        e is Smoke ==> e.named() == "Smoke"@,
        e is Shader ==> e.named() == "Shader"@,
{
}

} // verus!
