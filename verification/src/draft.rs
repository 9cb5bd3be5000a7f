//! The project that is open in the editor: its layers and their effects, and
//! which of them are selected.

use vstd::prelude::*;

use crate::editor::{
    EditorEffect, EditorEffectKind, EditorLayer, EditorMask, EditorTextFont, EditorTextSource,
    DEFAULT_BRUSH_RADIUS, DEFAULT_BRUSH_SOFTNESS,
};
use crate::project_format::{Single, Transform2D, HALF, ONE, ZERO};
use crate::selection::{selection_after_removal, selection_after_swap};

verus! {

// --- What new layers and effects begin as ----------------------------------

/// The kinds of layers.
#[derive(Debug, Clone, Copy, PartialEq, Eq, Structural)]
pub enum LayerChoice {
    Image,
    Xray,
    Gif,
    Parallax,
    Text,
    Adjustment,
}

/// 200
pub const XRAY_RADIUS: Single = 0x4348_0000;

/// 0.05
pub const PARALLAX_STRENGTH: Single = 0x3d4c_cccd;

/// 0.15
pub const PARALLAX_SMOOTHING: Single = 0x3e19_999a;

/// 0.05
pub const TEXT_SIZE: Single = 0x3d4c_cccd;

/// A layer that was just added.
pub open spec fn fresh_layer(choice: LayerChoice) -> crate::editor::EditorLayerModel {
    match choice {
        LayerChoice::Image => crate::editor::EditorLayerModel::Image {
            path: None,
            effects: seq![],
        },
        LayerChoice::Xray => crate::editor::EditorLayerModel::Xray {
            base: None,
            overlay: None,
            radius: XRAY_RADIUS,
            effects: seq![],
        },
        LayerChoice::Gif => crate::editor::EditorLayerModel::Gif { path: None, effects: seq![] },
        LayerChoice::Parallax => crate::editor::EditorLayerModel::Parallax {
            path: None,
            strength: PARALLAX_STRENGTH,
            smoothing: PARALLAX_SMOOTHING,
            effects: seq![],
        },
        LayerChoice::Text => crate::editor::EditorLayerModel::Text {
            x: HALF,
            y: HALF,
            font_size: TEXT_SIZE,
            color: seq![ONE, ONE, ONE, ONE],
            source: crate::project_format::TextSourceModel::Literal { text: seq![] },
            font: crate::editor::EditorTextFontModel::Bundled,
        },
        LayerChoice::Adjustment => crate::editor::EditorLayerModel::Adjustment {
            effects: seq![],
        },
    }
}

/// A layer to be filled in: without a file, drawn in the middle.
pub fn new_layer(choice: LayerChoice) -> (r: EditorLayer)
    ensures
        r@ == fresh_layer(choice),
{
    let effects: Vec<EditorEffect> = Vec::new();
    assert(crate::editor::edits_view(effects@) =~= seq![]);
    match choice {
        LayerChoice::Image => EditorLayer::Image { path: None, effects },
        LayerChoice::Xray => EditorLayer::Xray {
            base: None,
            overlay: None,
            radius: XRAY_RADIUS,
            effects,
        },
        LayerChoice::Gif => EditorLayer::Gif { path: None, effects },
        LayerChoice::Parallax => EditorLayer::Parallax {
            path: None,
            strength: PARALLAX_STRENGTH,
            smoothing: PARALLAX_SMOOTHING,
            effects,
        },
        LayerChoice::Text => {
            let color = [ONE, ONE, ONE, ONE];
            let text = String::new();
            assert(color@ =~= seq![ONE, ONE, ONE, ONE]);
            assert(text@ =~= seq![]);
            EditorLayer::Text {
                x: HALF,
                y: HALF,
                font_size: TEXT_SIZE,
                color,
                source: EditorTextSource::Literal(text),
                font: EditorTextFont::Bundled,
            }
        },
        LayerChoice::Adjustment => EditorLayer::Adjustment { effects },
    }
}

/// The kinds of effects.
#[derive(Debug, Clone, Copy, PartialEq, Eq, Structural)]
pub enum EffectChoice {
    Vignette,
    ColorAdjust,
    Blur,
    Smoke,
    Shader,
}

/// 0.02
pub const BLUR_RADIUS: Single = 0x3ca3_d70a;

/// 0.6, 0.3 and 0.9
pub const SMOKE_RED: Single = 0x3f19_999a;

pub const SMOKE_GREEN: Single = 0x3e99_999a;

pub const SMOKE_BLUE: Single = 0x3f66_6666;

/// 0.97
pub const SMOKE_DECAY: Single = 0x3f78_51ec;

/// 0.05
pub const SMOKE_RADIUS: Single = 0x3d4c_cccd;

/// The kind of an effect that was just added.
pub open spec fn fresh_kind(choice: EffectChoice) -> crate::editor::EditorEffectKindModel {
    match choice {
        EffectChoice::Vignette => crate::editor::EditorEffectKindModel::Vignette {
            strength: HALF,
            softness: HALF,
        },
        EffectChoice::ColorAdjust => crate::editor::EditorEffectKindModel::ColorAdjust {
            brightness: ZERO,
            contrast: ZERO,
            saturation: ZERO,
        },
        EffectChoice::Blur => crate::editor::EditorEffectKindModel::Blur { radius: BLUR_RADIUS },
        EffectChoice::Smoke => crate::editor::EditorEffectKindModel::Smoke {
            color: seq![SMOKE_RED, SMOKE_GREEN, SMOKE_BLUE, ONE],
            decay: SMOKE_DECAY,
            radius: SMOKE_RADIUS,
        },
        EffectChoice::Shader => crate::editor::EditorEffectKindModel::Shader {
            wgsl_path: None,
            params: seq![],
        },
    }
}

/// An effect that was just added: switched on, and without a mask.
pub open spec fn fresh_effect(choice: EffectChoice) -> crate::editor::EditorEffectModel {
    crate::editor::EditorEffectModel {
        kind: fresh_kind(choice),
        mask: crate::editor::EditorMaskModel::Unmasked,
        enabled: true,
    }
}

/// An effect to be filled in.
pub fn new_effect(choice: EffectChoice) -> (r: EditorEffect)
    ensures
        r@ == fresh_effect(choice),
{
    let kind = match choice {
        EffectChoice::Vignette => EditorEffectKind::Vignette { strength: HALF, softness: HALF },
        EffectChoice::ColorAdjust => EditorEffectKind::ColorAdjust {
            brightness: ZERO,
            contrast: ZERO,
            saturation: ZERO,
        },
        EffectChoice::Blur => EditorEffectKind::Blur { radius: BLUR_RADIUS },
        EffectChoice::Smoke => {
            let color = [SMOKE_RED, SMOKE_GREEN, SMOKE_BLUE, ONE];
            assert(color@ =~= seq![SMOKE_RED, SMOKE_GREEN, SMOKE_BLUE, ONE]);
            EditorEffectKind::Smoke { color, decay: SMOKE_DECAY, radius: SMOKE_RADIUS }
        },
        EffectChoice::Shader => {
            let params: Vec<Single> = Vec::new();
            assert(params@ =~= seq![]);
            EditorEffectKind::Shader { wgsl_path: None, params }
        },
    };
    EditorEffect { kind, mask: EditorMask::Unmasked, enabled: true }
}

// --- Switching kinds -------------------------------------------------------

/// The kinds of masks.
#[derive(Debug, Clone, Copy, PartialEq, Eq, Structural)]
pub enum MaskChoice {
    Unmasked,
    Circle,
    Gradient,
    Texture,
}

/// 0.2
pub const MASK_FEATHER: Single = 0x3e4c_cccd;

/// The mask is of the kind already.
pub open spec fn mask_is(mask: crate::editor::EditorMaskModel, choice: MaskChoice) -> bool {
    match choice {
        MaskChoice::Unmasked => mask is Unmasked,
        MaskChoice::Circle => mask is Circle,
        MaskChoice::Gradient => mask is Gradient,
        MaskChoice::Texture => mask is Texture,
    }
}

/// A mask that was just picked.
pub open spec fn fresh_mask(choice: MaskChoice) -> crate::editor::EditorMaskModel {
    match choice {
        MaskChoice::Unmasked => crate::editor::EditorMaskModel::Unmasked,
        MaskChoice::Circle => crate::editor::EditorMaskModel::Circle {
            transform: Transform2D::centred(),
            feather: MASK_FEATHER,
            invert: false,
        },
        MaskChoice::Gradient => crate::editor::EditorMaskModel::Gradient {
            transform: Transform2D::centred(),
            feather: MASK_FEATHER,
            invert: false,
        },
        MaskChoice::Texture => crate::editor::EditorMaskModel::Texture {
            path: None,
            invert: false,
            paint: None,
            painting: false,
            brush_radius: DEFAULT_BRUSH_RADIUS,
            brush_softness: DEFAULT_BRUSH_SOFTNESS,
            last_paint_pos: None,
        },
    }
}

/// A mask once a kind of mask was picked for it.
pub open spec fn mask_switched(
    mask: crate::editor::EditorMaskModel,
    choice: MaskChoice,
) -> crate::editor::EditorMaskModel {
    if mask_is(mask, choice) {
        mask
    } else {
        fresh_mask(choice)
    }
}

impl EditorMask {
    /// Switches to a kind of mask. A mask that is of the kind already stays
    /// as it is.
    pub fn switch(&mut self, choice: MaskChoice)
        ensures
            final(self)@ == mask_switched(old(self)@, choice),
    {
        let same = match (&*self, choice) {
            (EditorMask::Unmasked, MaskChoice::Unmasked) => true,
            (EditorMask::Circle { .. }, MaskChoice::Circle) => true,
            (EditorMask::Gradient { .. }, MaskChoice::Gradient) => true,
            (EditorMask::Texture { .. }, MaskChoice::Texture) => true,
            _ => false,
        };
        if !same {
            *self =
            match choice {
                MaskChoice::Unmasked => EditorMask::Unmasked,
                MaskChoice::Circle => EditorMask::Circle {
                    transform: Transform2D::default(),
                    feather: MASK_FEATHER,
                    invert: false,
                },
                MaskChoice::Gradient => EditorMask::Gradient {
                    transform: Transform2D::default(),
                    feather: MASK_FEATHER,
                    invert: false,
                },
                MaskChoice::Texture => EditorMask::Texture {
                    path: None,
                    invert: false,
                    paint: None,
                    painting: false,
                    brush_radius: DEFAULT_BRUSH_RADIUS,
                    brush_softness: DEFAULT_BRUSH_SOFTNESS,
                    last_paint_pos: None,
                },
            };
        }
    }
}

/// A mask whose paint button was pressed. `started` is a fresh file and buffer
/// for it, where it could be had.
pub open spec fn paint_toggled(
    mask: crate::editor::EditorMaskModel,
    started: Option<(Seq<char>, Seq<u8>)>,
) -> crate::editor::EditorMaskModel {
    match mask {
        crate::editor::EditorMaskModel::Texture {
            path,
            invert,
            paint,
            painting,
            brush_radius,
            brush_softness,
            ..
        } => {
            let fresh = !painting && paint is None && started is Some;
            let (fresh_path, buffer) = started->0;
            crate::editor::EditorMaskModel::Texture {
                path: if fresh {
                    Some(fresh_path)
                } else {
                    path
                },
                invert,
                paint: if fresh {
                    Some(buffer)
                } else {
                    paint
                },
                painting: !painting,
                brush_radius,
                brush_softness,
                last_paint_pos: None,
            }
        },
        _ => mask,
    }
}

pub open spec fn started_view(started: Option<(String, Vec<u8>)>) -> Option<
    (Seq<char>, Seq<u8>),
> {
    match started {
        Some((path, buffer)) => Some((path@, buffer@)),
        None => None,
    }
}

impl EditorMask {
    /// Whether pressing the paint button takes a buffer: on a picture that has
    /// not been painted on yet.
    pub fn wants_buffer(&self) -> (r: bool)
        ensures
            r == (self@ matches crate::editor::EditorMaskModel::Texture { paint, painting, .. }
                && !painting && paint is None),
    {
        match self {
            EditorMask::Texture { paint, painting, .. } => !*painting && paint.is_none(),
            _ => false,
        }
    }

    /// Whether the mask is being painted on.
    pub fn is_painting(&self) -> (r: bool)
        ensures
            r == (self@ matches crate::editor::EditorMaskModel::Texture { painting, .. }
                && painting),
    {
        match self {
            EditorMask::Texture { painting, .. } => *painting,
            _ => false,
        }
    }

    /// Starts or stops painting on the mask.
    pub fn toggle_paint(&mut self, started: Option<(String, Vec<u8>)>)
        ensures
            final(self)@ == paint_toggled(old(self)@, started_view(started)),
    {
        match self {
            EditorMask::Texture { path, paint, painting, last_paint_pos, .. } => {
                if !*painting && paint.is_none() {
                    match started {
                        Some((fresh_path, buffer)) => {
                            *path = Some(fresh_path);
                            *paint = Some(buffer);
                        },
                        None => {},
                    }
                }
                *painting = !*painting;
                *last_paint_pos = None;
            },
            _ => {},
        }
    }
}

/// The kinds of text sources.
#[derive(Debug, Clone, Copy, PartialEq, Eq, Structural)]
pub enum SourceChoice {
    Literal,
    Clock,
    Command,
}

pub open spec fn source_is(
    source: crate::project_format::TextSourceModel,
    choice: SourceChoice,
) -> bool {
    match choice {
        SourceChoice::Literal => source is Literal,
        SourceChoice::Clock => source is Clock,
        SourceChoice::Command => source is Command,
    }
}

/// A source that was just picked.
pub open spec fn fresh_source(choice: SourceChoice) -> crate::project_format::TextSourceModel {
    match choice {
        SourceChoice::Literal => crate::project_format::TextSourceModel::Literal { text: seq![] },
        SourceChoice::Clock => crate::project_format::TextSourceModel::Clock { format: "%H:%M"@ },
        SourceChoice::Command => crate::project_format::TextSourceModel::Command {
            command: seq![],
            interval_secs: 60,
        },
    }
}

/// A source once a kind of source was picked for it.
pub open spec fn source_switched(
    source: crate::project_format::TextSourceModel,
    choice: SourceChoice,
) -> crate::project_format::TextSourceModel {
    if source_is(source, choice) {
        source
    } else {
        fresh_source(choice)
    }
}

/// A font once one of the user's own, or the engine's, was picked.
pub open spec fn font_switched(
    font: crate::editor::EditorTextFontModel,
    custom: bool,
) -> crate::editor::EditorTextFontModel {
    if custom && !(font is Custom) {
        crate::editor::EditorTextFontModel::Custom { path: None }
    } else if !custom {
        crate::editor::EditorTextFontModel::Bundled
    } else {
        font
    }
}

/// A shader's parameters once its file has been looked at.
pub open spec fn fitted_params(params: Seq<Single>, defaults: Seq<Single>) -> Seq<Single> {
    if params.len() == defaults.len() {
        params
    } else {
        defaults
    }
}

impl EditorTextSource {
    /// Switches to a kind of source. A source that is of the kind already
    /// stays as it is.
    pub fn switch(&mut self, choice: SourceChoice)
        ensures
            final(self)@ == source_switched(old(self)@, choice),
    {
        let same = match (&*self, choice) {
            (EditorTextSource::Literal(_), SourceChoice::Literal) => true,
            (EditorTextSource::Clock { .. }, SourceChoice::Clock) => true,
            (EditorTextSource::Command { .. }, SourceChoice::Command) => true,
            _ => false,
        };
        if !same {
            let blank = String::new();
            assert(blank@ =~= seq![]);
            *self =
            match choice {
                SourceChoice::Literal => EditorTextSource::Literal(blank),
                SourceChoice::Clock => EditorTextSource::Clock { format: "%H:%M".to_string() },
                SourceChoice::Command => EditorTextSource::Command {
                    command: blank,
                    interval_secs: 60,
                },
            };
        }
    }
}

impl EditorTextFont {
    /// Switches to a font of the user's own, or back to the engine's. A font
    /// that is of the kind already stays as it is.
    pub fn switch(&mut self, custom: bool)
        ensures
            final(self)@ == font_switched(old(self)@, custom),
    {
        let is_custom = match self {
            EditorTextFont::Custom { .. } => true,
            EditorTextFont::Bundled => false,
        };
        if custom && !is_custom {
            *self = EditorTextFont::Custom { path: None };
        } else if !custom {
            *self = EditorTextFont::Bundled;
        }
    }
}

/// A shader's parameters after a look at its file: the defaults that the file
/// gives, where it does not have as many parameters as there are values.
pub fn fit_params(params: &mut Vec<Single>, defaults: &Vec<Single>)
    ensures
        final(params)@ == fitted_params(old(params)@, defaults@),
{
    if params.len() != defaults.len() {
        *params = crate::project_format::copy_singles(defaults);
    }
}

// --- The open project ------------------------------------------------------

/// The project that is open in the editor.
pub struct Draft {
    pub layers: Vec<EditorLayer>,
    pub selected: Option<usize>,
    /// The selected effect of the selected layer.
    pub selected_effect: Option<usize>,
    pub fps: u32,
    /// Under which name the project lies in the library, once it does.
    pub id: Option<String>,
    pub name: String,
    pub description: String,
}

pub struct DraftModel {
    pub layers: Seq<crate::editor::EditorLayerModel>,
    pub selected: Option<usize>,
    pub selected_effect: Option<usize>,
    pub fps: u32,
    pub id: Option<Seq<char>>,
    pub name: Seq<char>,
    pub description: Seq<char>,
}

impl View for Draft {
    type V = DraftModel;

    open spec fn view(&self) -> DraftModel {
        DraftModel {
            layers: crate::editor::editor_view(self.layers@),
            selected: self.selected,
            selected_effect: self.selected_effect,
            fps: self.fps,
            id: crate::text::opt_view(self.id),
            name: self.name@,
            description: self.description@,
        }
    }
}

impl DraftModel {
    /// What is selected is there.
    pub open spec fn wf(self) -> bool {
        &&& self.selected matches Some(s) ==> s < self.layers.len()
        &&& self.selected_effect matches Some(e) ==> self.selected is Some && e
            < self.stack().len()
    }

    /// The effects of the selected layer.
    pub open spec fn stack(self) -> Seq<crate::editor::EditorEffectModel> {
        match self.selected {
            Some(s) => match self.layers[s as int].stack() {
                Some(effects) => effects,
                None => seq![],
            },
            None => seq![],
        }
    }

    /// The project with another stack of effects on the selected layer.
    pub open spec fn with_stack(
        self,
        stack: Seq<crate::editor::EditorEffectModel>,
        selected_effect: Option<usize>,
    ) -> DraftModel {
        match self.selected {
            Some(s) => DraftModel {
                layers: self.layers.update(s as int, self.layers[s as int].with_stack(stack)),
                selected_effect,
                ..self
            },
            None => self,
        }
    }

    /// The selected layer has a stack of effects.
    pub open spec fn has_effects(self) -> bool {
        self.selected is Some && self.layers[self.selected->0 as int].stack() is Some
    }

    /// The project with a layer added on top.
    pub open spec fn with_layer(self, choice: LayerChoice) -> DraftModel {
        DraftModel {
            layers: self.layers.push(fresh_layer(choice)),
            selected: Some(self.layers.len() as usize),
            selected_effect: None,
            ..self
        }
    }

    /// The project with another layer selected.
    pub open spec fn with_selected(self, index: usize) -> DraftModel {
        DraftModel {
            selected: Some(index),
            selected_effect: None,
            ..self
        }
    }

    /// The project without a layer.
    pub open spec fn without_layer(self, index: usize) -> DraftModel {
        DraftModel {
            layers: self.layers.remove(index as int),
            selected: crate::selection::after_removal(self.selected, index),
            selected_effect: if crate::selection::after_removal(
                self.selected,
                index,
            ) is None {
                None
            } else {
                self.selected_effect
            },
            ..self
        }
    }

    /// The project with a layer moved one place down in the picture.
    pub open spec fn with_layer_up(self, index: usize) -> DraftModel {
        if index > 0 {
            DraftModel {
                layers: crate::selection::swapped(
                    self.layers,
                    index as int - 1,
                    index as int,
                ),
                selected: crate::selection::after_swap(
                    self.selected,
                    (index - 1) as usize,
                    index,
                ),
                ..self
            }
        } else {
            self
        }
    }

    /// The project with a layer moved one place up in the picture.
    pub open spec fn with_layer_down(self, index: usize) -> DraftModel {
        if index + 1 < self.layers.len() {
            DraftModel {
                layers: crate::selection::swapped(
                    self.layers,
                    index as int,
                    index as int + 1,
                ),
                selected: crate::selection::after_swap(
                    self.selected,
                    index,
                    (index + 1) as usize,
                ),
                ..self
            }
        } else {
            self
        }
    }

    /// The project with an effect added to the selected layer.
    pub open spec fn with_effect(self, choice: EffectChoice) -> DraftModel {
        if self.has_effects() {
            self.with_stack(
                self.stack().push(fresh_effect(choice)),
                self.selected_effect,
            )
        } else {
            self
        }
    }

    /// The project with another effect selected.
    pub open spec fn with_selected_effect(self, index: usize) -> DraftModel {
        DraftModel { selected_effect: Some(index), ..self }
    }

    /// The project without an effect of the selected layer.
    pub open spec fn without_effect(self, index: usize) -> DraftModel {
        self.with_stack(
            self.stack().remove(index as int),
            crate::selection::after_removal(self.selected_effect, index),
        )
    }

    /// The project with an effect of the selected layer applied earlier.
    pub open spec fn with_effect_up(self, index: usize) -> DraftModel {
        if index > 0 {
            self.with_stack(
                crate::selection::swapped(
                    self.stack(),
                    index as int - 1,
                    index as int,
                ),
                crate::selection::after_swap(
                    self.selected_effect,
                    (index - 1) as usize,
                    index,
                ),
            )
        } else {
            self
        }
    }

    /// The project with an effect of the selected layer applied later.
    pub open spec fn with_effect_down(self, index: usize) -> DraftModel {
        if index + 1 < self.stack().len() {
            self.with_stack(
                crate::selection::swapped(
                    self.stack(),
                    index as int,
                    index as int + 1,
                ),
                crate::selection::after_swap(
                    self.selected_effect,
                    index,
                    (index + 1) as usize,
                ),
            )
        } else {
            self
        }
    }

    /// The project once the paint button of an effect of the selected layer was
    /// pressed.
    pub open spec fn with_paint_pressed(
        self,
        index: usize,
        started: Option<(Seq<char>, Seq<u8>)>,
    ) -> DraftModel {
        self.with_stack(
            self.stack().update(
                index as int,
                crate::editor::EditorEffectModel {
                    mask: paint_toggled(
                        self.stack()[index as int].mask,
                        started,
                    ),
                    ..self.stack()[index as int]
                },
            ),
            if is_painted_on(
                paint_toggled(self.stack()[index as int].mask, started),
            ) {
                Some(index)
            } else {
                self.selected_effect
            },
        )
    }
}

/// A project with nothing in it.
pub open spec fn blank_draft() -> DraftModel {
    DraftModel {
        layers: seq![],
        selected: None,
        selected_effect: None,
        fps: 30,
        id: None,
        name: seq![],
        description: seq![],
    }
}

impl Draft {
    /// A project with nothing in it.
    pub fn new() -> (r: Draft)
        ensures
            r@ == blank_draft(),
            r@.wf(),
    {
        let r = Draft {
            layers: Vec::new(),
            selected: None,
            selected_effect: None,
            fps: 30,
            id: None,
            name: String::new(),
            description: String::new(),
        };
        assert(r@.layers =~= seq![]);
        assert(r@.name =~= seq![]);
        assert(r@.description =~= seq![]);
        r
    }

    /// Adds a layer on top, and selects it.
    pub fn add_layer(&mut self, choice: LayerChoice)
        ensures
            final(self)@ == old(self)@.with_layer(choice),
            final(self)@.wf(),
    {
        let ghost before = self@;
        let layer = new_layer(choice);
        let ghost model = layer@;
        let index = self.layers.len();
        self.layers.push(layer);
        self.selected = Some(index);
        self.selected_effect = None;
        assert(self@.layers =~= before.layers.push(model));
    }

    /// Selects a layer, and none of its effects.
    pub fn select_layer(&mut self, index: usize)
        requires
            index < old(self)@.layers.len(),
        ensures
            final(self)@ == old(self)@.with_selected(index),
            final(self)@.wf(),
    {
        self.selected = Some(index);
        self.selected_effect = None;
    }

    /// Removes a layer. What was selected stays selected, where it is still
    /// there.
    pub fn remove_layer(&mut self, index: usize)
        requires
            old(self)@.wf(),
            index < old(self)@.layers.len(),
        ensures
            final(self)@ == old(self)@.without_layer(index),
            final(self)@.wf(),
    {
        let ghost before = self@;
        assert(self.layers@.len() == before.layers.len());
        let _ = self.layers.remove(index);
        self.selected = selection_after_removal(self.selected, index);
        if self.selected.is_none() {
            self.selected_effect = None;
        }
        assert(self@.layers =~= before.layers.remove(index as int));
        proof {
            if before.selected is Some {
                crate::selection::removal_keeps_the_selected_item(
                    before.layers,
                    before.selected->0,
                    index,
                );
            }
        }
    }

    fn swap_layers(&mut self, lower: usize)
        requires
            old(self)@.wf(),
            lower + 1 < old(self)@.layers.len(),
        ensures
            final(self)@ == (DraftModel {
                layers: crate::selection::swapped(
                    old(self)@.layers,
                    lower as int,
                    lower as int + 1,
                ),
                selected: crate::selection::after_swap(
                    old(self)@.selected,
                    lower,
                    (lower + 1) as usize,
                ),
                ..old(self)@
            }),
            final(self)@.wf(),
    {
        let ghost before = self@;
        assert(self.layers@.len() == before.layers.len());
        let total: usize = self.layers.len();
        let layer = self.layers.remove(lower);
        self.layers.insert(lower + 1, layer);
        self.selected = selection_after_swap(self.selected, lower, lower + 1);
        assert(self@.layers =~= crate::selection::swapped(
            before.layers,
            lower as int,
            lower as int + 1,
        ));
        proof {
            if before.selected is Some {
                crate::selection::swap_keeps_the_selected_item(
                    before.layers,
                    before.selected->0,
                    lower,
                    (lower + 1) as usize,
                );
            }
        }
    }

    /// Moves a layer one place down in the picture. The one at the bottom
    /// stays.
    pub fn move_layer_up(&mut self, index: usize)
        requires
            old(self)@.wf(),
            index < old(self)@.layers.len(),
        ensures
            final(self)@ == old(self)@.with_layer_up(index),
            final(self)@.wf(),
    {
        if index > 0 {
            self.swap_layers(index - 1);
        }
    }

    /// Moves a layer one place up in the picture. The one on top stays.
    pub fn move_layer_down(&mut self, index: usize)
        requires
            old(self)@.wf(),
            index < old(self)@.layers.len(),
        ensures
            final(self)@ == old(self)@.with_layer_down(index),
            final(self)@.wf(),
    {
        assert(self.layers@.len() == self@.layers.len());
        let total: usize = self.layers.len();
        if index + 1 < total {
            self.swap_layers(index);
        }
    }

    /// Whether some text comes from a command.
    pub fn has_command_layer(&self) -> (r: bool)
        ensures
            r == runs_command(self@.layers),
    {
        let ghost models = self@.layers;
        let mut i: usize = 0;
        while i < self.layers.len()
            invariant
                models == self@.layers,
                models.len() == self.layers@.len(),
                i <= self.layers@.len(),
                forall|k: int| 0 <= k < i ==> !layer_runs_command(#[trigger] models[k]),
            decreases self.layers.len() - i,
        {
            assert(models[i as int] == self.layers@[i as int]@);
            let runs = match &self.layers[i] {
                EditorLayer::Text { source, .. } => source.is_command(),
                _ => false,
            };
            if runs {
                assert(layer_runs_command(models[i as int]));
                return true;
            }
            i += 1;
        }
        false
    }

    /// What the button that saves the project says.
    pub fn save_label(&self) -> (r: &'static str)
        ensures
            r@ == if self@.id is Some {
                "Save"@
            } else {
                "Save (new)"@
            },
    {
        if self.id.is_some() {
            "Save"
        } else {
            "Save (new)"
        }
    }
}

pub open spec fn layer_runs_command(layer: crate::editor::EditorLayerModel) -> bool {
    layer matches crate::editor::EditorLayerModel::Text { source, .. } && source is Command
}

/// Some text of the project comes from a command.
pub open spec fn runs_command(layers: Seq<crate::editor::EditorLayerModel>) -> bool {
    exists|i: int| 0 <= i < layers.len() && layer_runs_command(#[trigger] layers[i])
}

// --- The effects of the selected layer -------------------------------------

fn swap_effects(effects: &mut Vec<EditorEffect>, lower: usize)
    requires
        lower + 1 < old(effects)@.len(),
    ensures
        crate::editor::edits_view(final(effects)@) == crate::selection::swapped(
            crate::editor::edits_view(old(effects)@),
            lower as int,
            lower as int + 1,
        ),
{
    let ghost before = crate::editor::edits_view(effects@);
    let total: usize = effects.len();
    let effect = effects.remove(lower);
    effects.insert(lower + 1, effect);
    assert(crate::editor::edits_view(effects@) =~= crate::selection::swapped(
        before,
        lower as int,
        lower as int + 1,
    ));
}

impl Draft {
    /// The selected layer has a stack of effects.
    pub open spec fn has_stack(self) -> bool {
        self@.selected is Some && self@.layers[self@.selected->0 as int].stack() is Some
    }

    /// Adds an effect to the selected layer.
    pub fn add_effect(&mut self, choice: EffectChoice)
        requires
            old(self)@.wf(),
        ensures
            final(self)@ == old(self)@.with_effect(choice),
            final(self)@.wf(),
    {
        let ghost before = self@;
        match self.selected {
            Some(s) => {
                assert(before.layers[s as int] == self.layers@[s as int]@);
                match self.layers[s].effects_mut() {
                    Some(effects) => {
                        let ghost stack = crate::editor::edits_view(effects@);
                        let effect = new_effect(choice);
                        let ghost model = effect@;
                        effects.push(effect);
                        assert(crate::editor::edits_view(effects@) =~= stack.push(model));
                    },
                    None => {},
                }
                assert(self@.layers =~= before.layers.update(s as int, self.layers@[s as int]@));
                assert(self@.layers =~= if old(self).has_stack() {
                    before.with_stack(
                        before.stack().push(fresh_effect(choice)),
                        before.selected_effect,
                    ).layers
                } else {
                    before.layers
                });
            },
            None => {},
        }
    }

    /// Selects an effect of the selected layer.
    pub fn select_effect(&mut self, index: usize)
        requires
            old(self)@.wf(),
            index < old(self)@.stack().len(),
        ensures
            final(self)@ == old(self)@.with_selected_effect(index),
            final(self)@.wf(),
    {
        self.selected_effect = Some(index);
    }

    /// Removes an effect of the selected layer. What was selected stays
    /// selected, where it is still there.
    pub fn remove_effect(&mut self, index: usize)
        requires
            old(self)@.wf(),
            index < old(self)@.stack().len(),
        ensures
            final(self)@ == old(self)@.without_effect(index),
            final(self)@.wf(),
    {
        let ghost before = self@;
        match self.selected {
            Some(s) => {
                assert(before.layers[s as int] == self.layers@[s as int]@);
                match self.layers[s].effects_mut() {
                    Some(effects) => {
                        let ghost stack = crate::editor::edits_view(effects@);
                        assert(stack.len() == effects@.len());
                        let _ = effects.remove(index);
                        assert(crate::editor::edits_view(effects@) =~= stack.remove(index as int));
                    },
                    None => {},
                }
                self.selected_effect = selection_after_removal(self.selected_effect, index);
                let ghost after = before.with_stack(
                    before.stack().remove(index as int),
                    self.selected_effect,
                );
                assert(self@.layers =~= after.layers);
                proof {
                    if before.selected_effect is Some {
                        crate::selection::removal_keeps_the_selected_item(
                            before.stack(),
                            before.selected_effect->0,
                            index,
                        );
                    }
                }
            },
            None => {},
        }
    }

    fn swap_stack(&mut self, lower: usize)
        requires
            old(self)@.wf(),
            lower + 1 < old(self)@.stack().len(),
        ensures
            final(self)@ == old(self)@.with_stack(
                crate::selection::swapped(
                    old(self)@.stack(),
                    lower as int,
                    lower as int + 1,
                ),
                crate::selection::after_swap(
                    old(self)@.selected_effect,
                    lower,
                    (lower + 1) as usize,
                ),
            ),
            final(self)@.wf(),
    {
        let ghost before = self@;
        match self.selected {
            Some(s) => {
                assert(before.layers[s as int] == self.layers@[s as int]@);
                match self.layers[s].effects_mut() {
                    Some(effects) => {
                        assert(crate::editor::edits_view(effects@).len() == effects@.len());
                        let total: usize = effects.len();
                        swap_effects(effects, lower);
                        self.selected_effect =
                        selection_after_swap(self.selected_effect, lower, lower + 1);
                    },
                    None => {},
                }
                let ghost after = before.with_stack(
                    crate::selection::swapped(before.stack(), lower as int, lower as int + 1),
                    self.selected_effect,
                );
                assert(self@.layers =~= after.layers);
                proof {
                    if before.selected_effect is Some {
                        crate::selection::swap_keeps_the_selected_item(
                            before.stack(),
                            before.selected_effect->0,
                            lower,
                            (lower + 1) as usize,
                        );
                    }
                }
            },
            None => {},
        }
    }

    /// Moves an effect of the selected layer one place to the front: it is
    /// applied earlier. The first stays.
    pub fn move_effect_up(&mut self, index: usize)
        requires
            old(self)@.wf(),
            index < old(self)@.stack().len(),
        ensures
            final(self)@ == old(self)@.with_effect_up(index),
            final(self)@.wf(),
    {
        if index > 0 {
            self.swap_stack(index - 1);
        }
    }

    /// Moves an effect of the selected layer one place to the back: it is
    /// applied later. The last stays.
    pub fn move_effect_down(&mut self, index: usize)
        requires
            old(self)@.wf(),
            index < old(self)@.stack().len(),
        ensures
            final(self)@ == old(self)@.with_effect_down(index),
            final(self)@.wf(),
    {
        let total = self.effect_count();
        if index + 1 < total {
            self.swap_stack(index);
        }
    }

    /// How many effects the selected layer has.
    pub fn effect_count(&self) -> (r: usize)
        requires
            self@.wf(),
        ensures
            r == self@.stack().len(),
    {
        match self.selected {
            Some(s) => {
                assert(self@.layers[s as int] == self.layers@[s as int]@);
                match self.layers[s].effects() {
                    Some(effects) => {
                        assert(crate::editor::edits_view(effects@).len() == effects@.len());
                        effects.len()
                    },
                    None => 0,
                }
            },
            None => 0,
        }
    }

    /// Starts or stops painting on the mask of an effect of the selected
    /// layer. Where painting starts, the effect is selected, so that what is
    /// painted goes to its mask.
    pub fn toggle_paint(&mut self, index: usize, started: Option<(String, Vec<u8>)>)
        requires
            old(self)@.wf(),
            index < old(self)@.stack().len(),
        ensures
            final(self)@ == old(self)@.with_paint_pressed(index, started_view(started)),
            final(self)@.wf(),
    {
        let ghost before = self@;
        let ghost begun = started_view(started);
        match self.selected {
            Some(s) => {
                assert(before.layers[s as int] == self.layers@[s as int]@);
                let mut painting = false;
                match self.layers[s].effects_mut() {
                    Some(effects) => {
                        let ghost stack = crate::editor::edits_view(effects@);
                        assert(stack.len() == effects@.len());
                        assert(stack[index as int] == effects@[index as int]@);
                        effects[index].mask.toggle_paint(started);
                        painting = effects[index].mask.is_painting();
                        assert(crate::editor::edits_view(effects@) =~= stack.update(
                            index as int,
                            crate::editor::EditorEffectModel {
                                mask: paint_toggled(stack[index as int].mask, begun),
                                ..stack[index as int]
                            },
                        ));
                    },
                    None => {},
                }
                if painting {
                    self.selected_effect = Some(index);
                }
                let ghost after = before.with_stack(
                    before.stack().update(
                        index as int,
                        crate::editor::EditorEffectModel {
                            mask: paint_toggled(before.stack()[index as int].mask, begun),
                            ..before.stack()[index as int]
                        },
                    ),
                    self.selected_effect,
                );
                assert(self@.layers =~= after.layers);
            },
            None => {},
        }
    }
}

/// The mask is being painted on.
pub open spec fn is_painted_on(mask: crate::editor::EditorMaskModel) -> bool {
    mask matches crate::editor::EditorMaskModel::Texture { painting, .. } && painting
}


// --- Laws ------------------------------------------------------------------

/// A new layer is of the kind that was asked for, has no file and no effect,
/// and needs a file just where its kind shows one.
pub proof fn fresh_layer_is_of_the_kind(choice: LayerChoice)
    ensures
        fresh_layer(choice) is Image <==> choice == LayerChoice::Image,
        fresh_layer(choice) is Xray <==> choice == LayerChoice::Xray,
        fresh_layer(choice) is Gif <==> choice == LayerChoice::Gif,
        fresh_layer(choice) is Parallax <==> choice == LayerChoice::Parallax,
        fresh_layer(choice) is Text <==> choice == LayerChoice::Text,
        fresh_layer(choice) is Adjustment <==> choice == LayerChoice::Adjustment,
        fresh_layer(choice).complete() <==> choice == LayerChoice::Text || choice
            == LayerChoice::Adjustment,
        forall|k: int|
            0 <= k < crate::project_laws::edited_pictures(fresh_layer(choice)).len()
                ==> #[trigger] crate::project_laws::edited_pictures(fresh_layer(choice))[k] is None,
        fresh_layer(choice).stack() matches Some(effects) ==> effects.len() == 0,
        !layer_runs_command(fresh_layer(choice)),
        fresh_layer(choice) matches crate::editor::EditorLayerModel::Text { x, y, color, .. } ==> x
            == HALF && y == HALF && color.len() == 4 && forall|c: int|
            0 <= c < 4 ==> #[trigger] color[c] == ONE,
{
}

/// A new effect is of the kind that was asked for, switched on, and works on
/// the whole picture.
pub proof fn fresh_effect_is_of_the_kind(choice: EffectChoice)
    ensures
        fresh_effect(choice).enabled,
        fresh_effect(choice).mask is Unmasked,
        fresh_effect(choice).kind is Vignette <==> choice == EffectChoice::Vignette,
        fresh_effect(choice).kind is ColorAdjust <==> choice == EffectChoice::ColorAdjust,
        fresh_effect(choice).kind is Blur <==> choice == EffectChoice::Blur,
        fresh_effect(choice).kind is Smoke <==> choice == EffectChoice::Smoke,
        fresh_effect(choice).kind is Shader <==> choice == EffectChoice::Shader,
        fresh_effect(choice).complete() <==> choice != EffectChoice::Shader,
        fresh_effect(choice).kind matches crate::editor::EditorEffectKindModel::ColorAdjust {
            brightness,
            contrast,
            saturation,
        } ==> brightness == ZERO && contrast == ZERO && saturation == ZERO,
{
}

/// A mask is of the kind that was picked, and a fresh one is not inverted and
/// not painted on.
pub proof fn picked_mask_is_of_the_kind(choice: MaskChoice)
    ensures
        mask_is(fresh_mask(choice), choice),
        forall|other: MaskChoice| #[trigger] mask_is(fresh_mask(choice), other) ==> other == choice,
        fresh_mask(choice) is Unmasked <==> choice == MaskChoice::Unmasked,
        fresh_mask(choice) is Circle <==> choice == MaskChoice::Circle,
        fresh_mask(choice) is Gradient <==> choice == MaskChoice::Gradient,
        fresh_mask(choice) is Texture <==> choice == MaskChoice::Texture,
        fresh_mask(choice) matches crate::editor::EditorMaskModel::Circle { transform: t, invert, .. }
            ==> !invert && t.x == HALF && t.y == HALF && t.scale == ONE && t.rotation == ZERO,
        fresh_mask(choice) matches crate::editor::EditorMaskModel::Gradient {
            transform: t,
            invert,
            ..
        } ==> !invert && t.x == HALF && t.y == HALF && t.scale == ONE && t.rotation == ZERO,
        fresh_mask(choice) matches crate::editor::EditorMaskModel::Texture {
            path,
            invert,
            paint,
            painting,
            ..
        } ==> path is None && !invert && paint is None && !painting,
{
}

/// A source is of the kind that was picked.
pub proof fn picked_source_is_of_the_kind(choice: SourceChoice)
    ensures
        source_is(fresh_source(choice), choice),
        fresh_source(choice) is Literal <==> choice == SourceChoice::Literal,
        fresh_source(choice) is Clock <==> choice == SourceChoice::Clock,
        fresh_source(choice) is Command <==> choice == SourceChoice::Command,
{
}

/// Pressing the paint button starts painting, or stops it. What has been
/// painted stays; only a picture that nothing has been painted on gets the
/// buffer that was started, and its file.
pub proof fn paint_button_starts_and_stops(
    mask: crate::editor::EditorMaskModel,
    started: Option<(Seq<char>, Seq<u8>)>,
)
    ensures
        !(mask is Texture) ==> paint_toggled(mask, started) == mask,
        mask is Texture ==> is_painted_on(paint_toggled(mask, started)) == !is_painted_on(mask),
        mask matches crate::editor::EditorMaskModel::Texture { path, invert, paint, painting, .. }
            ==> (paint_toggled(mask, started) matches crate::editor::EditorMaskModel::Texture {
            path: new_path,
            invert: new_invert,
            paint: new_paint,
            last_paint_pos,
            ..
        } && {
            &&& new_invert == invert
            &&& last_paint_pos is None
            &&& paint is Some ==> new_paint == paint && new_path == path
            &&& painting ==> new_paint == paint && new_path == path
            &&& started is None ==> new_paint == paint && new_path == path
            &&& !painting && paint is None ==> (started matches Some((p, b)) ==> new_paint == Some(b)
                && new_path == Some(p))
        }),
{
}

/// An added layer lies on top of the others, which stay as they are, and is
/// selected.
pub proof fn added_layer_is_on_top(d: DraftModel, choice: LayerChoice)
    requires
        d.layers.len() < usize::MAX,
    ensures
        ({
            let r = d.with_layer(choice);
            &&& r.layers.len() == d.layers.len() + 1
            &&& forall|i: int| 0 <= i < d.layers.len() ==> #[trigger] r.layers[i] == d.layers[i]
            &&& r.layers.last() == fresh_layer(choice)
            &&& r.selected == Some((r.layers.len() - 1) as usize)
            &&& r.selected_effect is None
            &&& r.fps == d.fps && r.id == d.id && r.name == d.name && r.description
                == d.description
        }),
{
}

/// The layers without a removed one are the others, in their order, and
/// whatever of them was selected still is.
pub proof fn removed_layer_is_gone(d: DraftModel, index: usize)
    requires
        d.wf(),
        index < d.layers.len(),
    ensures
        ({
            let r = d.without_layer(index);
            &&& r.layers.len() == d.layers.len() - 1
            &&& forall|i: int| 0 <= i < index ==> #[trigger] r.layers[i] == d.layers[i]
            &&& forall|i: int|
                index <= i < r.layers.len() ==> #[trigger] r.layers[i] == d.layers[i + 1]
            &&& d.selected == Some(index) ==> r.selected is None && r.selected_effect is None
            &&& d.selected is None ==> r.selected is None
            &&& d.selected matches Some(s) ==> s != index ==> {
                &&& r.selected is Some
                &&& r.layers[r.selected->0 as int] == d.layers[s as int]
                &&& r.selected_effect == d.selected_effect
            }
            &&& r.fps == d.fps && r.id == d.id && r.name == d.name && r.description
                == d.description
        }),
{
    if d.selected is Some {
        crate::selection::removal_keeps_the_selected_item(d.layers, d.selected->0, index);
    }
}

/// A layer that is moved changes places with its neighbour, all others stay,
/// and the layer that was selected still is; at the end of the list nothing
/// changes.
pub proof fn moved_layer_changes_places(d: DraftModel, index: usize)
    requires
        d.wf(),
        d.layers.len() <= usize::MAX,
        index < d.layers.len(),
    ensures
        ({
            let up = d.with_layer_up(index);
            let down = d.with_layer_down(index);
            &&& index == 0 ==> up == d
            &&& index + 1 == d.layers.len() ==> down == d
            &&& index > 0 ==> {
                &&& up.layers[index - 1] == d.layers[index as int]
                &&& up.layers[index as int] == d.layers[index - 1]
            }
            &&& index + 1 < d.layers.len() ==> {
                &&& down.layers[index + 1] == d.layers[index as int]
                &&& down.layers[index as int] == d.layers[index + 1]
            }
            &&& up.layers.len() == d.layers.len() && down.layers.len() == d.layers.len()
            &&& forall|i: int|
                0 <= i < d.layers.len() && i != index && i != index - 1
                    ==> #[trigger] up.layers[i] == d.layers[i]
            &&& forall|i: int|
                0 <= i < d.layers.len() && i != index && i != index + 1
                    ==> #[trigger] down.layers[i] == d.layers[i]
            &&& d.selected matches Some(s) ==> {
                &&& up.selected is Some && up.layers[up.selected->0 as int] == d.layers[s as int]
                &&& down.selected is Some && down.layers[down.selected->0 as int]
                    == d.layers[s as int]
            }
            &&& d.selected is None ==> up.selected is None && down.selected is None
            &&& up.selected_effect == d.selected_effect && down.selected_effect
                == d.selected_effect
        }),
{
}

/// Moving a layer and moving it back changes nothing.
pub proof fn moving_back_undoes(d: DraftModel, index: usize)
    requires
        d.wf(),
        d.layers.len() <= usize::MAX,
        index + 1 < d.layers.len(),
    ensures
        d.with_layer_down(index).with_layer_up((index + 1) as usize) == d,
        d.with_layer_up((index + 1) as usize).with_layer_down(index) == d,
{
    crate::selection::swapped_items_change_places(d.layers, index as int, index as int + 1);
}

/// The project but for the effects of the selected layer, and which of them is
/// selected.
pub open spec fn same_but_stack(a: DraftModel, b: DraftModel) -> bool {
    &&& a.layers.len() == b.layers.len()
    &&& a.selected == b.selected
    &&& forall|i: int|
        0 <= i < a.layers.len() && a.selected != Some(i as usize) ==> #[trigger] a.layers[i]
            == b.layers[i]
    &&& a.selected matches Some(s) ==> crate::project_laws::edited_pictures(a.layers[s as int])
        == crate::project_laws::edited_pictures(b.layers[s as int])
    &&& a.fps == b.fps && a.id == b.id && a.name == b.name && a.description == b.description
}

/// An added effect is applied last. The others stay as they are.
pub proof fn added_effect_is_last(d: DraftModel, choice: EffectChoice)
    requires
        d.wf(),
        d.layers.len() <= usize::MAX,
    ensures
        same_but_stack(d, d.with_effect(choice)),
        d.with_effect(choice).selected_effect == d.selected_effect,
        !d.has_effects() ==> d.with_effect(choice) == d,
        d.has_effects() ==> {
            let stack = d.with_effect(choice).stack();
            &&& stack.len() == d.stack().len() + 1
            &&& stack.last() == fresh_effect(choice)
            &&& forall|i: int| 0 <= i < d.stack().len() ==> #[trigger] stack[i] == d.stack()[i]
        },
{
}

/// The effects without a removed one are the others, in their order, and
/// whatever of them was selected still is.
pub proof fn removed_effect_is_gone(d: DraftModel, index: usize)
    requires
        d.wf(),
        d.layers.len() <= usize::MAX,
        index < d.stack().len(),
    ensures
        ({
            let r = d.without_effect(index);
            &&& same_but_stack(d, r)
            &&& r.stack().len() == d.stack().len() - 1
            &&& forall|i: int| 0 <= i < index ==> #[trigger] r.stack()[i] == d.stack()[i]
            &&& forall|i: int|
                index <= i < r.stack().len() ==> #[trigger] r.stack()[i] == d.stack()[i + 1]
            &&& d.selected_effect == Some(index) ==> r.selected_effect is None
            &&& d.selected_effect is None ==> r.selected_effect is None
            &&& d.selected_effect matches Some(e) ==> e != index ==> r.selected_effect is Some
                && r.stack()[r.selected_effect->0 as int] == d.stack()[e as int]
        }),
{
    if d.selected_effect is Some {
        crate::selection::removal_keeps_the_selected_item(
            d.stack(),
            d.selected_effect->0,
            index,
        );
    }
}

/// An effect that is moved changes places with its neighbour: one that is moved
/// up is applied earlier. All others stay, and the effect that was selected
/// still is.
pub proof fn moved_effect_changes_places(d: DraftModel, index: usize)
    requires
        d.wf(),
        d.layers.len() <= usize::MAX,
        d.stack().len() <= usize::MAX,
        index < d.stack().len(),
    ensures
        ({
            let up = d.with_effect_up(index);
            let down = d.with_effect_down(index);
            &&& same_but_stack(d, up) && same_but_stack(d, down)
            &&& index == 0 ==> up == d
            &&& index + 1 == d.stack().len() ==> down == d
            &&& index > 0 ==> {
                &&& up.stack()[index - 1] == d.stack()[index as int]
                &&& up.stack()[index as int] == d.stack()[index - 1]
            }
            &&& index + 1 < d.stack().len() ==> {
                &&& down.stack()[index + 1] == d.stack()[index as int]
                &&& down.stack()[index as int] == d.stack()[index + 1]
            }
            &&& up.stack().len() == d.stack().len() && down.stack().len() == d.stack().len()
            &&& forall|i: int|
                0 <= i < d.stack().len() && i != index && i != index - 1
                    ==> #[trigger] up.stack()[i] == d.stack()[i]
            &&& forall|i: int|
                0 <= i < d.stack().len() && i != index && i != index + 1
                    ==> #[trigger] down.stack()[i] == d.stack()[i]
            &&& d.selected_effect matches Some(e) ==> {
                &&& up.selected_effect is Some && up.stack()[up.selected_effect->0 as int]
                    == d.stack()[e as int]
                &&& down.selected_effect is Some && down.stack()[down.selected_effect->0 as int]
                    == d.stack()[e as int]
            }
        }),
{
}

/// Pressing an effect's paint button changes its mask alone, and selects the
/// effect whose mask is painted on then.
pub proof fn paint_goes_to_its_effect(
    d: DraftModel,
    index: usize,
    started: Option<(Seq<char>, Seq<u8>)>,
)
    requires
        d.wf(),
        d.layers.len() <= usize::MAX,
        index < d.stack().len(),
    ensures
        ({
            let r = d.with_paint_pressed(index, started);
            &&& same_but_stack(d, r)
            &&& r.stack().len() == d.stack().len()
            &&& forall|i: int|
                0 <= i < d.stack().len() && i != index ==> #[trigger] r.stack()[i] == d.stack()[i]
            &&& r.stack()[index as int].kind == d.stack()[index as int].kind
            &&& r.stack()[index as int].enabled == d.stack()[index as int].enabled
            &&& r.stack()[index as int].mask == paint_toggled(
                d.stack()[index as int].mask,
                started,
            )
            &&& is_painted_on(r.stack()[index as int].mask) ==> r.selected_effect == Some(index)
            &&& !is_painted_on(r.stack()[index as int].mask) ==> r.selected_effect
                == d.selected_effect
        }),
{
}

/// Selecting changes what is selected, and nothing else.
pub proof fn selecting_changes_nothing_else(d: DraftModel, layer: usize, effect: usize)
    ensures
        d.with_selected(layer).layers == d.layers,
        d.with_selected(layer).selected == Some(layer),
        d.with_selected(layer).selected_effect is None,
        d.with_selected_effect(effect).layers == d.layers,
        d.with_selected_effect(effect).selected == d.selected,
        d.with_selected_effect(effect).selected_effect == Some(effect),
{
}


/// A project runs commands just when it has a text layer whose text a command
/// gives.
pub proof fn command_layers_are_seen(layers: Seq<crate::editor::EditorLayerModel>)
    ensures
        runs_command(layers) <==> exists|i: int|
            0 <= i < layers.len() && (#[trigger] layers[i] matches
                crate::editor::EditorLayerModel::Text {
                source: crate::project_format::TextSourceModel::Command { .. },
                ..
            }),
{
    if runs_command(layers) {
        let i = choose|i: int| 0 <= i < layers.len() && layer_runs_command(#[trigger] layers[i]);
        assert(layers[i] matches crate::editor::EditorLayerModel::Text {
            source: crate::project_format::TextSourceModel::Command { .. },
            ..
        });
    }
    if exists|i: int|
        0 <= i < layers.len() && (#[trigger] layers[i] matches
            crate::editor::EditorLayerModel::Text {
            source: crate::project_format::TextSourceModel::Command { .. },
            ..
        }) {
        let i = choose|i: int|
            0 <= i < layers.len() && (#[trigger] layers[i] matches
                crate::editor::EditorLayerModel::Text {
                source: crate::project_format::TextSourceModel::Command { .. },
                ..
            });
        assert(layer_runs_command(layers[i]));
    }
}


/// Switching gives a mask, a source or a font of the kind that was picked, and
/// leaves one that is of the kind already as it is, with all that was set of it.
pub proof fn switching_keeps_what_is_of_the_kind(
    mask: crate::editor::EditorMaskModel,
    mask_choice: MaskChoice,
    source: crate::project_format::TextSourceModel,
    source_choice: SourceChoice,
    font: crate::editor::EditorTextFontModel,
    custom: bool,
)
    ensures
        mask_switched(mask, mask_choice) is Unmasked <==> mask_choice == MaskChoice::Unmasked,
        mask_switched(mask, mask_choice) is Circle <==> mask_choice == MaskChoice::Circle,
        mask_switched(mask, mask_choice) is Gradient <==> mask_choice == MaskChoice::Gradient,
        mask_switched(mask, mask_choice) is Texture <==> mask_choice == MaskChoice::Texture,
        mask is Circle && mask_choice == MaskChoice::Circle ==> mask_switched(mask, mask_choice)
            == mask,
        mask is Gradient && mask_choice == MaskChoice::Gradient ==> mask_switched(
            mask,
            mask_choice,
        ) == mask,
        mask is Texture && mask_choice == MaskChoice::Texture ==> mask_switched(mask, mask_choice)
            == mask,
        source_switched(source, source_choice) is Literal <==> source_choice
            == SourceChoice::Literal,
        source_switched(source, source_choice) is Clock <==> source_choice == SourceChoice::Clock,
        source_switched(source, source_choice) is Command <==> source_choice
            == SourceChoice::Command,
        source is Literal && source_choice == SourceChoice::Literal ==> source_switched(
            source,
            source_choice,
        ) == source,
        source is Clock && source_choice == SourceChoice::Clock ==> source_switched(
            source,
            source_choice,
        ) == source,
        source is Command && source_choice == SourceChoice::Command ==> source_switched(
            source,
            source_choice,
        ) == source,
        font_switched(font, custom) is Custom <==> custom,
        font is Custom && custom ==> font_switched(font, custom) == font,
{
}

/// A shader has as many values as its file has parameters, and keeps the user's
/// as long as their number fits.
pub proof fn values_fit_the_shader(params: Seq<Single>, defaults: Seq<Single>)
    ensures
        fitted_params(params, defaults).len() == defaults.len(),
        params.len() == defaults.len() ==> fitted_params(params, defaults) == params,
        params.len() != defaults.len() ==> fitted_params(params, defaults) == defaults,
{
}


/// The numbers that new layers, effects and masks begin with: a radius of 200,
/// a pan of 0.05 with a smoothing of 0.15, a text of 0.05 of the canvas's
/// height, a vignette of a half, a blur of 0.02, violet smoke that decays by
/// 0.97, and a feather of 0.2.
pub proof fn new_things_begin_with_the_usual_numbers(choice: MaskChoice)
    ensures
        fresh_layer(LayerChoice::Xray)->radius == 0x4348_0000,
        fresh_layer(LayerChoice::Parallax)->strength == 0x3d4c_cccd,
        fresh_layer(LayerChoice::Parallax)->smoothing == 0x3e19_999a,
        fresh_layer(LayerChoice::Text)->font_size == 0x3d4c_cccd,
        fresh_kind(EffectChoice::Vignette) == (crate::editor::EditorEffectKindModel::Vignette {
            strength: 0x3f00_0000,
            softness: 0x3f00_0000,
        }),
        fresh_kind(EffectChoice::Blur) == (crate::editor::EditorEffectKindModel::Blur {
            radius: 0x3ca3_d70a,
        }),
        fresh_kind(EffectChoice::Smoke) == (crate::editor::EditorEffectKindModel::Smoke {
            color: seq![0x3f19_999a, 0x3e99_999a, 0x3f66_6666, 0x3f80_0000],
            decay: 0x3f78_51ec,
            radius: 0x3d4c_cccd,
        }),
        fresh_mask(choice) matches crate::editor::EditorMaskModel::Circle { feather, .. } ==> feather
            == 0x3e4c_cccd,
        fresh_mask(choice) matches crate::editor::EditorMaskModel::Gradient { feather, .. }
            ==> feather == 0x3e4c_cccd,
        fresh_source(SourceChoice::Clock) == (crate::project_format::TextSourceModel::Clock {
            format: "%H:%M"@,
        }),
        fresh_source(SourceChoice::Command)->interval_secs == 60,
        blank_draft().fps == 30,
{
}

} // verus!
