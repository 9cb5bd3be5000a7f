//! Opening a saved project in the editor.

use vstd::prelude::*;

use crate::editor::{editor_effects_from_project, EditorLayer, EditorTextFont, EditorTextSource};
use crate::paths::join;
use crate::project_format::{Layer, Project, MANIFEST_FILE_NAME};
use crate::save::Slot;
use crate::text::{push_str, string_of};

verus! {

/// Why a project could not be loaded or saved.
pub enum LoadError {
    Io(String),
    Json(String),
}

impl LoadError {
    /// What went wrong, in words.
    pub open spec fn text(self) -> Seq<char> {
        match self {
            LoadError::Io(e) => "I/O error: "@ + e@,
            LoadError::Json(e) => "invalid "@ + MANIFEST_FILE_NAME@ + ": "@ + e@,
        }
    }

    /// Says what went wrong.
    pub fn message(&self) -> (r: String)
        ensures
            r@ == self.text(),
    {
        let mut m: Vec<char> = Vec::new();
        match self {
            LoadError::Io(e) => {
                push_str(&mut m, "I/O error: ");
                push_str(&mut m, e.as_str());
            },
            LoadError::Json(e) => {
                push_str(&mut m, "invalid ");
                push_str(&mut m, MANIFEST_FILE_NAME);
                push_str(&mut m, ": ");
                push_str(&mut m, e.as_str());
            },
        }
        assert(m@ =~= self.text());
        string_of(m.as_slice())
    }
}

/// Where a project's manifest lies.
pub fn manifest_path(project_dir: &str) -> (r: String)
    ensures
        r@ == crate::paths::joined(project_dir@, MANIFEST_FILE_NAME@),
{
    join(project_dir, MANIFEST_FILE_NAME)
}

/// A layer of a project in `dir`, when it has just been opened.
pub open spec fn opened_layer(
    dir: Seq<char>,
    layer: crate::project_format::LayerModel,
) -> crate::editor::EditorLayerModel {
    match layer {
        crate::project_format::LayerModel::Image { path, effects } =>
            crate::editor::EditorLayerModel::Image {
            path: Some(crate::paths::joined(dir, path)),
            effects: crate::editor::opened_effects(dir, effects),
        },
        crate::project_format::LayerModel::Xray { base, overlay, radius, effects } =>
            crate::editor::EditorLayerModel::Xray {
            base: Some(crate::paths::joined(dir, base)),
            overlay: Some(crate::paths::joined(dir, overlay)),
            radius,
            effects: crate::editor::opened_effects(dir, effects),
        },
        crate::project_format::LayerModel::Gif { path, effects } =>
            crate::editor::EditorLayerModel::Gif {
            path: Some(crate::paths::joined(dir, path)),
            effects: crate::editor::opened_effects(dir, effects),
        },
        crate::project_format::LayerModel::Parallax { path, strength, smoothing, effects } =>
            crate::editor::EditorLayerModel::Parallax {
            path: Some(crate::paths::joined(dir, path)),
            strength,
            smoothing,
            effects: crate::editor::opened_effects(dir, effects),
        },
        crate::project_format::LayerModel::Text { x, y, font_size, color, source, font } =>
            crate::editor::EditorLayerModel::Text {
            x,
            y,
            font_size,
            color,
            source,
            font: crate::editor::opened_font(dir, font),
        },
        crate::project_format::LayerModel::Adjustment { effects } =>
            crate::editor::EditorLayerModel::Adjustment {
            effects: crate::editor::opened_effects(dir, effects),
        },
    }
}

pub open spec fn opened_layers(
    dir: Seq<char>,
    layers: Seq<crate::project_format::LayerModel>,
) -> Seq<crate::editor::EditorLayerModel> {
    layers.map_values(|l: crate::project_format::LayerModel| opened_layer(dir, l))
}

fn open_layer(layer: &Layer, dir: &str) -> (r: EditorLayer)
    ensures
        r@ == opened_layer(dir@, layer@),
{
    match layer {
        Layer::Image { path, effects } => EditorLayer::Image {
            path: Some(join(dir, path.as_str())),
            effects: editor_effects_from_project(effects, dir),
        },
        Layer::Xray { base, overlay, radius, effects } => EditorLayer::Xray {
            base: Some(join(dir, base.as_str())),
            overlay: Some(join(dir, overlay.as_str())),
            radius: *radius,
            effects: editor_effects_from_project(effects, dir),
        },
        Layer::Gif { path, effects } => EditorLayer::Gif {
            path: Some(join(dir, path.as_str())),
            effects: editor_effects_from_project(effects, dir),
        },
        Layer::Parallax { path, strength, smoothing, effects } => EditorLayer::Parallax {
            path: Some(join(dir, path.as_str())),
            strength: *strength,
            smoothing: *smoothing,
            effects: editor_effects_from_project(effects, dir),
        },
        Layer::Text { x, y, font_size, color, source, font } => EditorLayer::Text {
            x: *x,
            y: *y,
            font_size: *font_size,
            color: *color,
            source: EditorTextSource::from_project(source.clone()),
            font: EditorTextFont::from_project(font, dir),
        },
        Layer::Adjustment { effects } => EditorLayer::Adjustment {
            effects: editor_effects_from_project(effects, dir),
        },
    }
}

/// What the editor takes of a project in `dir`: its layers, its rate and its
/// description.
pub open spec fn opened_project(
    dir: Seq<char>,
    project: crate::project_format::ProjectModel,
) -> (Seq<crate::editor::EditorLayerModel>, u32, Seq<char>) {
    (opened_layers(dir, project.layers), project.fps, project.description)
}

/// The layers of a project in `project_dir` for the editor, its rate and its
/// description.
pub fn open_project(project: &Project, project_dir: &str) -> (r: (Vec<EditorLayer>, u32, String))
    ensures
        (crate::editor::editor_view(r.0@), r.1, r.2@) == opened_project(project_dir@, project@),
{
    let mut layers: Vec<EditorLayer> = Vec::new();
    let mut i: usize = 0;
    while i < project.layers.len()
        invariant
            i <= project.layers@.len(),
            layers@.len() == i,
            forall|k: int|
                0 <= k < i ==> (#[trigger] layers@[k])@ == opened_layer(
                    project_dir@,
                    project.layers@[k]@,
                ),
        decreases project.layers.len() - i,
    {
        layers.push(open_layer(&project.layers[i], project_dir));
        i += 1;
    }
    assert(crate::editor::editor_view(layers@) =~= opened_layers(project_dir@, project@.layers));
    (layers, project.fps, project.description.clone())
}

// --- Laws ------------------------------------------------------------------

/// A path of a layer once it is saved below `dir`.
pub open spec fn moved(dir: Seq<char>, layer: nat, slot: Slot, path: Option<Seq<char>>) -> Option<
    Seq<char>,
> {
    Some(
        crate::paths::joined(
            dir,
            crate::save::saved_name(layer, slot, crate::editor::path_or_empty(path)),
        ),
    )
}

/// A mask once it is saved: its picture lies below `dir`, and nothing is being
/// painted.
pub open spec fn moved_mask(
    dir: Seq<char>,
    layer: nat,
    effect: usize,
    mask: crate::editor::EditorMaskModel,
) -> crate::editor::EditorMaskModel {
    match mask {
        crate::editor::EditorMaskModel::Texture { path, invert, .. } =>
            crate::editor::EditorMaskModel::Texture {
            path: moved(dir, layer, Slot::EffectMask { effect }, path),
            invert,
            paint: None,
            painting: false,
            brush_radius: crate::editor::DEFAULT_BRUSH_RADIUS,
            brush_softness: crate::editor::DEFAULT_BRUSH_SOFTNESS,
            last_paint_pos: None,
        },
        _ => mask,
    }
}

/// An effect once it is saved.
pub open spec fn moved_effect(
    dir: Seq<char>,
    layer: nat,
    effect: usize,
    e: crate::editor::EditorEffectModel,
) -> crate::editor::EditorEffectModel {
    crate::editor::EditorEffectModel {
        kind: match e.kind {
            crate::editor::EditorEffectKindModel::Shader { wgsl_path, params } =>
                crate::editor::EditorEffectKindModel::Shader {
                wgsl_path: moved(dir, layer, Slot::EffectShader { effect }, wgsl_path),
                params,
            },
            _ => e.kind,
        },
        mask: moved_mask(dir, layer, effect, e.mask),
        enabled: e.enabled,
    }
}

pub open spec fn moved_effects(
    dir: Seq<char>,
    layer: nat,
    effects: Seq<crate::editor::EditorEffectModel>,
) -> Seq<crate::editor::EditorEffectModel> {
    effects.map(
        |j: int, e: crate::editor::EditorEffectModel| moved_effect(dir, layer, j as usize, e),
    )
}

/// A layer once it is saved: the same, with its files below `dir`.
pub open spec fn moved_layer(
    dir: Seq<char>,
    layer: nat,
    l: crate::editor::EditorLayerModel,
) -> crate::editor::EditorLayerModel {
    match l {
        crate::editor::EditorLayerModel::Image { path, effects } =>
            crate::editor::EditorLayerModel::Image {
            path: moved(dir, layer, Slot::Image, path),
            effects: moved_effects(dir, layer, effects),
        },
        crate::editor::EditorLayerModel::Xray { base, overlay, radius, effects } =>
            crate::editor::EditorLayerModel::Xray {
            base: moved(dir, layer, Slot::XrayBase, base),
            overlay: moved(dir, layer, Slot::XrayOverlay, overlay),
            radius,
            effects: moved_effects(dir, layer, effects),
        },
        crate::editor::EditorLayerModel::Gif { path, effects } =>
            crate::editor::EditorLayerModel::Gif {
            path: moved(dir, layer, Slot::Anim, path),
            effects: moved_effects(dir, layer, effects),
        },
        crate::editor::EditorLayerModel::Parallax { path, strength, smoothing, effects } =>
            crate::editor::EditorLayerModel::Parallax {
            path: moved(dir, layer, Slot::Parallax, path),
            strength,
            smoothing,
            effects: moved_effects(dir, layer, effects),
        },
        crate::editor::EditorLayerModel::Text { x, y, font_size, color, source, font } =>
            crate::editor::EditorLayerModel::Text {
            x,
            y,
            font_size,
            color,
            source,
            font: match font {
                crate::editor::EditorTextFontModel::Bundled => font,
                crate::editor::EditorTextFontModel::Custom { path } =>
                    crate::editor::EditorTextFontModel::Custom {
                    path: moved(dir, layer, Slot::Font, path),
                },
            },
        },
        crate::editor::EditorLayerModel::Adjustment { effects } =>
            crate::editor::EditorLayerModel::Adjustment {
            effects: moved_effects(dir, layer, effects),
        },
    }
}

/// A project that is saved and opened again has the same layers, with their
/// files in the project's directory.
pub proof fn saved_project_opens_as_it_was(
    dir: Seq<char>,
    layers: Seq<crate::editor::EditorLayerModel>,
)
    ensures
        opened_layers(dir, crate::save::saved_layers(layers)) == layers.map(
            |i: int, l: crate::editor::EditorLayerModel| moved_layer(dir, i as nat, l),
        ),
{
    let opened = opened_layers(dir, crate::save::saved_layers(layers));
    let wanted = layers.map(
        |i: int, l: crate::editor::EditorLayerModel| moved_layer(dir, i as nat, l),
    );
    assert forall|i: int| 0 <= i < layers.len() implies opened[i] == wanted[i] by {
        saved_layer_opens_as_it_was(dir, i as nat, layers[i]);
    }
    assert(opened =~= wanted);
}

proof fn saved_layer_opens_as_it_was(
    dir: Seq<char>,
    layer: nat,
    l: crate::editor::EditorLayerModel,
)
    ensures
        opened_layer(dir, crate::save::saved_layer(layer, l)) == moved_layer(dir, layer, l),
{
    if l.stack() is Some {
        let effects = l.stack()->0;
        assert(crate::editor::opened_effects(dir, crate::save::saved_stack(layer, effects))
            =~= moved_effects(dir, layer, effects));
    }
}

/// A saved project has no file missing, and can be saved again.
pub proof fn opened_project_is_savable(
    dir: Seq<char>,
    layers: Seq<crate::project_format::LayerModel>,
)
    requires
        layers.len() > 0,
    ensures
        crate::editor::savable(opened_layers(dir, layers)),
{
    let opened = opened_layers(dir, layers);
    assert forall|i: int| 0 <= i < opened.len() implies (#[trigger] opened[i]).complete() by {
        let l = opened_layer(dir, layers[i]);
        assert(opened[i] == l);
        if l.stack() is Some {
            let effects = l.stack()->0;
            assert(effects == crate::editor::opened_effects(dir, layers[i].effects()));
            assert forall|j: int| 0 <= j < effects.len() implies (
            #[trigger] effects[j]).complete() by {
                assert(effects[j] == crate::editor::opened_effect(
                    dir,
                    layers[i].effects()[j],
                ));
            }
        }
    }
}


/// What is said of a project that could not be read: whether its file could not
/// be read, or what it holds, and why.
pub proof fn errors_say_what_went_wrong(e: LoadError)
    ensures
        e matches LoadError::Io(why) ==> e.text() == "I/O error: "@ + why@,
        e matches LoadError::Json(why) ==> e.text() == "invalid "@ + "project.json"@ + ": "@ + why@,
{
}

} // verus!
