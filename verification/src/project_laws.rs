//! What a layer keeps on its way from the editor to the preview, to a saved
//! project and back: every picture, mask, shader and font in its place, and
//! every number.

use vstd::prelude::*;

use crate::editor::{
    EditorEffect, EditorEffectKind, EditorEffectKindModel, EditorEffectModel, EditorLayer,
    EditorLayerModel, EditorMask, EditorMaskModel, EditorTextFontModel,
};
use crate::project_format::{
    Effect, EffectKind, EffectKindModel, EffectModel, Layer, LayerModel, Mask, MaskModel, Project,
    TextFontModel,
};
use crate::save::ItemModel;
use crate::save_laws::Files;

verus! {

// --- The files of an edited layer ------------------------------------------

/// The pictures that a layer shows: of an x-ray layer what is seen at first,
/// and what the cursor uncovers.
pub open spec fn edited_pictures(l: EditorLayerModel) -> Seq<Option<Seq<char>>> {
    match l {
        EditorLayerModel::Image { path, .. } => seq![path],
        EditorLayerModel::Xray { base, overlay, .. } => seq![base, overlay],
        EditorLayerModel::Gif { path, .. } => seq![path],
        EditorLayerModel::Parallax { path, .. } => seq![path],
        EditorLayerModel::Text { .. } => seq![],
        EditorLayerModel::Adjustment { .. } => seq![],
    }
}

/// The picture of an effect's mask.
pub open spec fn edited_mask(e: EditorEffectModel) -> Option<Seq<char>> {
    match e.mask {
        EditorMaskModel::Texture { path, .. } => path,
        _ => None,
    }
}

/// The shader of an effect.
pub open spec fn edited_shader(e: EditorEffectModel) -> Option<Seq<char>> {
    match e.kind {
        EditorEffectKindModel::Shader { wgsl_path, .. } => wgsl_path,
        _ => None,
    }
}

/// The font of a text layer of the user's own.
pub open spec fn edited_font(l: EditorLayerModel) -> Option<Seq<char>> {
    match l {
        EditorLayerModel::Text { font: EditorTextFontModel::Custom { path }, .. } => path,
        _ => None,
    }
}

/// The font of a text layer of a project in `dir`.
pub open spec fn font_file_of(dir: Seq<char>, layer: LayerModel) -> Option<Seq<char>> {
    match layer {
        LayerModel::Text { font: TextFontModel::Custom { path }, .. } => Some(
            crate::paths::joined(dir, path),
        ),
        _ => None,
    }
}

// --- Numbers ---------------------------------------------------------------

/// The masks are of one kind, with the same numbers.
pub open spec fn same_mask_numbers(e: EditorMaskModel, m: MaskModel) -> bool {
    match (e, m) {
        (EditorMaskModel::Unmasked, MaskModel::Unmasked) => true,
        (
            EditorMaskModel::Circle { transform: t, feather: f, invert: i },
            MaskModel::Circle { transform, feather, invert },
        ) => t == transform && f == feather && i == invert,
        (
            EditorMaskModel::Gradient { transform: t, feather: f, invert: i },
            MaskModel::Gradient { transform, feather, invert },
        ) => t == transform && f == feather && i == invert,
        (EditorMaskModel::Texture { invert: i, .. }, MaskModel::Texture { invert, .. }) => i
            == invert,
        _ => false,
    }
}

/// The effects are of one kind, with the same numbers, switch and mask.
pub open spec fn same_effect_numbers(e: EditorEffectModel, m: EffectModel) -> bool {
    &&& e.enabled == m.enabled
    &&& same_mask_numbers(e.mask, m.mask)
    &&& match (e.kind, m.kind) {
        (
            EditorEffectKindModel::Vignette { strength: a, softness: b },
            EffectKindModel::Vignette { strength, softness },
        ) => a == strength && b == softness,
        (
            EditorEffectKindModel::ColorAdjust { brightness: a, contrast: b, saturation: c },
            EffectKindModel::ColorAdjust { brightness, contrast, saturation },
        ) => a == brightness && b == contrast && c == saturation,
        (EditorEffectKindModel::Blur { radius: a }, EffectKindModel::Blur { radius }) => a
            == radius,
        (
            EditorEffectKindModel::Smoke { color: a, decay: b, radius: c },
            EffectKindModel::Smoke { color, decay, radius },
        ) => a == color && b == decay && c == radius,
        (
            EditorEffectKindModel::Shader { params: a, .. },
            EffectKindModel::Shader { params, .. },
        ) => a == params,
        _ => false,
    }
}

/// The layers are of one kind, with the same numbers and texts, and their
/// effects are the same in the same order.
pub open spec fn same_numbers(e: EditorLayerModel, m: LayerModel) -> bool {
    &&& match (e, m) {
        (EditorLayerModel::Image { .. }, LayerModel::Image { .. }) => true,
        (EditorLayerModel::Gif { .. }, LayerModel::Gif { .. }) => true,
        (EditorLayerModel::Adjustment { .. }, LayerModel::Adjustment { .. }) => true,
        (EditorLayerModel::Xray { radius: a, .. }, LayerModel::Xray { radius, .. }) => a == radius,
        (
            EditorLayerModel::Parallax { strength: a, smoothing: b, .. },
            LayerModel::Parallax { strength, smoothing, .. },
        ) => a == strength && b == smoothing,
        (
            EditorLayerModel::Text { x: a, y: b, font_size: c, color: d, source: s, font: f },
            LayerModel::Text { x, y, font_size, color, source, font },
        ) => {
            &&& a == x && b == y && c == font_size && d == color && s == source
            &&& f is Custom <==> font is Custom
        },
        _ => false,
    }
    &&& match e.stack() {
        Some(stack) => {
            &&& stack.len() == m.effects().len()
            &&& forall|j: int|
                0 <= j < stack.len() ==> #[trigger] same_effect_numbers(stack[j], m.effects()[j])
        },
        None => m.effects().len() == 0,
    }
}

// --- The preview -----------------------------------------------------------

/// The preview shows the pictures that were picked, each in its place, and the
/// numbers that were set.
pub proof fn preview_shows_the_edit(l: EditorLayerModel)
    requires
        l.complete(),
    ensures
        same_numbers(l, l.projected()),
        crate::load::picture_files(seq![], l.projected()).len() == edited_pictures(l).len(),
        forall|k: int|
            0 <= k < edited_pictures(l).len() ==> Some(
                #[trigger] crate::load::picture_files(seq![], l.projected())[k],
            ) == edited_pictures(l)[k],
        font_file_of(seq![], l.projected()) == edited_font(l),
        l.stack() matches Some(stack) ==> forall|j: int|
            0 <= j < stack.len() ==> {
                let shown = #[trigger] l.projected().effects()[j];
                &&& crate::load::mask_file_of(seq![], shown.mask) == edited_mask(stack[j])
                &&& crate::load::shader_file_of(seq![], shown.kind) == edited_shader(stack[j])
            },
{
    let shown = l.projected();
    let none: Seq<char> = seq![];
    assert forall|p: Seq<char>| #[trigger] crate::paths::joined(none, p) == p by {
        assert(none + p =~= p);
    }
    match l.stack() {
        Some(stack) => {
            assert forall|j: int| 0 <= j < stack.len() implies #[trigger] same_effect_numbers(
                stack[j],
                shown.effects()[j],
            ) by {
                assert(shown.effects()[j] == stack[j].projected());
            }
            assert forall|j: int| 0 <= j < stack.len() implies {
                let shown = #[trigger] l.projected().effects()[j];
                &&& crate::load::mask_file_of(seq![], shown.mask) == edited_mask(stack[j])
                &&& crate::load::shader_file_of(seq![], shown.kind) == edited_shader(stack[j])
            } by {
                assert(stack[j].complete());
                assert(shown.effects()[j] == stack[j].projected());
            }
        },
        None => {},
    }
}

// --- Opening ---------------------------------------------------------------

/// An opened layer has the pictures that the project shows, each in its place,
/// and the numbers that the project holds.
pub proof fn opening_keeps_the_layer(dir: Seq<char>, m: LayerModel)
    ensures
        same_numbers(crate::open::opened_layer(dir, m), m),
        edited_pictures(crate::open::opened_layer(dir, m)).len() == crate::load::picture_files(
            dir,
            m,
        ).len(),
        forall|k: int|
            0 <= k < crate::load::picture_files(dir, m).len() ==> #[trigger] edited_pictures(
                crate::open::opened_layer(dir, m),
            )[k] == Some(crate::load::picture_files(dir, m)[k]),
        edited_font(crate::open::opened_layer(dir, m)) == font_file_of(dir, m),
        crate::open::opened_layer(dir, m).stack() matches Some(stack) ==> forall|j: int|
            0 <= j < stack.len() ==> {
                &&& edited_mask(#[trigger] stack[j]) == crate::load::mask_file_of(
                    dir,
                    m.effects()[j].mask,
                )
                &&& edited_shader(stack[j]) == crate::load::shader_file_of(
                    dir,
                    m.effects()[j].kind,
                )
                &&& stack[j].mask matches EditorMaskModel::Texture {
                    paint,
                    painting,
                    brush_radius,
                    brush_softness,
                    last_paint_pos,
                    ..
                } ==> paint is None && !painting && brush_radius == 0x3d4c_cccd && brush_softness
                    == 0x3f00_0000 && last_paint_pos is None
            },
{
    let opened = crate::open::opened_layer(dir, m);
    match opened.stack() {
        Some(stack) => {
            assert forall|j: int| 0 <= j < stack.len() implies #[trigger] same_effect_numbers(
                stack[j],
                m.effects()[j],
            ) by {
                assert(stack[j] == crate::editor::opened_effect(dir, m.effects()[j]));
            }
            assert forall|j: int| 0 <= j < stack.len() implies #[trigger] stack[j]
                == crate::editor::opened_effect(dir, m.effects()[j]) by {
            }
        },
        None => {},
    }
}

// --- Saving ----------------------------------------------------------------

/// A saved layer has the numbers of the edited one.
pub proof fn saving_keeps_the_numbers(layer: nat, l: EditorLayerModel)
    ensures
        same_numbers(l, crate::save::saved_layer(layer, l)),
{
    let saved = crate::save::saved_layer(layer, l);
    match l.stack() {
        Some(stack) => {
            assert forall|j: int| 0 <= j < stack.len() implies #[trigger] same_effect_numbers(
                stack[j],
                saved.effects()[j],
            ) by {
                assert(saved.effects()[j] == crate::save::saved_effect(layer, j as usize, stack[j]));
            }
        },
        None => {},
    }
}

/// Every file of an effect is among those of its stack.
proof fn stack_item_at(layer: nat, effects: Seq<EditorEffectModel>, n: int, j: int, k: int) -> (at:
    int)
    requires
        0 <= j < n <= effects.len(),
        0 <= k < crate::save::effect_items(layer, j as usize, effects[j]).len(),
    ensures
        0 <= at < crate::save::stack_items(layer, effects, n).len(),
        crate::save::stack_items(layer, effects, n)[at] == crate::save::effect_items(
            layer,
            j as usize,
            effects[j],
        )[k],
    decreases n,
{
    if j == n - 1 {
        crate::save::stack_items(layer, effects, n - 1).len() + k
    } else {
        stack_item_at(layer, effects, n - 1, j, k)
    }
}

/// Every file of a layer is among those of the project.
proof fn layer_item_at(layers: Seq<EditorLayerModel>, n: int, i: int, k: int) -> (at: int)
    requires
        0 <= i < n <= layers.len(),
        0 <= k < crate::save::layer_items(i as nat, layers[i]).len(),
    ensures
        0 <= at < crate::save::items_upto(layers, n).len(),
        crate::save::items_upto(layers, n)[at] == crate::save::layer_items(i as nat, layers[i])[k],
    decreases n,
{
    if i == n - 1 {
        crate::save::items_upto(layers, n - 1).len() + k
    } else {
        layer_item_at(layers, n - 1, i, k)
    }
}

/// What nothing is painted of stays as it is while the paint is written.
proof fn unpainted_stays(fs: Files, items: Seq<ItemModel>, path: Seq<char>)
    requires
        !crate::save_laws::is_painted(items, path),
    ensures
        crate::save_laws::painted(fs, items)[path] == fs[path],
    decreases items.len(),
{
    if items.len() > 0 {
        let front = items.drop_last();
        if crate::save_laws::is_painted(front, path) {
            let j = choose|j: int|
                0 <= j < front.len() && (#[trigger] front[j]).paint is Some && path
                    == front[j].source;
            assert(items[j] == front[j]);
        }
        unpainted_stays(fs, front, path);
        assert(items.last() == items[items.len() - 1]);
    }
}

/// The files after a project was saved.
pub open spec fn saved_files(dir: Seq<char>, fs: Files, layers: Seq<EditorLayerModel>) -> Files {
    crate::save_laws::apply_all(
        fs,
        crate::save::save_ops(dir, crate::save::items_of(layers)),
    )
}

/// The place of an item's file after saving, and what the file holds.
proof fn item_is_saved(
    dir: Seq<char>,
    fs: Files,
    layers: Seq<EditorLayerModel>,
    i: int,
    k: int,
)
    requires
        crate::save_laws::countable_stacks(layers),
        crate::save_laws::sources_outside_staging(dir, crate::save::items_of(layers)),
        0 <= i < layers.len(),
        0 <= k < crate::save::layer_items(i as nat, layers[i]).len(),
    ensures
        ({
            let item = crate::save::layer_items(i as nat, layers[i])[k];
            let after = saved_files(dir, fs, layers);
            let at = crate::save::final_path(dir, item);
            &&& after.dom().contains(at)
            &&& !crate::save_laws::is_painted(crate::save::items_of(layers), item.source)
                ==> after[at] == fs[item.source]
            &&& item.paint matches Some(gray) ==> (crate::paint::painted_file(item.source, gray)
                matches Ok(file) ==> after[at] == file)
        }),
{
    let items = crate::save::items_of(layers);
    let item = crate::save::layer_items(i as nat, layers[i])[k];
    let m = layer_item_at(layers, layers.len() as int, i, k);
    crate::save_laws::saved_files_keep_their_contents(dir, fs, layers, m);
    let upto = items.take(m + 1);
    assert(upto.last() == item);
    if !crate::save_laws::is_painted(items, item.source) {
        if crate::save_laws::is_painted(upto, item.source) {
            let j = choose|j: int|
                0 <= j < upto.len() && (#[trigger] upto[j]).paint is Some && item.source
                    == upto[j].source;
            assert(items[j] == upto[j]);
        }
        unpainted_stays(fs, upto, item.source);
    }
}

/// A saved project shows the pictures that were picked, each in its place: the
/// file that the saved layer shows at a place holds what the file held that was
/// picked for that place.
pub proof fn saved_layer_shows_its_pictures(
    dir: Seq<char>,
    fs: Files,
    layers: Seq<EditorLayerModel>,
    i: int,
    k: int,
)
    requires
        crate::save_laws::countable_stacks(layers),
        crate::save_laws::sources_outside_staging(dir, crate::save::items_of(layers)),
        0 <= i < layers.len(),
        layers[i].complete(),
        0 <= k < edited_pictures(layers[i]).len(),
        !crate::save_laws::is_painted(
            crate::save::items_of(layers),
            edited_pictures(layers[i])[k]->0,
        ),
    ensures
        ({
            let shown = crate::load::picture_files(dir, crate::save::saved_layers(layers)[i]);
            let after = saved_files(dir, fs, layers);
            &&& shown.len() == edited_pictures(layers[i]).len()
            &&& after.dom().contains(shown[k])
            &&& after[shown[k]] == fs[edited_pictures(layers[i])[k]->0]
        }),
{
    item_is_saved(dir, fs, layers, i, k);
}

/// A saved text layer has the font that was picked.
pub proof fn saved_layer_has_its_font(
    dir: Seq<char>,
    fs: Files,
    layers: Seq<EditorLayerModel>,
    i: int,
)
    requires
        crate::save_laws::countable_stacks(layers),
        crate::save_laws::sources_outside_staging(dir, crate::save::items_of(layers)),
        0 <= i < layers.len(),
        edited_font(layers[i]) is Some,
        !crate::save_laws::is_painted(
            crate::save::items_of(layers),
            edited_font(layers[i])->0,
        ),
    ensures
        ({
            let font = font_file_of(dir, crate::save::saved_layers(layers)[i]);
            let after = saved_files(dir, fs, layers);
            &&& font is Some
            &&& after.dom().contains(font->0)
            &&& after[font->0] == fs[edited_font(layers[i])->0]
        }),
{
    item_is_saved(dir, fs, layers, i, 0);
}

/// The place of an effect's files among those of its layer.
proof fn effect_item_is_saved(
    dir: Seq<char>,
    fs: Files,
    layers: Seq<EditorLayerModel>,
    i: int,
    j: int,
    k: int,
)
    requires
        crate::save_laws::countable_stacks(layers),
        crate::save_laws::sources_outside_staging(dir, crate::save::items_of(layers)),
        0 <= i < layers.len(),
        layers[i].stack() is Some,
        0 <= j < layers[i].stack()->0.len(),
        0 <= k < crate::save::effect_items(i as nat, j as usize, layers[i].stack()->0[j]).len(),
    ensures
        ({
            let item = crate::save::effect_items(
                i as nat,
                j as usize,
                layers[i].stack()->0[j],
            )[k];
            let after = saved_files(dir, fs, layers);
            let at = crate::save::final_path(dir, item);
            &&& after.dom().contains(at)
            &&& !crate::save_laws::is_painted(crate::save::items_of(layers), item.source)
                ==> after[at] == fs[item.source]
            &&& item.paint matches Some(gray) ==> (crate::paint::painted_file(item.source, gray)
                matches Ok(file) ==> after[at] == file)
        }),
{
    let l = layers[i];
    let stack = l.stack()->0;
    let at = stack_item_at(i as nat, stack, stack.len() as int, j, k);
    let own = crate::save::own_items(i as nat, l).len();
    assert(crate::save::layer_items(i as nat, l)[own + at] == crate::save::stack_items(
        i as nat,
        stack,
        stack.len() as int,
    )[at]);
    item_is_saved(dir, fs, layers, i, own + at);
}

/// A saved effect has the mask that was picked or painted: the file that its
/// saved layer reads holds the picture of what was painted, or, where nothing
/// was, what the picked file held.
pub proof fn saved_effect_has_its_mask(
    dir: Seq<char>,
    fs: Files,
    layers: Seq<EditorLayerModel>,
    i: int,
    j: int,
)
    requires
        crate::save_laws::countable_stacks(layers),
        crate::save_laws::sources_outside_staging(dir, crate::save::items_of(layers)),
        0 <= i < layers.len(),
        layers[i].stack() is Some,
        0 <= j < layers[i].stack()->0.len(),
        edited_mask(layers[i].stack()->0[j]) is Some,
    ensures
        ({
            let e = layers[i].stack()->0[j];
            let picked = edited_mask(e)->0;
            let read = crate::load::mask_file_of(
                dir,
                crate::save::saved_layers(layers)[i].effects()[j].mask,
            );
            let after = saved_files(dir, fs, layers);
            &&& read is Some
            &&& after.dom().contains(read->0)
            &&& !crate::save_laws::is_painted(crate::save::items_of(layers), picked)
                ==> after[read->0] == fs[picked]
            &&& e.mask matches EditorMaskModel::Texture { paint: Some(gray), .. } ==> (
            crate::paint::painted_file(picked, gray) matches Ok(file) ==> after[read->0] == file)
        }),
{
    let stack = layers[i].stack()->0;
    let saved = crate::save::saved_layers(layers)[i];
    assert(saved.effects()[j] == crate::save::saved_effect(i as nat, j as usize, stack[j]));
    effect_item_is_saved(dir, fs, layers, i, j, 0);
}

/// A saved effect has the shader that was picked.
pub proof fn saved_effect_has_its_shader(
    dir: Seq<char>,
    fs: Files,
    layers: Seq<EditorLayerModel>,
    i: int,
    j: int,
)
    requires
        crate::save_laws::countable_stacks(layers),
        crate::save_laws::sources_outside_staging(dir, crate::save::items_of(layers)),
        0 <= i < layers.len(),
        layers[i].stack() is Some,
        0 <= j < layers[i].stack()->0.len(),
        edited_shader(layers[i].stack()->0[j]) is Some,
        !crate::save_laws::is_painted(
            crate::save::items_of(layers),
            edited_shader(layers[i].stack()->0[j])->0,
        ),
    ensures
        ({
            let picked = edited_shader(layers[i].stack()->0[j])->0;
            let read = crate::load::shader_file_of(
                dir,
                crate::save::saved_layers(layers)[i].effects()[j].kind,
            );
            let after = saved_files(dir, fs, layers);
            &&& read is Some
            &&& after.dom().contains(read->0)
            &&& after[read->0] == fs[picked]
        }),
{
    let stack = layers[i].stack()->0;
    let saved = crate::save::saved_layers(layers)[i];
    let e = stack[j];
    assert(saved.effects()[j] == crate::save::saved_effect(i as nat, j as usize, e));
    let k: int = if e.mask is Texture {
        1
    } else {
        0
    };
    effect_item_is_saved(dir, fs, layers, i, j, k);
}

/// A saved file keeps the kind that its source's name shows.
pub proof fn saved_name_keeps_the_extension(item: ItemModel)
    ensures
        crate::paths::extension_of(item.source) matches Some(e) ==> exists|stem: Seq<char>|
            item.name() == #[trigger] (stem + "."@) + e,
        crate::paths::extension_of(item.source) is None ==> exists|stem: Seq<char>|
            item.name() == #[trigger] (stem + "."@) + "png"@,
{
    let stem = crate::save::stem(item.layer, item.slot);
    match crate::paths::extension_of(item.source) {
        Some(e) => {
            assert(item.name() == (stem + "."@) + e);
        },
        None => {
            assert(item.name() == (stem + "."@) + "png"@);
        },
    }
}


// --- The project as a whole ------------------------------------------------

/// A saved project has its name, its description and its rate, and all of its
/// layers in their order; opened again, it has them still.
pub proof fn saved_project_is_the_same(
    dir: Seq<char>,
    layers: Seq<EditorLayerModel>,
    fps: u32,
    name: Seq<char>,
    description: Seq<char>,
    i: int,
)
    requires
        0 <= i < layers.len(),
    ensures
        ({
            let saved = crate::save::saved_project(layers, fps, name, description);
            let (opened, opened_fps, opened_description) = crate::open::opened_project(dir, saved);
            &&& saved.name == name && saved.description == description && saved.fps == fps
            &&& saved.layers.len() == layers.len()
            &&& same_numbers(layers[i], saved.layers[i])
            &&& opened.len() == layers.len()
            &&& opened_fps == fps && opened_description == description
            &&& same_numbers(opened[i], saved.layers[i])
            &&& edited_pictures(opened[i]).len() == edited_pictures(layers[i]).len()
        }),
{
    let saved = crate::save::saved_project(layers, fps, name, description);
    saving_keeps_the_numbers(i as nat, layers[i]);
    opening_keeps_the_layer(dir, saved.layers[i]);
}

/// The preview shows every layer, in their order, at thirty frames a second.
pub proof fn preview_shows_every_layer(layers: Seq<EditorLayerModel>, i: int)
    requires
        crate::editor::savable(layers),
        0 <= i < layers.len(),
    ensures
        ({
            let p = crate::editor::previewed_project(layers);
            &&& p.layers.len() == layers.len()
            &&& p.fps == 30
            &&& same_numbers(layers[i], p.layers[i])
            &&& crate::load::picture_files(seq![], p.layers[i]).len() == edited_pictures(
                layers[i],
            ).len()
            &&& forall|k: int|
                0 <= k < edited_pictures(layers[i]).len() ==> Some(
                    #[trigger] crate::load::picture_files(seq![], p.layers[i])[k],
                ) == edited_pictures(layers[i])[k]
        }),
{
    preview_shows_the_edit(layers[i]);
}

/// There is something to save or to preview just when there is a layer and no
/// layer lacks a picture, a mask, a shader or a font.
pub proof fn nothing_may_be_missing(layers: Seq<EditorLayerModel>)
    ensures
        crate::editor::savable(layers) <==> layers.len() > 0 && forall|i: int|
            0 <= i < layers.len() ==> lacks_nothing(#[trigger] layers[i]),
{
    assert forall|i: int| 0 <= i < layers.len() implies #[trigger] layers[i].complete()
        == lacks_nothing(layers[i]) by {
        lacking_is_incomplete(layers[i]);
    }
    if crate::editor::savable(layers) {
        assert forall|i: int| 0 <= i < layers.len() implies lacks_nothing(#[trigger] layers[i]) by {
            assert(layers[i].complete());
        }
    }
    if layers.len() > 0 && forall|i: int|
        0 <= i < layers.len() ==> lacks_nothing(#[trigger] layers[i]) {
        assert forall|i: int| 0 <= i < layers.len() implies (#[trigger] layers[i]).complete() by {
            assert(lacks_nothing(layers[i]));
        }
    }
}

/// Every file that the layer shows was picked.
pub open spec fn lacks_nothing(l: EditorLayerModel) -> bool {
    &&& forall|k: int| 0 <= k < edited_pictures(l).len() ==> #[trigger] edited_pictures(l)[k] is Some
    &&& l matches EditorLayerModel::Text { font: EditorTextFontModel::Custom { path }, .. } ==> path
        is Some
    &&& l.stack() matches Some(stack) ==> forall|j: int|
        0 <= j < stack.len() ==> {
            &&& (#[trigger] stack[j]).mask is Texture ==> edited_mask(stack[j]) is Some
            &&& stack[j].kind is Shader ==> edited_shader(stack[j]) is Some
        }
}

proof fn lacking_is_incomplete(l: EditorLayerModel)
    ensures
        l.complete() == lacks_nothing(l),
{
    let pictures = edited_pictures(l);
    match l {
        EditorLayerModel::Image { path, .. } => {
            assert(pictures[0] == path);
        },
        EditorLayerModel::Xray { base, overlay, .. } => {
            assert(pictures[0] == base && pictures[1] == overlay);
        },
        EditorLayerModel::Gif { path, .. } => {
            assert(pictures[0] == path);
        },
        EditorLayerModel::Parallax { path, .. } => {
            assert(pictures[0] == path);
        },
        _ => {},
    }
    match l.stack() {
        Some(stack) => {
            if lacks_nothing(l) {
                assert forall|j: int| 0 <= j < stack.len() implies (
                #[trigger] stack[j]).complete() by {
                }
            }
            if crate::editor::all_complete(stack) {
                assert forall|j: int| 0 <= j < stack.len() implies {
                    &&& (#[trigger] stack[j]).mask is Texture ==> edited_mask(stack[j]) is Some
                    &&& stack[j].kind is Shader ==> edited_shader(stack[j]) is Some
                } by {
                    assert(stack[j].complete());
                }
            }
        },
        None => {},
    }
}


// --- Models ----------------------------------------------------------------

/// The model of a project has the project's own fields, each under its name.
pub proof fn project_is_what_it_holds(p: Project, i: int)
    requires
        0 <= i < p.layers@.len(),
    ensures
        p@.name == p.name@,
        p@.description == p.description@,
        p@.fps == p.fps,
        p@.layers.len() == p.layers@.len(),
        p@.layers[i] == p.layers@[i]@,
{
}

/// The model of a layer has the layer's own fields, each under its name.
pub proof fn layer_is_what_it_holds(l: Layer)
    ensures
        match l {
            Layer::Image { path, .. } => l@ matches LayerModel::Image { path: p, .. } && p == path@,
            Layer::Gif { path, .. } => l@ matches LayerModel::Gif { path: p, .. } && p == path@,
            Layer::Xray { base, overlay, radius, .. } => l@ matches LayerModel::Xray {
                base: b,
                overlay: o,
                radius: r,
                ..
            } && b == base@ && o == overlay@ && r == radius,
            Layer::Parallax { path, strength, smoothing, .. } => l@ matches LayerModel::Parallax {
                path: p,
                strength: s,
                smoothing: m,
                ..
            } && p == path@ && s == strength && m == smoothing,
            Layer::Text { x, y, font_size, color, source, font } => l@ matches LayerModel::Text {
                x: a,
                y: b,
                font_size: c,
                color: d,
                source: s,
                font: f,
            } && a == x && b == y && c == font_size && d == color@ && s == source@ && f == font@,
            Layer::Adjustment { .. } => l@ is Adjustment,
        },
{
}

/// The model of an effect has the effect's own fields, each under its name.
pub proof fn effect_is_what_it_holds(e: Effect)
    ensures
        e@.enabled == e.enabled,
        match e.kind {
            EffectKind::Vignette { strength, softness } => e@.kind == (EffectKindModel::Vignette {
                strength,
                softness,
            }),
            EffectKind::ColorAdjust { brightness, contrast, saturation } => e@.kind == (
            EffectKindModel::ColorAdjust { brightness, contrast, saturation }),
            EffectKind::Blur { radius } => e@.kind == (EffectKindModel::Blur { radius }),
            EffectKind::Smoke { color, decay, radius } => e@.kind == (EffectKindModel::Smoke {
                color: color@,
                decay,
                radius,
            }),
            EffectKind::Shader { wgsl_path, params } => e@.kind == (EffectKindModel::Shader {
                wgsl_path: wgsl_path@,
                params: params@,
            }),
        },
        match e.mask {
            Mask::Unmasked => e@.mask is Unmasked,
            Mask::Circle { transform, feather, invert } => e@.mask == (MaskModel::Circle {
                transform,
                feather,
                invert,
            }),
            Mask::Gradient { transform, feather, invert } => e@.mask == (MaskModel::Gradient {
                transform,
                feather,
                invert,
            }),
            Mask::Texture { path, invert } => e@.mask == (MaskModel::Texture {
                path: path@,
                invert,
            }),
        },
{
}

/// The model of an edited layer has the layer's own fields, each under its name.
pub proof fn edited_layer_is_what_it_holds(l: EditorLayer)
    ensures
        match l {
            EditorLayer::Image { path, .. } => l@ matches EditorLayerModel::Image { path: p, .. } && p
                == crate::text::opt_view(path),
            EditorLayer::Gif { path, .. } => l@ matches EditorLayerModel::Gif { path: p, .. } && p
                == crate::text::opt_view(path),
            EditorLayer::Xray { base, overlay, radius, .. } => l@ matches EditorLayerModel::Xray {
                base: b,
                overlay: o,
                radius: r,
                ..
            } && b == crate::text::opt_view(base) && o == crate::text::opt_view(overlay) && r
                == radius,
            EditorLayer::Parallax { path, strength, smoothing, .. } => l@ matches
                EditorLayerModel::Parallax { path: p, strength: s, smoothing: m, .. } && p
                == crate::text::opt_view(path) && s == strength && m == smoothing,
            EditorLayer::Text { x, y, font_size, color, source, font } => l@ matches
                EditorLayerModel::Text { x: a, y: b, font_size: c, color: d, source: s, font: f } && a
                == x && b == y && c == font_size && d == color@ && s == source@ && f == font@,
            EditorLayer::Adjustment { .. } => l@ is Adjustment,
        },
{
}

/// The model of an edited effect has the effect's own fields, each under its
/// name.
pub proof fn edited_effect_is_what_it_holds(e: EditorEffect)
    ensures
        e@.enabled == e.enabled,
        match e.kind {
            EditorEffectKind::Vignette { strength, softness } => e@.kind == (
            EditorEffectKindModel::Vignette { strength, softness }),
            EditorEffectKind::ColorAdjust { brightness, contrast, saturation } => e@.kind == (
            EditorEffectKindModel::ColorAdjust { brightness, contrast, saturation }),
            EditorEffectKind::Blur { radius } => e@.kind == (EditorEffectKindModel::Blur {
                radius,
            }),
            EditorEffectKind::Smoke { color, decay, radius } => e@.kind == (
            EditorEffectKindModel::Smoke { color: color@, decay, radius }),
            EditorEffectKind::Shader { wgsl_path, params } => e@.kind == (
            EditorEffectKindModel::Shader {
                wgsl_path: crate::text::opt_view(wgsl_path),
                params: params@,
            }),
        },
        match e.mask {
            EditorMask::Unmasked => e@.mask is Unmasked,
            EditorMask::Circle { transform, feather, invert } => e@.mask == (
            EditorMaskModel::Circle { transform, feather, invert }),
            EditorMask::Gradient { transform, feather, invert } => e@.mask == (
            EditorMaskModel::Gradient { transform, feather, invert }),
            EditorMask::Texture { path, invert, paint, .. } => e@.mask matches
                EditorMaskModel::Texture { path: p, invert: i, paint: b, .. } && p
                == crate::text::opt_view(path) && i == invert && (paint matches Some(v) ==> b
                == Some(v@)) && (paint is None ==> b is None),
        },
{
}

} // verus!
