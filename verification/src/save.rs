//! Saving a project and opening it again.
//!
//! A project is saved in two passes. Every file that it uses is first copied
//! to a staging directory; only when all have been read are the copies moved
//! to their final names. The final names go by the layers' places, so after
//! the layers have been reordered one layer's final name can be where another
//! layer's file still lies.

use vstd::prelude::*;

use crate::editor::{
    path_text, EditorEffect, EditorEffectKind, EditorLayer, EditorMask, EditorTextFont,
};
use crate::paint::save_paint_buffer_png;
use crate::paths::{extension, join};
use crate::project_format::{
    copy_singles, Effect, EffectKind, Layer, Mask, Project, TextFont,
};
use crate::text::{decimal_chars, push_str, string_of};

verus! {

/// The name of the staging directory inside the project's.
pub const STAGING_DIR: &'static str = ".wplinux-staging";

/// What a file of a layer is for.
#[derive(Debug, Clone, Copy, PartialEq, Eq, Structural)]
pub enum Slot {
    Image,
    XrayBase,
    XrayOverlay,
    Anim,
    Parallax,
    Font,
    EffectMask { effect: usize },
    EffectShader { effect: usize },
}

/// What the slot adds to a file's name.
pub open spec fn slot_suffix(slot: Slot) -> Seq<char> {
    match slot {
        Slot::Image => "image"@,
        Slot::XrayBase => "xray_base"@,
        Slot::XrayOverlay => "xray_overlay"@,
        Slot::Anim => "anim"@,
        Slot::Parallax => "parallax"@,
        Slot::Font => "font"@,
        Slot::EffectMask { effect } => "effect_"@ + crate::text::decimal(effect as nat) + "_mask"@,
        Slot::EffectShader { effect } => "effect_"@ + crate::text::decimal(effect as nat)
            + "_shader"@,
    }
}

/// The name, without an extension, of a layer's file.
pub open spec fn stem(layer: nat, slot: Slot) -> Seq<char> {
    "layer_"@ + crate::text::decimal(layer) + "_"@ + slot_suffix(slot)
}

/// The extension of a source, or that of a picture where it has none.
pub open spec fn saved_extension(source: Seq<char>) -> Seq<char> {
    match crate::paths::extension_of(source) {
        Some(e) => e,
        None => "png"@,
    }
}

/// The name under which a layer's file is saved.
pub open spec fn saved_name(layer: nat, slot: Slot, source: Seq<char>) -> Seq<char> {
    stem(layer, slot) + "."@ + saved_extension(source)
}

/// A file that a project uses: whose it is, where it lies, and what has been
/// painted of it since it was last written.
pub struct ItemModel {
    pub layer: nat,
    pub slot: Slot,
    pub source: Seq<char>,
    pub paint: Option<Seq<u8>>,
}

impl ItemModel {
    pub open spec fn name(self) -> Seq<char> {
        saved_name(self.layer, self.slot, self.source)
    }
}

/// A file of a layer that nothing is painted of.
pub open spec fn plain_item(layer: nat, slot: Slot, path: Option<Seq<char>>) -> ItemModel {
    ItemModel { layer, slot, source: crate::editor::path_or_empty(path), paint: None }
}

/// The files of one effect: its mask's picture, then its shader.
pub open spec fn effect_items(
    layer: nat,
    effect: usize,
    e: crate::editor::EditorEffectModel,
) -> Seq<ItemModel> {
    let mask = match e.mask {
        crate::editor::EditorMaskModel::Texture { path, paint, .. } => seq![
            ItemModel {
                layer,
                slot: Slot::EffectMask { effect },
                source: crate::editor::path_or_empty(path),
                paint,
            },
        ],
        _ => seq![],
    };
    let shader = match e.kind {
        crate::editor::EditorEffectKindModel::Shader { wgsl_path, .. } => seq![
            plain_item(layer, Slot::EffectShader { effect }, wgsl_path),
        ],
        _ => seq![],
    };
    mask + shader
}

/// The files of the first `n` effects of a layer.
pub open spec fn stack_items(
    layer: nat,
    effects: Seq<crate::editor::EditorEffectModel>,
    n: int,
) -> Seq<ItemModel>
    decreases n,
{
    if n <= 0 {
        seq![]
    } else {
        stack_items(layer, effects, n - 1) + effect_items(
            layer,
            (n - 1) as usize,
            effects[n - 1],
        )
    }
}

/// The files of a layer itself.
pub open spec fn own_items(layer: nat, l: crate::editor::EditorLayerModel) -> Seq<ItemModel> {
    match l {
        crate::editor::EditorLayerModel::Image { path, .. } => seq![
            plain_item(layer, Slot::Image, path),
        ],
        crate::editor::EditorLayerModel::Xray { base, overlay, .. } => seq![
            plain_item(layer, Slot::XrayBase, base),
            plain_item(layer, Slot::XrayOverlay, overlay),
        ],
        crate::editor::EditorLayerModel::Gif { path, .. } => seq![
            plain_item(layer, Slot::Anim, path),
        ],
        crate::editor::EditorLayerModel::Parallax { path, .. } => seq![
            plain_item(layer, Slot::Parallax, path),
        ],
        crate::editor::EditorLayerModel::Text { font, .. } => match font {
            crate::editor::EditorTextFontModel::Custom { path } => seq![
                plain_item(layer, Slot::Font, path),
            ],
            crate::editor::EditorTextFontModel::Bundled => seq![],
        },
        crate::editor::EditorLayerModel::Adjustment { .. } => seq![],
    }
}

/// The files of a layer and its effects.
pub open spec fn layer_items(layer: nat, l: crate::editor::EditorLayerModel) -> Seq<ItemModel> {
    match l.stack() {
        Some(effects) => own_items(layer, l) + stack_items(layer, effects, effects.len() as int),
        None => own_items(layer, l),
    }
}

/// The files of the first `n` layers.
pub open spec fn items_upto(
    layers: Seq<crate::editor::EditorLayerModel>,
    n: int,
) -> Seq<ItemModel>
    decreases n,
{
    if n <= 0 {
        seq![]
    } else {
        items_upto(layers, n - 1) + layer_items((n - 1) as nat, layers[n - 1])
    }
}

/// The files that a project uses, in the order in which they are staged.
pub open spec fn items_of(layers: Seq<crate::editor::EditorLayerModel>) -> Seq<ItemModel> {
    items_upto(layers, layers.len() as int)
}

// --- The saved project -----------------------------------------------------

pub open spec fn saved_mask(
    layer: nat,
    effect: usize,
    mask: crate::editor::EditorMaskModel,
) -> crate::project_format::MaskModel {
    match mask {
        crate::editor::EditorMaskModel::Texture { path, invert, .. } =>
            crate::project_format::MaskModel::Texture {
            path: saved_name(
                layer,
                Slot::EffectMask { effect },
                crate::editor::path_or_empty(path),
            ),
            invert,
        },
        _ => mask.projected(),
    }
}

pub open spec fn saved_kind(
    layer: nat,
    effect: usize,
    kind: crate::editor::EditorEffectKindModel,
) -> crate::project_format::EffectKindModel {
    match kind {
        crate::editor::EditorEffectKindModel::Shader { wgsl_path, params } =>
            crate::project_format::EffectKindModel::Shader {
            wgsl_path: saved_name(
                layer,
                Slot::EffectShader { effect },
                crate::editor::path_or_empty(wgsl_path),
            ),
            params,
        },
        _ => kind.projected(),
    }
}

/// An effect as the manifest holds it.
pub open spec fn saved_effect(
    layer: nat,
    effect: usize,
    e: crate::editor::EditorEffectModel,
) -> crate::project_format::EffectModel {
    crate::project_format::EffectModel {
        kind: saved_kind(layer, effect, e.kind),
        mask: saved_mask(layer, effect, e.mask),
        enabled: e.enabled,
    }
}

pub open spec fn saved_stack(
    layer: nat,
    effects: Seq<crate::editor::EditorEffectModel>,
) -> Seq<crate::project_format::EffectModel> {
    effects.map(
        |j: int, e: crate::editor::EditorEffectModel| saved_effect(layer, j as usize, e),
    )
}

/// A layer as the manifest holds it: its files by their names.
pub open spec fn saved_layer(
    layer: nat,
    l: crate::editor::EditorLayerModel,
) -> crate::project_format::LayerModel {
    match l {
        crate::editor::EditorLayerModel::Image { path, effects } =>
            crate::project_format::LayerModel::Image {
            path: saved_name(layer, Slot::Image, crate::editor::path_or_empty(path)),
            effects: saved_stack(layer, effects),
        },
        crate::editor::EditorLayerModel::Xray { base, overlay, radius, effects } =>
            crate::project_format::LayerModel::Xray {
            base: saved_name(layer, Slot::XrayBase, crate::editor::path_or_empty(base)),
            overlay: saved_name(layer, Slot::XrayOverlay, crate::editor::path_or_empty(overlay)),
            radius,
            effects: saved_stack(layer, effects),
        },
        crate::editor::EditorLayerModel::Gif { path, effects } =>
            crate::project_format::LayerModel::Gif {
            path: saved_name(layer, Slot::Anim, crate::editor::path_or_empty(path)),
            effects: saved_stack(layer, effects),
        },
        crate::editor::EditorLayerModel::Parallax { path, strength, smoothing, effects } =>
            crate::project_format::LayerModel::Parallax {
            path: saved_name(layer, Slot::Parallax, crate::editor::path_or_empty(path)),
            strength,
            smoothing,
            effects: saved_stack(layer, effects),
        },
        crate::editor::EditorLayerModel::Text { x, y, font_size, color, source, font } =>
            crate::project_format::LayerModel::Text {
            x,
            y,
            font_size,
            color,
            source,
            font: match font {
                crate::editor::EditorTextFontModel::Bundled =>
                    crate::project_format::TextFontModel::Bundled,
                crate::editor::EditorTextFontModel::Custom { path } =>
                    crate::project_format::TextFontModel::Custom {
                    path: saved_name(layer, Slot::Font, crate::editor::path_or_empty(path)),
                },
            },
        },
        crate::editor::EditorLayerModel::Adjustment { effects } =>
            crate::project_format::LayerModel::Adjustment { effects: saved_stack(layer, effects) },
    }
}

pub open spec fn saved_layers(layers: Seq<crate::editor::EditorLayerModel>) -> Seq<
    crate::project_format::LayerModel,
> {
    layers.map(|i: int, l: crate::editor::EditorLayerModel| saved_layer(i as nat, l))
}

// --- The file operations ---------------------------------------------------

/// An operation on a file.
pub enum FileOp {
    Write { path: String, bytes: Vec<u8> },
    Copy { from: String, to: String },
    Rename { from: String, to: String },
}

pub enum FileOpModel {
    Write { path: Seq<char>, bytes: Seq<u8> },
    Copy { from: Seq<char>, to: Seq<char> },
    Rename { from: Seq<char>, to: Seq<char> },
}

impl View for FileOp {
    type V = FileOpModel;

    open spec fn view(&self) -> FileOpModel {
        match self {
            FileOp::Write { path, bytes } => FileOpModel::Write { path: path@, bytes: bytes@ },
            FileOp::Copy { from, to } => FileOpModel::Copy { from: from@, to: to@ },
            FileOp::Rename { from, to } => FileOpModel::Rename { from: from@, to: to@ },
        }
    }
}

pub open spec fn ops_view(ops: Seq<FileOp>) -> Seq<FileOpModel> {
    ops.map_values(|o: FileOp| o@)
}

pub open spec fn staging_of(dir: Seq<char>) -> Seq<char> {
    crate::paths::joined(dir, STAGING_DIR@)
}

/// Where an item is staged.
pub open spec fn staged_path(dir: Seq<char>, item: ItemModel) -> Seq<char> {
    crate::paths::joined(staging_of(dir), item.name())
}

/// Where an item is saved.
pub open spec fn final_path(dir: Seq<char>, item: ItemModel) -> Seq<char> {
    crate::paths::joined(dir, item.name())
}

/// What staging an item does: what has been painted is written first, then
/// the file is copied.
pub open spec fn stage_ops(dir: Seq<char>, item: ItemModel) -> Seq<FileOpModel> {
    let copy = FileOpModel::Copy { from: item.source, to: staged_path(dir, item) };
    match item.paint {
        Some(gray) => match crate::paint::painted_file(item.source, gray) {
            Ok(file) => seq![FileOpModel::Write { path: item.source, bytes: file }, copy],
            Err(_) => seq![copy],
        },
        None => seq![copy],
    }
}

pub open spec fn stage_all(dir: Seq<char>, items: Seq<ItemModel>) -> Seq<FileOpModel>
    decreases items.len(),
{
    if items.len() == 0 {
        seq![]
    } else {
        stage_all(dir, items.drop_last()) + stage_ops(dir, items.last())
    }
}

/// What moves the staged files to their final names.
pub open spec fn promote_all(dir: Seq<char>, items: Seq<ItemModel>) -> Seq<FileOpModel> {
    items.map_values(
        |item: ItemModel|
            FileOpModel::Rename { from: staged_path(dir, item), to: final_path(dir, item) },
    )
}

/// What is wrong with the first item whose paint cannot be written.
pub open spec fn paint_error(items: Seq<ItemModel>) -> Option<Seq<char>>
    decreases items.len(),
{
    if items.len() == 0 {
        None
    } else {
        match paint_error(items.drop_last()) {
            Some(e) => Some(e),
            None => match items.last().paint {
                Some(gray) => match crate::paint::painted_file(items.last().source, gray) {
                    Ok(_) => None,
                    Err(e) => Some(e),
                },
                None => None,
            },
        }
    }
}

/// The items in front of the first whose paint cannot be written: all of them
/// where there is none.
pub open spec fn paintable(items: Seq<ItemModel>) -> Seq<ItemModel>
    decreases items.len(),
{
    if paint_error(items) is None {
        items
    } else {
        paintable(items.drop_last())
    }
}

/// What saving a project's files takes.
pub open spec fn save_ops(dir: Seq<char>, items: Seq<ItemModel>) -> Seq<FileOpModel> {
    stage_all(dir, items) + promote_all(dir, items)
}

/// What is done of it by the time that saving stops at a paint that cannot be
/// written.
pub open spec fn stopped_ops(dir: Seq<char>, items: Seq<ItemModel>) -> Seq<FileOpModel> {
    stage_all(dir, paintable(items))
}

/// The project that a saved manifest describes.
pub open spec fn saved_project(
    layers: Seq<crate::editor::EditorLayerModel>,
    fps: u32,
    name: Seq<char>,
    description: Seq<char>,
) -> crate::project_format::ProjectModel {
    crate::project_format::ProjectModel { name, description, layers: saved_layers(layers), fps }
}

/// How a project is saved: the files to move about, in order, and the project
/// that its manifest then describes.
pub struct SavePlan {
    pub ops: Vec<FileOp>,
    pub project: Project,
}

/// How saving a project stops: the files that are moved about by then, and
/// what was wrong with the next.
pub struct StoppedSave {
    pub ops: Vec<FileOp>,
    pub error: String,
}

// --- Making a plan ---------------------------------------------------------

/// A file to be staged.
struct Item {
    layer: usize,
    slot: Slot,
    source: String,
    name: String,
    painted: Option<Vec<u8>>,
}

/// The item, with its paint as a file.
spec fn prepared_item(item: Item, m: ItemModel) -> bool {
    &&& item.layer == m.layer
    &&& item.slot == m.slot
    &&& item.source@ == m.source
    &&& item.name@ == m.name()
    &&& match m.paint {
        Some(gray) => item.painted is Some && crate::paint::painted_file(m.source, gray) == Ok::<
            Seq<u8>,
            Seq<char>,
        >(item.painted->0@),
        None => item.painted is None,
    }
}

spec fn prepared_items(items: Seq<Item>, m: Seq<ItemModel>) -> bool {
    &&& items.len() == m.len()
    &&& forall|k: int| 0 <= k < m.len() ==> prepared_item(#[trigger] items[k], m[k])
}

fn push_suffix(out: &mut Vec<char>, slot: Slot)
    ensures
        final(out)@ == old(out)@ + slot_suffix(slot),
{
    match slot {
        Slot::Image => push_str(out, "image"),
        Slot::XrayBase => push_str(out, "xray_base"),
        Slot::XrayOverlay => push_str(out, "xray_overlay"),
        Slot::Anim => push_str(out, "anim"),
        Slot::Parallax => push_str(out, "parallax"),
        Slot::Font => push_str(out, "font"),
        Slot::EffectMask { effect } => {
            push_str(out, "effect_");
            let mut number = decimal_chars(effect as u64);
            out.append(&mut number);
            push_str(out, "_mask");
            assert(out@ =~= old(out)@ + slot_suffix(slot));
        },
        Slot::EffectShader { effect } => {
            push_str(out, "effect_");
            let mut number = decimal_chars(effect as u64);
            out.append(&mut number);
            push_str(out, "_shader");
            assert(out@ =~= old(out)@ + slot_suffix(slot));
        },
    }
}

/// The name under which a layer's file is saved.
pub fn asset_name(layer: usize, slot: Slot, source: &str) -> (r: String)
    ensures
        r@ == saved_name(layer as nat, slot, source@),
{
    let mut out: Vec<char> = Vec::new();
    push_str(&mut out, "layer_");
    let mut number = decimal_chars(layer as u64);
    out.append(&mut number);
    push_str(&mut out, "_");
    push_suffix(&mut out, slot);
    assert(out@ =~= stem(layer as nat, slot));
    push_str(&mut out, ".");
    match extension(source) {
        Some(e) => push_str(&mut out, e.as_str()),
        None => push_str(&mut out, "png"),
    }
    string_of(out.as_slice())
}

fn push_item(items: &mut Vec<Item>, layer: usize, slot: Slot, path: &Option<String>, Ghost(m): Ghost<
    Seq<ItemModel>,
>) -> (name: String)
    requires
        prepared_items(old(items)@, m),
    ensures
        prepared_items(
            final(items)@,
            m.push(plain_item(layer as nat, slot, crate::text::opt_view(*path))),
        ),
        name@ == saved_name(
            layer as nat,
            slot,
            crate::editor::path_or_empty(crate::text::opt_view(*path)),
        ),
{
    let source = path_text(path);
    let name = asset_name(layer, slot, source.as_str());
    items.push(Item { layer, slot, source, name: name.clone(), painted: None });
    name
}

fn stage_effect(
    items: &mut Vec<Item>,
    layer: usize,
    effect: usize,
    e: &EditorEffect,
    Ghost(m): Ghost<Seq<ItemModel>>,
) -> (r: Result<Effect, String>)
    requires
        prepared_items(old(items)@, m),
        paint_error(m) is None,
    ensures
        match r {
            Ok(saved) => {
                &&& saved@ == saved_effect(layer as nat, effect, e@)
                &&& prepared_items(final(items)@, m + effect_items(layer as nat, effect, e@))
                &&& paint_error(m + effect_items(layer as nat, effect, e@)) is None
            },
            Err(why) => {
                &&& paint_error(m + effect_items(layer as nat, effect, e@)) == Some(why@)
                &&& prepared_items(
                    final(items)@,
                    paintable(m + effect_items(layer as nat, effect, e@)),
                )
            },
        },
{
    let ghost mut now = m;
    let ghost wanted = m + effect_items(layer as nat, effect, e@);
    let mask = match &e.mask {
        EditorMask::Texture { path, invert, paint, .. } => {
            let source = path_text(path);
            let name = asset_name(layer, Slot::EffectMask { effect }, source.as_str());
            let ghost item = ItemModel {
                layer: layer as nat,
                slot: Slot::EffectMask { effect },
                source: source@,
                paint: match paint {
                    Some(b) => Some(b@),
                    None => None,
                },
            };
            proof {
                now = m.push(item);
                assert(now.drop_last() =~= m);
                assert(wanted.take(now.len() as int) =~= now);
            }
            let painted: Option<Vec<u8>> = match paint {
                Some(buffer) => match save_paint_buffer_png(buffer, source.as_str()) {
                    Ok(file) => Some(file),
                    Err(why) => {
                        proof {
                            assert(paintable(m) == m);
                            assert(paintable(now) == m);
                            first_paint_error_stays(wanted, now.len() as int);
                        }
                        return Err(why);
                    },
                },
                None => None,
            };
            items.push(
                Item {
                    layer,
                    slot: Slot::EffectMask { effect },
                    source,
                    name: name.clone(),
                    painted,
                },
            );
            assert(prepared_items(items@, now));
            Mask::Texture { path: name, invert: *invert }
        },
        other => other.to_project(),
    };
    let kind = match &e.kind {
        EditorEffectKind::Shader { wgsl_path, params } => {
            let name = push_item(
                items,
                layer,
                Slot::EffectShader { effect },
                wgsl_path,
                Ghost(now),
            );
            proof {
                let item = plain_item(
                    layer as nat,
                    Slot::EffectShader { effect },
                    crate::text::opt_view(*wgsl_path),
                );
                assert(now.push(item).drop_last() =~= now);
                now = now.push(item);
            }
            EffectKind::Shader { wgsl_path: name, params: copy_singles(params) }
        },
        other => other.to_project(),
    };
    assert(now =~= wanted);
    Ok(Effect { kind, mask, enabled: e.enabled })
}

proof fn first_paint_error_stays(items: Seq<ItemModel>, n: int)
    requires
        0 <= n <= items.len(),
        paint_error(items.take(n)) is Some,
    ensures
        paint_error(items) == paint_error(items.take(n)),
        paintable(items) == paintable(items.take(n)),
    decreases items.len() - n,
{
    if n == items.len() {
        assert(items.take(n) =~= items);
    } else {
        assert(items.take(n + 1).drop_last() =~= items.take(n));
        first_paint_error_stays(items, n + 1);
    }
}

fn stage_stack(
    items: &mut Vec<Item>,
    layer: usize,
    effects: &Vec<EditorEffect>,
    Ghost(m): Ghost<Seq<ItemModel>>,
) -> (r: Result<Vec<Effect>, String>)
    requires
        prepared_items(old(items)@, m),
        paint_error(m) is None,
    ensures
        ({
            let model = crate::editor::edits_view(effects@);
            let after = m + stack_items(layer as nat, model, model.len() as int);
            match r {
                Ok(saved) => {
                    &&& crate::project_format::effects_view(saved@) == saved_stack(
                        layer as nat,
                        model,
                    )
                    &&& prepared_items(final(items)@, after)
                    &&& paint_error(after) is None
                },
                Err(why) => {
                    &&& paint_error(after) == Some(why@)
                    &&& prepared_items(final(items)@, paintable(after))
                },
            }
        }),
{
    let ghost model = crate::editor::edits_view(effects@);
    let mut saved: Vec<Effect> = Vec::new();
    let mut j: usize = 0;
    assert(m + stack_items(layer as nat, model, 0) =~= m);
    while j < effects.len()
        invariant
            j <= effects@.len(),
            model == crate::editor::edits_view(effects@),
            prepared_items(items@, m + stack_items(layer as nat, model, j as int)),
            paint_error(m + stack_items(layer as nat, model, j as int)) is None,
            saved@.len() == j,
            forall|k: int|
                0 <= k < j ==> (#[trigger] saved@[k])@ == saved_effect(
                    layer as nat,
                    k as usize,
                    model[k],
                ),
        decreases effects.len() - j,
    {
        let ghost before = m + stack_items(layer as nat, model, j as int);
        let ghost upto = m + stack_items(layer as nat, model, j as int + 1);
        assert(model[j as int] == effects@[j as int]@);
        assert(before + effect_items(layer as nat, j, model[j as int]) =~= upto);
        match stage_effect(items, layer, j, &effects[j], Ghost(before)) {
            Ok(effect) => {
                saved.push(effect);
            },
            Err(why) => {
                proof {
                    let whole = m + stack_items(layer as nat, model, model.len() as int);
                    stack_items_prefix(layer as nat, model, j as int + 1, model.len() as int);
                    assert(whole.take(upto.len() as int) =~= upto);
                    first_paint_error_stays(whole, upto.len() as int);
                }
                return Err(why);
            },
        }
        j += 1;
    }
    assert(crate::project_format::effects_view(saved@) =~= saved_stack(layer as nat, model));
    Ok(saved)
}

proof fn stack_items_prefix(
    layer: nat,
    effects: Seq<crate::editor::EditorEffectModel>,
    j: int,
    n: int,
)
    requires
        0 <= j <= n <= effects.len(),
    ensures
        stack_items(layer, effects, j).len() <= stack_items(layer, effects, n).len(),
        stack_items(layer, effects, n).take(stack_items(layer, effects, j).len() as int)
            == stack_items(layer, effects, j),
    decreases n - j,
{
    let short = stack_items(layer, effects, j);
    if j == n {
        assert(short.take(short.len() as int) =~= short);
    } else {
        stack_items_prefix(layer, effects, j, n - 1);
        let mid = stack_items(layer, effects, n - 1);
        let long = stack_items(layer, effects, n);
        assert(long.take(short.len() as int) =~= mid.take(short.len() as int));
    }
}

fn stage_layer(
    items: &mut Vec<Item>,
    i: usize,
    l: &EditorLayer,
    Ghost(m): Ghost<Seq<ItemModel>>,
) -> (r: Result<Layer, String>)
    requires
        prepared_items(old(items)@, m),
        paint_error(m) is None,
    ensures
        match r {
            Ok(saved) => {
                &&& saved@ == saved_layer(i as nat, l@)
                &&& prepared_items(final(items)@, m + layer_items(i as nat, l@))
                &&& paint_error(m + layer_items(i as nat, l@)) is None
            },
            Err(why) => {
                &&& paint_error(m + layer_items(i as nat, l@)) == Some(why@)
                &&& prepared_items(final(items)@, paintable(m + layer_items(i as nat, l@)))
            },
        },
{
    let ghost own = own_items(i as nat, l@);
    let ghost staged = m + own;
    proof {
        plain_items_keep(m, own);
        assert forall|s: Seq<ItemModel>| #[trigger] (m + (own + s)) =~= staged + s by {}
    }
    match l {
        EditorLayer::Image { path, effects } => {
            let name = push_item(items, i, Slot::Image, path, Ghost(m));
            assert(m.push(own[0]) =~= staged);
            let effects = stage_stack(items, i, effects, Ghost(staged))?;
            Ok(Layer::Image { path: name, effects })
        },
        EditorLayer::Xray { base, overlay, radius, effects } => {
            let base_name = push_item(items, i, Slot::XrayBase, base, Ghost(m));
            let overlay_name = push_item(
                items,
                i,
                Slot::XrayOverlay,
                overlay,
                Ghost(m.push(own[0])),
            );
            assert(m.push(own[0]).push(own[1]) =~= staged);
            let effects = stage_stack(items, i, effects, Ghost(staged))?;
            Ok(
                Layer::Xray { base: base_name, overlay: overlay_name, radius: *radius, effects },
            )
        },
        EditorLayer::Gif { path, effects } => {
            let name = push_item(items, i, Slot::Anim, path, Ghost(m));
            assert(m.push(own[0]) =~= staged);
            let effects = stage_stack(items, i, effects, Ghost(staged))?;
            Ok(Layer::Gif { path: name, effects })
        },
        EditorLayer::Parallax { path, strength, smoothing, effects } => {
            let name = push_item(items, i, Slot::Parallax, path, Ghost(m));
            assert(m.push(own[0]) =~= staged);
            let effects = stage_stack(items, i, effects, Ghost(staged))?;
            Ok(
                Layer::Parallax {
                    path: name,
                    strength: *strength,
                    smoothing: *smoothing,
                    effects,
                },
            )
        },
        EditorLayer::Text { x, y, font_size, color, source, font } => {
            let font = match font {
                EditorTextFont::Bundled => {
                    assert(staged =~= m);
                    TextFont::Bundled
                },
                EditorTextFont::Custom { path } => {
                    let name = push_item(items, i, Slot::Font, path, Ghost(m));
                    assert(m.push(own[0]) =~= staged);
                    TextFont::Custom { path: name }
                },
            };
            Ok(
                Layer::Text {
                    x: *x,
                    y: *y,
                    font_size: *font_size,
                    color: *color,
                    source: source.to_project(),
                    font,
                },
            )
        },
        EditorLayer::Adjustment { effects } => {
            assert(staged =~= m);
            let effects = stage_stack(items, i, effects, Ghost(staged))?;
            Ok(Layer::Adjustment { effects })
        },
    }
}

/// Items without paint add nothing that can be wrong.
proof fn plain_items_keep(m: Seq<ItemModel>, more: Seq<ItemModel>)
    requires
        paint_error(m) is None,
        forall|k: int| 0 <= k < more.len() ==> (#[trigger] more[k]).paint is None,
    ensures
        paint_error(m + more) is None,
    decreases more.len(),
{
    if more.len() == 0 {
        assert(m + more =~= m);
    } else {
        plain_items_keep(m, more.drop_last());
        assert((m + more).drop_last() =~= m + more.drop_last());
        assert((m + more).last() == more.last());
    }
}

fn push_stage(ops: &mut Vec<FileOp>, dir: &str, item: &Item, Ghost(m): Ghost<ItemModel>)
    requires
        prepared_item(*item, m),
    ensures
        ops_view(final(ops)@) == ops_view(old(ops)@) + stage_ops(dir@, m),
{
    let ghost before = ops_view(ops@);
    let staging = join(dir, STAGING_DIR);
    let staged = join(staging.as_str(), item.name.as_str());
    match &item.painted {
        Some(painted) => {
            let file = crate::text::copy_range(painted.as_slice(), 0, painted.len());
            ops.push(FileOp::Write { path: item.source.clone(), bytes: file });
            assert(file@ =~= painted@);
        },
        None => {},
    }
    ops.push(FileOp::Copy { from: item.source.clone(), to: staged });
    assert(ops_view(ops@) =~= before + stage_ops(dir@, m));
}

fn stage_items(dir: &str, items: &Vec<Item>, Ghost(all): Ghost<Seq<ItemModel>>) -> (ops: Vec<FileOp>)
    requires
        prepared_items(items@, all),
    ensures
        ops_view(ops@) == stage_all(dir@, all),
{
    let mut ops: Vec<FileOp> = Vec::new();
    let mut k: usize = 0;
    assert(all.take(0) =~= seq![]);
    assert(ops_view(ops@) =~= stage_all(dir@, all.take(0)));
    while k < items.len()
        invariant
            k <= items@.len(),
            prepared_items(items@, all),
            ops_view(ops@) == stage_all(dir@, all.take(k as int)),
        decreases items.len() - k,
    {
        push_stage(&mut ops, dir, &items[k], Ghost(all[k as int]));
        assert(all.take(k as int + 1).drop_last() =~= all.take(k as int));
        k += 1;
    }
    assert(all.take(all.len() as int) =~= all);
    ops
}

/// How a project is saved in `project_dir`. Where something that has been
/// painted cannot be written, saving stops there: what comes before it is
/// staged, and nothing is moved to its final name. No file of the layers is
/// missing.
pub fn save_project(
    project_dir: &str,
    layers: &Vec<EditorLayer>,
    fps: u32,
    name: &str,
    description: &str,
) -> (r: Result<SavePlan, StoppedSave>)
    requires
        crate::editor::layers_complete(crate::editor::editor_view(layers@)),
    ensures
        ({
            let items = items_of(crate::editor::editor_view(layers@));
            match r {
                Ok(plan) => {
                    &&& paint_error(items) is None
                    &&& ops_view(plan.ops@) == save_ops(project_dir@, items)
                    &&& plan.project@ == saved_project(
                        crate::editor::editor_view(layers@),
                        fps,
                        name@,
                        description@,
                    )
                },
                Err(stopped) => {
                    &&& paint_error(items) == Some(stopped.error@)
                    &&& ops_view(stopped.ops@) == stopped_ops(project_dir@, items)
                },
            }
        }),
{
    let ghost model = crate::editor::editor_view(layers@);
    let mut saved: Vec<Layer> = Vec::new();
    let mut items: Vec<Item> = Vec::new();
    let mut i: usize = 0;
    while i < layers.len()
        invariant
            i <= layers@.len(),
            model == crate::editor::editor_view(layers@),
            prepared_items(items@, items_upto(model, i as int)),
            paint_error(items_upto(model, i as int)) is None,
            saved@.len() == i,
            forall|k: int|
                0 <= k < i ==> (#[trigger] saved@[k])@ == saved_layer(k as nat, model[k]),
        decreases layers.len() - i,
    {
        assert(model[i as int] == layers@[i as int]@);
        match stage_layer(&mut items, i, &layers[i], Ghost(items_upto(model, i as int))) {
            Ok(layer) => {
                saved.push(layer);
            },
            Err(why) => {
                proof {
                    items_upto_prefix(model, i as int + 1, model.len() as int);
                    first_paint_error_stays(
                        items_of(model),
                        items_upto(model, i as int + 1).len() as int,
                    );
                }
                let ops = stage_items(project_dir, &items, Ghost(paintable(items_of(model))));
                return Err(StoppedSave { ops, error: why });
            },
        }
        i += 1;
    }
    let ghost all = items_of(model);
    let mut ops = stage_items(project_dir, &items, Ghost(all));
    let ghost staged = ops_view(ops@);
    let mut p: usize = 0;
    assert(promote_all(project_dir@, all).take(0) =~= seq![]);
    assert(staged + promote_all(project_dir@, all).take(0) =~= staged);
    while p < items.len()
        invariant
            p <= items@.len(),
            prepared_items(items@, all),
            ops_view(ops@) == staged + promote_all(project_dir@, all).take(p as int),
        decreases items.len() - p,
    {
        let ghost before = ops_view(ops@);
        let item = &items[p];
        assert(prepared_item(items@[p as int], all[p as int]));
        let staging = join(project_dir, STAGING_DIR);
        let from = join(staging.as_str(), item.name.as_str());
        let to = join(project_dir, item.name.as_str());
        ops.push(FileOp::Rename { from, to });
        proof {
            let promote = promote_all(project_dir@, all);
            assert(promote.take(p as int + 1) =~= promote.take(p as int).push(promote[p as int]));
            assert(ops_view(ops@) =~= before.push(promote[p as int]));
            assert(ops_view(ops@) =~= staged + promote.take(p as int + 1));
        }
        p += 1;
    }
    assert(promote_all(project_dir@, all).take(all.len() as int) =~= promote_all(
        project_dir@,
        all,
    ));
    assert(crate::project_format::layers_view(saved@) =~= saved_layers(model));
    Ok(
        SavePlan {
            ops,
            project: Project {
                name: name.to_string(),
                description: description.to_string(),
                layers: saved,
                fps,
            },
        },
    )
}

proof fn items_upto_prefix(layers: Seq<crate::editor::EditorLayerModel>, i: int, n: int)
    requires
        0 <= i <= n <= layers.len(),
    ensures
        items_upto(layers, i).len() <= items_upto(layers, n).len(),
        items_upto(layers, n).take(items_upto(layers, i).len() as int) == items_upto(layers, i),
    decreases n - i,
{
    let short = items_upto(layers, i);
    if i == n {
        assert(short.take(short.len() as int) =~= short);
    } else {
        items_upto_prefix(layers, i, n - 1);
        let mid = items_upto(layers, n - 1);
        let long = items_upto(layers, n);
        assert(long.take(short.len() as int) =~= mid.take(short.len() as int));
    }
}

} // verus!
