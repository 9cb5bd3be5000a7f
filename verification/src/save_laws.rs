//! What saving a project promises: every file keeps its contents whatever the
//! order of the layers, and a saved project opens as it was.

use vstd::prelude::*;

use crate::save::{FileOpModel, ItemModel, Slot, STAGING_DIR};

verus! {

// --- Names -----------------------------------------------------------------

/// The text has no dot.
pub open spec fn no_dot(s: Seq<char>) -> bool {
    forall|k: int| 0 <= k < s.len() ==> #[trigger] s[k] != '.'
}

proof fn no_dot_concat(a: Seq<char>, b: Seq<char>)
    requires
        no_dot(a),
        no_dot(b),
    ensures
        no_dot(a + b),
{
    assert forall|k: int| 0 <= k < (a + b).len() implies #[trigger] (a + b)[k] != '.' by {
        if k < a.len() {
            assert((a + b)[k] == a[k]);
        } else {
            assert((a + b)[k] == b[k - a.len()]);
        }
    }
}

proof fn decimal_has_no_dot(n: nat)
    ensures
        no_dot(crate::text::decimal(n)),
{
    crate::text::decimal_value(n);
    let s = crate::text::decimal(n);
    assert forall|k: int| 0 <= k < s.len() implies #[trigger] s[k] != '.' by {
        assert(crate::text::is_digit(s[k]));
        digit_is_no_dot(s[k]);
    }
}

proof fn digit_is_no_dot(c: char)
    requires
        crate::text::is_digit(c),
    ensures
        c != '.',
        c != '_',
{
}

proof fn suffix_has_no_dot(slot: Slot)
    ensures
        no_dot(crate::save::slot_suffix(slot)),
        crate::save::slot_suffix(slot).len() > 0,
{
    reveal_strlit("image");
    reveal_strlit("xray_base");
    reveal_strlit("xray_overlay");
    reveal_strlit("anim");
    reveal_strlit("parallax");
    reveal_strlit("font");
    reveal_strlit("effect_");
    reveal_strlit("_mask");
    reveal_strlit("_shader");
    match slot {
        Slot::EffectMask { effect } => {
            decimal_has_no_dot(effect as nat);
            no_dot_concat("effect_"@, crate::text::decimal(effect as nat));
            no_dot_concat("effect_"@ + crate::text::decimal(effect as nat), "_mask"@);
        },
        Slot::EffectShader { effect } => {
            decimal_has_no_dot(effect as nat);
            no_dot_concat("effect_"@, crate::text::decimal(effect as nat));
            no_dot_concat("effect_"@ + crate::text::decimal(effect as nat), "_shader"@);
        },
        _ => {},
    }
}

proof fn stem_has_no_dot(layer: nat, slot: Slot)
    ensures
        no_dot(crate::save::stem(layer, slot)),
{
    reveal_strlit("layer_");
    reveal_strlit("_");
    decimal_has_no_dot(layer);
    suffix_has_no_dot(slot);
    no_dot_concat("layer_"@, crate::text::decimal(layer));
    no_dot_concat("layer_"@ + crate::text::decimal(layer), "_"@);
    no_dot_concat(
        "layer_"@ + crate::text::decimal(layer) + "_"@,
        crate::save::slot_suffix(slot),
    );
}

/// A number, an underscore and a rest tell the number and the rest.
proof fn number_then_rest(a: nat, b: nat, x: Seq<char>, y: Seq<char>)
    requires
        crate::text::decimal(a) + seq!['_'] + x == crate::text::decimal(b) + seq!['_'] + y,
    ensures
        a == b,
        x == y,
{
    let da = crate::text::decimal(a);
    let db = crate::text::decimal(b);
    let s = da + seq!['_'] + x;
    let t = db + seq!['_'] + y;
    crate::text::decimal_value(a);
    crate::text::decimal_value(b);
    assert(s[da.len() as int] == '_');
    assert(t[db.len() as int] == '_');
    assert forall|i: int| 0 <= i < da.len() implies crate::text::is_digit(#[trigger] s[i]) by {
        assert(s[i] == da[i]);
    }
    assert forall|i: int| 0 <= i < db.len() implies crate::text::is_digit(#[trigger] t[i]) by {
        assert(t[i] == db[i]);
    }
    assert(!crate::text::is_digit('_'));
    crate::text::digits_in_front_is(s, da.len() as int);
    crate::text::digits_in_front_is(t, db.len() as int);
    assert(da.len() == db.len());
    assert(da =~= s.take(da.len() as int));
    assert(db =~= t.take(db.len() as int));
    crate::text::decimal_injective(a, b);
    assert(x =~= s.skip(da.len() as int + 1));
    assert(y =~= t.skip(db.len() as int + 1));
}

/// The suffix tells the slot.
proof fn suffix_injective(a: Slot, b: Slot)
    requires
        crate::save::slot_suffix(a) == crate::save::slot_suffix(b),
    ensures
        a == b,
{
    reveal_strlit("image");
    reveal_strlit("xray_base");
    reveal_strlit("xray_overlay");
    reveal_strlit("anim");
    reveal_strlit("parallax");
    reveal_strlit("font");
    reveal_strlit("effect_");
    reveal_strlit("_mask");
    reveal_strlit("_shader");
    let s = crate::save::slot_suffix(a);
    let t = crate::save::slot_suffix(b);
    suffix_has_no_dot(a);
    suffix_has_no_dot(b);
    assert(s[0] == t[0]);
    assert(s.len() == t.len());
    if a is EffectMask || a is EffectShader {
        assert(s[0] == 'e');
        assert(b is EffectMask || b is EffectShader);
        let (i, x) = match a {
            Slot::EffectMask { effect } => (effect, "mask"@),
            Slot::EffectShader { effect } => (effect, "shader"@),
            _ => (0usize, ""@),
        };
        let (j, y) = match b {
            Slot::EffectMask { effect } => (effect, "mask"@),
            Slot::EffectShader { effect } => (effect, "shader"@),
            _ => (0usize, ""@),
        };
        reveal_strlit("mask");
        reveal_strlit("shader");
        let p = crate::text::decimal(i as nat) + seq!['_'] + x;
        let q = crate::text::decimal(j as nat) + seq!['_'] + y;
        assert("_mask"@ =~= seq!['_'] + "mask"@);
        assert("_shader"@ =~= seq!['_'] + "shader"@);
        assert(s =~= "effect_"@ + p);
        assert(t =~= "effect_"@ + q);
        assert(p =~= s.skip(7));
        assert(q =~= t.skip(7));
        number_then_rest(i as nat, j as nat, x, y);
        assert(x[0] == y[0]);
    } else if b is EffectMask || b is EffectShader {
        assert(t[0] == 'e');
    } else {
        assert(a == b);
    }
}

/// Behind its first word, a stem is the layer's number and the slot's suffix.
proof fn stem_behind_the_word(layer: nat, slot: Slot)
    ensures
        crate::save::stem(layer, slot).skip(6) == crate::text::decimal(layer) + seq!['_']
            + crate::save::slot_suffix(slot),
{
    reveal_strlit("layer_");
    reveal_strlit("_");
    assert("_"@ =~= seq!['_']);
    assert(crate::save::stem(layer, slot).skip(6) =~= crate::text::decimal(layer) + seq!['_']
        + crate::save::slot_suffix(slot));
}

/// The name of a saved file tells the layer and the slot that it is for.
pub proof fn name_tells_layer_and_slot(a: ItemModel, b: ItemModel)
    requires
        a.name() == b.name(),
    ensures
        a.layer == b.layer,
        a.slot == b.slot,
{
    let sa = crate::save::stem(a.layer, a.slot);
    let sb = crate::save::stem(b.layer, b.slot);
    let na = a.name();
    let nb = b.name();
    reveal_strlit(".");
    reveal_strlit("layer_");
    reveal_strlit("_");
    stem_has_no_dot(a.layer, a.slot);
    stem_has_no_dot(b.layer, b.slot);
    assert(na[sa.len() as int] == '.');
    assert(nb[sb.len() as int] == '.');
    assert forall|j: int| 0 <= j < sa.len() implies na[j] != '.' by {
        assert(na[j] == sa[j]);
    }
    assert forall|j: int| 0 <= j < sb.len() implies nb[j] != '.' by {
        assert(nb[j] == sb[j]);
    }
    crate::text::first_is_index_of_char(na, '.', sa.len() as int);
    crate::text::first_is_index_of_char(nb, '.', sb.len() as int);
    assert(sa =~= na.take(sa.len() as int));
    assert(sb =~= nb.take(sb.len() as int));
    let xa = crate::save::slot_suffix(a.slot);
    let xb = crate::save::slot_suffix(b.slot);
    stem_behind_the_word(a.layer, a.slot);
    stem_behind_the_word(b.layer, b.slot);
    number_then_rest(a.layer, b.layer, xa, xb);
    suffix_injective(a.slot, b.slot);
}

/// The items are for different layers or slots.
pub open spec fn different(a: ItemModel, b: ItemModel) -> bool {
    a.layer != b.layer || a.slot != b.slot
}

pub open spec fn all_different(items: Seq<ItemModel>) -> bool {
    forall|i: int, j: int|
        0 <= i < items.len() && 0 <= j < items.len() && i != j ==> different(
            #[trigger] items[i],
            #[trigger] items[j],
        )
}

proof fn all_different_concat(a: Seq<ItemModel>, b: Seq<ItemModel>)
    requires
        all_different(a),
        all_different(b),
        forall|i: int, j: int|
            0 <= i < a.len() && 0 <= j < b.len() ==> different(#[trigger] a[i], #[trigger] b[j]),
    ensures
        all_different(a + b),
{
    let s = a + b;
    assert forall|i: int, j: int|
        0 <= i < s.len() && 0 <= j < s.len() && i != j implies different(
        #[trigger] s[i],
        #[trigger] s[j],
    ) by {
        if i < a.len() {
            assert(s[i] == a[i]);
        } else {
            assert(s[i] == b[i - a.len()]);
        }
        if j < a.len() {
            assert(s[j] == a[j]);
        } else {
            assert(s[j] == b[j - a.len()]);
        }
    }
}

/// The effect that a slot is for, if it is for one.
pub open spec fn slot_effect(slot: Slot) -> Option<usize> {
    match slot {
        Slot::EffectMask { effect } => Some(effect),
        Slot::EffectShader { effect } => Some(effect),
        _ => None,
    }
}

proof fn stack_items_different(
    layer: nat,
    effects: Seq<crate::editor::EditorEffectModel>,
    n: int,
)
    requires
        0 <= n <= effects.len() <= usize::MAX,
    ensures
        all_different(crate::save::stack_items(layer, effects, n)),
        forall|k: int|
            0 <= k < crate::save::stack_items(layer, effects, n).len() ==> {
                &&& (#[trigger] crate::save::stack_items(layer, effects, n)[k]).layer == layer
                &&& slot_effect(crate::save::stack_items(layer, effects, n)[k].slot) is Some
                &&& slot_effect(crate::save::stack_items(layer, effects, n)[k].slot)->0 < n
            },
    decreases n,
{
    if n > 0 {
        stack_items_different(layer, effects, n - 1);
        let before = crate::save::stack_items(layer, effects, n - 1);
        let more = crate::save::effect_items(layer, (n - 1) as usize, effects[n - 1]);
        assert(all_different(more));
        assert forall|i: int, j: int| 0 <= i < before.len() && 0 <= j < more.len() implies different(
            #[trigger] before[i],
            #[trigger] more[j],
        ) by {
            assert(slot_effect(more[j].slot) == Some((n - 1) as usize));
        }
        all_different_concat(before, more);
        let all = crate::save::stack_items(layer, effects, n);
        assert forall|k: int| 0 <= k < all.len() implies {
            &&& (#[trigger] all[k]).layer == layer
            &&& slot_effect(all[k].slot) is Some
            &&& slot_effect(all[k].slot)->0 < n
        } by {
            if k < before.len() {
                assert(all[k] == before[k]);
            } else {
                assert(all[k] == more[k - before.len()]);
            }
        }
    }
}

/// Every stack of effects can be counted.
pub open spec fn countable_stacks(layers: Seq<crate::editor::EditorLayerModel>) -> bool {
    forall|i: int|
        0 <= i < layers.len() && (#[trigger] layers[i]).stack() is Some
            ==> layers[i].stack()->0.len() <= usize::MAX
}

proof fn layer_items_different(layer: nat, l: crate::editor::EditorLayerModel)
    requires
        l.stack() matches Some(e) ==> e.len() <= usize::MAX,
    ensures
        all_different(crate::save::layer_items(layer, l)),
        forall|k: int|
            0 <= k < crate::save::layer_items(layer, l).len() ==> (
            #[trigger] crate::save::layer_items(layer, l)[k]).layer == layer,
{
    let own = crate::save::own_items(layer, l);
    assert(all_different(own));
    match l.stack() {
        Some(effects) => {
            stack_items_different(layer, effects, effects.len() as int);
            all_different_concat(
                own,
                crate::save::stack_items(layer, effects, effects.len() as int),
            );
        },
        None => {},
    }
}

proof fn items_upto_different(layers: Seq<crate::editor::EditorLayerModel>, n: int)
    requires
        countable_stacks(layers),
        0 <= n <= layers.len(),
    ensures
        all_different(crate::save::items_upto(layers, n)),
        forall|k: int|
            0 <= k < crate::save::items_upto(layers, n).len() ==> (
            #[trigger] crate::save::items_upto(layers, n)[k]).layer < n,
    decreases n,
{
    if n > 0 {
        items_upto_different(layers, n - 1);
        layer_items_different((n - 1) as nat, layers[n - 1]);
        all_different_concat(
            crate::save::items_upto(layers, n - 1),
            crate::save::layer_items((n - 1) as nat, layers[n - 1]),
        );
    }
}

/// No two files of a project are saved under one name.
pub proof fn saved_names_are_distinct(
    layers: Seq<crate::editor::EditorLayerModel>,
    i: int,
    j: int,
)
    requires
        countable_stacks(layers),
        0 <= i < crate::save::items_of(layers).len(),
        0 <= j < crate::save::items_of(layers).len(),
        i != j,
    ensures
        crate::save::items_of(layers)[i].name() != crate::save::items_of(layers)[j].name(),
{
    items_upto_different(layers, layers.len() as int);
    let items = crate::save::items_of(layers);
    assert(different(items[i], items[j]));
    if items[i].name() == items[j].name() {
        name_tells_layer_and_slot(items[i], items[j]);
    }
}

// --- Files -----------------------------------------------------------------

/// The files of a disk, by their paths.
pub type Files = Map<Seq<char>, Seq<u8>>;

/// The files after an operation.
pub open spec fn apply(fs: Files, op: FileOpModel) -> Files {
    match op {
        FileOpModel::Write { path, bytes } => fs.insert(path, bytes),
        FileOpModel::Copy { from, to } => fs.insert(to, fs[from]),
        FileOpModel::Rename { from, to } => fs.remove(from).insert(to, fs[from]),
    }
}

/// The files after a run of operations.
pub open spec fn apply_all(fs: Files, ops: Seq<FileOpModel>) -> Files
    decreases ops.len(),
{
    if ops.len() == 0 {
        fs
    } else {
        apply(apply_all(fs, ops.drop_last()), ops.last())
    }
}

proof fn apply_all_concat(fs: Files, a: Seq<FileOpModel>, b: Seq<FileOpModel>)
    ensures
        apply_all(fs, a + b) == apply_all(apply_all(fs, a), b),
    decreases b.len(),
{
    if b.len() == 0 {
        assert(a + b =~= a);
    } else {
        apply_all_concat(fs, a, b.drop_last());
        assert((a + b).drop_last() =~= a + b.drop_last());
    }
}

/// The files once what has been painted of the items is written.
pub open spec fn painted(fs: Files, items: Seq<ItemModel>) -> Files
    decreases items.len(),
{
    if items.len() == 0 {
        fs
    } else {
        let before = painted(fs, items.drop_last());
        match items.last().paint {
            Some(gray) => match crate::paint::painted_file(items.last().source, gray) {
                Ok(file) => before.insert(items.last().source, file),
                Err(_) => before,
            },
            None => before,
        }
    }
}

/// What item `k` holds when it is saved: its source's contents, with what has
/// been painted by then.
pub open spec fn contents(fs: Files, items: Seq<ItemModel>, k: int) -> Seq<u8> {
    painted(fs, items.take(k + 1))[items[k].source]
}

/// The path is that of a staged item.
pub open spec fn is_staged(dir: Seq<char>, items: Seq<ItemModel>, path: Seq<char>) -> bool {
    exists|j: int|
        0 <= j < items.len() && path == crate::save::staged_path(dir, #[trigger] items[j])
}

/// No item's source lies where one is staged.
pub open spec fn sources_outside_staging(dir: Seq<char>, items: Seq<ItemModel>) -> bool {
    forall|k: int|
        0 <= k < items.len() ==> !is_staged(dir, items, (#[trigger] items[k]).source)
}

proof fn name_front(item: ItemModel)
    ensures
        item.name().len() > 0,
        item.name()[0] == 'l',
{
    reveal_strlit("layer_");
    let s = crate::save::stem(item.layer, item.slot);
    assert(s[0] == 'l');
    assert(item.name()[0] == s[0]);
}

/// An item is staged in a directory whose name begins with a dot.
proof fn staged_is_hidden(dir: Seq<char>, a: ItemModel, name: Seq<char>)
    requires
        name.len() > 0 && name[0] != '.' && name[0] != '/',
    ensures
        crate::save::staged_path(dir, a) != crate::paths::joined(dir, name),
{
    name_front(a);
    reveal_strlit(".wplinux-staging");
    if crate::save::staged_path(dir, a) == crate::paths::joined(dir, name) {
        let staging = crate::save::staging_of(dir);
        let inner = STAGING_DIR@.push('/') + a.name();
        let front = if dir.len() == 0 || dir.last() == '/' {
            dir
        } else {
            dir.push('/')
        };
        assert(staging =~= front + STAGING_DIR@);
        assert(staging.last() == 'g');
        assert(crate::save::staged_path(dir, a) =~= front + inner);
        assert(crate::paths::joined(dir, inner) =~= front + inner);
        crate::paths::joined_injective(dir, inner, name);
        assert(inner[0] == '.');
    }
}

/// Items with different names are staged and saved in different places, and
/// no item is saved where one is staged.
proof fn places_differ(dir: Seq<char>, a: ItemModel, b: ItemModel)
    ensures
        a.name() != b.name() ==> crate::save::staged_path(dir, a) != crate::save::staged_path(
            dir,
            b,
        ),
        a.name() != b.name() ==> crate::save::final_path(dir, a) != crate::save::final_path(dir, b),
        crate::save::staged_path(dir, a) != crate::save::final_path(dir, b),
{
    name_front(a);
    name_front(b);
    reveal_strlit(".wplinux-staging");
    let staging = crate::save::staging_of(dir);
    if crate::save::staged_path(dir, a) == crate::save::staged_path(dir, b) {
        crate::paths::joined_injective(staging, a.name(), b.name());
    }
    if crate::save::final_path(dir, a) == crate::save::final_path(dir, b) {
        crate::paths::joined_injective(dir, a.name(), b.name());
    }
    staged_is_hidden(dir, a, b.name());
}

/// After the first `n` items have been staged: what is not staged is as if
/// only the paint had been written, and each staged item holds its contents.
proof fn staging_run(dir: Seq<char>, fs: Files, items: Seq<ItemModel>, n: int)
    requires
        0 <= n <= items.len(),
        sources_outside_staging(dir, items),
        forall|i: int, j: int|
            0 <= i < items.len() && 0 <= j < items.len() && i != j ==> (
            #[trigger] items[i]).name() != (#[trigger] items[j]).name(),
    ensures
        ({
            let after = apply_all(fs, crate::save::stage_all(dir, items.take(n)));
            &&& forall|p: Seq<char>|
                !is_staged(dir, items, p) ==> #[trigger] after[p] == painted(fs, items.take(n))[p]
            &&& forall|k: int|
                0 <= k < n ==> after[crate::save::staged_path(dir, #[trigger] items[k])]
                    == contents(fs, items, k)
        }),
    decreases n,
{
    if n == 0 {
        assert(items.take(0) =~= seq![]);
    } else {
        staging_run(dir, fs, items, n - 1);
        let upto = items.take(n);
        let item = items[n - 1];
        assert(upto.drop_last() =~= items.take(n - 1));
        assert(upto.last() == item);
        let before = apply_all(fs, crate::save::stage_all(dir, items.take(n - 1)));
        let ops = crate::save::stage_ops(dir, item);
        apply_all_concat(fs, crate::save::stage_all(dir, items.take(n - 1)), ops);
        let after = apply_all(fs, crate::save::stage_all(dir, upto));
        assert(after == apply_all(before, ops));
        assert(!is_staged(dir, items, item.source));
        let staged = crate::save::staged_path(dir, item);
        assert(is_staged(dir, items, staged));
        reveal_with_fuel(apply_all, 3);
        let written = match item.paint {
            Some(gray) => match crate::paint::painted_file(item.source, gray) {
                Ok(file) => before.insert(item.source, file),
                Err(_) => before,
            },
            None => before,
        };
        if ops.len() == 2 {
            assert(ops.drop_last().drop_last() =~= seq![]);
        } else {
            assert(ops.drop_last() =~= seq![]);
        }
        assert(after == written.insert(staged, written[item.source]));
        assert forall|p: Seq<char>| !is_staged(dir, items, p) implies #[trigger] written[p]
            == painted(fs, upto)[p] by {
            assert(before[p] == painted(fs, items.take(n - 1))[p]);
        }
        assert forall|p: Seq<char>| !is_staged(dir, items, p) implies #[trigger] after[p]
            == painted(fs, upto)[p] by {
            assert(p != staged);
            assert(written[p] == painted(fs, upto)[p]);
        }
        assert forall|k: int| 0 <= k < n implies after[crate::save::staged_path(
            dir,
            #[trigger] items[k],
        )] == contents(fs, items, k) by {
            if k == n - 1 {
                assert(written[item.source] == painted(fs, upto)[item.source]);
            } else {
                places_differ(dir, items[k], item);
                assert(items[k].name() != items[n - 1].name());
                let at = crate::save::staged_path(dir, items[k]);
                assert(is_staged(dir, items, at));
                assert(before[at] == contents(fs, items, k));
                assert(written[at] == before[at]);
            }
        }
    }
}

/// After the first `n` items have been moved: those are saved with their
/// contents, the others are still staged with theirs.
proof fn promoting_run(dir: Seq<char>, fs: Files, staged: Files, items: Seq<ItemModel>, n: int)
    requires
        0 <= n <= items.len(),
        forall|i: int, j: int|
            0 <= i < items.len() && 0 <= j < items.len() && i != j ==> (
            #[trigger] items[i]).name() != (#[trigger] items[j]).name(),
        forall|k: int|
            0 <= k < items.len() ==> staged[crate::save::staged_path(dir, #[trigger] items[k])]
                == contents(fs, items, k),
    ensures
        ({
            let after = apply_all(staged, crate::save::promote_all(dir, items).take(n));
            &&& forall|k: int|
                0 <= k < n ==> {
                    &&& after.dom().contains(
                        crate::save::final_path(dir, #[trigger] items[k]),
                    )
                    &&& after[crate::save::final_path(dir, items[k])] == contents(fs, items, k)
                }
            &&& forall|k: int|
                n <= k < items.len() ==> after[crate::save::staged_path(
                    dir,
                    #[trigger] items[k],
                )] == contents(fs, items, k)
        }),
    decreases n,
{
    let ops = crate::save::promote_all(dir, items);
    if n == 0 {
        assert(ops.take(0) =~= seq![]);
    } else {
        promoting_run(dir, fs, staged, items, n - 1);
        assert(ops.take(n).drop_last() =~= ops.take(n - 1));
        let before = apply_all(staged, ops.take(n - 1));
        let after = apply_all(staged, ops.take(n));
        let item = items[n - 1];
        let from = crate::save::staged_path(dir, item);
        let to = crate::save::final_path(dir, item);
        assert(ops.take(n).last() == (FileOpModel::Rename { from, to }));
        assert(after == before.remove(from).insert(to, before[from]));
        assert forall|k: int| 0 <= k < n implies {
            &&& after.dom().contains(crate::save::final_path(dir, #[trigger] items[k]))
            &&& after[crate::save::final_path(dir, items[k])] == contents(fs, items, k)
        } by {
            if k < n - 1 {
                assert(items[k].name() != items[n - 1].name());
                places_differ(dir, items[k], item);
                places_differ(dir, item, items[k]);
            }
        }
        assert forall|k: int| n <= k < items.len() implies after[crate::save::staged_path(
            dir,
            #[trigger] items[k],
        )] == contents(fs, items, k) by {
            assert(items[k].name() != items[n - 1].name());
            places_differ(dir, items[k], item);
        }
    }
}

/// Saving keeps every picture, whatever the order of the layers: after the
/// operations of a saved project, each file holds what its source held before
/// them, with what has been painted. It does not matter whether a source lies
/// where another layer's file is saved.
pub proof fn saved_files_keep_their_contents(
    dir: Seq<char>,
    fs: Files,
    layers: Seq<crate::editor::EditorLayerModel>,
    k: int,
)
    requires
        countable_stacks(layers),
        sources_outside_staging(dir, crate::save::items_of(layers)),
        0 <= k < crate::save::items_of(layers).len(),
    ensures
        ({
            let items = crate::save::items_of(layers);
            let after = apply_all(fs, crate::save::save_ops(dir, items));
            &&& after.dom().contains(crate::save::final_path(dir, items[k]))
            &&& after[crate::save::final_path(dir, items[k])] == contents(fs, items, k)
        }),
{
    let items = crate::save::items_of(layers);
    let n = items.len() as int;
    assert forall|i: int, j: int|
        0 <= i < items.len() && 0 <= j < items.len() && i != j implies (
    #[trigger] items[i]).name() != (#[trigger] items[j]).name() by {
        saved_names_are_distinct(layers, i, j);
    }
    staging_run(dir, fs, items, n);
    assert(items.take(n) =~= items);
    let staged = apply_all(fs, crate::save::stage_all(dir, items));
    promoting_run(dir, fs, staged, items, n);
    assert(crate::save::promote_all(dir, items).take(n) =~= crate::save::promote_all(dir, items));
    apply_all_concat(fs, crate::save::stage_all(dir, items), crate::save::promote_all(dir, items));
}

/// Where nothing is painted, a saved file holds just what its source held.
pub proof fn unpainted_contents(fs: Files, items: Seq<ItemModel>, k: int)
    requires
        0 <= k < items.len(),
        forall|j: int| 0 <= j <= k ==> (#[trigger] items[j]).paint is None,
    ensures
        contents(fs, items, k) == fs[items[k].source],
{
    unpainted(fs, items.take(k + 1));
}

proof fn unpainted(fs: Files, items: Seq<ItemModel>)
    requires
        forall|j: int| 0 <= j < items.len() ==> (#[trigger] items[j]).paint is None,
    ensures
        painted(fs, items) == fs,
    decreases items.len(),
{
    if items.len() > 0 {
        assert(items.last().paint is None);
        assert forall|j: int| 0 <= j < items.drop_last().len() implies (
        #[trigger] items.drop_last()[j]).paint is None by {
            assert(items.drop_last()[j] == items[j]);
        }
        unpainted(fs, items.drop_last());
    }
}

// --- A save that stops -----------------------------------------------------

/// The path is that of an item that something has been painted of.
pub open spec fn is_painted(items: Seq<ItemModel>, path: Seq<char>) -> bool {
    exists|j: int|
        0 <= j < items.len() && (#[trigger] items[j]).paint is Some && path == items[j].source
}

/// The file that an operation leaves behind.
pub open spec fn target(op: FileOpModel) -> Seq<char> {
    match op {
        FileOpModel::Write { path, .. } => path,
        FileOpModel::Copy { to, .. } => to,
        FileOpModel::Rename { to, .. } => to,
    }
}

proof fn staging_targets(dir: Seq<char>, items: Seq<ItemModel>, k: int)
    requires
        0 <= k < crate::save::stage_all(dir, items).len(),
    ensures
        !(crate::save::stage_all(dir, items)[k] is Rename),
        is_staged(dir, items, target(crate::save::stage_all(dir, items)[k])) || is_painted(
            items,
            target(crate::save::stage_all(dir, items)[k]),
        ),
    decreases items.len(),
{
    let last = items.len() - 1;
    let before = crate::save::stage_all(dir, items.drop_last());
    let op = crate::save::stage_all(dir, items)[k];
    if k < before.len() {
        staging_targets(dir, items.drop_last(), k);
        assert(op == before[k]);
        assert forall|j: int| 0 <= j < last implies items.drop_last()[j] == #[trigger] items[j] by {
        }
        if is_staged(dir, items.drop_last(), target(op)) {
            let j = choose|j: int|
                0 <= j < last && target(op) == crate::save::staged_path(
                    dir,
                    #[trigger] items.drop_last()[j],
                );
            assert(target(op) == crate::save::staged_path(dir, items[j]));
        } else {
            let j = choose|j: int|
                0 <= j < last && (#[trigger] items.drop_last()[j]).paint is Some && target(op)
                    == items.drop_last()[j].source;
            assert(items[j].paint is Some && target(op) == items[j].source);
        }
    } else {
        let own = crate::save::stage_ops(dir, items[last]);
        assert(op == own[k - before.len()]);
        if op is Write {
            assert(items[last].paint is Some);
        }
    }
}

/// A save that stops while it stages, after however many operations, has
/// changed no file but the staged ones and those of what has been painted:
/// every other is there or not as before, with the contents it had.
pub proof fn stopped_save_keeps_other_files(
    dir: Seq<char>,
    fs: Files,
    items: Seq<ItemModel>,
    n: int,
    path: Seq<char>,
)
    requires
        0 <= n <= crate::save::stage_all(dir, items).len(),
        !is_staged(dir, items, path),
        !is_painted(items, path),
    ensures
        ({
            let after = apply_all(fs, crate::save::stage_all(dir, items).take(n));
            after.dom().contains(path) == fs.dom().contains(path) && after[path] == fs[path]
        }),
    decreases n,
{
    let ops = crate::save::stage_all(dir, items);
    if n > 0 {
        stopped_save_keeps_other_files(dir, fs, items, n - 1, path);
        staging_targets(dir, items, n - 1);
        assert(ops.take(n).drop_last() =~= ops.take(n - 1));
        assert(ops.take(n).last() == ops[n - 1]);
    }
}

/// A save that stops while it stages, after however many operations, leaves
/// the project as it was: every file of its directory under a name that does
/// not begin with a dot, the manifest among them, is there or not as before,
/// with the contents it had. What has been painted is in its own file already.
pub proof fn stopped_save_keeps_the_project(
    dir: Seq<char>,
    fs: Files,
    items: Seq<ItemModel>,
    n: int,
    name: Seq<char>,
)
    requires
        0 <= n <= crate::save::stage_all(dir, items).len(),
        name.len() > 0 && name[0] != '.' && name[0] != '/',
        !is_painted(items, crate::paths::joined(dir, name)),
    ensures
        ({
            let path = crate::paths::joined(dir, name);
            let after = apply_all(fs, crate::save::stage_all(dir, items).take(n));
            after.dom().contains(path) == fs.dom().contains(path) && after[path] == fs[path]
        }),
{
    let path = crate::paths::joined(dir, name);
    if is_staged(dir, items, path) {
        let j = choose|j: int|
            0 <= j < items.len() && path == crate::save::staged_path(dir, #[trigger] items[j]);
        staged_is_hidden(dir, items[j], name);
    }
    stopped_save_keeps_other_files(dir, fs, items, n, path);
}


/// Saving stops just where something that was painted cannot be written, at the
/// first such item: it is staged up to there, and nothing is moved to its final
/// name.
pub proof fn save_stops_at_the_first_bad_paint(dir: Seq<char>, items: Seq<ItemModel>)
    ensures
        crate::save::paint_error(items) is Some <==> exists|k: int|
            0 <= k < items.len() && cannot_be_painted(#[trigger] items[k]),
        crate::save::paint_error(items) is None ==> crate::save::paintable(items) == items,
        crate::save::paint_error(items) is Some ==> {
            let n = crate::save::paintable(items).len() as int;
            &&& n < items.len()
            &&& crate::save::paintable(items) == items.take(n)
            &&& cannot_be_painted(items[n])
            &&& forall|k: int| 0 <= k < n ==> !cannot_be_painted(#[trigger] items[k])
        },
        forall|k: int|
            0 <= k < crate::save::stopped_ops(dir, items).len() ==> !(
            #[trigger] crate::save::stopped_ops(dir, items)[k] is Rename),
    decreases items.len(),
{
    let staged = crate::save::paintable(items);
    assert forall|k: int| 0 <= k < crate::save::stopped_ops(dir, items).len() implies !(
    #[trigger] crate::save::stopped_ops(dir, items)[k] is Rename) by {
        staging_targets(dir, staged, k);
    }
    if items.len() > 0 {
        let front = items.drop_last();
        let last = items.len() - 1;
        save_stops_at_the_first_bad_paint(dir, front);
        assert forall|k: int| 0 <= k < front.len() implies #[trigger] front[k] == items[k] by {
        }
        if crate::save::paint_error(front) is Some {
            let k = choose|k: int| 0 <= k < front.len() && cannot_be_painted(#[trigger] front[k]);
            assert(cannot_be_painted(items[k]));
            let n = crate::save::paintable(front).len() as int;
            assert(front.take(n) =~= items.take(n));
            assert(front[n] == items[n]);
            assert forall|j: int| 0 <= j < n implies !cannot_be_painted(#[trigger] items[j]) by {
                assert(front[j] == items[j]);
            }
        } else {
            assert forall|j: int| 0 <= j < last implies !cannot_be_painted(
                #[trigger] items[j],
            ) by {
                assert(front[j] == items[j]);
            }
            if cannot_be_painted(items[last]) {
                assert(crate::save::paintable(items) == front);
                assert(front =~= items.take(last));
            }
        }
    }
}

/// Something was painted of the item that cannot be written.
pub open spec fn cannot_be_painted(item: ItemModel) -> bool {
    item.paint matches Some(gray) && crate::paint::painted_file(item.source, gray) is Err
}

/// Every file of a project is read before any is moved to its final name: in
/// whatever order the layers are, none is overwritten before it was read.
pub proof fn files_are_read_before_any_moves(
    dir: Seq<char>,
    items: Seq<ItemModel>,
    i: int,
    j: int,
)
    requires
        0 <= i < j < crate::save::save_ops(dir, items).len(),
        crate::save::save_ops(dir, items)[i] is Rename,
    ensures
        crate::save::save_ops(dir, items)[j] is Rename,
{
    let staged = crate::save::stage_all(dir, items);
    if i < staged.len() {
        staging_targets(dir, items, i);
        assert(crate::save::save_ops(dir, items)[i] == staged[i]);
    }
}


/// A saved file is called by its layer and by what it is for.
pub proof fn saved_files_have_their_names(layer: nat, effect: usize, source: Seq<char>)
    ensures
        ({
            let front = "layer_"@ + crate::text::decimal(layer) + "_"@;
            let back = "."@ + crate::save::saved_extension(source);
            let of_effect = "effect_"@ + crate::text::decimal(effect as nat);
            &&& crate::save::saved_name(layer, Slot::Image, source) == front + "image"@ + back
            &&& crate::save::saved_name(layer, Slot::XrayBase, source) == front + "xray_base"@
                + back
            &&& crate::save::saved_name(layer, Slot::XrayOverlay, source) == front
                + "xray_overlay"@ + back
            &&& crate::save::saved_name(layer, Slot::Anim, source) == front + "anim"@ + back
            &&& crate::save::saved_name(layer, Slot::Parallax, source) == front + "parallax"@
                + back
            &&& crate::save::saved_name(layer, Slot::Font, source) == front + "font"@ + back
            &&& crate::save::saved_name(layer, Slot::EffectMask { effect }, source) == front + (
            of_effect + "_mask"@) + back
            &&& crate::save::saved_name(layer, Slot::EffectShader { effect }, source) == front + (
            of_effect + "_shader"@) + back
        }),
{
    let back = "."@ + crate::save::saved_extension(source);
    assert forall|slot: Slot| #[trigger]
        crate::save::saved_name(layer, slot, source) == crate::save::stem(layer, slot) + back by {
        assert(crate::save::saved_name(layer, slot, source) =~= crate::save::stem(layer, slot)
            + back);
    }
}

} // verus!
