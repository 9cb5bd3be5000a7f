//! Which item of a list is selected, while the list is edited.

use vstd::prelude::*;

verus! {

/// What is selected after item `index` was removed: the same item as before,
/// and nothing where that was the one.
pub open spec fn after_removal(selected: Option<usize>, index: usize) -> Option<usize> {
    match selected {
        Some(s) => if s == index {
            None
        } else if s > index {
            Some((s - 1) as usize)
        } else {
            Some(s)
        },
        None => None,
    }
}

/// What is selected after the items at `a` and `b` have changed places: the
/// same item as before.
pub open spec fn after_swap(selected: Option<usize>, a: usize, b: usize) -> Option<usize> {
    if selected == Some(a) {
        Some(b)
    } else if selected == Some(b) {
        Some(a)
    } else {
        selected
    }
}

pub fn selection_after_removal(selected: Option<usize>, index: usize) -> (r: Option<usize>)
    ensures
        r == after_removal(selected, index),
{
    match selected {
        Some(s) => if s == index {
            None
        } else if s > index {
            Some(s - 1)
        } else {
            Some(s)
        },
        None => None,
    }
}

pub fn selection_after_swap(selected: Option<usize>, a: usize, b: usize) -> (r: Option<usize>)
    ensures
        r == after_swap(selected, a, b),
{
    match selected {
        Some(s) => if s == a {
            Some(b)
        } else if s == b {
            Some(a)
        } else {
            Some(s)
        },
        None => None,
    }
}

/// The selected item stays selected when another is removed, and no item is
/// when it is removed itself.
pub proof fn removal_keeps_the_selected_item<T>(items: Seq<T>, selected: usize, index: usize)
    requires
        selected < items.len(),
        index < items.len(),
    ensures
        match after_removal(Some(selected), index) {
            Some(s) => selected != index && s < items.remove(index as int).len() && items.remove(
                index as int,
            )[s as int] == items[selected as int],
            None => selected == index,
        },
{
}

/// The selected item stays selected when two items change places.
pub proof fn swap_keeps_the_selected_item<T>(items: Seq<T>, selected: usize, a: usize, b: usize)
    requires
        selected < items.len(),
        a < items.len(),
        b < items.len(),
    ensures
        after_swap(Some(selected), a, b) is Some,
        after_swap(Some(selected), a, b)->0 < items.len(),
        swapped(items, a as int, b as int)[after_swap(Some(selected), a, b)->0 as int]
            == items[selected as int],
{
}

/// A list in which two items have changed places.
pub open spec fn swapped<T>(items: Seq<T>, a: int, b: int) -> Seq<T> {
    items.update(a, items[b]).update(b, items[a])
}


/// Two items change places, and every other stays in its own.
pub proof fn swapped_items_change_places<T>(items: Seq<T>, a: int, b: int)
    requires
        0 <= a < items.len(),
        0 <= b < items.len(),
    ensures
        swapped(items, a, b).len() == items.len(),
        swapped(items, a, b)[a] == items[b],
        swapped(items, a, b)[b] == items[a],
        forall|i: int|
            0 <= i < items.len() && i != a && i != b ==> #[trigger] swapped(items, a, b)[i]
                == items[i],
        swapped(swapped(items, a, b), a, b) == items,
{
    assert(swapped(swapped(items, a, b), a, b) =~= items);
}

} // verus!
