//! Which graphics card to render on.

use vstd::prelude::*;

use crate::text::{chars_of, find_chars};

verus! {

/// The kinds of graphics cards.
#[derive(Debug, Clone, Copy, PartialEq, Eq, Structural)]
pub enum DeviceKind {
    Integrated,
    Discrete,
    Virtual,
    Other,
    Cpu,
}

/// A graphics card that could be rendered on.
pub struct AdapterInfo {
    pub name: String,
    pub kind: DeviceKind,
}

/// A text in lower case.
pub uninterp spec fn lowered(s: Seq<char>) -> Seq<char>;

/// `str::to_lowercase`. The text in lower case is named, not described.
#[verifier::external_body]
fn lowered_text(s: &str) -> (r: String)
    ensures
        r@ == lowered(s@),
{
    s.to_lowercase()
}

/// The order of preference. An integrated card comes before a discrete one,
/// which may have to wake up for every frame; one that the processor stands in
/// for comes last.
pub open spec fn rank_of(kind: DeviceKind) -> u8 {
    match kind {
        DeviceKind::Integrated => 0,
        DeviceKind::Discrete => 1,
        DeviceKind::Virtual => 2,
        DeviceKind::Other => 3,
        DeviceKind::Cpu => 4,
    }
}

pub fn adapter_rank(kind: DeviceKind) -> (r: u8)
    ensures
        r == rank_of(kind),
{
    match kind {
        DeviceKind::Integrated => 0,
        DeviceKind::Discrete => 1,
        DeviceKind::Virtual => 2,
        DeviceKind::Other => 3,
        DeviceKind::Cpu => 4,
    }
}

/// The first of the names that holds what is wanted.
pub open spec fn first_match(names: Seq<Seq<char>>, want: Seq<char>, i: int) -> bool {
    0 <= i < names.len() && crate::text::found(names[i], want) is Some && forall|j: int|
        0 <= j < i ==> crate::text::found(#[trigger] names[j], want) is None
}

/// The first of the cards that no other is preferred to.
pub open spec fn first_best(kinds: Seq<DeviceKind>, i: int) -> bool {
    &&& 0 <= i < kinds.len()
    &&& forall|j: int| 0 <= j < kinds.len() ==> rank_of(kinds[i]) <= rank_of(#[trigger] kinds[j])
    &&& forall|j: int| 0 <= j < i ==> rank_of(kinds[i]) < rank_of(#[trigger] kinds[j])
}

/// Card `i` is the one to render on: the first whose name holds what is
/// wanted, where something is and there is such a card, or else the one that
/// is preferred.
pub open spec fn picked(
    names: Seq<Seq<char>>,
    kinds: Seq<DeviceKind>,
    want: Option<Seq<char>>,
    i: int,
) -> bool {
    if want is Some && exists|k: int| first_match(names, want->0, k) {
        first_match(names, want->0, i)
    } else {
        first_best(kinds, i)
    }
}

fn find_match(names: &Vec<String>, want: &str) -> (r: Option<usize>)
    ensures
        match r {
            Some(i) => first_match(crate::text::texts_view(names@), want@, i as int),
            None => forall|k: int| !first_match(crate::text::texts_view(names@), want@, k),
        },
{
    let ghost views = crate::text::texts_view(names@);
    let w = chars_of(want);
    let mut i: usize = 0;
    while i < names.len()
        invariant
            views == crate::text::texts_view(names@),
            w@ == want@,
            i <= names@.len(),
            forall|j: int| 0 <= j < i ==> crate::text::found(#[trigger] views[j], want@) is None,
        decreases names.len() - i,
    {
        assert(views[i as int] == names@[i as int]@);
        let name = chars_of(names[i].as_str());
        if find_chars(name.as_slice(), w.as_slice()).is_some() {
            assert(first_match(views, want@, i as int));
            return Some(i);
        }
        i += 1;
    }
    None
}

fn find_best(kinds: &Vec<DeviceKind>) -> (r: Option<usize>)
    ensures
        match r {
            Some(i) => first_best(kinds@, i as int),
            None => kinds@.len() == 0,
        },
{
    if kinds.len() == 0 {
        return None;
    }
    let mut best: usize = 0;
    let mut i: usize = 1;
    while i < kinds.len()
        invariant
            best < i <= kinds@.len(),
            forall|j: int|
                0 <= j < i ==> rank_of(kinds@[best as int]) <= rank_of(#[trigger] kinds@[j]),
            forall|j: int|
                0 <= j < best ==> rank_of(kinds@[best as int]) < rank_of(#[trigger] kinds@[j]),
        decreases kinds.len() - i,
    {
        if adapter_rank(kinds[i]) < adapter_rank(kinds[best]) {
            best = i;
        }
        i += 1;
    }
    Some(best)
}

/// Picks a card by the names in lower case and the kinds.
pub fn pick_among(
    names: &Vec<String>,
    kinds: &Vec<DeviceKind>,
    want: &Option<String>,
) -> (r: Option<usize>)
    requires
        names@.len() == kinds@.len(),
    ensures
        match r {
            Some(i) => i < kinds@.len() && picked(
                crate::text::texts_view(names@),
                kinds@,
                crate::text::opt_view(*want),
                i as int,
            ),
            None => kinds@.len() == 0,
        },
{
    match want {
        Some(w) => match find_match(names, w.as_str()) {
            Some(i) => {
                return Some(i);
            },
            None => {},
        },
        None => {},
    }
    find_best(kinds)
}

/// The names of the cards in lower case.
pub open spec fn lowered_names(adapters: Seq<AdapterInfo>) -> Seq<Seq<char>> {
    adapters.map_values(|a: AdapterInfo| lowered(a.name@))
}

pub open spec fn kinds_of(adapters: Seq<AdapterInfo>) -> Seq<DeviceKind> {
    adapters.map_values(|a: AdapterInfo| a.kind)
}

/// Picks the card to render on: one whose name holds what is wanted, whatever
/// the case of its letters, or else the one that is preferred. There is none
/// just where there are no cards.
pub fn pick_adapter(adapters: &Vec<AdapterInfo>, want: &Option<String>) -> (r: Option<usize>)
    ensures
        match r {
            Some(i) => i < adapters@.len() && picked(
                lowered_names(adapters@),
                kinds_of(adapters@),
                match crate::text::opt_view(*want) {
                    Some(w) => Some(lowered(w)),
                    None => None,
                },
                i as int,
            ),
            None => adapters@.len() == 0,
        },
{
    let mut names: Vec<String> = Vec::new();
    let mut kinds: Vec<DeviceKind> = Vec::new();
    let mut i: usize = 0;
    while i < adapters.len()
        invariant
            i <= adapters@.len(),
            crate::text::texts_view(names@) == lowered_names(adapters@.take(i as int)),
            kinds@ == kinds_of(adapters@.take(i as int)),
        decreases adapters.len() - i,
    {
        let ghost before = crate::text::texts_view(names@);
        let name = lowered_text(adapters[i].name.as_str());
        let ghost view = name@;
        names.push(name);
        kinds.push(adapters[i].kind);
        assert(crate::text::texts_view(names@) =~= before.push(view));
        i += 1;
        assert(crate::text::texts_view(names@) =~= lowered_names(adapters@.take(i as int)));
        assert(kinds@ =~= kinds_of(adapters@.take(i as int)));
    }
    assert(adapters@.take(i as int) =~= adapters@);
    assert(crate::text::texts_view(names@).len() == names@.len());
    let want_lower = match want {
        Some(w) => Some(lowered_text(w.as_str())),
        None => None,
    };
    pick_among(&names, &kinds, &want_lower)
}

/// Without a wish, an integrated card is picked wherever there is one.
pub proof fn integrated_is_preferred(
    names: Seq<Seq<char>>,
    kinds: Seq<DeviceKind>,
    i: int,
    k: int,
)
    requires
        picked(names, kinds, None, i),
        0 <= k < kinds.len(),
        kinds[k] == DeviceKind::Integrated,
    ensures
        kinds[i] == DeviceKind::Integrated,
{
    assert(rank_of(kinds[i]) <= rank_of(kinds[k]));
}

/// One card is picked at most.
pub proof fn pick_is_unique(
    names: Seq<Seq<char>>,
    kinds: Seq<DeviceKind>,
    want: Option<Seq<char>>,
    i: int,
    k: int,
)
    requires
        picked(names, kinds, want, i),
        picked(names, kinds, want, k),
    ensures
        i == k,
{
    if want is Some && exists|j: int| first_match(names, want->0, j) {
        if i < k {
            assert(crate::text::found(names[i], want->0) is None);
        } else if k < i {
            assert(crate::text::found(names[k], want->0) is None);
        }
    } else {
        if i < k {
            assert(rank_of(kinds[k]) < rank_of(kinds[i]));
            assert(rank_of(kinds[i]) <= rank_of(kinds[k]));
        } else if k < i {
            assert(rank_of(kinds[i]) < rank_of(kinds[k]));
            assert(rank_of(kinds[k]) <= rank_of(kinds[i]));
        }
    }
}


/// Without a wish, a discrete card is picked where there is no integrated one,
/// and the processor only where there is nothing else.
pub proof fn kinds_are_preferred_in_order(
    names: Seq<Seq<char>>,
    kinds: Seq<DeviceKind>,
    i: int,
    k: int,
)
    requires
        picked(names, kinds, None, i),
        0 <= k < kinds.len(),
    ensures
        kinds[k] == DeviceKind::Discrete ==> kinds[i] == DeviceKind::Integrated || kinds[i]
            == DeviceKind::Discrete,
        kinds[k] == DeviceKind::Virtual ==> kinds[i] != DeviceKind::Other && kinds[i]
            != DeviceKind::Cpu,
        kinds[i] == DeviceKind::Cpu ==> kinds[k] == DeviceKind::Cpu,
        kinds[k] == kinds[i] ==> i <= k,
{
}

/// A wish that some card's name holds is granted, by the first such card,
/// whatever the cards are; one that no name holds changes nothing.
pub proof fn wish_is_granted(
    names: Seq<Seq<char>>,
    kinds: Seq<DeviceKind>,
    want: Seq<char>,
    i: int,
    k: int,
)
    requires
        picked(names, kinds, Some(want), i),
        0 <= k < names.len(),
    ensures
        crate::text::found(names[k], want) is Some ==> {
            &&& 0 <= i <= k
            &&& crate::text::found(names[i], want) is Some
        },
        (forall|j: int|
            0 <= j < names.len() ==> crate::text::found(#[trigger] names[j], want) is None)
            ==> picked(names, kinds, None, i),
{
    if crate::text::found(names[k], want) is Some {
        let m = first_to_match(names, want, k);
        assert(first_match(names, want, m));
    }
}

/// The first of the names that holds what is wanted, where one does.
proof fn first_to_match(names: Seq<Seq<char>>, want: Seq<char>, k: int) -> (m: int)
    requires
        0 <= k < names.len(),
        crate::text::found(names[k], want) is Some,
    ensures
        first_match(names, want, m),
        m <= k,
    decreases k,
{
    if exists|j: int| 0 <= j < k && crate::text::found(#[trigger] names[j], want) is Some {
        let j = choose|j: int| 0 <= j < k && crate::text::found(#[trigger] names[j], want) is Some;
        first_to_match(names, want, j)
    } else {
        k
    }
}

} // verus!
