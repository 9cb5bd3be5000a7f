//! The wallpapers of the library.

use vstd::prelude::*;

use crate::paths::join;
use crate::text::{chars_le, chars_of, string_of};

verus! {

/// The library's directory below the user's data.
pub const LIBRARY_SUBDIR: &'static str = "wp_linux/wallpapers";

/// The name of a project's thumbnail.
pub const PREVIEW_FILE_NAME: &'static str = "preview.png";

/// The library's directory, below the user's data directory.
pub fn library_root(data_dir: &str) -> (r: String)
    ensures
        r@ == crate::paths::joined(data_dir@, LIBRARY_SUBDIR@),
{
    join(data_dir, LIBRARY_SUBDIR)
}

/// The directory of a project of the library.
pub fn project_dir(data_dir: &str, id: &str) -> (r: String)
    ensures
        r@ == crate::paths::joined(crate::paths::joined(data_dir@, LIBRARY_SUBDIR@), id@),
{
    join(library_root(data_dir).as_str(), id)
}

/// One wallpaper of the library.
pub struct LibraryEntry {
    pub id: String,
    pub dir: String,
    pub name: String,
    pub fps: u32,
    pub layer_count: usize,
    /// Where its thumbnail is, if it has one.
    pub preview_path: Option<String>,
}

pub struct LibraryEntryModel {
    pub id: Seq<char>,
    pub dir: Seq<char>,
    pub name: Seq<char>,
    pub fps: u32,
    pub layer_count: usize,
    pub preview_path: Option<Seq<char>>,
}

impl View for LibraryEntry {
    type V = LibraryEntryModel;

    open spec fn view(&self) -> LibraryEntryModel {
        LibraryEntryModel {
            id: self.id@,
            dir: self.dir@,
            name: self.name@,
            fps: self.fps,
            layer_count: self.layer_count,
            preview_path: crate::text::opt_view(self.preview_path),
        }
    }
}

pub open spec fn entries_view(entries: Seq<LibraryEntry>) -> Seq<LibraryEntryModel> {
    entries.map_values(|e: LibraryEntry| e@)
}

impl LibraryEntryModel {
    /// What the entry is called: its id where it has no name.
    pub open spec fn shown_name(self) -> Seq<char> {
        if self.name.len() == 0 {
            self.id
        } else {
            self.name
        }
    }

    /// The entry does not come after the other: by name, then by id.
    pub open spec fn not_after(self, other: LibraryEntryModel) -> bool {
        if self.name == other.name {
            crate::text::text_le(self.id, other.id)
        } else {
            crate::text::text_le(self.name, other.name)
        }
    }
}

impl LibraryEntry {
    /// What the entry is called.
    pub fn display_name(&self) -> (r: String)
        ensures
            r@ == self@.shown_name(),
    {
        if self.name.as_str().is_empty() {
            self.id.clone()
        } else {
            self.name.clone()
        }
    }
}

/// What the library's directory holds under one name, and what loading it as a
/// project gave.
pub struct Found {
    pub id: String,
    pub dir: String,
    pub is_dir: bool,
    /// The project's name, rate and number of layers; nothing where it could
    /// not be loaded.
    pub project: Option<(String, u32, usize)>,
    pub has_preview: bool,
}

/// The entry that something found is, if it is one.
pub open spec fn entry_of(found: Found) -> Option<LibraryEntryModel> {
    match found.project {
        Some((name, fps, layer_count)) => if found.is_dir {
            Some(
                LibraryEntryModel {
                    id: found.id@,
                    dir: found.dir@,
                    name: name@,
                    fps,
                    layer_count,
                    preview_path: if found.has_preview {
                        Some(crate::paths::joined(found.dir@, PREVIEW_FILE_NAME@))
                    } else {
                        None
                    },
                },
            )
        } else {
            None
        },
        None => None,
    }
}

/// The entries among what was found, in the order in which it was found.
pub open spec fn entries_of(found: Seq<Found>) -> Seq<LibraryEntryModel>
    decreases found.len(),
{
    if found.len() == 0 {
        seq![]
    } else {
        match entry_of(found.last()) {
            Some(e) => entries_of(found.drop_last()).push(e),
            None => entries_of(found.drop_last()),
        }
    }
}

/// Every entry is in its place.
pub open spec fn in_order(entries: Seq<LibraryEntryModel>) -> bool {
    forall|i: int, j: int|
        0 <= i <= j < entries.len() ==> (#[trigger] entries[i]).not_after(#[trigger] entries[j])
}

/// Entries in order, with one more in its place: behind those that it is level
/// with.
pub open spec fn placed(entries: Seq<LibraryEntryModel>, e: LibraryEntryModel) -> Seq<
    LibraryEntryModel,
>
    decreases entries.len(),
{
    if entries.len() == 0 || entries.last().not_after(e) {
        entries.push(e)
    } else {
        placed(entries.drop_last(), e).push(entries.last())
    }
}

/// The entries in order, those that are level as they came.
pub open spec fn sorted(entries: Seq<LibraryEntryModel>) -> Seq<LibraryEntryModel>
    decreases entries.len(),
{
    if entries.len() == 0 {
        seq![]
    } else {
        placed(sorted(entries.drop_last()), entries.last())
    }
}

/// The order of entries is total and transitive, and only entries with the
/// same name and id are level.
pub proof fn not_after_total(a: LibraryEntryModel, b: LibraryEntryModel)
    ensures
        a.not_after(b) || b.not_after(a),
        a.not_after(b) && b.not_after(a) ==> a.name == b.name && a.id == b.id,
        a.not_after(a),
{
    crate::text::text_le_total(a.name, b.name);
    crate::text::text_le_total(a.id, b.id);
    crate::text::text_le_total(a.id, a.id);
}

pub proof fn not_after_transitive(
    a: LibraryEntryModel,
    b: LibraryEntryModel,
    c: LibraryEntryModel,
)
    requires
        a.not_after(b),
        b.not_after(c),
    ensures
        a.not_after(c),
{
    if a.name == b.name && b.name == c.name {
        crate::text::text_le_transitive(a.id, b.id, c.id);
    } else if a.name == b.name || b.name == c.name {
    } else {
        crate::text::text_le_transitive(a.name, b.name, c.name);
        if a.name == c.name {
            crate::text::text_le_total(a.name, b.name);
        }
    }
}

fn entry_not_after(a: &LibraryEntry, b: &LibraryEntry) -> (r: bool)
    ensures
        r == a@.not_after(b@),
{
    if a.name == b.name {
        let x = chars_of(a.id.as_str());
        let y = chars_of(b.id.as_str());
        chars_le(x.as_slice(), y.as_slice())
    } else {
        let x = chars_of(a.name.as_str());
        let y = chars_of(b.name.as_str());
        chars_le(x.as_slice(), y.as_slice())
    }
}

fn insert_in_order(entries: &mut Vec<LibraryEntry>, entry: LibraryEntry)
    requires
        in_order(entries_view(old(entries)@)),
    ensures
        in_order(entries_view(final(entries)@)),
        entries_view(final(entries)@) == placed(entries_view(old(entries)@), entry@),
        entries_view(final(entries)@).to_multiset() == entries_view(
            old(entries)@,
        ).to_multiset().insert(entry@),
{
    let ghost before = entries_view(entries@);
    assert(before.take(before.len() as int) =~= before);
    assert(before.skip(before.len() as int) =~= seq![]);
    assert(placed(before, entry@) + before.skip(before.len() as int) =~= placed(before, entry@));
    let mut at: usize = entries.len();
    while at > 0 && !entry_not_after(&entries[at - 1], &entry)
        invariant
            at <= entries@.len(),
            before == entries_view(entries@),
            placed(before.take(at as int), entry@) + before.skip(at as int) == placed(
                before,
                entry@,
            ),
            forall|k: int|
                at <= k < entries@.len() ==> entry@.not_after(#[trigger] before[k]),
        decreases at,
    {
        proof {
            assert(before[at - 1] == entries@[at - 1]@);
            not_after_total(before[at - 1], entry@);
            let front = before.take(at as int);
            assert(front.drop_last() =~= before.take(at - 1));
            assert(front.last() == before[at - 1]);
            assert(placed(front, entry@) + before.skip(at as int) =~= placed(
                before.take(at - 1),
                entry@,
            ) + before.skip(at - 1));
        }
        at -= 1;
    }
    let ghost e = entry@;
    proof {
        if at > 0 {
            assert(before[at - 1] == entries@[at - 1]@);
        }
    }
    entries.insert(at, entry);
    proof {
        let after = entries_view(entries@);
        assert(after =~= before.insert(at as int, e));
        assert(before.take(at as int).push(e) + before.skip(at as int) =~= after);
        before.to_multiset_ensures();
        vstd::seq_lib::to_multiset_insert(before, at as int, e);
        assert forall|i: int, j: int| 0 <= i <= j < after.len() implies (
        #[trigger] after[i]).not_after(#[trigger] after[j]) by {
            not_after_total(e, e);
            if i < at {
                assert(after[i] == before[i]);
                if j < at {
                    assert(after[j] == before[j]);
                } else {
                    assert(before[i].not_after(before[at - 1]));
                    not_after_transitive(before[i], before[at - 1], e);
                    if j > at {
                        assert(after[j] == before[j - 1]);
                        assert(e.not_after(before[j - 1]));
                        not_after_transitive(before[i], e, before[j - 1]);
                    }
                }
            } else if i == at {
                if j > at {
                    assert(after[j] == before[j - 1]);
                }
            } else {
                assert(after[i] == before[i - 1]);
                assert(after[j] == before[j - 1]);
            }
        }
    }
}

/// The wallpapers among what the library's directory holds, by name and id.
/// What is no directory or cannot be loaded is passed over.
pub fn scan(found: Vec<Found>) -> (r: Vec<LibraryEntry>)
    ensures
        entries_view(r@) == sorted(entries_of(found@)),
        in_order(entries_view(r@)),
        entries_view(r@).to_multiset() == entries_of(found@).to_multiset(),
{
    let ghost whole = found@;
    let mut entries: Vec<LibraryEntry> = Vec::new();
    assert(entries_view(entries@) =~= seq![]);
    assert(whole.take(0) =~= seq![]);
    for item in it: found.into_iter()
        invariant
            it.seq() == whole,
            entries_view(entries@) == sorted(entries_of(whole.take(it.index() as int))),
            in_order(entries_view(entries@)),
            entries_view(entries@).to_multiset() == entries_of(
                whole.take(it.index() as int),
            ).to_multiset(),
    {
        let ghost n = it.index() as int;
        let ghost model = entry_of(item);
        assert(whole.take(n + 1).drop_last() =~= whole.take(n));
        assert(whole.take(n + 1).last() == item);
        match item.project {
            Some((name, fps, layer_count)) => {
                if item.is_dir {
                    let preview_path = if item.has_preview {
                        Some(join(item.dir.as_str(), PREVIEW_FILE_NAME))
                    } else {
                        None
                    };
                    let entry = LibraryEntry {
                        id: item.id,
                        dir: item.dir,
                        name,
                        fps,
                        layer_count,
                        preview_path,
                    };
                    assert(model == Some(entry@));
                    insert_in_order(&mut entries, entry);
                    proof {
                        let before = entries_of(whole.take(n));
                        before.to_multiset_ensures();
                        assert(before.push(model->0).drop_last() =~= before);
                    }
                }
            },
            None => {},
        }
    }
    assert(whole.take(whole.len() as int) =~= whole);
    entries
}

// --- Ids -------------------------------------------------------------------

/// The character of a hexadecimal digit.
pub open spec fn hex_char(d: nat) -> char {
    if d < 10 {
        (48 + d) as char
    } else {
        (87 + d) as char
    }
}

/// `n` in hexadecimal, without leading zeros.
pub open spec fn hex(n: nat) -> Seq<char>
    decreases n,
{
    if n < 16 {
        seq![hex_char(n)]
    } else {
        hex(n / 16).push(hex_char(n % 16))
    }
}

pub open spec fn is_hex_digit(c: char) -> bool {
    48 <= c as u32 <= 57 || 97 <= c as u32 <= 102
}

fn hex_digit(d: u128) -> (c: char)
    requires
        d < 16,
    ensures
        c == hex_char(d as nat),
{
    let digits = [
        '0',
        '1',
        '2',
        '3',
        '4',
        '5',
        '6',
        '7',
        '8',
        '9',
        'a',
        'b',
        'c',
        'd',
        'e',
        'f',
    ];
    digits[d as usize]
}

fn hex_chars(n: u128) -> (r: Vec<char>)
    ensures
        r@ == hex(n as nat),
    decreases n,
{
    if n < 16 {
        let mut r: Vec<char> = Vec::new();
        r.push(hex_digit(n));
        r
    } else {
        let mut r = hex_chars(n / 16);
        r.push(hex_digit(n % 16));
        r
    }
}

/// The id of a project that is made `nanos` nanoseconds after the Unix epoch.
pub fn new_project_id(nanos: u128) -> (r: String)
    ensures
        r@ == hex(nanos as nat),
{
    string_of(hex_chars(nanos).as_slice())
}

/// An id is a hexadecimal number: not empty, and digits alone.
pub proof fn project_id_is_hex(nanos: nat)
    ensures
        hex(nanos).len() > 0,
        forall|i: int| 0 <= i < hex(nanos).len() ==> is_hex_digit(#[trigger] hex(nanos)[i]),
    decreases nanos,
{
    if nanos >= 16 {
        project_id_is_hex(nanos / 16);
    }
}

/// Projects made at different moments have different ids.
pub proof fn project_ids_differ(a: nat, b: nat)
    requires
        hex(a) == hex(b),
    ensures
        a == b,
    decreases a,
{
    if a < 16 && b < 16 {
        assert(hex(a) == seq![hex_char(a)]);
        assert(hex(b) == seq![hex_char(b)]);
        assert(seq![hex_char(a)][0] == seq![hex_char(b)][0]);
        hex_char_injective(a, b);
    } else if a < 16 {
        project_id_is_hex(b / 16);
        assert(hex(a).len() == 1);
    } else if b < 16 {
        project_id_is_hex(a / 16);
        assert(hex(b).len() == 1);
    } else {
        assert(hex(a).drop_last() =~= hex(a / 16));
        assert(hex(b).drop_last() =~= hex(b / 16));
        project_ids_differ(a / 16, b / 16);
        assert(hex(a / 16).push(hex_char(a % 16)).last() == hex_char(a % 16));
        assert(hex(b / 16).push(hex_char(b % 16)).last() == hex_char(b % 16));
        hex_char_injective(a % 16, b % 16);
    }
}

proof fn hex_char_injective(a: nat, b: nat)
    requires
        a < 16,
        b < 16,
        hex_char(a) == hex_char(b),
    ensures
        a == b,
{
}


// --- What is listed --------------------------------------------------------

/// Every directory that is a project is listed, with what its project says.
pub proof fn every_project_is_listed(found: Seq<Found>, k: int) -> (at: int)
    requires
        0 <= k < found.len(),
        found[k].is_dir,
        found[k].project is Some,
    ensures
        0 <= at < entries_of(found).len(),
        ({
            let e = entries_of(found)[at];
            let (name, fps, layer_count) = found[k].project->0;
            &&& e.id == found[k].id@ && e.dir == found[k].dir@
            &&& e.name == name@ && e.fps == fps && e.layer_count == layer_count
            &&& e.preview_path == if found[k].has_preview {
                Some(crate::paths::joined(found[k].dir@, "preview.png"@))
            } else {
                None
            }
        }),
    decreases found.len(),
{
    if k == found.len() - 1 {
        entries_of(found).len() - 1
    } else {
        assert(found.drop_last()[k] == found[k]);
        every_project_is_listed(found.drop_last(), k)
    }
}

/// What is listed is a directory and a project.
pub proof fn only_projects_are_listed(found: Seq<Found>, at: int) -> (k: int)
    requires
        0 <= at < entries_of(found).len(),
    ensures
        0 <= k < found.len(),
        found[k].is_dir,
        found[k].project is Some,
        entries_of(found)[at].id == found[k].id@,
        entries_of(found)[at].dir == found[k].dir@,
    decreases found.len(),
{
    let last = found.len() - 1;
    if entry_of(found.last()) is Some && at == entries_of(found).len() - 1 {
        last
    } else {
        let k = only_projects_are_listed(found.drop_last(), at);
        assert(found.drop_last()[k] == found[k]);
        k
    }
}

/// Wallpapers are listed by their names, and those of one name by their ids.
pub proof fn listed_by_name(a: LibraryEntryModel, b: LibraryEntryModel)
    ensures
        a.name != b.name && crate::text::text_le(a.name, b.name) ==> a.not_after(b)
            && !b.not_after(a),
        a.name == b.name && a.id != b.id && crate::text::text_le(a.id, b.id) ==> a.not_after(b)
            && !b.not_after(a),
        a.name.len() > 0 ==> a.shown_name() == a.name,
        a.name.len() == 0 ==> a.shown_name() == a.id,
{
    not_after_total(a, b);
}

} // verus!
