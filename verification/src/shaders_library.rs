//! The shaders that come with the engine.

use vstd::prelude::*;

use crate::paths::{extension, file_name, file_stem, join};
use crate::text::{chars_le, chars_of};

verus! {

/// The shaders' directory below the user's data.
pub const SHADERS_SUBDIR: &'static str = "wp_linux/shaders";

/// The shaders' directory, below the user's data directory.
pub fn shaders_root(data_dir: &str) -> (r: String)
    ensures
        r@ == crate::paths::joined(data_dir@, SHADERS_SUBDIR@),
{
    join(data_dir, SHADERS_SUBDIR)
}

/// One shader of the library.
pub struct ShaderLibraryEntry {
    pub name: String,
    pub path: String,
}

/// A shader's name and path.
pub open spec fn shaders_view(entries: Seq<ShaderLibraryEntry>) -> Seq<(Seq<char>, Seq<char>)> {
    entries.map_values(|e: ShaderLibraryEntry| (e.name@, e.path@))
}

/// The shader that a path in the directory is, if it is one: a file whose
/// extension says so.
pub open spec fn shader_of(path: Seq<char>, is_file: bool) -> Option<(Seq<char>, Seq<char>)> {
    if is_file && crate::paths::extension_of(path) == Some("wgsl"@) {
        match crate::paths::stem_of(path) {
            Some(name) => Some((name, path)),
            None => None,
        }
    } else {
        None
    }
}

/// The shaders among the paths, in the order in which they were found.
pub open spec fn shaders_of(found: Seq<(String, bool)>) -> Seq<(Seq<char>, Seq<char>)>
    decreases found.len(),
{
    if found.len() == 0 {
        seq![]
    } else {
        match shader_of(found.last().0@, found.last().1) {
            Some(s) => shaders_of(found.drop_last()).push(s),
            None => shaders_of(found.drop_last()),
        }
    }
}

/// What a shader's file is called, extension and all.
pub open spec fn file_of(e: (Seq<char>, Seq<char>)) -> Seq<char> {
    match crate::paths::file_name_of(e.1) {
        Some(name) => name,
        None => seq![],
    }
}

fn file_chars(path: &str) -> (r: Vec<char>)
    ensures
        forall|name: Seq<char>| r@ == #[trigger] file_of((name, path@)),
{
    match file_name(path) {
        Some(name) => chars_of(name.as_str()),
        None => Vec::new(),
    }
}

/// Every shader is in its place, by the name of its file.
pub open spec fn by_file_name(s: Seq<(Seq<char>, Seq<char>)>) -> bool {
    forall|i: int, j: int|
        0 <= i <= j < s.len() ==> crate::text::text_le(
            file_of(#[trigger] s[i]),
            file_of(#[trigger] s[j]),
        )
}

/// Shaders in order, with one more in its place: behind those whose
/// files are called the same.
pub open spec fn placed(s: Seq<(Seq<char>, Seq<char>)>, e: (Seq<char>, Seq<char>)) -> Seq<
    (Seq<char>, Seq<char>),
>
    decreases s.len(),
{
    if s.len() == 0 || crate::text::text_le(file_of(s.last()), file_of(e)) {
        s.push(e)
    } else {
        placed(s.drop_last(), e).push(s.last())
    }
}

/// The shaders in order of their files' names, equal ones as they came.
pub open spec fn sorted(s: Seq<(Seq<char>, Seq<char>)>) -> Seq<(Seq<char>, Seq<char>)>
    decreases s.len(),
{
    if s.len() == 0 {
        seq![]
    } else {
        placed(sorted(s.drop_last()), s.last())
    }
}

fn insert_by_file_name(entries: &mut Vec<ShaderLibraryEntry>, entry: ShaderLibraryEntry)
    requires
        by_file_name(shaders_view(old(entries)@)),
    ensures
        by_file_name(shaders_view(final(entries)@)),
        shaders_view(final(entries)@) == placed(
            shaders_view(old(entries)@),
            (entry.name@, entry.path@),
        ),
        shaders_view(final(entries)@).to_multiset() == shaders_view(
            old(entries)@,
        ).to_multiset().insert((entry.name@, entry.path@)),
{
    let ghost before = shaders_view(entries@);
    let ghost e = (entry.name@, entry.path@);
    let name = file_chars(entry.path.as_str());
    assert(name@ == file_of(e));
    let mut at: usize = entries.len();
    assert(before.take(before.len() as int) =~= before);
    assert(placed(before, e) + before.skip(before.len() as int) =~= placed(before, e));
    while at > 0
        invariant
            at <= entries@.len(),
            before == shaders_view(entries@),
            name@ == file_of(e),
            placed(before.take(at as int), e) + before.skip(at as int) == placed(before, e),
            forall|k: int|
                at <= k < entries@.len() ==> crate::text::text_le(
                    file_of(e),
                    file_of(#[trigger] before[k]),
                ),
        ensures
            at <= entries@.len(),
            before == shaders_view(entries@),
            forall|k: int|
                at <= k < entries@.len() ==> crate::text::text_le(
                    file_of(e),
                    file_of(#[trigger] before[k]),
                ),
            at > 0 ==> crate::text::text_le(file_of(before[at - 1]), file_of(e)),
            placed(before.take(at as int), e) + before.skip(at as int) == placed(before, e),
        decreases at,
    {
        let other = file_chars(entries[at - 1].path.as_str());
        assert(before[at - 1] == (entries@[at - 1].name@, entries@[at - 1].path@));
        assert(file_of(before[at - 1]) == other@);
        if chars_le(other.as_slice(), name.as_slice()) {
            break;
        }
        proof {
            crate::text::text_le_total(file_of(before[at - 1]), file_of(e));
            let front = before.take(at as int);
            assert(front.drop_last() =~= before.take(at - 1));
            assert(front.last() == before[at - 1]);
            assert(placed(front, e) + before.skip(at as int) =~= placed(before.take(at - 1), e)
                + before.skip(at - 1));
        }
        at -= 1;
    }
    entries.insert(at, entry);
    proof {
        let after = shaders_view(entries@);
        assert(after =~= before.insert(at as int, e));
        assert(before.take(at as int).push(e) + before.skip(at as int) =~= after);
        before.to_multiset_ensures();
        vstd::seq_lib::to_multiset_insert(before, at as int, e);
        crate::text::text_le_total(file_of(e), file_of(e));
        assert forall|i: int, j: int| 0 <= i <= j < after.len() implies crate::text::text_le(
            file_of(#[trigger] after[i]),
            file_of(#[trigger] after[j]),
        ) by {
            if i < at {
                assert(after[i] == before[i]);
                if j < at {
                    assert(after[j] == before[j]);
                } else {
                    assert(crate::text::text_le(file_of(before[i]), file_of(before[at - 1])));
                    crate::text::text_le_transitive(
                        file_of(before[i]),
                        file_of(before[at - 1]),
                        file_of(e),
                    );
                    if j > at {
                        assert(after[j] == before[j - 1]);
                        assert(crate::text::text_le(file_of(e), file_of(before[j - 1])));
                        crate::text::text_le_transitive(
                            file_of(before[i]),
                            file_of(e),
                            file_of(before[j - 1]),
                        );
                    }
                }
            } else if i == at {
                if j > at {
                    assert(after[j] == before[j - 1]);
                }
            } else {
                assert(after[i] == before[i - 1]);
                assert(after[j] == before[j - 1]);
            }
        }
    }
}

/// The shaders among the paths of a directory, by the names of their files.
/// Each path comes with whether it is a file.
pub fn scan(found: Vec<(String, bool)>) -> (r: Vec<ShaderLibraryEntry>)
    ensures
        shaders_view(r@) == sorted(shaders_of(found@)),
        by_file_name(shaders_view(r@)),
        shaders_view(r@).to_multiset() == shaders_of(found@).to_multiset(),
{
    let ghost whole = found@;
    let mut entries: Vec<ShaderLibraryEntry> = Vec::new();
    assert(shaders_view(entries@) =~= seq![]);
    assert(whole.take(0) =~= seq![]);
    for item in it: found.into_iter()
        invariant
            it.seq() == whole,
            shaders_view(entries@) == sorted(shaders_of(whole.take(it.index() as int))),
            by_file_name(shaders_view(entries@)),
            shaders_view(entries@).to_multiset() == shaders_of(
                whole.take(it.index() as int),
            ).to_multiset(),
    {
        let ghost n = it.index() as int;
        assert(whole.take(n + 1).drop_last() =~= whole.take(n));
        assert(whole.take(n + 1).last() == item);
        let (path, is_file) = item;
        let wanted = "wgsl".to_string();
        let is_shader = match extension(path.as_str()) {
            Some(e) => is_file && e == wanted,
            None => false,
        };
        if is_shader {
            match file_stem(path.as_str()) {
                Some(name) => {
                    insert_by_file_name(&mut entries, ShaderLibraryEntry { name, path });
                    proof {
                        let before = shaders_of(whole.take(n));
                        let last = shaders_of(whole.take(n + 1)).last();
                        before.to_multiset_ensures();
                        assert(before.push(last).drop_last() =~= before);
                    }
                },
                None => {},
            }
        }
    }
    assert(whole.take(whole.len() as int) =~= whole);
    entries
}


// --- Laws ------------------------------------------------------------------

/// Every shader file is listed, under its name without the extension, with its
/// path.
pub proof fn every_shader_is_listed(found: Seq<(String, bool)>, k: int) -> (at: int)
    requires
        0 <= k < found.len(),
        found[k].1,
        crate::paths::extension_of(found[k].0@) == Some("wgsl"@),
    ensures
        0 <= at < shaders_of(found).len(),
        shaders_of(found)[at].1 == found[k].0@,
        Some(shaders_of(found)[at].0) == crate::paths::stem_of(found[k].0@),
    decreases found.len(),
{
    if k == found.len() - 1 {
        shaders_of(found).len() - 1
    } else {
        assert(found.drop_last()[k] == found[k]);
        every_shader_is_listed(found.drop_last(), k)
    }
}

/// Nothing is listed but shader files.
pub proof fn only_shaders_are_listed(found: Seq<(String, bool)>, at: int) -> (k: int)
    requires
        0 <= at < shaders_of(found).len(),
    ensures
        0 <= k < found.len(),
        found[k].1,
        crate::paths::extension_of(found[k].0@) == Some("wgsl"@),
        shaders_of(found)[at].1 == found[k].0@,
    decreases found.len(),
{
    if shader_of(found.last().0@, found.last().1) is Some && at == shaders_of(found).len() - 1 {
        found.len() - 1
    } else {
        let k = only_shaders_are_listed(found.drop_last(), at);
        assert(found.drop_last()[k] == found[k]);
        k
    }
}

/// A shader's place goes by the name of its file, wherever that lies.
pub proof fn shaders_go_by_their_files(shown: Seq<char>, dir: Seq<char>, file: Seq<char>)
    requires
        crate::paths::is_name(file),
    ensures
        file_of((shown, crate::paths::joined(dir, file))) == file,
{
    crate::paths::file_keeps_its_name(dir, file);
}

} // verus!
