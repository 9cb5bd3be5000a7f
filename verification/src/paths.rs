//! Paths as text, with `/` between their parts.

use vstd::prelude::*;

use crate::text::{chars_of, copy_range, string_of};

verus! {

/// A path below a directory; an absolute path is itself.
pub open spec fn joined(dir: Seq<char>, path: Seq<char>) -> Seq<char> {
    if path.len() > 0 && path[0] == '/' {
        path
    } else if dir.len() == 0 || dir.last() == '/' {
        dir + path
    } else {
        dir.push('/') + path
    }
}

/// The path below a directory.
pub fn join(dir: &str, path: &str) -> (r: String)
    ensures
        r@ == joined(dir@, path@),
{
    let mut rest = chars_of(path);
    if rest.len() > 0 && rest[0] == '/' {
        return string_of(rest.as_slice());
    }
    let mut out = chars_of(dir);
    if out.len() > 0 && out[out.len() - 1] != '/' {
        out.push('/');
    }
    out.append(&mut rest);
    string_of(out.as_slice())
}

/// An absolute path does not depend on the directory.
pub proof fn absolute_path_stays(dir: Seq<char>, path: Seq<char>)
    requires
        path.len() > 0,
        path[0] == '/',
    ensures
        joined(dir, path) == path,
{
}

/// Different relative paths below one directory are different.
pub proof fn joined_injective(dir: Seq<char>, a: Seq<char>, b: Seq<char>)
    requires
        joined(dir, a) == joined(dir, b),
        a.len() == 0 || a[0] != '/',
        b.len() == 0 || b[0] != '/',
    ensures
        a == b,
{
    let front = if dir.len() == 0 || dir.last() == '/' {
        dir
    } else {
        dir.push('/')
    };
    assert(a =~= (front + a).skip(front.len() as int));
    assert(b =~= (front + b).skip(front.len() as int));
}

/// What stands behind the last `/`.
pub open spec fn last_part(s: Seq<char>) -> Seq<char>
    decreases s.len(),
{
    if s.len() == 0 || s.last() == '/' {
        seq![]
    } else {
        last_part(s.drop_last()).push(s.last())
    }
}

/// The last part of a path that names something.
pub open spec fn file_name_of(path: Seq<char>) -> Option<Seq<char>>
    decreases path.len(),
{
    if path.len() == 0 {
        None
    } else if path.last() == '/' {
        file_name_of(path.drop_last())
    } else if last_part(path) == seq!['.', '.'] {
        None
    } else if last_part(path) == seq!['.'] {
        if path.len() == 1 {
            None
        } else {
            file_name_of(path.drop_last())
        }
    } else {
        Some(last_part(path))
    }
}

/// The last place of `c` in `s`; -1 where it does not stand there.
pub open spec fn last_index(s: Seq<char>, c: char) -> int
    decreases s.len(),
{
    if s.len() == 0 {
        -1
    } else if s.last() == c {
        s.len() - 1
    } else {
        last_index(s.drop_last(), c)
    }
}

/// A name without what its last dot sets apart, and what it sets apart. A dot
/// in front sets nothing apart.
pub open spec fn name_parts(name: Seq<char>) -> (Seq<char>, Option<Seq<char>>) {
    let dot = last_index(name, '.');
    if dot <= 0 {
        (name, None)
    } else {
        (name.take(dot), Some(name.skip(dot + 1)))
    }
}

/// The extension of the file that a path names.
pub open spec fn extension_of(path: Seq<char>) -> Option<Seq<char>> {
    match file_name_of(path) {
        Some(name) => name_parts(name).1,
        None => None,
    }
}

/// The name, without its extension, of the file that a path names.
pub open spec fn stem_of(path: Seq<char>) -> Option<Seq<char>> {
    match file_name_of(path) {
        Some(name) => Some(name_parts(name).0),
        None => None,
    }
}

fn last_slash(s: &[char], end: usize) -> (r: usize)
    requires
        end <= s@.len(),
    ensures
        r <= end,
        last_part(s@.take(end as int)) == s@.subrange(r as int, end as int),
{
    let mut r: usize = end;
    assert(s@.subrange(end as int, end as int) =~= seq![]);
    while r > 0 && s[r - 1] != '/'
        invariant
            r <= end <= s@.len(),
            forall|j: int| r <= j < end ==> s@[j] != '/',
        decreases r,
    {
        r -= 1;
    }
    proof {
        last_part_is(s@, r as int, end as int);
    }
    r
}

proof fn last_part_is(s: Seq<char>, from: int, end: int)
    requires
        0 <= from <= end <= s.len(),
        from == 0 || s[from - 1] == '/',
        forall|j: int| from <= j < end ==> s[j] != '/',
    ensures
        last_part(s.take(end)) == s.subrange(from, end),
    decreases end - from,
{
    let front = s.take(end);
    if from == end {
        if end > 0 {
            assert(front.last() == s[end - 1]);
        }
        assert(s.subrange(from, end) =~= seq![]);
    } else {
        assert(front.last() == s[end - 1]);
        assert(front.drop_last() =~= s.take(end - 1));
        last_part_is(s, from, end - 1);
        assert(s.subrange(from, end) =~= s.subrange(from, end - 1).push(s[end - 1]));
    }
}

fn file_name_chars(path: &[char]) -> (r: Option<Vec<char>>)
    ensures
        match r {
            Some(name) => file_name_of(path@) == Some(name@),
            None => file_name_of(path@) is None,
        },
{
    let mut end: usize = path.len();
    assert(path@.take(end as int) =~= path@);
    while end > 0
        invariant
            end <= path@.len(),
            file_name_of(path@.take(end as int)) == file_name_of(path@),
        decreases end,
    {
        let ghost front = path@.take(end as int);
        assert(front.last() == path@[end - 1]);
        assert(front.drop_last() =~= path@.take(end - 1));
        if path[end - 1] == '/' {
            end -= 1;
            continue;
        }
        let from = last_slash(path, end);
        let part = copy_range(path, from, end);
        assert(part@ == last_part(front));
        if part.len() == 2 && part[0] == '.' && part[1] == '.' {
            assert(part@ =~= seq!['.', '.']);
            return None;
        }
        assert(part@ != seq!['.', '.']) by {
            if part@ == seq!['.', '.'] {
                assert(part@[0] == '.' && part@[1] == '.');
            }
        }
        if part.len() == 1 && part[0] == '.' {
            assert(part@ =~= seq!['.']);
            if end == 1 {
                return None;
            }
            end -= 1;
            continue;
        }
        assert(part@ != seq!['.']) by {
            if part@ == seq!['.'] {
                assert(part@[0] == '.');
            }
        }
        return Some(part);
    }
    assert(path@.take(0) =~= seq![]);
    None
}

fn last_index_in(s: &[char], c: char) -> (r: Option<usize>)
    ensures
        match r {
            Some(i) => last_index(s@, c) == i && i < s@.len(),
            None => last_index(s@, c) == -1,
        },
{
    let mut i: usize = s.len();
    assert(s@.take(i as int) =~= s@);
    while i > 0
        invariant
            i <= s@.len(),
            last_index(s@.take(i as int), c) == last_index(s@, c),
        decreases i,
    {
        assert(s@.take(i as int).last() == s@[i - 1]);
        assert(s@.take(i as int).drop_last() =~= s@.take(i - 1));
        if s[i - 1] == c {
            return Some(i - 1);
        }
        i -= 1;
    }
    assert(s@.take(0) =~= seq![]);
    None
}

/// The last part of a path that names something.
pub fn file_name(path: &str) -> (r: Option<String>)
    ensures
        match r {
            Some(name) => file_name_of(path@) == Some(name@),
            None => file_name_of(path@) is None,
        },
{
    match file_name_chars(chars_of(path).as_slice()) {
        Some(name) => Some(string_of(name.as_slice())),
        None => None,
    }
}

/// The extension of the file that a path names.
pub fn extension(path: &str) -> (r: Option<String>)
    ensures
        match r {
            Some(e) => extension_of(path@) == Some(e@),
            None => extension_of(path@) is None,
        },
{
    match file_name_chars(chars_of(path).as_slice()) {
        Some(name) => match last_index_in(name.as_slice(), '.') {
            Some(dot) => if dot > 0 {
                let end = name.len();
                let e = copy_range(name.as_slice(), dot + 1, end);
                assert(e@ == name@.skip(dot + 1));
                Some(string_of(e.as_slice()))
            } else {
                None
            },
            None => None,
        },
        None => None,
    }
}

/// The name, without its extension, of the file that a path names.
pub fn file_stem(path: &str) -> (r: Option<String>)
    ensures
        match r {
            Some(s) => stem_of(path@) == Some(s@),
            None => stem_of(path@) is None,
        },
{
    match file_name_chars(chars_of(path).as_slice()) {
        Some(name) => match last_index_in(name.as_slice(), '.') {
            Some(dot) => if dot > 0 {
                let s = copy_range(name.as_slice(), 0, dot);
                assert(s@ == name@.take(dot as int));
                Some(string_of(s.as_slice()))
            } else {
                Some(string_of(name.as_slice()))
            },
            None => Some(string_of(name.as_slice())),
        },
        None => None,
    }
}


// --- Laws ------------------------------------------------------------------

/// The text can be the name of a file: it is not empty, has no `/`, and means
/// no directory.
pub open spec fn is_name(s: Seq<char>) -> bool {
    &&& s.len() > 0
    &&& forall|i: int| 0 <= i < s.len() ==> #[trigger] s[i] != '/'
    &&& s != seq!['.']
    &&& s != seq!['.', '.']
}

/// A relative path is put behind the directory, with one `/` between them.
pub proof fn joined_is_below(dir: Seq<char>, path: Seq<char>)
    requires
        path.len() == 0 || path[0] != '/',
    ensures
        crate::text::starts_with(joined(dir, path), dir),
        joined(dir, path).len() >= path.len(),
        joined(dir, path).skip(joined(dir, path).len() - path.len()) == path,
        dir.len() == 0 || dir.last() == '/' ==> joined(dir, path).len() == dir.len() + path.len(),
        dir.len() > 0 && dir.last() != '/' ==> joined(dir, path).len() == dir.len() + 1
            + path.len() && joined(dir, path)[dir.len() as int] == '/',
{
    assert(joined(dir, path).take(dir.len() as int) =~= dir);
    assert(joined(dir, path).skip(joined(dir, path).len() - path.len()) =~= path);
}

/// A file of a directory has the name under which it lies there.
pub proof fn file_keeps_its_name(dir: Seq<char>, name: Seq<char>)
    requires
        is_name(name),
    ensures
        file_name_of(joined(dir, name)) == Some(name),
        file_name_of(joined(dir, name).push('/')) == Some(name),
{
    let path = joined(dir, name);
    let from = path.len() - name.len();
    assert(name[0] != '/');
    assert forall|j: int| from <= j < path.len() implies path[j] != '/' by {
        assert(path[j] == name[j - from]);
    }
    last_part_is(path, from, path.len() as int);
    assert(path.take(path.len() as int) =~= path);
    assert(path.subrange(from, path.len() as int) =~= name);
    assert(path.last() == name.last());
    assert(path.push('/').drop_last() =~= path);
}

/// The dot that stands last in a name parts it: what follows is the extension.
/// Without a dot, or with one in front alone, there is none.
pub proof fn last_dot_parts_the_name(dir: Seq<char>, stem: Seq<char>, ext: Seq<char>)
    requires
        stem.len() > 0,
        forall|i: int| 0 <= i < stem.len() ==> #[trigger] stem[i] != '/',
        forall|i: int| 0 <= i < ext.len() ==> #[trigger] ext[i] != '/' && ext[i] != '.',
        stem + seq!['.'] + ext != seq!['.', '.'],
    ensures
        extension_of(joined(dir, stem + seq!['.'] + ext)) == Some(ext),
        stem_of(joined(dir, stem + seq!['.'] + ext)) == Some(stem),
        ext.len() > 0 ==> extension_of(joined(dir, ext)) is None && stem_of(joined(dir, ext))
            == Some(ext),
        ext.len() > 0 ==> extension_of(joined(dir, seq!['.'] + ext)) is None,
{
    let name = stem + seq!['.'] + ext;
    assert(name[0] == stem[0]);
    assert(name.len() >= 2);
    assert forall|i: int| 0 <= i < name.len() implies #[trigger] name[i] != '/' by {
        if i < stem.len() {
            assert(name[i] == stem[i]);
        } else if i > stem.len() {
            assert(name[i] == ext[i - stem.len() - 1]);
        }
    }
    file_keeps_its_name(dir, name);
    dot_is_last(name, stem.len() as int);
    assert(name.take(stem.len() as int) =~= stem);
    assert(name.skip(stem.len() as int + 1) =~= ext);
    if ext.len() > 0 {
        assert(ext[0] != '.');
        no_dot_at_all(ext);
        assert(is_name(ext));
        file_keeps_its_name(dir, ext);
        let hidden = seq!['.'] + ext;
        assert(hidden[0] == '.');
        assert(hidden.len() >= 2);
        assert(hidden[1] == ext[0]);
        assert forall|i: int| 0 <= i < hidden.len() implies #[trigger] hidden[i] != '/' by {
            if i > 0 {
                assert(hidden[i] == ext[i - 1]);
            }
        }
        assert(is_name(hidden));
        file_keeps_its_name(dir, hidden);
        assert forall|i: int| 0 < i < hidden.len() implies #[trigger] hidden[i] != '.' by {
            assert(hidden[i] == ext[i - 1]);
        }
        dot_is_last(hidden, 0);
    }
}

/// The dot behind which there is no other is the last.
proof fn dot_is_last(s: Seq<char>, at: int)
    requires
        0 <= at < s.len(),
        s[at] == '.',
        forall|i: int| at < i < s.len() ==> #[trigger] s[i] != '.',
    ensures
        last_index(s, '.') == at,
    decreases s.len(),
{
    if at < s.len() - 1 {
        assert(s.last() != '.');
        dot_is_last(s.drop_last(), at);
    }
}

proof fn no_dot_at_all(s: Seq<char>)
    requires
        forall|i: int| 0 <= i < s.len() ==> #[trigger] s[i] != '/' && s[i] != '.',
    ensures
        last_index(s, '.') == -1,
    decreases s.len(),
{
    if s.len() > 0 {
        no_dot_at_all(s.drop_last());
        assert(s.last() == s[s.len() - 1]);
    }
}

} // verus!
