//! Text as sequences of characters: searching, trimming, splitting, decimal
//! numbers and the order of strings.

use vstd::prelude::*;

verus! {

/// `String::push`: appends one character.
#[verifier::external_body]
fn push_char(s: &mut String, c: char)
    ensures
        final(s)@ == old(s)@.push(c),
{
    s.push(c);
}

/// The characters of `s`, in order.
pub fn chars_of(s: &str) -> (r: Vec<char>)
    ensures
        r@ == s@,
{
    let mut r: Vec<char> = Vec::new();
    for c in it: s.chars()
        invariant
            r@ == s@.take(it.index() as int),
            it.seq() == s@,
    {
        r.push(c);
        assert(s@.take(it.index() as int + 1) == s@.take(it.index() as int).push(c));
    }
    assert(s@.take(s@.len() as int) == s@);
    r
}

/// The string made of the characters of `c`.
pub fn string_of(c: &[char]) -> (r: String)
    ensures
        r@ == c@,
{
    let mut r: String = String::new();
    let mut i: usize = 0;
    while i < c.len()
        invariant
            i <= c.len(),
            r@ == c@.take(i as int),
        decreases c.len() - i,
    {
        push_char(&mut r, c[i]);
        assert(c@.take(i as int + 1) == c@.take(i as int).push(c[i as int]));
        i += 1;
    }
    assert(c@.take(c@.len() as int) == c@);
    r
}

/// The text that may be there.
pub open spec fn opt_view(s: Option<String>) -> Option<Seq<char>> {
    match s {
        Some(t) => Some(t@),
        None => None,
    }
}

/// The texts, as sequences.
pub open spec fn texts_view(s: Seq<String>) -> Seq<Seq<char>> {
    s.map_values(|t: String| t@)
}

/// Appends the characters of `s` to `out`.
pub fn push_str(out: &mut Vec<char>, s: &str)
    ensures
        final(out)@ == old(out)@ + s@,
{
    let mut c = chars_of(s);
    out.append(&mut c);
}

/// The items of `s` from `from` to `to`.
pub fn copy_range<T: Copy>(s: &[T], from: usize, to: usize) -> (r: Vec<T>)
    requires
        from <= to <= s@.len(),
    ensures
        r@ == s@.subrange(from as int, to as int),
{
    let mut r: Vec<T> = Vec::new();
    let mut i: usize = from;
    while i < to
        invariant
            from <= i <= to <= s@.len(),
            r@ == s@.subrange(from as int, i as int),
        decreases to - i,
    {
        r.push(s[i]);
        assert(s@.subrange(from as int, i as int + 1) == s@.subrange(from as int, i as int).push(
            s@[i as int],
        ));
        i += 1;
    }
    r
}

/// Whether two runs of characters are the same.
pub fn same_chars(a: &[char], b: &[char]) -> (r: bool)
    ensures
        r == (a@ == b@),
{
    if a.len() != b.len() {
        return false;
    }
    let mut i: usize = 0;
    while i < a.len()
        invariant
            a@.len() == b@.len(),
            i <= a@.len(),
            forall|j: int| 0 <= j < i ==> a@[j] == b@[j],
        decreases a.len() - i,
    {
        if a[i] != b[i] {
            assert(a@[i as int] != b@[i as int]);
            return false;
        }
        i += 1;
    }
    assert(a@ =~= b@);
    true
}

/// A string in quotes, with what cannot be printed escaped.
pub uninterp spec fn quoted(s: Seq<char>) -> Seq<char>;

/// The `Debug` form of a string, which std writes in quotes with escapes. It
/// is named, not described.
#[verifier::external_body]
pub(crate) fn quoted_text(s: &str) -> (r: String)
    ensures
        r@ == quoted(s@),
{
    format!("{s:?}")
}

/// `std::str::from_utf8`: bytes that are UTF-8 are decoded, and no others.
#[verifier::external_body]
pub(crate) fn utf8_text(bytes: &[u8]) -> (r: Option<String>)
    ensures
        match r {
            Some(s) => vstd::utf8::valid_utf8(bytes@) && s@ == vstd::utf8::decode_utf8(bytes@),
            None => !vstd::utf8::valid_utf8(bytes@),
        },
{
    match std::str::from_utf8(bytes) {
        Ok(s) => Some(s.to_string()),
        Err(_) => None,
    }
}

// --- Searching -------------------------------------------------------------

/// `pat` stands in `s` at `i`.
pub open spec fn occurs_at<T>(s: Seq<T>, pat: Seq<T>, i: int) -> bool {
    0 <= i && i + pat.len() <= s.len() && s.subrange(i, i + pat.len()) == pat
}

/// The first place of `pat` in `s`.
pub open spec fn is_first<T>(s: Seq<T>, pat: Seq<T>, i: int) -> bool {
    occurs_at(s, pat, i) && forall|j: int| 0 <= j < i ==> !occurs_at(s, pat, j)
}

/// Where `pat` first stands in `s`, if it does.
pub open spec fn found<T>(s: Seq<T>, pat: Seq<T>) -> Option<int> {
    if exists|i: int| occurs_at(s, pat, i) {
        Some(choose|i: int| is_first(s, pat, i))
    } else {
        None
    }
}

/// A sequence that holds a pattern has a first place for it, and no other
/// place is first.
pub proof fn first_is_found<T>(s: Seq<T>, pat: Seq<T>, i: int)
    requires
        is_first(s, pat, i),
    ensures
        found(s, pat) == Some(i),
{
    assert(occurs_at(s, pat, i));
    let j = choose|j: int| is_first(s, pat, j);
    assert(is_first(s, pat, j));
    if j < i {
        assert(!occurs_at(s, pat, j));
    } else if i < j {
        assert(!occurs_at(s, pat, i));
    }
}

/// What `found` gives is the first place.
pub proof fn found_is_first<T>(s: Seq<T>, pat: Seq<T>)
    ensures
        found(s, pat) matches Some(i) ==> is_first(s, pat, i),
        found(s, pat) is None ==> forall|j: int| !occurs_at(s, pat, j),
{
    if exists|i: int| occurs_at(s, pat, i) {
        let w = choose|i: int| occurs_at(s, pat, i);
        least_occurrence(s, pat, w, 0);
    }
}

proof fn least_occurrence<T>(s: Seq<T>, pat: Seq<T>, w: int, from: int)
    requires
        occurs_at(s, pat, w),
        0 <= from <= w,
        forall|j: int| 0 <= j < from ==> !occurs_at(s, pat, j),
    ensures
        exists|i: int| is_first(s, pat, i),
    decreases w - from,
{
    if occurs_at(s, pat, from) {
        assert(is_first(s, pat, from));
    } else {
        least_occurrence(s, pat, w, from + 1);
    }
}

/// Looks for the first place of `pat` in `s`.
pub fn find_chars(s: &[char], pat: &[char]) -> (r: Option<usize>)
    ensures
        match r {
            Some(i) => found(s@, pat@) == Some(i as int) && i + pat@.len() <= s@.len(),
            None => found(s@, pat@) is None,
        },
{
    let n = s.len();
    let m = pat.len();
    let mut i: usize = 0;
    while i <= n && m <= n - i
        invariant
            n == s@.len(),
            m == pat@.len(),
            i <= n + 1,
            forall|j: int| 0 <= j < i ==> !occurs_at(s@, pat@, j),
        decreases n + 1 - i,
    {
        let part = copy_range(s, i, i + m);
        if same_chars(part.as_slice(), pat) {
            proof {
                first_is_found(s@, pat@, i as int);
            }
            return Some(i);
        }
        assert(!occurs_at(s@, pat@, i as int));
        if i == n {
            assert(forall|j: int| !occurs_at(s@, pat@, j));
            return None;
        }
        i += 1;
    }
    assert(forall|j: int| !occurs_at(s@, pat@, j));
    None
}

/// Looks for the first place of `pat` in `s`.
pub fn find_bytes(s: &[u8], pat: &[u8]) -> (r: Option<usize>)
    ensures
        match r {
            Some(i) => found(s@, pat@) == Some(i as int) && i + pat@.len() <= s@.len(),
            None => found(s@, pat@) is None,
        },
{
    let n = s.len();
    let m = pat.len();
    let mut i: usize = 0;
    while i <= n && m <= n - i
        invariant
            n == s@.len(),
            m == pat@.len(),
            i <= n + 1,
            forall|j: int| 0 <= j < i ==> !occurs_at(s@, pat@, j),
        decreases n + 1 - i,
    {
        if bytes_at(s, pat, i) {
            proof {
                first_is_found(s@, pat@, i as int);
            }
            return Some(i);
        }
        if i == n {
            assert(forall|j: int| !occurs_at(s@, pat@, j));
            return None;
        }
        i += 1;
    }
    assert(forall|j: int| !occurs_at(s@, pat@, j));
    None
}

/// Whether `pat` stands in `s` at `i`.
pub fn bytes_at(s: &[u8], pat: &[u8], i: usize) -> (r: bool)
    requires
        i <= s@.len(),
    ensures
        r == occurs_at(s@, pat@, i as int),
{
    if s.len() - i < pat.len() {
        return false;
    }
    let mut k: usize = 0;
    while k < pat.len()
        invariant
            i + pat@.len() <= s@.len(),
            s@.len() == s.len(),
            k <= pat@.len(),
            forall|j: int| 0 <= j < k ==> s@[i + j] == pat@[j],
        decreases pat.len() - k,
    {
        if s[i + k] != pat[k] {
            assert(s@.subrange(i as int, i + pat@.len())[k as int] != pat@[k as int]);
            return false;
        }
        k += 1;
    }
    assert(s@.subrange(i as int, i + pat@.len()) =~= pat@);
    true
}

/// `s` begins with `pat`.
pub open spec fn starts_with<T>(s: Seq<T>, pat: Seq<T>) -> bool {
    pat.len() <= s.len() && s.take(pat.len() as int) == pat
}

/// Whether `s` begins with `pat`.
pub fn starts_chars(s: &[char], pat: &[char]) -> (r: bool)
    ensures
        r == starts_with(s@, pat@),
{
    if s.len() < pat.len() {
        return false;
    }
    let front = copy_range(s, 0, pat.len());
    assert(front@ =~= s@.take(pat@.len() as int));
    same_chars(front.as_slice(), pat)
}

// --- Trimming --------------------------------------------------------------

/// The characters with Unicode's White_Space property.
pub open spec fn is_space(c: char) -> bool {
    ||| 0x9 <= c as u32 <= 0xd
    ||| c as u32 == 0x20
    ||| c as u32 == 0x85
    ||| c as u32 == 0xa0
    ||| c as u32 == 0x1680
    ||| 0x2000 <= c as u32 <= 0x200a
    ||| c as u32 == 0x2028
    ||| c as u32 == 0x2029
    ||| c as u32 == 0x202f
    ||| c as u32 == 0x205f
    ||| c as u32 == 0x3000
}

pub fn space(c: char) -> (r: bool)
    ensures
        r == is_space(c),
{
    let u = c as u32;
    (0x9 <= u && u <= 0xd) || u == 0x20 || u == 0x85 || u == 0xa0 || u == 0x1680 || (0x2000 <= u
        && u <= 0x200a) || u == 0x2028 || u == 0x2029 || u == 0x202f || u == 0x205f || u == 0x3000
}

/// `s` without the white space at its front.
pub open spec fn trim_front(s: Seq<char>) -> Seq<char>
    decreases s.len(),
{
    if s.len() > 0 && is_space(s[0]) {
        trim_front(s.skip(1))
    } else {
        s
    }
}

/// `s` without the white space at its end.
pub open spec fn trim_back(s: Seq<char>) -> Seq<char>
    decreases s.len(),
{
    if s.len() > 0 && is_space(s.last()) {
        trim_back(s.drop_last())
    } else {
        s
    }
}

/// `s` without the white space around it.
pub open spec fn trimmed(s: Seq<char>) -> Seq<char> {
    trim_back(trim_front(s))
}

/// Removes the white space around `s`.
pub fn trim_chars(s: &[char]) -> (r: Vec<char>)
    ensures
        r@ == trimmed(s@),
{
    let mut from: usize = 0;
    assert(s@.skip(0) == s@);
    while from < s.len() && space(s[from])
        invariant
            from <= s@.len(),
            trim_front(s@) == trim_front(s@.skip(from as int)),
        decreases s.len() - from,
    {
        assert(s@.skip(from as int).skip(1) == s@.skip(from as int + 1));
        from += 1;
    }
    assert(trim_front(s@) == s@.skip(from as int));
    let ghost front = s@.skip(from as int);
    let mut to: usize = s.len();
    assert(front.take(to - from) == front);
    while to > from && space(s[to - 1])
        invariant
            from <= to <= s@.len(),
            front == s@.skip(from as int),
            trim_back(front) == trim_back(front.take(to - from)),
        decreases to,
    {
        assert(front.take(to - from).drop_last() == front.take(to - 1 - from));
        assert(front.take(to - from).last() == s@[to - 1]);
        to -= 1;
    }
    assert(front.take(to - from).len() > 0 ==> front.take(to - from).last() == s@[to - 1]);
    let r = copy_range(s, from, to);
    assert(r@ == front.take(to - from));
    r
}

// --- Splitting -------------------------------------------------------------

/// Where `c` first stands in `s`; the length of `s` where it does not.
pub open spec fn index_of_char(s: Seq<char>, c: char) -> int
    decreases s.len(),
{
    if s.len() == 0 || s[0] == c {
        0
    } else {
        1 + index_of_char(s.skip(1), c)
    }
}

/// `index_of_char` lies in the text, the character stands there, and nowhere
/// before.
pub proof fn index_of_char_is_first(s: Seq<char>, c: char)
    ensures
        0 <= index_of_char(s, c) <= s.len(),
        index_of_char(s, c) < s.len() ==> s[index_of_char(s, c)] == c,
        forall|j: int| 0 <= j < index_of_char(s, c) ==> s[j] != c,
    decreases s.len(),
{
    if s.len() > 0 && s[0] != c {
        index_of_char_is_first(s.skip(1), c);
        assert forall|j: int| 0 <= j < index_of_char(s, c) implies s[j] != c by {
            if j > 0 {
                assert(s[j] == s.skip(1)[j - 1]);
            }
        }
    }
}

/// A place with the character there and nowhere before is `index_of_char`.
pub proof fn first_is_index_of_char(s: Seq<char>, c: char, i: int)
    requires
        0 <= i <= s.len(),
        i < s.len() ==> s[i] == c,
        forall|j: int| 0 <= j < i ==> s[j] != c,
    ensures
        index_of_char(s, c) == i,
{
    index_of_char_is_first(s, c);
    let k = index_of_char(s, c);
    if k < i {
        assert(s[k] != c);
    } else if i < k {
        assert(s[i] != c);
    }
}

/// Looks for `c` in `s`, from the front.
pub fn find_char(s: &[char], c: char) -> (r: usize)
    ensures
        r == index_of_char(s@, c),
        r <= s@.len(),
{
    let mut i: usize = 0;
    while i < s.len() && s[i] != c
        invariant
            i <= s@.len(),
            forall|j: int| 0 <= j < i ==> s@[j] != c,
        decreases s.len() - i,
    {
        i += 1;
    }
    proof {
        first_is_index_of_char(s@, c, i as int);
    }
    i
}

/// The two sides of the first `c` in `s`.
pub open spec fn cut_at(s: Seq<char>, c: char) -> Option<(Seq<char>, Seq<char>)> {
    let i = index_of_char(s, c);
    if i < s.len() {
        Some((s.take(i), s.skip(i + 1)))
    } else {
        None
    }
}

/// Cuts `s` at the first `c`.
pub fn split_once_char(s: &[char], c: char) -> (r: Option<(Vec<char>, Vec<char>)>)
    ensures
        match r {
            Some((a, b)) => cut_at(s@, c) == Some((a@, b@)),
            None => cut_at(s@, c) is None,
        },
{
    let i = find_char(s, c);
    if i < s.len() {
        let a = copy_range(s, 0, i);
        let b = copy_range(s, i + 1, s.len());
        assert(a@ == s@.take(i as int));
        assert(b@ == s@.skip(i as int + 1));
        Some((a, b))
    } else {
        None
    }
}

/// The parts of `s` between the `c`s; one part where there is none.
pub open spec fn split_char(s: Seq<char>, c: char) -> Seq<Seq<char>>
    decreases s.len(),
{
    let i = index_of_char(s, c);
    if 0 <= i < s.len() {
        seq![s.take(i)] + split_char(s.skip(i + 1), c)
    } else {
        seq![s]
    }
}

/// The parts of `parts`, as sequences.
pub open spec fn parts_view(parts: Seq<Vec<char>>) -> Seq<Seq<char>> {
    parts.map_values(|p: Vec<char>| p@)
}

/// Cuts `s` at every `c`.
pub fn split_at_char(s: &[char], c: char) -> (r: Vec<Vec<char>>)
    ensures
        parts_view(r@) == split_char(s@, c),
        r@.len() > 0,
{
    let mut r: Vec<Vec<char>> = Vec::new();
    let mut rest: Vec<char> = copy_range(s, 0, s.len());
    assert(rest@ == s@);
    assert(parts_view(r@) + split_char(rest@, c) == split_char(s@, c));
    loop
        invariant
            parts_view(r@) + split_char(rest@, c) == split_char(s@, c),
        decreases rest@.len(),
    {
        let cut = split_once_char(rest.as_slice(), c);
        let ghost before = r@;
        proof {
            index_of_char_is_first(rest@, c);
        }
        match cut {
            Some((a, b)) => {
                assert(split_char(rest@, c) == seq![a@] + split_char(b@, c));
                r.push(a);
                assert(parts_view(r@) == parts_view(before).push(a@));
                assert(parts_view(r@) + split_char(b@, c) == parts_view(before) + (seq![a@]
                    + split_char(b@, c)));
                rest = b;
            },
            None => {
                assert(split_char(rest@, c) == seq![rest@]);
                let ghost last = rest@;
                r.push(rest);
                assert(parts_view(r@) == parts_view(before) + seq![last]);
                return r;
            },
        }
    }
}

/// A line without the carriage return that may end it.
pub open spec fn without_cr(s: Seq<char>) -> Seq<char> {
    if s.len() > 0 && s.last() == '\r' {
        s.drop_last()
    } else {
        s
    }
}

/// The lines of a text: the parts that line feeds end or divide, each without
/// a carriage return at its end. Nothing after the last line feed is no line.
pub open spec fn lines_of(s: Seq<char>) -> Seq<Seq<char>>
    decreases s.len(),
{
    if s.len() == 0 {
        seq![]
    } else {
        let i = index_of_char(s, '\n');
        if 0 <= i < s.len() {
            seq![without_cr(s.take(i))] + lines_of(s.skip(i + 1))
        } else {
            seq![s]
        }
    }
}

/// The lines of `s`.
pub fn lines(s: &[char]) -> (r: Vec<Vec<char>>)
    ensures
        parts_view(r@) == lines_of(s@),
{
    let mut r: Vec<Vec<char>> = Vec::new();
    let mut rest: Vec<char> = copy_range(s, 0, s.len());
    assert(rest@ == s@);
    assert(parts_view(r@) + lines_of(rest@) == lines_of(s@));
    while rest.len() > 0
        invariant
            parts_view(r@) + lines_of(rest@) == lines_of(s@),
        decreases rest@.len(),
    {
        let ghost before = r@;
        proof {
            index_of_char_is_first(rest@, '\n');
        }
        match split_once_char(rest.as_slice(), '\n') {
            Some((a, b)) => {
                let mut line = a;
                let ghost whole = line@;
                if line.len() > 0 && line[line.len() - 1] == '\r' {
                    line.pop();
                }
                assert(line@ == without_cr(whole));
                let ghost cut = line@;
                r.push(line);
                assert(parts_view(r@) == parts_view(before).push(cut));
                assert(parts_view(r@) + lines_of(b@) == parts_view(before) + (seq![cut] + lines_of(
                    b@,
                )));
                rest = b;
            },
            None => {
                let ghost last = rest@;
                let mut emptied: Vec<char> = Vec::new();
                emptied.append(&mut rest);
                r.push(emptied);
                assert(emptied@ == last);
                assert(parts_view(r@) == parts_view(before) + seq![last]);
                assert(lines_of(last) == seq![last]);
                assert(rest@ == Seq::<char>::empty());
                assert(lines_of(rest@) == Seq::<Seq<char>>::empty());
                assert(parts_view(r@) + lines_of(rest@) == parts_view(r@));
            },
        }
    }
    assert(parts_view(r@) + lines_of(rest@) == parts_view(r@));
    r
}

/// The lines of a text that a line feed ends, which is not part of `s`.
pub open spec fn ended_lines(s: Seq<char>) -> Seq<Seq<char>>
    decreases s.len(),
{
    let i = index_of_char(s, '\n');
    if 0 <= i < s.len() {
        seq![without_cr(s.take(i))] + ended_lines(s.skip(i + 1))
    } else {
        seq![without_cr(s)]
    }
}

/// The lines of two texts with a line feed between them are those of the one
/// and those of the other.
pub proof fn lines_of_joined(a: Seq<char>, b: Seq<char>)
    ensures
        lines_of(a + seq!['\n'] + b) == ended_lines(a) + lines_of(b),
    decreases a.len(),
{
    let whole = a + seq!['\n'] + b;
    index_of_char_is_first(a, '\n');
    let i = index_of_char(a, '\n');
    assert forall|j: int| 0 <= j < i implies whole[j] != '\n' by {
        assert(whole[j] == a[j]);
    }
    first_is_index_of_char(whole, '\n', i);
    assert(whole.take(i) =~= a.take(i));
    if i < a.len() {
        assert(whole.skip(i + 1) =~= a.skip(i + 1) + seq!['\n'] + b);
        lines_of_joined(a.skip(i + 1), b);
        assert(lines_of(whole) =~= ended_lines(a) + lines_of(b));
    } else {
        assert(a.take(i) =~= a);
        assert(whole.skip(i + 1) =~= b);
    }
}

/// The lines that a line feed ends are those that are there without it, but
/// for an empty one after the last line feed and for a carriage return behind
/// the last line.
pub proof fn ended_lines_are_lines(s: Seq<char>)
    ensures
        s.len() == 0 || s.last() == '\n' ==> ended_lines(s) == lines_of(s).push(seq![]),
        s.len() > 0 && s.last() != '\n' ==> lines_of(s).len() > 0 && ended_lines(s) == lines_of(
            s,
        ).drop_last().push(without_cr(lines_of(s).last())),
    decreases s.len(),
{
    index_of_char_is_first(s, '\n');
    let i = index_of_char(s, '\n');
    if i < s.len() {
        let rest = s.skip(i + 1);
        let first = seq![without_cr(s.take(i))];
        ended_lines_are_lines(rest);
        if rest.len() == 0 {
            assert(lines_of(s) =~= first);
        } else {
            assert(rest.last() == s.last());
        }
        if s.last() == '\n' {
            assert(ended_lines(s) =~= lines_of(s).push(seq![]));
        } else {
            assert(rest.len() > 0);
            assert(lines_of(s).last() == lines_of(rest).last());
            assert(ended_lines(s) =~= lines_of(s).drop_last().push(
                without_cr(lines_of(s).last()),
            ));
        }
    } else if s.len() == 0 {
        assert(s =~= seq![]);
        assert(ended_lines(s) =~= lines_of(s).push(seq![]));
    } else {
        assert(s[s.len() - 1] != '\n');
        assert(ended_lines(s) =~= lines_of(s).drop_last().push(without_cr(s)));
    }
}

/// White space at the end of a text is trimmed away with the rest.
pub proof fn trimmed_with_space(s: Seq<char>, c: char)
    requires
        is_space(c),
    ensures
        trimmed(s.push(c)) == trimmed(s),
    decreases s.len(),
{
    if s.len() == 0 {
        assert(s.push(c).skip(1) =~= s);
    } else if is_space(s[0]) {
        assert(s.push(c).skip(1) =~= s.skip(1).push(c));
        trimmed_with_space(s.skip(1), c);
    } else {
        assert(s.push(c).drop_last() =~= s);
    }
}

// --- Decimal numbers -------------------------------------------------------

/// The character of a decimal digit.
pub open spec fn digit_char(d: nat) -> char {
    (48 + d) as char
}

pub open spec fn is_digit(c: char) -> bool {
    48 <= c as u32 <= 57
}

pub fn digit_like(c: char) -> (r: bool)
    ensures
        r == is_digit(c),
{
    let u = c as u32;
    48 <= u && u <= 57
}

pub open spec fn digit_value(c: char) -> nat {
    (c as u32 - 48) as nat
}

/// `n` in decimal, without leading zeros.
pub open spec fn decimal(n: nat) -> Seq<char>
    decreases n,
{
    if n < 10 {
        seq![digit_char(n)]
    } else {
        decimal(n / 10).push(digit_char(n % 10))
    }
}

/// The number that a run of decimal digits writes.
pub open spec fn digits_value(s: Seq<char>) -> nat
    decreases s.len(),
{
    if s.len() == 0 {
        0
    } else {
        digits_value(s.drop_last()) * 10 + digit_value(s.last())
    }
}

pub open spec fn all_digits(s: Seq<char>) -> bool {
    forall|i: int| 0 <= i < s.len() ==> is_digit(#[trigger] s[i])
}

/// The digits that `decimal` writes give the number back.
pub proof fn decimal_value(n: nat)
    ensures
        all_digits(decimal(n)),
        decimal(n).len() > 0,
        digits_value(decimal(n)) == n,
    decreases n,
{
    if n < 10 {
        let s = seq![digit_char(n)];
        assert(s.drop_last() == Seq::<char>::empty());
        assert(digits_value(s.drop_last()) == 0);
        assert(digit_value(digit_char(n)) == n);
    } else {
        decimal_value(n / 10);
        let s = decimal(n);
        assert(s.drop_last() == decimal(n / 10));
        assert(digit_value(digit_char(n % 10)) == n % 10);
        assert(s.last() == digit_char(n % 10));
    }
}

/// Different numbers are written differently.
pub proof fn decimal_injective(a: nat, b: nat)
    requires
        decimal(a) == decimal(b),
    ensures
        a == b,
{
    decimal_value(a);
    decimal_value(b);
}

fn digit(d: u64) -> (c: char)
    requires
        d < 10,
    ensures
        c == digit_char(d as nat),
{
    if d == 0 {
        '0'
    } else if d == 1 {
        '1'
    } else if d == 2 {
        '2'
    } else if d == 3 {
        '3'
    } else if d == 4 {
        '4'
    } else if d == 5 {
        '5'
    } else if d == 6 {
        '6'
    } else if d == 7 {
        '7'
    } else if d == 8 {
        '8'
    } else {
        '9'
    }
}

/// Writes `n` in decimal.
pub fn decimal_chars(n: u64) -> (r: Vec<char>)
    ensures
        r@ == decimal(n as nat),
    decreases n,
{
    if n < 10 {
        let mut r: Vec<char> = Vec::new();
        r.push(digit(n));
        r
    } else {
        let mut r = decimal_chars(n / 10);
        r.push(digit(n % 10));
        r
    }
}

/// `n` in decimal, with a sign where it is negative.
pub open spec fn signed_decimal(n: int) -> Seq<char> {
    if n < 0 {
        seq!['-'] + decimal((-n) as nat)
    } else {
        decimal(n as nat)
    }
}

/// Writes `n` in decimal.
pub fn signed_decimal_chars(n: i64) -> (r: Vec<char>)
    ensures
        r@ == signed_decimal(n as int),
{
    if n < 0 {
        let mut r: Vec<char> = Vec::new();
        r.push('-');
        let magnitude: u64 = if n == i64::MIN {
            0x8000_0000_0000_0000u64
        } else {
            (-n) as u64
        };
        let mut tail = decimal_chars(magnitude);
        r.append(&mut tail);
        r
    } else {
        decimal_chars(n as u64)
    }
}

/// How many digits stand at the front of `s`.
pub open spec fn digits_in_front(s: Seq<char>) -> int
    decreases s.len(),
{
    if s.len() > 0 && is_digit(s[0]) {
        1 + digits_in_front(s.skip(1))
    } else {
        0
    }
}

/// The run of digits in front ends at the first character that is none.
pub proof fn digits_in_front_is(s: Seq<char>, n: int)
    requires
        0 <= n <= s.len(),
        forall|i: int| 0 <= i < n ==> is_digit(#[trigger] s[i]),
        n == s.len() || !is_digit(s[n]),
    ensures
        digits_in_front(s) == n,
    decreases n,
{
    if n > 0 {
        assert(is_digit(s[0]));
        assert forall|i: int| 0 <= i < n - 1 implies is_digit(#[trigger] s.skip(1)[i]) by {
            assert(s.skip(1)[i] == s[i + 1]);
        }
        digits_in_front_is(s.skip(1), n - 1);
    }
}

/// A longer run of digits writes no smaller number.
pub proof fn digits_value_grows(s: Seq<char>, n: int)
    requires
        0 <= n <= s.len(),
    ensures
        digits_value(s.take(n)) <= digits_value(s),
    decreases s.len() - n,
{
    if n == s.len() {
        assert(s.take(n) == s);
    } else {
        digits_value_grows(s, n + 1);
        assert(s.take(n + 1).drop_last() == s.take(n));
    }
}

/// The number that the digits of `s` write, where there are digits alone, at
/// least one, and the number fits.
pub open spec fn parsed_u64(s: Seq<char>) -> Option<u64> {
    if s.len() > 0 && all_digits(s) && digits_value(s) <= u64::MAX {
        Some(digits_value(s) as u64)
    } else {
        None
    }
}

/// Reads a decimal number made of digits alone.
pub fn parse_u64(s: &[char]) -> (r: Option<u64>)
    ensures
        r == parsed_u64(s@),
{
    if s.len() == 0 {
        return None;
    }
    let mut i: usize = 0;
    let mut value: u64 = 0;
    assert(s@.take(0) == Seq::<char>::empty());
    while i < s.len()
        invariant
            i <= s@.len(),
            forall|j: int| 0 <= j < i ==> is_digit(#[trigger] s@[j]),
            value == digits_value(s@.take(i as int)),
        decreases s.len() - i,
    {
        let c = s[i] as u32;
        if c < 48 || c > 57 {
            assert(!is_digit(s@[i as int]));
            return None;
        }
        let d = (c - 48) as u64;
        assert(s@.take(i as int + 1).drop_last() == s@.take(i as int));
        assert(digits_value(s@.take(i as int + 1)) == value * 10 + d);
        if value > (u64::MAX - d) / 10 {
            proof {
                digits_value_grows(s@, i as int + 1);
                assert(value * 10 + d > u64::MAX);
            }
            return None;
        }
        value = value * 10 + d;
        i += 1;
    }
    assert(s@.take(s@.len() as int) == s@);
    Some(value)
}

/// What stands behind the plus sign that a number may begin with.
pub open spec fn without_plus(s: Seq<char>) -> Seq<char> {
    if s.len() > 0 && s[0] == '+' {
        s.skip(1)
    } else {
        s
    }
}

/// The number that a text writes, with or without a plus sign, where it fits in
/// sixteen bits.
pub open spec fn parsed_u16(s: Seq<char>) -> Option<u16> {
    let d = without_plus(s);
    if d.len() > 0 && all_digits(d) && digits_value(d) <= u16::MAX {
        Some(digits_value(d) as u16)
    } else {
        None
    }
}

/// Reads a decimal number of at most sixteen bits.
pub fn parse_u16(s: &[char]) -> (r: Option<u16>)
    ensures
        r == parsed_u16(s@),
{
    let from: usize = if s.len() > 0 && s[0] == '+' {
        1
    } else {
        0
    };
    let digits = copy_range(s, from, s.len());
    assert(digits@ =~= without_plus(s@));
    match parse_u64(digits.as_slice()) {
        Some(n) => if n <= 65535 {
            Some(n as u16)
        } else {
            None
        },
        None => None,
    }
}

// --- Words -----------------------------------------------------------------

/// How many characters stand at the front of `s` before the first space.
pub open spec fn word_len(s: Seq<char>) -> int
    decreases s.len(),
{
    if s.len() > 0 && !is_space(s[0]) {
        1 + word_len(s.skip(1))
    } else {
        0
    }
}

/// The second of the words that spaces part, where there is one.
pub open spec fn second_word(s: Seq<char>) -> Option<Seq<char>> {
    let a = trim_front(s);
    let b = trim_front(a.skip(word_len(a)));
    if b.len() == 0 {
        None
    } else {
        Some(b.take(word_len(b)))
    }
}

/// Where the spaces end that begin at `from`.
fn space_end(s: &[char], from: usize) -> (r: usize)
    requires
        from <= s@.len(),
    ensures
        from <= r <= s@.len(),
        trim_front(s@.skip(from as int)) == s@.skip(r as int),
{
    let mut i: usize = from;
    while i < s.len() && space(s[i])
        invariant
            from <= i <= s@.len(),
            trim_front(s@.skip(from as int)) == trim_front(s@.skip(i as int)),
        decreases s.len() - i,
    {
        assert(s@.skip(i as int).skip(1) =~= s@.skip(i as int + 1));
        i += 1;
    }
    i
}

/// Where the word ends that begins at `from`.
fn word_end(s: &[char], from: usize) -> (r: usize)
    requires
        from <= s@.len(),
    ensures
        r == from + word_len(s@.skip(from as int)),
        from <= r <= s@.len(),
{
    let mut i: usize = from;
    while i < s.len() && !space(s[i])
        invariant
            from <= i <= s@.len(),
            word_len(s@.skip(from as int)) == i - from + word_len(s@.skip(i as int)),
        decreases s.len() - i,
    {
        assert(s@.skip(i as int).skip(1) =~= s@.skip(i as int + 1));
        i += 1;
    }
    i
}

/// Finds the second of the words that spaces part.
pub fn find_second_word(s: &[char]) -> (r: Option<Vec<char>>)
    ensures
        match r {
            Some(w) => second_word(s@) == Some(w@),
            None => second_word(s@) is None,
        },
{
    let a = space_end(s, 0);
    assert(s@.skip(0) =~= s@);
    let b = word_end(s, a);
    assert(s@.skip(a as int).skip(b - a) =~= s@.skip(b as int));
    let c = space_end(s, b);
    if c == s.len() {
        return None;
    }
    let d = word_end(s, c);
    let w = copy_range(s, c, d);
    assert(w@ =~= s@.skip(c as int).take(d - c));
    Some(w)
}

// --- Order -----------------------------------------------------------------

/// `a` does not come after `b` in the order of strings: by the first
/// character in which they differ, a prefix first.
pub open spec fn text_le(a: Seq<char>, b: Seq<char>) -> bool
    decreases a.len(),
{
    if a.len() == 0 {
        true
    } else if b.len() == 0 {
        false
    } else if a[0] != b[0] {
        (a[0] as u32) < (b[0] as u32)
    } else {
        text_le(a.skip(1), b.skip(1))
    }
}

/// Different characters have different codes.
proof fn code_of_char(a: char, b: char)
    requires
        a != b,
    ensures
        a as u32 != b as u32,
{
}

/// The order of strings is total, and transitive.
pub proof fn text_le_total(a: Seq<char>, b: Seq<char>)
    ensures
        text_le(a, b) || text_le(b, a),
        text_le(a, b) && text_le(b, a) ==> a == b,
    decreases a.len(),
{
    if a.len() == 0 {
        if b.len() == 0 {
            assert(a =~= b);
        }
    } else if b.len() > 0 && a[0] != b[0] {
        code_of_char(a[0], b[0]);
    } else if b.len() > 0 {
        text_le_total(a.skip(1), b.skip(1));
        if a.skip(1) == b.skip(1) {
            assert(a =~= seq![a[0]] + a.skip(1));
            assert(b =~= seq![b[0]] + b.skip(1));
        }
    }
}

pub proof fn text_le_transitive(a: Seq<char>, b: Seq<char>, c: Seq<char>)
    requires
        text_le(a, b),
        text_le(b, c),
    ensures
        text_le(a, c),
    decreases a.len(),
{
    if a.len() > 0 && b.len() > 0 && c.len() > 0 && a[0] == b[0] && b[0] == c[0] {
        text_le_transitive(a.skip(1), b.skip(1), c.skip(1));
    }
}

/// Compares two strings.
pub fn chars_le(a: &[char], b: &[char]) -> (r: bool)
    ensures
        r == text_le(a@, b@),
{
    let mut i: usize = 0;
    assert(a@.skip(0) == a@);
    assert(b@.skip(0) == b@);
    loop
        invariant
            i <= a@.len(),
            i <= b@.len(),
            text_le(a@, b@) == text_le(a@.skip(i as int), b@.skip(i as int)),
        decreases a@.len() - i,
    {
        if i == a.len() {
            return true;
        }
        if i == b.len() {
            return false;
        }
        if a[i] != b[i] {
            return (a[i] as u32) < (b[i] as u32);
        }
        assert(a@.skip(i as int).skip(1) == a@.skip(i as int + 1));
        assert(b@.skip(i as int).skip(1) == b@.skip(i as int + 1));
        i += 1;
    }
}

// --- Laws ------------------------------------------------------------------

/// The text is white space alone.
pub open spec fn all_space(s: Seq<char>) -> bool {
    forall|i: int| 0 <= i < s.len() ==> is_space(#[trigger] s[i])
}

/// Among the characters of seven bits, white space is the blank, the tabs, the
/// line ends and the form feed.
pub proof fn ascii_space(c: char)
    requires
        (c as u32) < 0x80,
    ensures
        is_space(c) <==> c == ' ' || c == '\t' || c == '\n' || c == '\r' || c as u32 == 0xb || c as u32
            == 0xc,
{
}

proof fn front_is_space(s: Seq<char>) -> (front: Seq<char>)
    ensures
        s == front + trim_front(s),
        all_space(front),
        trim_front(s).len() > 0 ==> !is_space(trim_front(s)[0]),
    decreases s.len(),
{
    if s.len() > 0 && is_space(s[0]) {
        let rest = front_is_space(s.skip(1));
        let front = seq![s[0]] + rest;
        assert(s =~= seq![s[0]] + s.skip(1));
        assert(s =~= front + trim_front(s.skip(1)));
        front
    } else {
        assert(s =~= Seq::<char>::empty() + s);
        seq![]
    }
}

proof fn back_is_space(s: Seq<char>) -> (back: Seq<char>)
    ensures
        s == trim_back(s) + back,
        all_space(back),
        trim_back(s).len() > 0 ==> !is_space(trim_back(s).last()),
        trim_back(s).len() > 0 ==> trim_back(s)[0] == s[0],
    decreases s.len(),
{
    if s.len() > 0 && is_space(s.last()) {
        let rest = back_is_space(s.drop_last());
        let back = rest.push(s.last());
        assert(s =~= s.drop_last().push(s.last()));
        assert(s =~= trim_back(s.drop_last()) + back);
        back
    } else {
        assert(s =~= s + Seq::<char>::empty());
        seq![]
    }
}

/// Trimming takes nothing but white space off, at the ends alone, and all of it
/// there: what is left out in front and behind is white space, and what is left
/// neither begins nor ends with any.
pub proof fn trimming_takes_space_alone(s: Seq<char>) -> (ends: (Seq<char>, Seq<char>))
    ensures
        s == ends.0 + trimmed(s) + ends.1,
        all_space(ends.0),
        all_space(ends.1),
        trimmed(s).len() > 0 ==> !is_space(trimmed(s)[0]) && !is_space(trimmed(s).last()),
{
    let front = front_is_space(s);
    let back = back_is_space(trim_front(s));
    assert(s =~= front + trimmed(s) + back);
    (front, back)
}

/// A text is cut at the first place of a character: the two sides with the
/// character between them are the text, and the left side does not hold it.
pub proof fn cut_is_at_the_first(s: Seq<char>, c: char)
    ensures
        match cut_at(s, c) {
            Some((a, b)) => s == a + seq![c] + b && forall|i: int|
                0 <= i < a.len() ==> #[trigger] a[i] != c,
            None => forall|i: int| 0 <= i < s.len() ==> #[trigger] s[i] != c,
        },
{
    index_of_char_is_first(s, c);
    let i = index_of_char(s, c);
    if i < s.len() {
        assert(s =~= s.take(i) + seq![c] + s.skip(i + 1));
    }
}

/// The parts with a character between each two of them.
pub open spec fn joined_by(parts: Seq<Seq<char>>, c: char) -> Seq<char>
    decreases parts.len(),
{
    if parts.len() == 0 {
        seq![]
    } else if parts.len() == 1 {
        parts[0]
    } else {
        parts[0] + seq![c] + joined_by(parts.skip(1), c)
    }
}

/// A text is cut at every place of a character: the parts with the character
/// between them are the text, and none of them holds it.
pub proof fn parts_make_the_text(s: Seq<char>, c: char)
    ensures
        split_char(s, c).len() > 0,
        joined_by(split_char(s, c), c) == s,
        forall|k: int, i: int|
            0 <= k < split_char(s, c).len() && 0 <= i < split_char(s, c)[k].len()
                ==> #[trigger] split_char(s, c)[k][i] != c,
    decreases s.len(),
{
    index_of_char_is_first(s, c);
    let i = index_of_char(s, c);
    if i < s.len() {
        let rest = s.skip(i + 1);
        parts_make_the_text(rest, c);
        let parts = split_char(s, c);
        assert(parts =~= seq![s.take(i)] + split_char(rest, c));
        assert(parts.skip(1) =~= split_char(rest, c));
        assert(s =~= s.take(i) + seq![c] + rest);
        assert forall|k: int, j: int| 0 <= k < parts.len() && 0 <= j < parts[k].len() implies
            #[trigger] parts[k][j] != c by {
            if k > 0 {
                assert(parts[k] == split_char(rest, c)[k - 1]);
            }
        }
    } else {
        assert(split_char(s, c) =~= seq![s]);
    }
}

/// A text comes before every longer one that begins with it.
pub proof fn shorter_text_comes_first(s: Seq<char>, more: Seq<char>)
    ensures
        text_le(s, s + more),
        more.len() > 0 ==> !text_le(s + more, s),
    decreases s.len(),
{
    if s.len() > 0 {
        assert((s + more).skip(1) =~= s.skip(1) + more);
        shorter_text_comes_first(s.skip(1), more);
    }
}

/// The first character in which two texts differ decides which comes first.
pub proof fn first_difference_decides(
    front: Seq<char>,
    a: char,
    b: char,
    x: Seq<char>,
    y: Seq<char>,
)
    requires
        (a as u32) < (b as u32),
    ensures
        text_le(front + seq![a] + x, front + seq![b] + y),
        !text_le(front + seq![b] + y, front + seq![a] + x),
    decreases front.len(),
{
    let s = front + seq![a] + x;
    let t = front + seq![b] + y;
    if front.len() == 0 {
        assert(s[0] == a);
        assert(t[0] == b);
    } else {
        assert(s[0] == front[0] && t[0] == front[0]);
        assert(s.skip(1) =~= front.skip(1) + seq![a] + x);
        assert(t.skip(1) =~= front.skip(1) + seq![b] + y);
        first_difference_decides(front.skip(1), a, b, x, y);
    }
}


/// White space around a text is trimmed, all of it.
pub proof fn space_around_is_trimmed(front: Seq<char>, s: Seq<char>, back: Seq<char>)
    requires
        all_space(front),
        all_space(back),
        s.len() > 0,
        !is_space(s[0]),
        !is_space(s.last()),
    ensures
        trimmed(front + s + back) == s,
{
    let behind = s + back;
    assert(front + s + back =~= front + behind);
    front_is_trimmed(front, behind);
    back_is_trimmed(s, back);
}

proof fn front_is_trimmed(front: Seq<char>, s: Seq<char>)
    requires
        all_space(front),
        s.len() > 0,
        !is_space(s[0]),
    ensures
        trim_front(front + s) == s,
    decreases front.len(),
{
    if front.len() == 0 {
        assert(front + s =~= s);
    } else {
        assert((front + s)[0] == front[0]);
        assert((front + s).skip(1) =~= front.skip(1) + s);
        assert forall|i: int| 0 <= i < front.skip(1).len() implies is_space(
            #[trigger] front.skip(1)[i],
        ) by {
            assert(front.skip(1)[i] == front[i + 1]);
        }
        front_is_trimmed(front.skip(1), s);
    }
}

proof fn back_is_trimmed(s: Seq<char>, back: Seq<char>)
    requires
        all_space(back),
        s.len() > 0,
        !is_space(s.last()),
    ensures
        trim_back(s + back) == s,
    decreases back.len(),
{
    if back.len() == 0 {
        assert(s + back =~= s);
    } else {
        assert((s + back).last() == back.last());
        assert(back.last() == back[back.len() - 1]);
        assert((s + back).drop_last() =~= s + back.drop_last());
        assert forall|i: int| 0 <= i < back.drop_last().len() implies is_space(
            #[trigger] back.drop_last()[i],
        ) by {
            assert(back.drop_last()[i] == back[i]);
        }
        back_is_trimmed(s, back.drop_last());
    }
}


/// A word ends at the first space.
pub proof fn word_ends_at_the_space(s: Seq<char>, n: int)
    requires
        0 <= n <= s.len(),
        forall|i: int| 0 <= i < n ==> !is_space(#[trigger] s[i]),
        n < s.len() ==> is_space(s[n]),
    ensures
        word_len(s) == n,
    decreases n,
{
    if n > 0 {
        assert(!is_space(s[0]));
        assert forall|i: int| 0 <= i < n - 1 implies !is_space(#[trigger] s.skip(1)[i]) by {
            assert(s.skip(1)[i] == s[i + 1]);
        }
        word_ends_at_the_space(s.skip(1), n - 1);
    }
}

/// The second of three words, with a space behind each of the first two.
pub proof fn second_word_is_between(a: Seq<char>, b: Seq<char>, rest: Seq<char>)
    requires
        a.len() > 0,
        b.len() > 0,
        forall|i: int| 0 <= i < a.len() ==> !is_space(#[trigger] a[i]),
        forall|i: int| 0 <= i < b.len() ==> !is_space(#[trigger] b[i]),
    ensures
        second_word(a + seq![' '] + b + seq![' '] + rest) == Some(b),
{
    let s = a + seq![' '] + b + seq![' '] + rest;
    let behind = b + seq![' '] + rest;
    let nothing: Seq<char> = seq![];
    assert(s[0] == a[0]);
    assert forall|i: int| 0 <= i < a.len() implies !is_space(#[trigger] s[i]) by {
        assert(s[i] == a[i]);
    }
    assert(s[a.len() as int] == ' ');
    word_ends_at_the_space(s, a.len() as int);
    assert(s.skip(a.len() as int) =~= seq![' '] + behind);
    assert(behind[0] == b[0]);
    front_is_trimmed(seq![' '], behind);
    assert forall|i: int| 0 <= i < b.len() implies !is_space(#[trigger] behind[i]) by {
        assert(behind[i] == b[i]);
    }
    assert(behind[b.len() as int] == ' ');
    word_ends_at_the_space(behind, b.len() as int);
    assert(behind.take(b.len() as int) =~= b);
}

/// A number below zero has its sign in front, and no other number has one.
pub proof fn signs_stand_in_front(n: int)
    ensures
        n >= 0 ==> signed_decimal(n) == decimal(n as nat),
        n < 0 ==> signed_decimal(n).len() > 1 && signed_decimal(n)[0] == '-' && signed_decimal(
            n,
        ).skip(1) == decimal((-n) as nat),
{
    if n < 0 {
        decimal_value((-n) as nat);
        assert(signed_decimal(n).skip(1) =~= decimal((-n) as nat));
    }
}


/// A line ends at a line feed, and a carriage return in front of that is no part
/// of it.
pub proof fn lines_end_at_line_feeds(line: Seq<char>, rest: Seq<char>)
    requires
        forall|i: int| 0 <= i < line.len() ==> #[trigger] line[i] != '\n',
        line.len() == 0 || line.last() != '\r',
    ensures
        lines_of(line + seq!['\n'] + rest) == seq![line] + lines_of(rest),
        lines_of(line + seq!['\r', '\n'] + rest) == seq![line] + lines_of(rest),
        line.len() > 0 ==> lines_of(line) == seq![line],
{
    let a = line + seq!['\n'] + rest;
    let n = line.len() as int;
    assert(a[n] == '\n');
    first_is_index_of_char(a, '\n', n);
    assert(a.take(n) =~= line);
    assert(a.skip(n + 1) =~= rest);
    let b = line + seq!['\r', '\n'] + rest;
    assert(b[n] == '\r' && b[n + 1] == '\n');
    first_is_index_of_char(b, '\n', n + 1);
    assert(b.take(n + 1) =~= line.push('\r'));
    assert(line.push('\r').drop_last() =~= line);
    assert(b.skip(n + 2) =~= rest);
    first_is_index_of_char(line, '\n', n);
}


/// The digits are those from `0` to `9`, each with its own value.
pub proof fn digits_have_their_values(c: char, n: nat)
    ensures
        is_digit(c) <==> '0' <= c <= '9',
        is_digit(c) ==> digit_value(c) == c as int - '0' as int,
        n < 10 ==> is_digit(digit_char(n)) && digit_value(digit_char(n)) == n,
{
}

/// A number is written with its digits from left to right, each place worth ten
/// times the next.
pub proof fn places_are_worth_ten_times(n: nat)
    requires
        n >= 10,
    ensures
        decimal(n).drop_last() == decimal(n / 10),
        digit_value(decimal(n).last()) == n % 10,
{
    assert(decimal(n).drop_last() =~= decimal(n / 10));
    digits_have_their_values('0', n % 10);
}

} // verus!
