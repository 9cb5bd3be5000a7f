//! Names of monitors in the query part of a request's target.

use vstd::prelude::*;
use vstd::utf8::*;

use crate::text::{
    chars_of, copy_range, push_str, split_at_char, split_once_char, starts_chars, string_of,
};
use crate::text_source::lossy_text_of;

verus! {

// --- Writing ---------------------------------------------------------------

/// The bytes that stand for themselves in a query.
pub open spec fn unreserved(b: u8) -> bool {
    ||| 65 <= b <= 90
    ||| 97 <= b <= 122
    ||| 48 <= b <= 57
    ||| b == 45
    ||| b == 95
    ||| b == 46
    ||| b == 126
}

/// A digit to the base sixteen.
pub open spec fn hex_upper(d: int) -> char {
    if d < 10 {
        (48 + d) as char
    } else {
        (55 + d) as char
    }
}

/// A byte as it is written in a query.
pub open spec fn encoded_byte(b: u8) -> Seq<char> {
    if unreserved(b) {
        seq![b as char]
    } else {
        seq!['%', hex_upper(b as int / 16), hex_upper(b as int % 16)]
    }
}

/// Bytes as they are written in a query.
pub open spec fn url_encoded(bytes: Seq<u8>) -> Seq<char>
    decreases bytes.len(),
{
    if bytes.len() == 0 {
        seq![]
    } else {
        encoded_byte(bytes[0]) + url_encoded(bytes.skip(1))
    }
}

fn hex_digit(d: u8) -> (c: char)
    requires
        d < 16,
    ensures
        c == hex_upper(d as int),
{
    if d < 10 {
        (48 + d) as char
    } else {
        (55 + d) as char
    }
}

/// Writes a name so that it can stand in a query: letters, digits and `-_.~`
/// as they are, every other byte as a percent sign and two digits.
pub fn url_encode(s: &str) -> (r: String)
    ensures
        r@ == url_encoded(encode_utf8(s@)),
{
    let bytes = s.as_bytes();
    let mut out: Vec<char> = Vec::new();
    let mut i: usize = 0;
    assert(bytes@.skip(0) =~= bytes@);
    assert(out@ + url_encoded(bytes@) =~= url_encoded(bytes@));
    while i < bytes.len()
        invariant
            i <= bytes@.len(),
            out@ + url_encoded(bytes@.skip(i as int)) == url_encoded(bytes@),
        decreases bytes.len() - i,
    {
        let b = bytes[i];
        let ghost before = out@;
        let ghost rest = bytes@.skip(i as int);
        if (65 <= b && b <= 90) || (97 <= b && b <= 122) || (48 <= b && b <= 57) || b == 45 || b
            == 95 || b == 46 || b == 126 {
            out.push(b as char);
        } else {
            out.push('%');
            out.push(hex_digit(b / 16));
            out.push(hex_digit(b % 16));
        }
        assert(out@ =~= before + encoded_byte(b));
        assert(rest.skip(1) =~= bytes@.skip(i as int + 1));
        assert(out@ + url_encoded(rest.skip(1)) =~= before + url_encoded(rest));
        i += 1;
    }
    assert(out@ =~= url_encoded(bytes@));
    string_of(out.as_slice())
}

/// The query that asks for a monitor.
pub open spec fn monitor_query_text(name: Seq<char>) -> Seq<char> {
    "monitor="@ + url_encoded(encode_utf8(name))
}

/// The query that asks for a monitor.
pub fn monitor_query(name: &str) -> (r: String)
    ensures
        r@ == monitor_query_text(name@),
{
    let mut text: Vec<char> = Vec::new();
    push_str(&mut text, "monitor=");
    let encoded = url_encode(name);
    push_str(&mut text, encoded.as_str());
    string_of(text.as_slice())
}

// --- Reading ---------------------------------------------------------------

/// The value of a digit to the base sixteen.
pub open spec fn hex_value(c: char) -> Option<int> {
    let u = c as u32;
    if 48 <= u <= 57 {
        Some(u - 48)
    } else if 65 <= u <= 70 {
        Some(u - 55)
    } else if 97 <= u <= 102 {
        Some(u - 87)
    } else {
        None
    }
}

/// A percent sign and two digits stand in front.
pub open spec fn escape_in_front(s: Seq<char>) -> bool {
    s.len() >= 3 && s[0] == '%' && hex_value(s[1]) is Some && hex_value(s[2]) is Some
}

/// The bytes that a part of a query stands for. A percent sign that no two
/// digits follow stands for itself.
pub open spec fn url_decoded(s: Seq<char>) -> Seq<u8>
    decreases s.len(),
{
    if s.len() == 0 {
        seq![]
    } else if escape_in_front(s) {
        seq![(hex_value(s[1])->0 * 16 + hex_value(s[2])->0) as u8] + url_decoded(s.skip(3))
    } else {
        encode_utf8(seq![s[0]]) + url_decoded(s.skip(1))
    }
}

fn hex_of(c: char) -> (r: Option<u8>)
    ensures
        match r {
            Some(d) => hex_value(c) == Some(d as int) && d < 16,
            None => hex_value(c) is None,
        },
{
    let u = c as u32;
    if 48 <= u && u <= 57 {
        Some((u - 48) as u8)
    } else if 65 <= u && u <= 70 {
        Some((u - 55) as u8)
    } else if 97 <= u && u <= 102 {
        Some((u - 87) as u8)
    } else {
        None
    }
}

fn escape_at(s: &[char], i: usize) -> (r: Option<u8>)
    requires
        i < s@.len(),
    ensures
        match r {
            Some(b) => escape_in_front(s@.skip(i as int)) && b == hex_value(s@[i + 1])->0 * 16
                + hex_value(s@[i + 2])->0,
            None => !escape_in_front(s@.skip(i as int)),
        },
{
    let total: usize = s.len();
    if total - i < 3 || s[i] != '%' {
        return None;
    }
    match (hex_of(s[i + 1]), hex_of(s[i + 2])) {
        (Some(a), Some(b)) => Some(a * 16 + b),
        _ => None,
    }
}

/// Reads the bytes that a part of a query stands for.
pub fn url_decode(s: &[char]) -> (r: Vec<u8>)
    ensures
        r@ == url_decoded(s@),
{
    let total: usize = s.len();
    let mut out: Vec<u8> = Vec::new();
    let mut i: usize = 0;
    assert(s@.skip(0) =~= s@);
    assert(out@ + url_decoded(s@) =~= url_decoded(s@));
    while i < total
        invariant
            total == s@.len(),
            i <= total,
            out@ + url_decoded(s@.skip(i as int)) == url_decoded(s@),
        decreases total - i,
    {
        let ghost before = out@;
        let ghost rest = s@.skip(i as int);
        match escape_at(s, i) {
            Some(b) => {
                out.push(b);
                assert(out@ =~= before + seq![b]);
                assert(rest.skip(3) =~= s@.skip(i as int + 3));
                assert(out@ + url_decoded(rest.skip(3)) =~= before + url_decoded(rest));
                i += 3;
            },
            None => {
                let one = copy_range(s, i, i + 1);
                assert(one@ =~= seq![rest[0]]);
                let text = string_of(one.as_slice());
                let bytes = text.as_str().as_bytes();
                let mut part = copy_range(bytes, 0, bytes.len());
                assert(part@ =~= bytes@);
                out.append(&mut part);
                assert(rest.skip(1) =~= s@.skip(i as int + 1));
                assert(out@ + url_decoded(rest.skip(1)) =~= before + url_decoded(rest));
                i += 1;
            },
        }
    }
    assert(out@ =~= url_decoded(s@));
    out
}

/// What the first part that gives it says of the monitor.
pub open spec fn monitor_value(parts: Seq<Seq<char>>) -> Seq<char>
    decreases parts.len(),
{
    if parts.len() == 0 {
        seq![]
    } else if crate::text::starts_with(parts[0], "monitor="@) {
        parts[0].skip("monitor="@.len() as int)
    } else {
        monitor_value(parts.skip(1))
    }
}

/// The target of a request without its query.
pub open spec fn path_part(target: Seq<char>) -> Seq<char> {
    match crate::text::cut_at(target, '?') {
        Some((path, _)) => path,
        None => target,
    }
}

/// What the target of a request says of the monitor, as it stands there.
pub open spec fn monitor_part(target: Seq<char>) -> Seq<char> {
    match crate::text::cut_at(target, '?') {
        Some((_, query)) => monitor_value(crate::text::split_char(query, '&')),
        None => seq![],
    }
}

/// The monitor that a request is about; the empty name where it says none.
pub open spec fn monitor_named(target: Seq<char>) -> Seq<char> {
    let bytes = url_decoded(monitor_part(target));
    if valid_utf8(bytes) {
        decode_utf8(bytes)
    } else {
        crate::text_source::lossy_text(bytes)
    }
}

/// The target of a request without its query.
pub fn path_of(target: &str) -> (r: String)
    ensures
        r@ == path_part(target@),
{
    let text = chars_of(target);
    match split_once_char(text.as_slice(), '?') {
        Some((path, _)) => string_of(path.as_slice()),
        None => string_of(text.as_slice()),
    }
}

fn find_monitor(parts: &Vec<Vec<char>>) -> (r: Vec<char>)
    ensures
        r@ == monitor_value(crate::text::parts_view(parts@)),
{
    let ghost all = crate::text::parts_view(parts@);
    let key = chars_of("monitor=");
    let mut i: usize = 0;
    assert(all.skip(0) =~= all);
    while i < parts.len()
        invariant
            all == crate::text::parts_view(parts@),
            key@ == "monitor="@,
            i <= parts@.len(),
            monitor_value(all.skip(i as int)) == monitor_value(all),
        decreases parts.len() - i,
    {
        assert(all.skip(i as int)[0] == parts@[i as int]@);
        assert(all.skip(i as int).skip(1) =~= all.skip(i as int + 1));
        if starts_chars(parts[i].as_slice(), key.as_slice()) {
            let r = copy_range(parts[i].as_slice(), key.len(), parts[i].len());
            assert(r@ =~= parts@[i as int]@.skip(key@.len() as int));
            return r;
        }
        i += 1;
    }
    assert(all.skip(i as int).len() == 0);
    Vec::new()
}

/// The monitor that a request is about; the empty name where it says none.
pub fn monitor_of(target: &str) -> (r: String)
    ensures
        r@ == monitor_named(target@),
{
    let text = chars_of(target);
    let part = match split_once_char(text.as_slice(), '?') {
        Some((_, query)) => find_monitor(&split_at_char(query.as_slice(), '&')),
        None => Vec::new(),
    };
    assert(part@ =~= monitor_part(target@));
    lossy_text_of(url_decode(part.as_slice()).as_slice())
}

// --- What was written is read back -----------------------------------------

/// A character of seven bits is one byte.
proof fn ascii_is_one_byte(b: u8)
    requires
        b < 0x80,
    ensures
        encode_utf8(seq![b as char]) == seq![b],
{
    let c = b as char;
    let s = seq![c];
    let u = c as u32;
    assert(u == b as u32);
    assert(s.drop_first() =~= seq![]);
    assert(encode_utf8(Seq::<char>::empty()) =~= Seq::<u8>::empty());
    assert((u & 0x7F) as u8 == u as u8) by (bit_vector)
        requires
            u < 0x80,
    ;
    assert(encode_scalar(u) =~= seq![b]);
    assert(encode_utf8(s) =~= encode_scalar(u) + encode_utf8(s.drop_first()));
}

/// Reading what was written in a query gives the bytes back.
pub proof fn decode_undoes_encode(bytes: Seq<u8>)
    ensures
        url_decoded(url_encoded(bytes)) == bytes,
    decreases bytes.len(),
{
    if bytes.len() > 0 {
        let b = bytes[0];
        let rest = bytes.skip(1);
        let s = url_encoded(bytes);
        decode_undoes_encode(rest);
        if unreserved(b) {
            assert(s[0] == b as char);
            assert(s.skip(1) =~= url_encoded(rest));
            assert(!escape_in_front(s));
            ascii_is_one_byte(b);
            assert(url_decoded(s) =~= seq![b] + rest);
        } else {
            let a = b as int / 16;
            let c = b as int % 16;
            assert(s[0] == '%' && s[1] == hex_upper(a) && s[2] == hex_upper(c));
            assert(s.skip(3) =~= url_encoded(rest));
            assert(hex_value(s[1]) == Some(a));
            assert(hex_value(s[2]) == Some(c));
            assert(escape_in_front(s));
            assert(url_decoded(s) =~= seq![b] + rest);
        }
        assert(seq![b] + rest =~= bytes);
    } else {
        assert(url_decoded(url_encoded(bytes)) =~= bytes);
    }
}

/// What is written in a query holds nothing that parts a query.
pub proof fn encoded_is_plain(bytes: Seq<u8>)
    ensures
        forall|i: int|
            0 <= i < url_encoded(bytes).len() ==> #[trigger] url_encoded(bytes)[i] != '&'
                && url_encoded(bytes)[i] != '?' && url_encoded(bytes)[i] != ' ',
    decreases bytes.len(),
{
    if bytes.len() > 0 {
        encoded_is_plain(bytes.skip(1));
        let front = encoded_byte(bytes[0]);
        let rest = url_encoded(bytes.skip(1));
        assert forall|i: int| 0 <= i < url_encoded(bytes).len() implies #[trigger] url_encoded(
            bytes,
        )[i] != '&' && url_encoded(bytes)[i] != '?' && url_encoded(bytes)[i] != ' ' by {
            if i >= front.len() {
                assert(url_encoded(bytes)[i] == rest[i - front.len()]);
            } else {
                assert(url_encoded(bytes)[i] == front[i]);
            }
        }
    }
}

/// A request for a monitor is understood as one for that monitor, whatever
/// the monitor's name holds, and its path as it was.
pub proof fn request_names_its_monitor(path: Seq<char>, name: Seq<char>)
    requires
        forall|i: int| 0 <= i < path.len() ==> path[i] != '?',
    ensures
        monitor_named(path + "?"@ + monitor_query_text(name)) == name,
        path_part(path + "?"@ + monitor_query_text(name)) == path,
{
    reveal_strlit("?");
    reveal_strlit("monitor=");
    let bytes = encode_utf8(name);
    let encoded = url_encoded(bytes);
    let query = monitor_query_text(name);
    let target = path + "?"@ + query;
    crate::text::first_is_index_of_char(target, '?', path.len() as int);
    assert(target.take(path.len() as int) =~= path);
    assert(target.skip(path.len() as int + 1) =~= query);
    encoded_is_plain(bytes);
    assert forall|i: int| 0 <= i < query.len() implies query[i] != '&' by {
        if i >= 8 {
            assert(query[i] == encoded[i - 8]);
        }
    }
    crate::text::first_is_index_of_char(query, '&', query.len() as int);
    let parts = crate::text::split_char(query, '&');
    assert(parts =~= seq![query]);
    assert(query.take(8) =~= "monitor="@);
    assert(query.skip(8) =~= encoded);
    assert(monitor_part(target) =~= encoded);
    decode_undoes_encode(bytes);
    encode_utf8_valid_utf8(name);
    encode_utf8_decode_utf8(name);
}

/// Without a percent sign, a part of a query stands for itself.
proof fn plain_stands_for_itself(s: Seq<char>)
    requires
        forall|i: int| 0 <= i < s.len() ==> s[i] != '%',
    ensures
        url_decoded(s) == encode_utf8(s),
    decreases s.len(),
{
    if s.len() > 0 {
        let c = s[0];
        plain_stands_for_itself(s.skip(1));
        assert(s.skip(1) =~= s.drop_first());
        assert(seq![c].drop_first() =~= Seq::<char>::empty());
        assert(encode_utf8(Seq::<char>::empty()) =~= Seq::<u8>::empty());
        assert(encode_utf8(seq![c]) =~= encode_scalar(c as u32));
        assert(encode_utf8(s) =~= encode_scalar(c as u32) + encode_utf8(s.drop_first()));
    } else {
        assert(url_decoded(s) =~= encode_utf8(s));
    }
}

/// A request that gives a monitor's name as it is, as the one that tells the
/// server of a project does, is understood as one for that monitor, where the
/// name holds nothing that means something else in a query.
pub proof fn plain_name_is_understood(path: Seq<char>, name: Seq<char>)
    requires
        forall|i: int| 0 <= i < path.len() ==> path[i] != '?',
        forall|i: int| 0 <= i < name.len() ==> name[i] != '%' && name[i] != '&',
    ensures
        monitor_named(path + "?monitor="@ + name) == name,
        path_part(path + "?monitor="@ + name) == path,
{
    reveal_strlit("?monitor=");
    reveal_strlit("monitor=");
    let query = "monitor="@ + name;
    let target = path + "?monitor="@ + name;
    crate::text::first_is_index_of_char(target, '?', path.len() as int);
    assert(target.take(path.len() as int) =~= path);
    assert(target.skip(path.len() as int + 1) =~= query);
    assert forall|i: int| 0 <= i < query.len() implies query[i] != '&' by {
        if i >= 8 {
            assert(query[i] == name[i - 8]);
        }
    }
    crate::text::first_is_index_of_char(query, '&', query.len() as int);
    let parts = crate::text::split_char(query, '&');
    assert(parts =~= seq![query]);
    assert(query.take(8) =~= "monitor="@);
    assert(query.skip(8) =~= name);
    assert(monitor_part(target) =~= name);
    plain_stands_for_itself(name);
    encode_utf8_valid_utf8(name);
    encode_utf8_decode_utf8(name);
}


/// Letters, digits and `-_.~` are written in a query as they are, and every
/// other byte as a percent sign and two digits.
pub proof fn plain_bytes_stand_for_themselves(b: u8)
    ensures
        ({
            let c = b as char;
            let plain = 'a' <= c <= 'z' || 'A' <= c <= 'Z' || '0' <= c <= '9' || c == '-' || c
                == '_' || c == '.' || c == '~';
            &&& plain ==> encoded_byte(b) == seq![c]
            &&& !plain ==> encoded_byte(b).len() == 3 && encoded_byte(b)[0] == '%'
        }),
{
}


/// The digits to the base sixteen are those from `0` to `9` and the letters from
/// `a` to `f`, in either case.
pub proof fn digits_to_the_base_sixteen(c: char)
    ensures
        '0' <= c <= '9' ==> hex_value(c) == Some(c as int - '0' as int),
        'a' <= c <= 'f' ==> hex_value(c) == Some(c as int - 'a' as int + 10),
        'A' <= c <= 'F' ==> hex_value(c) == Some(c as int - 'A' as int + 10),
        !('0' <= c <= '9') && !('a' <= c <= 'f') && !('A' <= c <= 'F') ==> hex_value(c) is None,
{
}

} // verus!
