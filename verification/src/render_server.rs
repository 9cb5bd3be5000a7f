//! The client's side of the render server's local interface: requests, the
//! bodies of its answers, and what it says of its frames.

use vstd::prelude::*;
use vstd::utf8::*;

use crate::text::{
    chars_of, copy_range, decimal_chars, digit_like, find_bytes, find_chars, find_second_word, parse_u16,
    parse_u64, push_str, starts_chars, string_of, utf8_text,
};

verus! {

pub const RENDER_SERVER_ADDR: &'static str = "127.0.0.1:47824";

/// How long to wait for the server.
pub const TIMEOUT_MS: u64 = 2000;

/// The lines of a request in front of its body.
pub open spec fn request_head(method: Seq<char>, path: Seq<char>, body_len: nat) -> Seq<char> {
    method + " "@ + path + " HTTP/1.0\r\nHost: 127.0.0.1\r\nContent-Length: "@
        + crate::text::decimal(body_len) + "\r\n\r\n"@
}

/// The bytes of a request.
pub open spec fn request_bytes(method: Seq<char>, path: Seq<char>, body: Seq<char>) -> Seq<u8> {
    encode_utf8(request_head(method, path, encode_utf8(body).len())) + encode_utf8(body)
}

/// The bytes of a request, with its body where it has one.
pub fn request(method: &str, path: &str, body: Option<&str>) -> (r: Vec<u8>)
    ensures
        r@ == request_bytes(
            method@,
            path@,
            match body {
                Some(b) => b@,
                None => seq![],
            },
        ),
{
    let body_text = match body {
        Some(b) => b,
        None => "",
    };
    proof {
        reveal_strlit("");
        assert(""@ =~= seq![]);
    }
    let body_bytes = body_text.as_bytes();
    let body_len = body_bytes.len();
    let mut head: Vec<char> = Vec::new();
    push_str(&mut head, method);
    push_str(&mut head, " ");
    push_str(&mut head, path);
    push_str(&mut head, " HTTP/1.0\r\nHost: 127.0.0.1\r\nContent-Length: ");
    let mut number = decimal_chars(body_len as u64);
    head.append(&mut number);
    push_str(&mut head, "\r\n\r\n");
    assert(head@ =~= request_head(method@, path@, body_bytes@.len()));
    let head_text = string_of(head.as_slice());
    let head_bytes = head_text.as_str().as_bytes();
    let mut r = copy_range(head_bytes, 0, head_bytes.len());
    assert(r@ =~= head_bytes@);
    let mut rest = copy_range(body_bytes, 0, body_len);
    assert(rest@ =~= body_bytes@);
    r.append(&mut rest);
    r
}

/// The request for what lies at a path.
pub fn get(path: &str) -> (r: Vec<u8>)
    ensures
        r@ == request_bytes("GET"@, path@, seq![]),
{
    request("GET", path, None)
}

/// The request that hands a small text to a path.
pub fn post(path: &str, body: &str) -> (r: Vec<u8>)
    ensures
        r@ == request_bytes("POST"@, path@, body@),
{
    request("POST", path, Some(body))
}

/// What parts an answer's head from its body.
pub open spec fn blank_line() -> Seq<u8> {
    seq![13u8, 10u8, 13u8, 10u8]
}

/// Where an answer's head ends.
pub fn find_double_crlf(buf: &[u8]) -> (r: Option<usize>)
    ensures
        match r {
            Some(i) => crate::text::found(buf@, blank_line()) == Some(i as int) && i + 4
                <= buf@.len(),
            None => crate::text::found(buf@, blank_line()) is None,
        },
{
    let wanted: Vec<u8> = vec![13u8, 10u8, 13u8, 10u8];
    assert(wanted@ =~= blank_line());
    find_bytes(buf, wanted.as_slice())
}

/// A text up to the first line end.
pub open spec fn first_line(s: Seq<char>) -> Seq<char> {
    match crate::text::found(s, "\r\n"@) {
        Some(i) => s.take(i),
        None => s,
    }
}

/// The status that an answer's head gives: the second word of its first line.
pub open spec fn status_code(head: Seq<char>) -> Option<u16> {
    match crate::text::second_word(first_line(head)) {
        Some(w) => crate::text::parsed_u16(w),
        None => None,
    }
}

/// The body of an answer that tells of success.
pub open spec fn response_body(raw: Seq<u8>) -> Option<Seq<u8>> {
    match crate::text::found(raw, blank_line()) {
        Some(i) => {
            let head = raw.take(i);
            if valid_utf8(head) && status_code(decode_utf8(head)) is Some && 200 <= status_code(
                decode_utf8(head),
            )->0 < 300 {
                Some(raw.skip(i + 4))
            } else {
                None
            }
        },
        None => None,
    }
}

fn read_status(head: &str) -> (r: Option<u16>)
    ensures
        r == status_code(head@),
{
    let text = chars_of(head);
    let line_end = chars_of("\r\n");
    let end: usize = match find_chars(text.as_slice(), line_end.as_slice()) {
        Some(i) => i,
        None => text.len(),
    };
    let line = copy_range(text.as_slice(), 0, end);
    assert(line@ =~= first_line(head@));
    match find_second_word(line.as_slice()) {
        Some(w) => parse_u16(w.as_slice()),
        None => None,
    }
}

/// Reads an answer: its body where the status tells of success, and nothing
/// for any other or one that is cut off before its head ends.
pub fn read_response(raw: &[u8]) -> (r: Option<Vec<u8>>)
    ensures
        match r {
            Some(b) => response_body(raw@) == Some(b@),
            None => response_body(raw@) is None,
        },
{
    let total: usize = raw.len();
    let end = match find_double_crlf(raw) {
        Some(i) => i,
        None => {
            return None;
        },
    };
    let head_bytes = copy_range(raw, 0, end);
    assert(head_bytes@ =~= raw@.take(end as int));
    let head = match utf8_text(head_bytes.as_slice()) {
        Some(h) => h,
        None => {
            return None;
        },
    };
    match read_status(head.as_str()) {
        Some(code) => {
            if code < 200 || code >= 300 {
                return None;
            }
            let body = copy_range(raw, end + 4, total);
            assert(body@ =~= raw@.skip(end + 4));
            Some(body)
        },
        None => None,
    }
}

/// An answer of success gives its body back, whatever bytes the body holds.
pub proof fn success_gives_the_body(head: Seq<char>, body: Seq<u8>)
    requires
        status_code(head) matches Some(code) && 200 <= code < 300,
        crate::text::is_first(
            encode_utf8(head) + blank_line() + body,
            blank_line(),
            encode_utf8(head).len() as int,
        ),
    ensures
        response_body(encode_utf8(head) + blank_line() + body) == Some(body),
{
    let h = encode_utf8(head);
    let raw = h + blank_line() + body;
    crate::text::first_is_found(raw, blank_line(), h.len() as int);
    assert(raw.take(h.len() as int) =~= h);
    assert(raw.skip(h.len() as int + 4) =~= body);
    encode_utf8_valid_utf8(head);
    encode_utf8_decode_utf8(head);
}

// --- What the server says of its frames ------------------------------------

/// What the server says of a monitor's frames.
#[derive(Debug, Clone, Copy)]
pub struct Meta {
    pub ready: bool,
    pub frame_id: u64,
    pub fps: u32,
    pub has_geometry: bool,
}

impl Default for Meta {
    fn default() -> (r: Self)
        ensures
            r == (Meta { ready: false, frame_id: 0, fps: 0, has_geometry: false }),
    {
        Meta { ready: false, frame_id: 0, fps: 0, has_geometry: false }
    }
}

/// What follows the first place of a key.
pub open spec fn field_start(json: Seq<char>, key: Seq<char>) -> Option<Seq<char>> {
    match crate::text::found(json, key) {
        Some(i) => Some(json.skip(i + key.len())),
        None => None,
    }
}

/// The truth value behind a key.
pub open spec fn bool_field(json: Seq<char>, key: Seq<char>) -> Option<bool> {
    match field_start(json, key) {
        Some(rest) => if crate::text::starts_with(rest, "true"@) {
            Some(true)
        } else if crate::text::starts_with(rest, "false"@) {
            Some(false)
        } else {
            None
        },
        None => None,
    }
}

/// The number behind a key.
pub open spec fn number_field(json: Seq<char>, key: Seq<char>) -> Option<u64> {
    match field_start(json, key) {
        Some(rest) => crate::text::parsed_u64(rest.take(crate::text::digits_in_front(rest))),
        None => None,
    }
}

/// What the text says of a monitor's frames, where it gives all four fields.
pub open spec fn meta_of(json: Seq<char>) -> Option<Meta> {
    match (
        bool_field(json, "\"ready\":"@),
        number_field(json, "\"frame_id\":"@),
        number_field(json, "\"fps\":"@),
        bool_field(json, "\"has_geometry\":"@),
    ) {
        (Some(ready), Some(frame_id), Some(fps), Some(has_geometry)) => Some(
            Meta { ready, frame_id, fps: fps as u32, has_geometry },
        ),
        _ => None,
    }
}

fn json_field_start(json: &[char], key: &str) -> (r: Option<Vec<char>>)
    ensures
        match r {
            Some(rest) => field_start(json@, key@) == Some(rest@),
            None => field_start(json@, key@) is None,
        },
{
    let k = chars_of(key);
    let total: usize = json.len();
    match find_chars(json, k.as_slice()) {
        Some(i) => {
            let rest = copy_range(json, i + k.len(), total);
            assert(rest@ =~= json@.skip(i + k@.len()));
            Some(rest)
        },
        None => None,
    }
}

fn begins_with(s: &[char], wanted: &str) -> (r: bool)
    ensures
        r == crate::text::starts_with(s@, wanted@),
{
    starts_chars(s, chars_of(wanted).as_slice())
}

fn json_bool(json: &[char], key: &str) -> (r: Option<bool>)
    ensures
        r == bool_field(json@, key@),
{
    match json_field_start(json, key) {
        Some(rest) => if begins_with(rest.as_slice(), "true") {
            Some(true)
        } else if begins_with(rest.as_slice(), "false") {
            Some(false)
        } else {
            None
        },
        None => None,
    }
}

fn json_u64(json: &[char], key: &str) -> (r: Option<u64>)
    ensures
        r == number_field(json@, key@),
{
    match json_field_start(json, key) {
        Some(rest) => {
            let mut n: usize = 0;
            while n < rest.len() && digit_like(rest[n])
                invariant
                    n <= rest@.len(),
                    forall|i: int| 0 <= i < n ==> crate::text::is_digit(#[trigger] rest@[i]),
                decreases rest.len() - n,
            {
                n += 1;
            }
            proof {
                crate::text::digits_in_front_is(rest@, n as int);
            }
            let digits = copy_range(rest.as_slice(), 0, n);
            assert(digits@ =~= rest@.take(n as int));
            parse_u64(digits.as_slice())
        },
        None => None,
    }
}

/// Reads what the server says of a monitor's frames.
pub fn parse_meta(json: &str) -> (r: Option<Meta>)
    ensures
        r == meta_of(json@),
{
    let text = chars_of(json);
    let ready = match json_bool(text.as_slice(), "\"ready\":") {
        Some(b) => b,
        None => {
            return None;
        },
    };
    let frame_id = match json_u64(text.as_slice(), "\"frame_id\":") {
        Some(n) => n,
        None => {
            return None;
        },
    };
    let fps = match json_u64(text.as_slice(), "\"fps\":") {
        Some(n) => n,
        None => {
            return None;
        },
    };
    let has_geometry = match json_bool(text.as_slice(), "\"has_geometry\":") {
        Some(b) => b,
        None => {
            return None;
        },
    };
    Some(Meta { ready, frame_id, fps: #[verifier::truncate] (fps as u32), has_geometry })
}


/// An answer's status is the number in its first line, whatever the lines
/// behind it say.
pub proof fn status_is_read(version: Seq<char>, code: u16, reason: Seq<char>, more: Seq<char>)
    requires
        version.len() > 0,
        forall|i: int| 0 <= i < version.len() ==> !crate::text::is_space(#[trigger] version[i]),
        forall|i: int| 0 <= i < reason.len() ==> #[trigger] reason[i] != '\r',
    ensures
        status_code(
            version + seq![' '] + crate::text::decimal(code as nat) + seq![' '] + reason + "\r\n"@
                + more,
        ) == Some(code),
{
    let d = crate::text::decimal(code as nat);
    let line = version + seq![' '] + d + seq![' '] + reason;
    let head = line + "\r\n"@ + more;
    reveal_strlit("\r\n");
    crate::text::decimal_value(code as nat);
    assert forall|i: int| 0 <= i < d.len() implies !crate::text::is_space(#[trigger] d[i]) && d[i]
        != '\r' && d[i] != '+' by {
        assert(crate::text::is_digit(d[i]));
    }
    assert forall|i: int| 0 <= i < version.len() implies #[trigger] version[i] != '\r' by {
        assert(!crate::text::is_space(version[i]));
    }
    assert forall|j: int| 0 <= j < line.len() implies line[j] != '\r' by {
        let p = version.len() as int;
        let q = p + 1 + d.len();
        if j < p {
            assert(line[j] == version[j]);
        } else if j == p {
            assert(line[j] == ' ');
        } else if j < q {
            assert(line[j] == d[j - p - 1]);
        } else if j == q {
            assert(line[j] == ' ');
        } else {
            assert(line[j] == reason[j - q - 1]);
        }
    }
    assert forall|j: int| 0 <= j < line.len() implies !crate::text::occurs_at(
        head,
        "\r\n"@,
        j,
    ) by {
        if crate::text::occurs_at(head, "\r\n"@, j) {
            assert(head.subrange(j, j + 2)[0] == '\r');
            assert(head[j] == line[j]);
        }
    }
    assert(head.subrange(line.len() as int, line.len() as int + 2) =~= "\r\n"@);
    crate::text::first_is_found(head, "\r\n"@, line.len() as int);
    assert(head.take(line.len() as int) =~= line);
    crate::text::second_word_is_between(version, d, reason);
    assert(crate::text::without_plus(d) == d);
}


/// An answer that tells of anything but success gives nothing, and neither does
/// one that is cut off before its head ends.
pub proof fn failure_gives_nothing(raw: Seq<u8>)
    ensures
        crate::text::found(raw, blank_line()) is None ==> response_body(raw) is None,
        crate::text::found(raw, blank_line()) matches Some(i) ==> {
            let head = raw.take(i);
            &&& !valid_utf8(head) ==> response_body(raw) is None
            &&& status_code(decode_utf8(head)) is None ==> response_body(raw) is None
            &&& (status_code(decode_utf8(head)) matches Some(code) && (code < 200 || code >= 300))
                ==> response_body(raw) is None
            &&& response_body(raw) matches Some(body) ==> body == raw.skip(i + 4)
        },
{
}

/// An answer that lacks a field says nothing of the frames.
pub proof fn every_field_has_to_be_there(json: Seq<char>)
    ensures
        bool_field(json, "\"ready\":"@) is None ==> meta_of(json) is None,
        number_field(json, "\"frame_id\":"@) is None ==> meta_of(json) is None,
        number_field(json, "\"fps\":"@) is None ==> meta_of(json) is None,
        bool_field(json, "\"has_geometry\":"@) is None ==> meta_of(json) is None,
{
}

} // verus!
