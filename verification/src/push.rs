//! Telling a running render server of a monitor's new project.

use vstd::prelude::*;

use crate::text::{chars_of, decimal_chars, lines, push_str, starts_chars, string_of};

verus! {

/// Hands a monitor's project to whoever renders it.
pub trait ProjectPusher {
    fn push(&self, monitor_id: &str, project_dir: &str) -> Result<(), String>;
}

/// The request that tells the server of a monitor's project.
pub open spec fn push_request(monitor: Seq<char>, body: Seq<char>, body_len: nat) -> Seq<char> {
    "POST /project?monitor="@ + monitor + " HTTP/1.1\r\nHost: 127.0.0.1\r\nContent-Length: "@
        + crate::text::decimal(body_len) + "\r\nConnection: close\r\n\r\n"@ + body
}

/// The request that tells the server of a monitor's project.
pub fn project_request(monitor_id: &str, project_dir: &str) -> (r: String)
    ensures
        r@ == push_request(
            monitor_id@,
            project_dir@,
            vstd::utf8::encode_utf8(project_dir@).len(),
        ),
{
    let body_len = project_dir.as_bytes().len();
    let mut text: Vec<char> = Vec::new();
    push_str(&mut text, "POST /project?monitor=");
    push_str(&mut text, monitor_id);
    push_str(&mut text, " HTTP/1.1\r\nHost: 127.0.0.1\r\nContent-Length: ");
    let mut number = decimal_chars(body_len as u64);
    text.append(&mut number);
    push_str(&mut text, "\r\nConnection: close\r\n\r\n");
    push_str(&mut text, project_dir);
    string_of(text.as_slice())
}

/// What a server's reply means.
pub open spec fn reply_meaning(response: Seq<char>) -> Result<(), Seq<char>> {
    if crate::text::starts_with(response, "HTTP/1.1 200"@) {
        Ok(())
    } else {
        let lines = crate::text::lines_of(response);
        Err(
            "render-server responded: "@ + (if lines.len() > 0 {
                lines[0]
            } else {
                seq![]
            }),
        )
    }
}

/// Reads a server's reply: success by its first words, or else its first
/// line.
pub fn read_reply(response: &str) -> (r: Result<(), String>)
    ensures
        match r {
            Ok(()) => reply_meaning(response@) == Ok::<(), Seq<char>>(()),
            Err(e) => reply_meaning(response@) == Err::<(), Seq<char>>(e@),
        },
{
    let text = chars_of(response);
    let wanted = chars_of("HTTP/1.1 200");
    if starts_chars(text.as_slice(), wanted.as_slice()) {
        return Ok(());
    }
    let all = lines(text.as_slice());
    let mut m: Vec<char> = Vec::new();
    push_str(&mut m, "render-server responded: ");
    if all.len() > 0 {
        assert(crate::text::parts_view(all@)[0] == all@[0]@);
        let mut first = crate::text::copy_range(all[0].as_slice(), 0, all[0].len());
        assert(first@ =~= all@[0]@);
        m.append(&mut first);
    }
    assert(m@ =~= reply_meaning(response@)->Err_0);
    Err(string_of(m.as_slice()))
}

} // verus!
