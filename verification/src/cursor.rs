//! The cursor's position, on its way from the server to the renderer.

use vstd::prelude::*;

use crate::text::{push_str, signed_decimal_chars, string_of};

verus! {

/// Passes the cursor's position on when it has changed.
pub struct CursorForwarder {
    /// What was last passed on.
    pub last: Option<(i32, i32)>,
}

/// What is passed on of the cursor's position.
pub open spec fn forwarded(last: Option<(i32, i32)>, at: (i32, i32)) -> Option<(i32, i32)> {
    if last == Some(at) {
        None
    } else {
        Some(at)
    }
}

impl CursorForwarder {
    pub fn new() -> (r: CursorForwarder)
        ensures
            r.last is None,
    {
        CursorForwarder { last: None }
    }

    /// Takes in where the cursor is. Gives the position where it has to be
    /// passed on.
    pub fn moved(&mut self, at: (i32, i32)) -> (r: Option<(i32, i32)>)
        ensures
            final(self).last == Some(at),
            r == forwarded(old(self).last, at),
    {
        let same = match self.last {
            Some(p) => p.0 == at.0 && p.1 == at.1,
            None => false,
        };
        self.last = Some(at);
        if same {
            None
        } else {
            Some(at)
        }
    }
}

/// Where the cursor is, for whoever asks. There is one value of it, which
/// those who move the cursor and those who ask share behind a lock: a copy
/// would go on saying where the cursor was.
#[derive(Debug)]
pub struct CursorState {
    pub x: i32,
    pub y: i32,
}

impl Default for CursorState {
    fn default() -> (r: Self)
        ensures
            r.x == 0,
            r.y == 0,
    {
        CursorState { x: 0, y: 0 }
    }
}

/// The position as an answer gives it.
pub open spec fn cursor_json(x: i32, y: i32) -> Seq<char> {
    "{\"x\":"@ + crate::text::signed_decimal(x as int) + ",\"y\":"@ + crate::text::signed_decimal(
        y as int,
    ) + "}"@
}

impl CursorState {
    pub fn set(&mut self, x: i32, y: i32)
        ensures
            final(self).x == x,
            final(self).y == y,
    {
        self.x = x;
        self.y = y;
    }

    pub fn get(&self) -> (r: (i32, i32))
        ensures
            r == (self.x, self.y),
    {
        (self.x, self.y)
    }

    /// The answer to whoever asks.
    pub fn body(&self) -> (r: String)
        ensures
            r@ == cursor_json(self.x, self.y),
    {
        let mut text: Vec<char> = Vec::new();
        push_str(&mut text, "{\"x\":");
        let mut x = signed_decimal_chars(self.x as i64);
        text.append(&mut x);
        push_str(&mut text, ",\"y\":");
        let mut y = signed_decimal_chars(self.y as i64);
        text.append(&mut y);
        push_str(&mut text, "}");
        assert(text@ =~= cursor_json(self.x, self.y));
        string_of(text.as_slice())
    }
}


// --- Laws ------------------------------------------------------------------

/// A position is passed on as it is, the first one always, and each once while
/// the cursor rests.
pub proof fn positions_are_passed_on_once(last: Option<(i32, i32)>, at: (i32, i32))
    ensures
        last is None ==> forwarded(last, at) == Some(at),
        last matches Some(p) ==> p.0 != at.0 || p.1 != at.1 ==> forwarded(last, at) == Some(at),
        forwarded(Some(at), at) is None,
{
}

/// The answer gives each coordinate under its own name.
pub proof fn coordinates_have_their_names(x: i32, y: i32)
    ensures
        crate::render_server::field_start(cursor_json(x, y), "\"x\":"@) == Some(
            crate::text::signed_decimal(x as int) + ",\"y\":"@ + crate::text::signed_decimal(
                y as int,
            ) + "}"@,
        ),
{
    reveal_strlit("{\"x\":");
    reveal_strlit("\"x\":");
    let rest = crate::text::signed_decimal(x as int) + ",\"y\":"@ + crate::text::signed_decimal(
        y as int,
    ) + "}"@;
    let s = cursor_json(x, y);
    let key = "\"x\":"@;
    assert(s =~= "{\"x\":"@ + rest);
    assert(s.subrange(1, 5) =~= key);
    assert(!crate::text::occurs_at(s, key, 0)) by {
        if crate::text::occurs_at(s, key, 0) {
            assert(s.subrange(0, 4)[0] == '"');
        }
    }
    crate::text::first_is_found(s, key, 1);
    assert(s.skip(5) =~= rest);
}

} // verus!
