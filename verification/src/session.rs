//! Which kind of session the adapter runs in.

use vstd::prelude::*;

verus! {

/// The session is an X11 one.
pub open spec fn runs_on_x11(
    session_type: Option<Seq<char>>,
    has_wayland_display: bool,
    has_display: bool,
) -> bool {
    match session_type {
        Some(t) => t == "x11"@ || (t != "wayland"@ && !has_wayland_display && has_display),
        None => !has_wayland_display && has_display,
    }
}

/// Whether the session is an X11 one: by what started it, where that is known,
/// or else by the display that is there.
pub fn is_x11_session(
    session_type: &Option<String>,
    has_wayland_display: bool,
    has_display: bool,
) -> (r: bool)
    ensures
        r == runs_on_x11(
            crate::text::opt_view(*session_type),
            has_wayland_display,
            has_display,
        ),
{
    match session_type {
        Some(t) => {
            proof {
                reveal_strlit("x11");
                reveal_strlit("wayland");
                assert("x11"@.len() != "wayland"@.len());
            }
            if *t == "x11".to_string() {
                return true;
            }
            if *t == "wayland".to_string() {
                return false;
            }
        },
        None => {},
    }
    !has_wayland_display && has_display
}


/// A session is what it is said to be; where it is not said, it is an X11 one
/// just when there is an X display and no Wayland one.
pub proof fn session_is_what_it_says(
    other: Option<Seq<char>>,
    has_wayland_display: bool,
    has_display: bool,
)
    requires
        other matches Some(t) ==> t != "x11"@ && t != "wayland"@,
    ensures
        runs_on_x11(Some("x11"@), has_wayland_display, has_display),
        !runs_on_x11(Some("wayland"@), has_wayland_display, has_display),
        runs_on_x11(other, has_wayland_display, has_display) <==> has_display
            && !has_wayland_display,
{
    reveal_strlit("x11");
    reveal_strlit("wayland");
    assert("x11"@.len() == 3 && "wayland"@.len() == 7);
}

} // verus!
