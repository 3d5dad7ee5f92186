//! What depends on the system the window opens on.

use crate::text::same_text;
use vstd::prelude::*;

verus! {

/// Whether the window draws its own decorations: on Linux, under a Wayland or an
/// X11 session, each told by the session's type or by its display being set.
pub open spec fn wants_csd(os: Seq<char>, session_type: Seq<char>, wayland_display: bool, x_display: bool) -> bool {
    os == "linux"@ && (session_type == "wayland"@ || wayland_display || session_type == "x11"@ || x_display)
}

/// Whether the window draws its own decorations. `os` is the system's name,
/// `session_type` the type of the desktop session; the two flags say whether a
/// Wayland and an X11 display are set.
pub fn client_side_decorations(os: &str, session_type: &str, wayland_display: bool, x_display: bool) -> (csd: bool)
    ensures
        csd == wants_csd(os@, session_type@, wayland_display, x_display),
{
    if !same_text(os, "linux") {
        return false;
    }
    same_text(session_type, "wayland") || wayland_display || same_text(session_type, "x11") || x_display
}

} // verus!
