//! The line that names the program.
use crate::session_display::ANSI_RESET;
use vstd::prelude::*;
use vstd::string::*;

verus! {

/// The levels of red, green and blue of the program's colour.
pub const AGENTD_PRIMARY_BLUE_RGB: (u8, u8, u8) = (96, 165, 250);

/// The escape sequence for the program's colour.
pub const AGENTD_PRIMARY_BLUE_FG: &'static str = "\x1b[38;2;96;165;250m";

/// The name of the program, and what it is.
pub const AGENTD_HEADER_TEXT: &'static str = "agentd - agent multiplexer";

/// The line that names the program.
pub open spec fn header_text() -> Seq<char> {
    AGENTD_PRIMARY_BLUE_FG@ + AGENTD_HEADER_TEXT@ + ANSI_RESET@
}

/// The line that names the program.
pub fn agentd_header() -> (r: String)
    ensures
        r@ == header_text(),
{
    let mut r = AGENTD_PRIMARY_BLUE_FG.to_string();
    r.append(AGENTD_HEADER_TEXT);
    r.append(ANSI_RESET);
    r
}

} // verus!
