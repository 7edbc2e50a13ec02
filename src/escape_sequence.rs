use vstd::prelude::*;

verus! {

/// Reset every style attribute.
pub const ESC0M: &'static str = "\u{1b}[0m";
pub const ESC1M: &'static str = "\u{1b}[1m";
pub const ESC22M: &'static str = "\u{1b}[22m";
pub const ESC3M: &'static str = "\u{1b}[3m";
pub const ESC23M: &'static str = "\u{1b}[23m";
pub const ESC4M: &'static str = "\u{1b}[4m";
pub const ESC24M: &'static str = "\u{1b}[24m";
pub const ESC5M: &'static str = "\u{1b}[5m";
pub const ESC25M: &'static str = "\u{1b}[25m";
pub const ESC9M: &'static str = "\u{1b}[9m";
pub const ESC29M: &'static str = "\u{1b}[29m";
/// Save the cursor position.
pub const ESCS: &'static str = "\u{1b}[s";
/// Restore the saved cursor position.
pub const ESCU: &'static str = "\u{1b}[u";
/// Erase from the cursor to the end of the line.
pub const ESC0K: &'static str = "\u{1b}[0K";
/// Erase from the start of the line to the cursor.
pub const ESC1K: &'static str = "\u{1b}[1K";
/// Erase the whole line.
pub const ESC2K: &'static str = "\u{1b}[2K";
/// Erase the whole screen.
pub const ESC2J: &'static str = "\u{1b}[2J";
pub const CRLF: &'static str = "\r\n";
pub const TAB: &'static str = "\t";
pub const SPACE: &'static str = " ";

} // verus!
