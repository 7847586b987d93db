//! The table of color glyphs.

use vstd::prelude::*;
use crate::text::str_eq;

verus! {

/// The glyph that stands for a color name: one fixed glyph for each of the
/// nine recognized names, and a question mark for every other string.
pub open spec fn glyph_spec(color: Seq<char>) -> Seq<char> {
    if color == "red"@ {
        "🔴"@
    } else if color == "orange"@ {
        "🟠"@
    } else if color == "yellow"@ {
        "🟡"@
    } else if color == "green"@ {
        "🟢"@
    } else if color == "blue"@ {
        "🔵"@
    } else if color == "purple"@ {
        "🟣"@
    } else if color == "brown"@ {
        "🟤"@
    } else if color == "black"@ {
        "⚫"@
    } else if color == "white"@ {
        "⚪"@
    } else {
        "❓"@
    }
}

/// Maps a color name to its glyph. Total: an unrecognized name is no error,
/// it yields the fallback glyph.
pub fn get_color(color: &str) -> (g: &'static str)
    ensures
        g@ == glyph_spec(color@),
{
    if str_eq(color, "red") {
        "🔴"
    } else if str_eq(color, "orange") {
        "🟠"
    } else if str_eq(color, "yellow") {
        "🟡"
    } else if str_eq(color, "green") {
        "🟢"
    } else if str_eq(color, "blue") {
        "🔵"
    } else if str_eq(color, "purple") {
        "🟣"
    } else if str_eq(color, "brown") {
        "🟤"
    } else if str_eq(color, "black") {
        "⚫"
    } else if str_eq(color, "white") {
        "⚪"
    } else {
        "❓"
    }
}

} // verus!
