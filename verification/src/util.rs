//! Helpers for measuring text.

use vstd::prelude::*;

verus! {

/// The number of terminal columns a character occupies.
///
/// Characters in the ranges U+0800..=U+9FA5 and U+AC00..=U+D7FF are wide and take
/// two columns; NUL and carriage return take none; everything else takes one.
pub open spec fn render_width(ch: char) -> nat {
    let code = ch as u32;
    if (0x0800 <= code <= 0x9fa5) || (0xac00 <= code <= 0xd7ff) {
        2
    } else if code == 0x0000 || code == 0x000d {
        0
    } else {
        1
    }
}

/// Get the render width of a char.
pub fn get_render_width(ch: char) -> (width: usize)
    ensures
        width == render_width(ch),
{
    match ch {
        '\u{0800}'..='\u{9fa5}' | '\u{ac00}'..='\u{d7ff}' => 2,
        '\u{0000}' | '\r' => 0,
        _ => 1,
    }
}

} // verus!
