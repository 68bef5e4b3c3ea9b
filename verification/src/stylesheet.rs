//! The styling context.

use vstd::prelude::*;

verus! {

/// The read-only styling context handed to every render.
///
/// Rendering reads it and never changes it; the built-in widgets do not consult it.
pub struct StyleSheet {}

impl StyleSheet {
    /// A style sheet without any rule.
    pub fn new() -> (style: Self) {
        StyleSheet {  }
    }
}

impl Default for StyleSheet {
    fn default() -> (style: Self) {
        StyleSheet::new()
    }
}

} // verus!
