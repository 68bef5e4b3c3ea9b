//! The render target.

use vstd::prelude::*;

verus! {

/// The render target: it records, in call order, everything written to it.
///
/// The view of a cursor is the text written so far.
pub struct Cursor {
    written: String,
}

impl View for Cursor {
    type V = Seq<char>;

    closed spec fn view(&self) -> Seq<char> {
        self.written@
    }
}

impl Cursor {
    /// A cursor onto which nothing has been written.
    pub fn new() -> (cursor: Self)
        ensures
            cursor@ == Seq::<char>::empty(),
    {
        Cursor { written: String::new() }
    }

    /// Appends `text` after everything written before.
    pub fn write(&mut self, text: &str)
        ensures
            final(self)@ == old(self)@ + text@,
    {
        self.written.append(text);
    }

    /// Everything written so far, in the order it was written.
    pub fn output(&self) -> (text: &str)
        ensures
            text@ == self@,
    {
        self.written.as_str()
    }
}

impl Default for Cursor {
    fn default() -> (cursor: Self)
        ensures
            cursor@ == Seq::<char>::empty(),
    {
        Cursor::new()
    }
}

} // verus!
