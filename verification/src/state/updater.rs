//! The collection of state update handlers.

use colorful::{Color, Colorful};
use vstd::prelude::*;

verus! {

/// This updater does nothing when a state is updated.
pub fn ignore<T>(_old: &T, _new: &T) {
}

/// The colours of the update notice.
pub enum Tint {
    LightYellow,
    LightBlue,
}

impl Tint {
    /// The colour's number in the 256-colour palette, in decimal digits.
    pub open spec fn code(self) -> Seq<char> {
        match self {
            Tint::LightYellow => "11"@,
            Tint::LightBlue => "12"@,
        }
    }
}

/// `text` between the escape sequence that selects `tint` as foreground colour
/// and the one that resets all attributes.
pub open spec fn painted(text: Seq<char>, tint: Tint) -> Seq<char> {
    "\x1B[38;5;"@ + tint.code() + "m"@ + text + "\x1B[0m"@
}

/// `Colorful::color` followed by the `Display` of the coloured string it returns.
///
/// For one of the sixteen basic colours the crate prints the 256-colour foreground
/// prefix, the colour's number, `m`, the text, and the reset sequence.
#[verifier::external_body]
fn paint(text: &str, tint: Tint) -> (result: String)
    ensures
        result@ == painted(text@, tint),
{
    let color = match tint {
        Tint::LightYellow => Color::LightYellow,
        Tint::LightBlue => Color::LightBlue,
    };
    text.color(color).to_string()
}

/// The notice for an update from `old` to `new`, both already printed as text.
pub open spec fn notice_text(old: Seq<char>, new: Seq<char>) -> Seq<char> {
    "["@ + painted("StateUpdated"@, Tint::LightYellow) + "] "@ + painted(old, Tint::LightBlue)
        + " -> "@ + painted(new, Tint::LightBlue)
}

/// The line that reports an update from `old` to `new` on a terminal.
pub fn notice(old: &str, new: &str) -> (line: String)
    ensures
        line@ == notice_text(old@, new@),
{
    let mut line = String::from_str("[");
    let label = paint("StateUpdated", Tint::LightYellow);
    line.append(label.as_str());
    line.append("] ");
    let before = paint(old, Tint::LightBlue);
    line.append(before.as_str());
    line.append(" -> ");
    let after = paint(new, Tint::LightBlue);
    line.append(after.as_str());
    line
}

} // verus!
