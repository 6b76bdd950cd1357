//! Colour for the terminal, by the `colored` crate.
//!
//! Whether `colored` colours at all is decided by the environment, by whether
//! the output is a terminal and by a switch of the process, so nothing here
//! says which of the possible results comes back.

use colored::Colorize;
use vstd::prelude::*;

verus! {

/// The escape character, with which every control sequence starts.
pub open spec fn escape() -> char {
    '\u{1b}'
}

/// The control sequence that switches to green.
pub open spec fn green_on() -> Seq<char> {
    seq![escape(), '[', '3', '2', 'm']
}

/// The control sequence that switches to yellow.
pub open spec fn yellow_on() -> Seq<char> {
    seq![escape(), '[', '3', '3', 'm']
}

/// The control sequence that switches colour and style off again.
pub open spec fn colour_off() -> Seq<char> {
    seq![escape(), '[', '0', 'm']
}

/// Whether `text` is free of the escape character, so that no control sequence
/// starts inside it.
pub open spec fn free_of_escape(text: Seq<char>) -> bool {
    forall|i: int| 0 <= i < text.len() ==> text[i] != escape()
}

/// Whether `painted` is `text` as the terminal is to show it in the colour that
/// `on` switches to: `text` itself where nothing is coloured, and else `text`
/// between `on` and the sequence that switches colour off. The switch to the
/// colour may be missing alone, where colouring was turned off in the middle
/// of the work.
pub open spec fn is_painted(painted: Seq<char>, text: Seq<char>, on: Seq<char>) -> bool {
    painted == text || painted == on + text + colour_off() || painted == text + colour_off()
}

/// `Colorize::green` of `colored` on a `&str`, and the text that the coloured
/// string is displayed as.
///
/// Claimed of it: for a text without an escape character the result is the
/// text, either bare or followed by the sequence that switches colour off and
/// then possibly preceded by the one that switches to green. `colored` asks
/// its process-wide switch anew before each of the two sequences; nothing is
/// claimed of which answer it gets.
#[verifier::external_body]
pub(crate) fn green(text: &str) -> (painted: String)
    ensures
        free_of_escape(text@) ==> is_painted(painted@, text@, green_on()),
{
    text.green().to_string()
}

/// `Colorize::yellow` of `colored` on a `&str`, and the text that the coloured
/// string is displayed as.
///
/// Claimed of it: what is claimed of `green`, with the sequence that switches
/// to yellow.
#[verifier::external_body]
pub(crate) fn yellow(text: &str) -> (painted: String)
    ensures
        free_of_escape(text@) ==> is_painted(painted@, text@, yellow_on()),
{
    text.yellow().to_string()
}

/// `Colorize::normal` of `colored` on a `&str`, and the text that the resulting
/// string is displayed as.
///
/// Claimed of it: a string without colour or style is displayed as the text
/// itself.
#[verifier::external_body]
pub(crate) fn normal(text: &str) -> (painted: String)
    ensures
        painted@ == text@,
{
    text.normal().to_string()
}

} // verus!
