//! Terminal colours for the text output.

use ansi_term::Colour::{Blue, Green};
use ansi_term::Style;
use vstd::prelude::*;

verus! {

/// The escape sequence that ends every style.
pub open spec fn reset_code() -> Seq<char> {
    "\x1B[0m"@
}

/// A label in bold blue.
pub open spec fn painted_label(name: Seq<char>) -> Seq<char> {
    "\x1B[1;34m"@ + name + reset_code()
}

/// The colon behind a label, in bold.
pub open spec fn painted_colon() -> Seq<char> {
    "\x1B[1m"@ + ":"@ + reset_code()
}

/// A value in green.
pub open spec fn painted_value(value: Seq<char>) -> Seq<char> {
    "\x1B[32m"@ + value + reset_code()
}

/// Paints `name` with `ansi_term`'s bold blue style. The crate writes the
/// style's codes (1 for bold, 34 for a blue foreground) between `ESC [` and
/// `m`, then the text, then the reset sequence.
#[verifier::external_body]
pub(crate) fn paint_label(name: &str) -> (text: String)
    ensures
        text@ == painted_label(name@),
{
    Blue.bold().paint(name).to_string()
}

/// Paints a colon with `ansi_term`'s bold style without a colour: the code
/// 1 between `ESC [` and `m`, the colon, the reset sequence.
#[verifier::external_body]
pub(crate) fn paint_colon() -> (text: String)
    ensures
        text@ == painted_colon(),
{
    Style::new().bold().paint(":").to_string()
}

/// Paints `value` with `ansi_term`'s plain green style: the code 32 between
/// `ESC [` and `m`, the text, the reset sequence.
#[verifier::external_body]
pub(crate) fn paint_value(value: &str) -> (text: String)
    ensures
        text@ == painted_value(value@),
{
    Green.paint(value).to_string()
}

} // verus!
