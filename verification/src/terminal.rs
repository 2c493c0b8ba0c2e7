//! What the terminal contributes: bold styling and the width of the window.

use vstd::prelude::*;

verus! {

/// The escape sequence that switches bold on.
pub open spec fn bold_on() -> Seq<char> {
    seq!['\u{1b}', '[', '1', 'm']
}

/// The escape sequence that resets every style.
pub open spec fn style_off() -> Seq<char> {
    seq!['\u{1b}', '[', '0', 'm']
}

/// `text` between the sequence that switches bold on and the reset sequence.
pub open spec fn bold_text(text: Seq<char>) -> Seq<char> {
    bold_on() + text + style_off()
}

/// The width used when the terminal does not tell its own.
pub const DEFAULT_WIDTH: u16 = 80;

/// The width to wrap at, given what the terminal reported: the number of
/// columns reduced to sixteen bits, or the default when nothing was reported.
pub open spec fn width_of(dimensions: Option<(usize, usize)>) -> u16 {
    match dimensions {
        Some((columns, _)) => (columns % 0x10000) as u16,
        None => DEFAULT_WIDTH,
    }
}

/// Calls `ansi_term::Style::new().bold().paint(text)` and formats the painted
/// string. Trusted: for a style that is bold and nothing else, ansi_term
/// writes the prefix `ESC [ 1 m`, then the text unchanged, then the reset
/// suffix `ESC [ 0 m`.
#[verifier::external_body]
pub(crate) fn paint_bold(text: &str) -> (out: String)
    ensures
        out@ == bold_text(text@),
{
    ansi_term::Style::new().bold().paint(text).to_string()
}

/// Calls `term_size::dimensions()`: columns and rows of the terminal, if one
/// is attached. Trusted, and nothing is claimed of the answer, which depends
/// on the terminal.
#[verifier::external_body]
fn terminal_dimensions() -> (dimensions: Option<(usize, usize)>) {
    term_size::dimensions()
}

/// The width to wrap at for the reported dimensions.
pub fn width_from_dimensions(dimensions: Option<(usize, usize)>) -> (width: u16)
    ensures
        width == width_of(dimensions),
        dimensions is None ==> width == 80,
{
    match dimensions {
        Some((columns, _)) => {
            let low: usize = columns % 0x10000;
            low as u16
        },
        None => DEFAULT_WIDTH,
    }
}

/// The width of the terminal as it is now, the default where it cannot be
/// found out. Asked anew at every call.
pub fn get_term_width() -> (width: u16) {
    width_from_dimensions(terminal_dimensions())
}

} // verus!
