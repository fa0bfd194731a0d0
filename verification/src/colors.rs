//! Terminal colouring of status words, through the `colorful` crate.
use vstd::prelude::*;
use colorful::Colorful;

verus! {

/// The text `s` wrapped in the escape sequences that select the 256-colour
/// foreground colour with number `code`, followed by a reset.
pub open spec fn painted(code: Seq<char>, s: Seq<char>) -> Seq<char> {
    seq!['\u{1b}', '[', '3', '8', ';', '5', ';'] + code + seq!['m'] + s + seq![
        '\u{1b}',
        '[',
        '0',
        'm',
    ]
}

/// `colorful::Colorful::red` on `s`, rendered with `to_string`. In colorful
/// 0.3.2 `red` selects `Color::Red` (number 1) as foreground colour, and the
/// `Display` impl of the coloured string writes `ESC[38;5;1m`, the text, then
/// `ESC[0m`.
#[verifier::external_body]
pub(crate) fn red(s: &str) -> (r: String)
    ensures
        r@ == painted(seq!['1'], s@),
{
    s.red().to_string()
}

/// `colorful::Colorful::green` on `s`, rendered with `to_string`: as for
/// `red`, with colour number 2.
#[verifier::external_body]
pub(crate) fn green(s: &str) -> (r: String)
    ensures
        r@ == painted(seq!['2'], s@),
{
    s.green().to_string()
}

/// `colorful::Colorful::yellow` on `s`, rendered with `to_string`: as for
/// `red`, with colour number 3.
#[verifier::external_body]
pub(crate) fn yellow(s: &str) -> (r: String)
    ensures
        r@ == painted(seq!['3'], s@),
{
    s.yellow().to_string()
}

/// `colorful::Colorful::blue` on `s`, rendered with `to_string`: as for
/// `red`, with colour number 4.
#[verifier::external_body]
pub(crate) fn blue(s: &str) -> (r: String)
    ensures
        r@ == painted(seq!['4'], s@),
{
    s.blue().to_string()
}

} // verus!
