use scolor::ColorExt;
use vstd::prelude::*;

verus! {

/// Text wrapped in an ANSI select-graphic-rendition sequence with parameters
/// `params`, followed by the reset sequence.
pub open spec fn ansi(params: Seq<char>, text: Seq<char>) -> Seq<char> {
    "\x1b["@ + params + "m"@ + text + "\x1b[0m"@
}

/// Parameters of a 24-bit foreground color.
pub open spec fn fg_params(r: Seq<char>, g: Seq<char>, b: Seq<char>) -> Seq<char> {
    "38;2;"@ + r + ";"@ + g + ";"@ + b
}

pub open spec fn red_params() -> Seq<char> {
    fg_params("255"@, "0"@, "0"@)
}

pub open spec fn green_params() -> Seq<char> {
    fg_params("0"@, "255"@, "0"@)
}

pub open spec fn yellow_params() -> Seq<char> {
    fg_params("255"@, "255"@, "0"@)
}

pub open spec fn light_blue_params() -> Seq<char> {
    fg_params("0"@, "150"@, "255"@)
}

pub open spec fn white_params() -> Seq<char> {
    fg_params("255"@, "255"@, "255"@)
}

pub open spec fn bold_params() -> Seq<char> {
    "1"@
}

pub open spec fn italic_params() -> Seq<char> {
    "3"@
}

/// Relies on scolor's `ColorExt::red`: its `Display` writes the text in
/// foreground color (255, 0, 0) between an escape sequence and a reset.
#[verifier::external_body]
pub(crate) fn red(s: &str) -> (r: String)
    ensures
        r@ == ansi(red_params(), s@),
{
    format!("{}", s.red())
}

/// Relies on scolor's `ColorExt::green`: foreground color (0, 255, 0).
#[verifier::external_body]
pub(crate) fn green(s: &str) -> (r: String)
    ensures
        r@ == ansi(green_params(), s@),
{
    format!("{}", s.green())
}

/// Relies on scolor's `ColorExt::yellow`: foreground color (255, 255, 0).
#[verifier::external_body]
pub(crate) fn yellow(s: &str) -> (r: String)
    ensures
        r@ == ansi(yellow_params(), s@),
{
    format!("{}", s.yellow())
}

/// Relies on scolor's `ColorExt::light_blue`: foreground color (0, 150, 255).
#[verifier::external_body]
pub(crate) fn light_blue(s: &str) -> (r: String)
    ensures
        r@ == ansi(light_blue_params(), s@),
{
    format!("{}", s.light_blue())
}

/// Relies on scolor's `ColorExt::rgb` with (255, 255, 255): white foreground.
#[verifier::external_body]
pub(crate) fn white(s: &str) -> (r: String)
    ensures
        r@ == ansi(white_params(), s@),
{
    format!("{}", s.rgb(255, 255, 255))
}

/// Relies on scolor's `ColorExt::bold`: effect parameter 1.
#[verifier::external_body]
pub(crate) fn bold(s: &str) -> (r: String)
    ensures
        r@ == ansi(bold_params(), s@),
{
    format!("{}", s.bold())
}

/// Relies on scolor's `ColorExt::italic`: effect parameter 3.
#[verifier::external_body]
pub(crate) fn italic(s: &str) -> (r: String)
    ensures
        r@ == ansi(italic_params(), s@),
{
    format!("{}", s.italic())
}

} // verus!
