use crate::duration::Duration;
use crate::format::{duration_text, FDur};
use crate::style::{
    ansi, bold, bold_params, italic, italic_params, light_blue, light_blue_params, red, red_params,
    yellow, yellow_params,
};
use vstd::prelude::*;
use vstd::string::*;

verus! {

/// The message as it is shown at the end of a start or check line.
pub open spec fn message_text(msg: Seq<char>) -> Seq<char> {
    ansi(italic_params(), ansi(light_blue_params(), msg))
}

/// The line written when the timer starts.
pub open spec fn start_line(msg: Seq<char>) -> Seq<char> {
    ansi(bold_params(), ansi(red_params(), "Starting"@)) + " "@ + message_text(msg) + "\n"@
}

/// The line written at a check: the time since the start, the time since the
/// previous check, and the message.
pub open spec fn check_line(total: nat, delta: nat, msg: Seq<char>) -> Seq<char> {
    ansi(light_blue_params(), "["@) + ansi(bold_params(), "TotalTime:"@) + " "@ + duration_text(
        total,
    ) + " "@ + ansi(light_blue_params(), "/"@) + " "@ + ansi(bold_params(), "DeltaTime:"@) + " "@
        + duration_text(delta) + ansi(light_blue_params(), "]"@) + " "@ + message_text(msg)
        + "\n"@
}

/// The line written when a timed scope ends.
pub open spec fn scope_line(msg: Seq<char>, elapsed: nat) -> Seq<char> {
    ansi(italic_params(), ansi(yellow_params(), msg)) + ": "@ + duration_text(elapsed) + "\n"@
}

fn message(msg: &str) -> (r: String)
    ensures
        r@ == message_text(msg@),
{
    let colored = light_blue(msg);
    italic(colored.as_str())
}

/// Renders the line written when the timer starts.
pub fn start_text(msg: &str) -> (r: String)
    ensures
        r@ == start_line(msg@),
{
    let head = red("Starting");
    let mut s = bold(head.as_str());
    s.append(" ");
    s.append(message(msg).as_str());
    s.append("\n");
    assert(s@ =~= start_line(msg@));
    s
}

/// Renders the line written at a check.
pub fn check_text(total: &Duration, delta: &Duration, msg: &str) -> (r: String)
    ensures
        r@ == check_line(total@, delta@, msg@),
{
    let mut s = light_blue("[");
    s.append(bold("TotalTime:").as_str());
    s.append(" ");
    s.append(FDur(*total).render().as_str());
    s.append(" ");
    s.append(light_blue("/").as_str());
    s.append(" ");
    s.append(bold("DeltaTime:").as_str());
    s.append(" ");
    s.append(FDur(*delta).render().as_str());
    s.append(light_blue("]").as_str());
    s.append(" ");
    s.append(message(msg).as_str());
    s.append("\n");
    assert(s@ =~= check_line(total@, delta@, msg@));
    s
}

/// Renders the line written when a timed scope ends.
pub fn scope_text(msg: &str, elapsed: &Duration) -> (r: String)
    ensures
        r@ == scope_line(msg@, elapsed@),
{
    let colored = yellow(msg);
    let mut s = italic(colored.as_str());
    s.append(": ");
    s.append(FDur(*elapsed).render().as_str());
    s.append("\n");
    assert(s@ =~= scope_line(msg@, elapsed@));
    s
}

} // verus!
