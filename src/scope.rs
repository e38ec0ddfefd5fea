use crate::duration::{span_between, Instant};
use crate::lines::{scope_line, scope_text};
use vstd::prelude::*;
use vstd::string::*;

verus! {

/// A timer for one scope: a message and the instant the scope was entered.
/// It has no activation flag: its report is always made.
pub struct TimeIt {
    msg: String,
    start: Instant,
}

impl View for TimeIt {
    type V = (Seq<char>, nat);

    closed spec fn view(&self) -> (Seq<char>, nat) {
        (self.msg@, self.start@)
    }
}

impl TimeIt {
    /// Enters a scope at `now`.
    pub fn new(msg: &str, now: Instant) -> (r: TimeIt)
        ensures
            r@ == (msg@, now@),
    {
        TimeIt { msg: String::from_str(msg), start: now }
    }

    /// The line that reports the scope left at `now`: the message and the time
    /// spent in the scope.
    pub fn report(&self, now: Instant) -> (r: String)
        ensures
            r@ == scope_line(self@.0, span_between(now@, self@.1)),
    {
        let elapsed = now.duration_since(&self.start);
        scope_text(self.msg.as_str(), &elapsed)
    }
}

} // verus!
