use crate::duration::{span_between, Duration, Instant};
use vstd::prelude::*;

verus! {

/// The timer as a mathematical value: the instant of the last start and, once a
/// check has been made since, the time from that start to the latest check.
pub struct TimerModel {
    pub start: nat,
    pub last: Option<nat>,
}

/// The model right after a start at `now`.
pub open spec fn started(now: nat) -> TimerModel {
    TimerModel { start: now, last: None }
}

/// The latest clock reading the timer has taken: its start, or its last check.
pub open spec fn latest(m: TimerModel) -> nat {
    match m.last {
        Some(l) => m.start + l,
        None => m.start,
    }
}

/// Time from the start to `now`.
pub open spec fn total_at(m: TimerModel, now: nat) -> nat {
    span_between(now, m.start)
}

/// Time from the previous check (or from the start, where there was none) to `now`.
pub open spec fn delta_at(m: TimerModel, now: nat) -> nat {
    match m.last {
        Some(l) => span_between(total_at(m, now), l),
        None => total_at(m, now),
    }
}

/// The model after a check at `now`.
pub open spec fn checked(m: TimerModel, now: nat) -> TimerModel {
    TimerModel { start: m.start, last: Some(total_at(m, now)) }
}

/// The timer's state: when it was last started, and what the last check since
/// then measured.
#[derive(Clone, Copy, Debug)]
pub struct TimerState {
    pub start: Instant,
    pub last: Option<Duration>,
}

impl View for TimerState {
    type V = TimerModel;

    open spec fn view(&self) -> TimerModel {
        TimerModel {
            start: self.start@,
            last: match self.last {
                Some(d) => Some(d@),
                None => None,
            },
        }
    }
}

impl TimerState {
    /// A timer that counts from `origin` and has not been checked.
    pub fn new(origin: Instant) -> (r: TimerState)
        ensures
            r@ == started(origin@),
    {
        TimerState { start: origin, last: None }
    }

    /// Whether `now` may be handed to `check`: it is not before the latest reading.
    pub fn accepts(&self, now: &Instant) -> (r: bool)
        ensures
            r == (latest(self@) <= now@),
    {
        if now.as_nanos() < self.start.as_nanos() {
            return false;
        }
        match self.last {
            Some(last) => last.as_nanos() <= now.as_nanos() - self.start.as_nanos(),
            None => true,
        }
    }

    /// Starts over at `now`: the next check measures from `now`.
    pub fn restart(&mut self, now: Instant)
        ensures
            final(self)@ == started(now@),
    {
        self.start = now;
        self.last = None;
    }

    /// Takes a check at `now`: returns the time since the start and the time
    /// since the previous check, and records the first as the last measurement.
    /// The clock is monotonic, so `now` is not before the latest reading.
    pub fn check(&mut self, now: Instant) -> (r: (Duration, Duration))
        requires
            latest(old(self)@) <= now@,
        ensures
            r.0@ == total_at(old(self)@, now@),
            r.1@ == delta_at(old(self)@, now@),
            final(self)@ == checked(old(self)@, now@),
    {
        let total = now.duration_since(&self.start);
        let delta = match self.last {
            Some(last) => total.minus(&last),
            None => total,
        };
        self.last = Some(total);
        (total, delta)
    }
}

/// Between two checks that follow each other, at `first` and then at `second`,
/// the second reports as its delta exactly the growth of the total:
/// the time from the start to `second` less the time from the start to `first`.
pub proof fn lemma_delta_is_difference_of_totals(m: TimerModel, first: nat, second: nat)
    requires
        latest(m) <= first <= second,
    ensures
        total_at(m, first) <= total_at(m, second),
        delta_at(checked(m, first), second) == total_at(m, second) - total_at(m, first),
{
}

/// A start forgets every earlier check: the timer after a start at `begin` is
/// the same whatever it held before, and its first check reports a delta equal
/// to its total.
pub proof fn lemma_start_resets_delta(begin: nat, now: nat)
    requires
        begin <= now,
    ensures
        delta_at(started(begin), now) == total_at(started(begin), now),
        total_at(started(begin), now) == now - begin,
{
}

} // verus!
