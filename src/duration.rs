use vstd::prelude::*;

verus! {

/// A span of time, counted in nanoseconds.
#[derive(Clone, Copy, Debug, PartialEq, Eq, Structural)]
pub struct Duration {
    nanos: u128,
}

/// A reading of a monotonic clock, counted in nanoseconds from the clock's origin.
#[derive(Clone, Copy, Debug, PartialEq, Eq, Structural)]
pub struct Instant {
    nanos: u128,
}

pub const NANOS_PER_MICRO: u128 = 1_000;

pub const NANOS_PER_MILLI: u128 = 1_000_000;

pub const NANOS_PER_SEC: u128 = 1_000_000_000;

impl View for Duration {
    type V = nat;

    closed spec fn view(&self) -> nat {
        self.nanos as nat
    }
}

impl View for Instant {
    type V = nat;

    closed spec fn view(&self) -> nat {
        self.nanos as nat
    }
}

/// The span from `earlier` to `later`, or zero when `later` comes first.
pub open spec fn span_between(later: nat, earlier: nat) -> nat {
    if later >= earlier {
        (later - earlier) as nat
    } else {
        0
    }
}

impl Duration {
    pub fn from_nanos(nanos: u128) -> (r: Duration)
        ensures
            r@ == nanos,
    {
        Duration { nanos }
    }

    /// Whole nanoseconds.
    pub fn as_nanos(&self) -> (r: u128)
        ensures
            r == self@,
    {
        self.nanos
    }

    /// Whole microseconds; the remainder is dropped.
    pub fn as_micros(&self) -> (r: u128)
        ensures
            r == self@ / (NANOS_PER_MICRO as nat),
    {
        self.nanos / NANOS_PER_MICRO
    }

    /// Whole milliseconds; the remainder is dropped.
    pub fn as_millis(&self) -> (r: u128)
        ensures
            r == self@ / (NANOS_PER_MILLI as nat),
    {
        self.nanos / NANOS_PER_MILLI
    }

    /// Whole seconds; the remainder is dropped.
    pub fn as_secs(&self) -> (r: u128)
        ensures
            r == self@ / (NANOS_PER_SEC as nat),
    {
        self.nanos / NANOS_PER_SEC
    }

    /// `self - other`; the caller guarantees that `other` is not the longer one.
    pub fn minus(&self, other: &Duration) -> (r: Duration)
        requires
            other@ <= self@,
        ensures
            r@ == self@ - other@,
    {
        Duration { nanos: self.nanos - other.nanos }
    }
}

impl Instant {
    pub fn from_nanos(nanos: u128) -> (r: Instant)
        ensures
            r@ == nanos,
    {
        Instant { nanos }
    }

    /// Nanoseconds from the clock's origin.
    pub fn as_nanos(&self) -> (r: u128)
        ensures
            r == self@,
    {
        self.nanos
    }

    /// The span from `earlier` to `self`, zero when `earlier` is the later one.
    pub fn duration_since(&self, earlier: &Instant) -> (r: Duration)
        ensures
            r@ == span_between(self@, earlier@),
    {
        if self.nanos >= earlier.nanos {
            Duration { nanos: self.nanos - earlier.nanos }
        } else {
            Duration { nanos: 0 }
        }
    }
}

} // verus!
