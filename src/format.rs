use crate::duration::{Duration, NANOS_PER_MICRO, NANOS_PER_MILLI, NANOS_PER_SEC};
use crate::style::{
    ansi, green, green_params, red, red_params, white, white_params, yellow, yellow_params,
};
use vstd::prelude::*;
use vstd::string::*;

verus! {

/// The decimal digit `d` as a character.
pub open spec fn digit_char(d: nat) -> char {
    "0123456789"@[d as int]
}

/// The decimal representation of `n`, without leading zeros.
pub open spec fn decimal(n: nat) -> Seq<char>
    decreases n,
{
    if n < 10 {
        seq![digit_char(n)]
    } else {
        decimal(n / 10) + seq![digit_char(n % 10)]
    }
}

fn digit_text(d: u128) -> (r: &'static str)
    requires
        d < 10,
    ensures
        r@ == seq![digit_char(d as nat)],
{
    proof {
        reveal_strlit("0123456789");
    }
    let digits = "0123456789";
    let r = digits.substring_char(d as usize, d as usize + 1);
    assert(r@ =~= seq![digit_char(d as nat)]);
    r
}

/// The decimal text of `n`.
pub fn decimal_text(n: u128) -> (r: String)
    ensures
        r@ == decimal(n as nat),
    decreases n,
{
    if n < 10 {
        String::from_str(digit_text(n))
    } else {
        let mut s = decimal_text(n / 10);
        s.append(digit_text(n % 10));
        s
    }
}

/// The unit in which a duration is shown.
#[derive(Clone, Copy, Debug, PartialEq, Eq, Structural)]
pub enum Unit {
    Seconds,
    Millis,
    Micros,
    Nanos,
}

/// The coarsest unit of which the span `n` (in nanoseconds) holds at least one whole.
pub open spec fn unit_of(n: nat) -> Unit {
    if n >= NANOS_PER_SEC {
        Unit::Seconds
    } else if n >= NANOS_PER_MILLI {
        Unit::Millis
    } else if n >= NANOS_PER_MICRO {
        Unit::Micros
    } else {
        Unit::Nanos
    }
}

/// Nanoseconds in one `u`.
pub open spec fn unit_nanos(u: Unit) -> nat {
    match u {
        Unit::Seconds => NANOS_PER_SEC as nat,
        Unit::Millis => NANOS_PER_MILLI as nat,
        Unit::Micros => NANOS_PER_MICRO as nat,
        Unit::Nanos => 1,
    }
}

pub open spec fn unit_suffix(u: Unit) -> Seq<char> {
    match u {
        Unit::Seconds => "s"@,
        Unit::Millis => "ms"@,
        Unit::Micros => "us"@,
        Unit::Nanos => "ns"@,
    }
}

/// The color in which amounts of `u` are shown.
pub open spec fn unit_params(u: Unit) -> Seq<char> {
    match u {
        Unit::Seconds => red_params(),
        Unit::Millis => yellow_params(),
        Unit::Micros => green_params(),
        Unit::Nanos => white_params(),
    }
}

/// The whole number of `unit_of(n)` in `n`; what is left over is dropped.
pub open spec fn amount_of(n: nat) -> nat {
    n / unit_nanos(unit_of(n))
}

/// The text of the span `n`: its amount and its unit's suffix, both in the unit's color.
pub open spec fn duration_text(n: nat) -> Seq<char> {
    let u = unit_of(n);
    ansi(unit_params(u), decimal(amount_of(n))) + " "@ + ansi(unit_params(u), unit_suffix(u))
}

/// A duration as shown to a reader.
pub struct FDur(pub Duration);

impl FDur {
    /// The unit in which the duration is shown.
    pub fn unit(&self) -> (r: Unit)
        ensures
            r == unit_of(self.0@),
    {
        if self.0.as_secs() != 0 {
            Unit::Seconds
        } else if self.0.as_millis() != 0 {
            Unit::Millis
        } else if self.0.as_micros() != 0 {
            Unit::Micros
        } else {
            Unit::Nanos
        }
    }

    /// The whole number of units shown.
    pub fn amount(&self) -> (r: u128)
        ensures
            r == amount_of(self.0@),
    {
        match self.unit() {
            Unit::Seconds => self.0.as_secs(),
            Unit::Millis => self.0.as_millis(),
            Unit::Micros => self.0.as_micros(),
            Unit::Nanos => self.0.as_nanos(),
        }
    }

    /// The text of the duration.
    pub fn render(&self) -> (r: String)
        ensures
            r@ == duration_text(self.0@),
    {
        let unit = self.unit();
        let digits = decimal_text(self.amount());
        let (mut s, suffix) = match unit {
            Unit::Seconds => (red(digits.as_str()), red("s")),
            Unit::Millis => (yellow(digits.as_str()), yellow("ms")),
            Unit::Micros => (green(digits.as_str()), green("us")),
            Unit::Nanos => (white(digits.as_str()), white("ns")),
        };
        s.append(" ");
        s.append(suffix.as_str());
        s
    }
}

} // verus!
