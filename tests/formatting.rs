use scolor::ColorExt;
use stime::{decimal_text, Duration, FDur, Unit};

const RED: &str = "\x1b[38;2;255;0;0m";
const YELLOW: &str = "\x1b[38;2;255;255;0m";
const GREEN: &str = "\x1b[38;2;0;255;0m";
const WHITE: &str = "\x1b[38;2;255;255;255m";
const RESET: &str = "\x1b[0m";

fn fdur(nanos: u128) -> FDur {
    FDur(Duration::from_nanos(nanos))
}

fn painted(color: &str, amount: &str, suffix: &str) -> String {
    format!("{color}{amount}{RESET} {color}{suffix}{RESET}")
}

#[test]
fn nanosecond_band() {
    for n in [0u128, 1, 999] {
        assert_eq!(fdur(n).unit(), Unit::Nanos);
        assert_eq!(fdur(n).amount(), n);
    }
}

#[test]
fn microsecond_band() {
    assert_eq!(fdur(1_000).unit(), Unit::Micros);
    assert_eq!(fdur(1_000).amount(), 1);
    assert_eq!(fdur(999_999).unit(), Unit::Micros);
    assert_eq!(fdur(999_999).amount(), 999);
}

#[test]
fn millisecond_band() {
    assert_eq!(fdur(1_000_000).unit(), Unit::Millis);
    assert_eq!(fdur(1_500_000).unit(), Unit::Millis);
    assert_eq!(fdur(1_500_000).amount(), 1);
    assert_eq!(fdur(999_999_999).unit(), Unit::Millis);
    assert_eq!(fdur(999_999_999).amount(), 999);
}

#[test]
fn second_band() {
    assert_eq!(fdur(1_000_000_000).unit(), Unit::Seconds);
    assert_eq!(fdur(3_700_000_000).amount(), 3);
    assert_eq!(fdur(u128::MAX).unit(), Unit::Seconds);
}

#[test]
fn render_each_unit() {
    assert_eq!(fdur(1_500_000).render(), painted(YELLOW, "1", "ms"));
    assert_eq!(fdur(3_700_000_000).render(), painted(RED, "3", "s"));
    assert_eq!(fdur(42_123).render(), painted(GREEN, "42", "us"));
    assert_eq!(fdur(0).render(), painted(WHITE, "0", "ns"));
    assert_eq!(fdur(999).render(), painted(WHITE, "999", "ns"));
}

#[test]
fn render_matches_scolor_display() {
    let expected = format!("{} {}", 1u64.yellow(), "ms".yellow());
    assert_eq!(fdur(1_500_000).render(), expected);
}

#[test]
fn decimal_digits() {
    assert_eq!(decimal_text(0), "0");
    assert_eq!(decimal_text(7), "7");
    assert_eq!(decimal_text(10), "10");
    assert_eq!(decimal_text(407), "407");
    assert_eq!(decimal_text(u128::MAX), u128::MAX.to_string());
}

#[test]
fn duration_conversions() {
    let d = Duration::from_nanos(2_345_678_901);
    assert_eq!(d.as_nanos(), 2_345_678_901);
    assert_eq!(d.as_micros(), 2_345_678);
    assert_eq!(d.as_millis(), 2_345);
    assert_eq!(d.as_secs(), 2);
    assert_eq!(d.minus(&Duration::from_nanos(901)).as_nanos(), 2_345_678_000);
}
