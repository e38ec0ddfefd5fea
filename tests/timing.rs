use stime::{
    check_text, scope_text, start_text, Duration, FDur, Instant, Stopwatch, TimeIt, TimerState,
};

const LIGHT_BLUE: &str = "\x1b[38;2;0;150;255m";
const YELLOW: &str = "\x1b[38;2;255;255;0m";
const RED: &str = "\x1b[38;2;255;0;0m";
const BOLD: &str = "\x1b[1m";
const ITALIC: &str = "\x1b[3m";
const RESET: &str = "\x1b[0m";

fn at(nanos: u128) -> Instant {
    Instant::from_nanos(nanos)
}

fn nanos(n: u128) -> Duration {
    Duration::from_nanos(n)
}

fn message(msg: &str) -> String {
    format!("{ITALIC}{LIGHT_BLUE}{msg}{RESET}{RESET}")
}

fn expected_start(msg: &str) -> String {
    format!("{BOLD}{RED}Starting{RESET}{RESET} {}\n", message(msg))
}

fn expected_check(total: u128, delta: u128, msg: &str) -> String {
    format!(
        "{LIGHT_BLUE}[{RESET}{BOLD}TotalTime:{RESET} {} {LIGHT_BLUE}/{RESET} {BOLD}DeltaTime:{RESET} {}{LIGHT_BLUE}]{RESET} {}\n",
        FDur(nanos(total)).render(),
        FDur(nanos(delta)).render(),
        message(msg)
    )
}

#[test]
fn delta_between_consecutive_checks() {
    let mut t = TimerState::new(at(100));
    let (total, delta) = t.check(at(250));
    assert_eq!((total.as_nanos(), delta.as_nanos()), (150, 150));
    let (total, delta) = t.check(at(400));
    assert_eq!((total.as_nanos(), delta.as_nanos()), (300, 150));
    let (total, delta) = t.check(at(400));
    assert_eq!((total.as_nanos(), delta.as_nanos()), (300, 0));
}

#[test]
fn restart_resets_delta() {
    let mut t = TimerState::new(at(0));
    t.check(at(1_000));
    t.check(at(5_000));
    t.restart(at(6_000));
    assert_eq!(t.last, None);
    let (total, delta) = t.check(at(8_500));
    assert_eq!((total.as_nanos(), delta.as_nanos()), (2_500, 2_500));
}

#[test]
fn check_before_any_start_counts_from_origin() {
    let mut t = TimerState::new(at(0));
    let (total, delta) = t.check(at(42));
    assert_eq!(total, delta);
    assert_eq!(total.as_nanos(), 42);
}

#[test]
fn accepted_readings() {
    let mut t = TimerState::new(at(100));
    assert!(!t.accepts(&at(99)));
    assert!(t.accepts(&at(100)));
    t.check(at(300));
    assert!(!t.accepts(&at(299)));
    assert!(t.accepts(&at(300)));
}

#[test]
fn instants_saturate() {
    assert_eq!(at(10).duration_since(&at(4)).as_nanos(), 6);
    assert_eq!(at(4).duration_since(&at(10)).as_nanos(), 0);
    assert_eq!(at(77).as_nanos(), 77);
}

#[test]
fn start_line_text() {
    assert_eq!(start_text("work"), expected_start("work"));
}

#[test]
fn check_line_text() {
    let line = check_text(&nanos(3_700_000_000), &nanos(1_500_000), "b");
    assert_eq!(line, expected_check(3_700_000_000, 1_500_000, "b"));
    assert!(line.contains("TotalTime:"));
    assert!(line.ends_with('\n'));
    assert_eq!(line.matches('\n').count(), 1);
}

#[test]
fn scope_line_text() {
    let line = scope_text("load", &nanos(2_000));
    let expected = format!(
        "{ITALIC}{YELLOW}load{RESET}{RESET}: {}\n",
        FDur(nanos(2_000)).render()
    );
    assert_eq!(line, expected);
}

#[test]
fn inactive_stopwatch_does_nothing() {
    let mut s = Stopwatch::new(false, at(0), "stderr");
    assert!(!s.is_active());
    assert_eq!(s.start(Some("x"), "a", at(10)), None);
    assert_eq!(s.check("b", at(20)), None);
    assert_eq!(s.check("c", at(30)), None);
    assert_eq!(*s.target(), "stderr");
    assert_eq!(s.timer().start, at(0));
    assert_eq!(s.timer().last, None);
}

#[test]
fn start_with_target_then_check() {
    let mut s = Stopwatch::new(true, at(0), "stderr");
    let first = s.start(Some("x"), "a", at(1_000));
    assert_eq!(*s.target(), "x");
    assert_eq!(first, Some(expected_start("a")));
    let second = s.check("b", at(3_000));
    assert_eq!(*s.target(), "x");
    assert_eq!(second, Some(expected_check(2_000, 2_000, "b")));
}

#[test]
fn start_without_target_keeps_sink() {
    let mut s = Stopwatch::new(true, at(0), "y");
    s.start(None, "a", at(5));
    assert_eq!(*s.target(), "y");
}

#[test]
fn stopwatch_deltas_follow_checks() {
    let mut s = Stopwatch::new(true, at(0), ());
    s.start(None, "go", at(1_000_000));
    assert_eq!(s.check("one", at(3_000_000)), Some(expected_check(2_000_000, 2_000_000, "one")));
    assert_eq!(s.check("two", at(3_500_000)), Some(expected_check(2_500_000, 500_000, "two")));
    s.start(None, "again", at(4_000_000));
    assert_eq!(s.check("three", at(4_000_700)), Some(expected_check(700, 700, "three")));
}

#[test]
fn sink_can_be_written_and_swapped() {
    let mut s: Stopwatch<Vec<u8>> = Stopwatch::new(true, at(0), Vec::new());
    let line = s.start(None, "a", at(1)).unwrap();
    s.target_mut().extend_from_slice(line.as_bytes());
    assert_eq!(s.target().as_slice(), line.as_bytes());
    s.set_target(Vec::new());
    assert!(s.target().is_empty());
    assert!(s.is_active());
}

#[test]
fn scoped_timer_reports_once_whatever_the_flag() {
    let t = TimeIt::new("scope", at(1_000));
    let line = t.report(at(4_000_000));
    assert_eq!(line, scope_text("scope", &nanos(3_999_000)));
    assert_eq!(line.matches('\n').count(), 1);
}
