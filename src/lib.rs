//! Lightweight instrumentation: mark a start point, then report at check points
//! the time elapsed since the start and since the previous check.
//!
//! The library holds the timing state machine, the duration formatter and the
//! rendering of each reported line. Reading the clock and writing to a sink are
//! left to the caller, who hands instants in and writes the returned lines out.

mod duration;
mod format;
mod lines;
mod scope;
mod stopwatch;
mod style;
mod timer;

pub use duration::{span_between, Duration, Instant};
pub use format::{
    amount_of, decimal, decimal_text, digit_char, duration_text, unit_nanos, unit_of,
    unit_params, unit_suffix, FDur, Unit,
};
pub use lines::{
    check_line, check_text, message_text, scope_line, scope_text, start_line, start_text,
};
pub use scope::TimeIt;
pub use stopwatch::{
    lemma_inactive_is_inert, lemma_start_switches_target, line_view, run, step, Call, Stopwatch,
    StopwatchModel,
};
pub use style::{
    ansi, bold_params, fg_params, green_params, italic_params, light_blue_params, red_params,
    white_params, yellow_params,
};
pub use timer::{
    checked, delta_at, latest, lemma_delta_is_difference_of_totals, lemma_start_resets_delta,
    started, total_at, TimerModel, TimerState,
};
