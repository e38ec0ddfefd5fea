use crate::duration::Instant;
use crate::lines::{check_line, check_text, start_line, start_text};
use crate::timer::{checked, delta_at, latest, started, total_at, TimerModel, TimerState};
use vstd::prelude::*;

verus! {

/// The instrument as a mathematical value: whether it is switched on, its
/// timer, and the sink its lines go to.
pub struct StopwatchModel<W> {
    pub active: bool,
    pub timer: TimerModel,
    pub target: W,
}

/// One call on the instrument, with the clock reading it is made at.
pub enum Call<W> {
    Start { target: Option<W>, msg: Seq<char>, now: nat },
    Check { msg: Seq<char>, now: nat },
}

/// What one call does: the next state, and the line it writes (to the sink of
/// the next state), if any.
pub open spec fn step<W>(s: StopwatchModel<W>, c: Call<W>) -> (StopwatchModel<W>, Option<
    Seq<char>,
>) {
    if !s.active {
        (s, None)
    } else {
        match c {
            Call::Start { target, msg, now } => (
                StopwatchModel {
                    active: true,
                    timer: started(now),
                    target: match target {
                        Some(t) => t,
                        None => s.target,
                    },
                },
                Some(start_line(msg)),
            ),
            Call::Check { msg, now } => (
                StopwatchModel { active: true, timer: checked(s.timer, now), target: s.target },
                Some(check_line(total_at(s.timer, now), delta_at(s.timer, now), msg)),
            ),
        }
    }
}

/// A sequence of calls: the final state, and each line written, paired with the
/// sink it is written to.
pub open spec fn run<W>(s: StopwatchModel<W>, calls: Seq<Call<W>>) -> (StopwatchModel<W>, Seq<
    (W, Seq<char>),
>)
    decreases calls.len(),
{
    if calls.len() == 0 {
        (s, seq![])
    } else {
        let (next, line) = step(s, calls[0]);
        let (last, rest) = run(next, calls.drop_first());
        match line {
            Some(l) => (last, seq![(next.target, l)] + rest),
            None => (last, rest),
        }
    }
}

/// The text of an optional line.
pub open spec fn line_view(r: Option<String>) -> Option<Seq<char>> {
    match r {
        Some(s) => Some(s@),
        None => None,
    }
}

/// The timing instrument: an activation flag fixed at creation, the timer, and
/// the sink that the lines are meant for. Each call returns the line to write to
/// the sink it holds after the call; when the activation flag is off every call does nothing.
pub struct Stopwatch<W> {
    active: bool,
    timer: TimerState,
    target: W,
}

impl<W> View for Stopwatch<W> {
    type V = StopwatchModel<W>;

    closed spec fn view(&self) -> StopwatchModel<W> {
        StopwatchModel { active: self.active, timer: self.timer@, target: self.target }
    }
}

impl<W> Stopwatch<W> {
    /// An instrument whose timer counts from `origin` until its first start.
    pub fn new(active: bool, origin: Instant, target: W) -> (r: Stopwatch<W>)
        ensures
            r@ == (StopwatchModel { active, timer: started(origin@), target }),
    {
        Stopwatch { active, timer: TimerState::new(origin), target }
    }

    /// Whether the activation flag is on.
    pub fn is_active(&self) -> (r: bool)
        ensures
            r == self@.active,
    {
        self.active
    }

    /// The timer's state.
    pub fn timer(&self) -> (r: TimerState)
        ensures
            r@ == self@.timer,
    {
        self.timer
    }

    /// The sink the lines are meant for.
    pub fn target(&self) -> (r: &W)
        ensures
            *r == self@.target,
    {
        &self.target
    }

    /// Replaces the sink; the timer and the activation flag are kept.
    pub fn set_target(&mut self, target: W)
        ensures
            final(self)@ == (StopwatchModel { target, ..old(self)@ }),
    {
        self.target = target;
    }

    /// The sink, to write a returned line to. Only the sink can change through it.
    pub fn target_mut(&mut self) -> (r: &mut W)
        ensures
            *r == old(self)@.target,
            final(self)@ == (StopwatchModel { target: *final(r), ..old(self)@ }),
    {
        &mut self.target
    }

    /// Starts the timer at `now`, first switching to `target` where one is
    /// given, and returns the line announcing the start.
    pub fn start(&mut self, target: Option<W>, msg: &str, now: Instant) -> (r: Option<String>)
        ensures
            (final(self)@, line_view(r)) == step(
                old(self)@,
                Call::Start { target, msg: msg@, now: now@ },
            ),
    {
        if !self.active {
            return None;
        }
        if let Some(t) = target {
            self.target = t;
        }
        self.timer.restart(now);
        Some(start_text(msg))
    }

    /// Takes a check at `now` and returns the line that reports it. The clock is
    /// monotonic, so `now` is not before the timer's latest reading.
    pub fn check(&mut self, msg: &str, now: Instant) -> (r: Option<String>)
        requires
            old(self)@.active ==> latest(old(self)@.timer) <= now@,
        ensures
            (final(self)@, line_view(r)) == step(
                old(self)@,
                Call::Check { msg: msg@, now: now@ },
            ),
    {
        if !self.active {
            return None;
        }
        let (total, delta) = self.timer.check(now);
        Some(check_text(&total, &delta, msg))
    }
}

/// With the activation flag off, no sequence of calls writes a line or changes the state.
pub proof fn lemma_inactive_is_inert<W>(s: StopwatchModel<W>, calls: Seq<Call<W>>)
    requires
        !s.active,
    ensures
        run(s, calls) == (s, Seq::<(W, Seq<char>)>::empty()),
    decreases calls.len(),
{
    if calls.len() > 0 {
        lemma_inactive_is_inert(s, calls.drop_first());
    }
}

/// A start that switches to sink `x`, followed by a check, writes both of its
/// lines to `x` and none to the sink held before.
pub proof fn lemma_start_switches_target<W>(
    s: StopwatchModel<W>,
    x: W,
    a: Seq<char>,
    b: Seq<char>,
    t1: nat,
    t2: nat,
)
    requires
        s.active,
        t1 <= t2,
    ensures
        ({
            let calls = seq![
                Call::Start { target: Some(x), msg: a, now: t1 },
                Call::Check { msg: b, now: t2 },
            ];
            let (last, lines) = run(s, calls);
            &&& last.target == x
            &&& lines.len() == 2
            &&& lines[0] == (x, start_line(a))
            &&& lines[1] == (x, check_line((t2 - t1) as nat, (t2 - t1) as nat, b))
        }),
{
    let calls = seq![
        Call::Start { target: Some(x), msg: a, now: t1 },
        Call::Check { msg: b, now: t2 },
    ];
    let c2 = seq![Call::Check { msg: b, now: t2 }];
    let s1 = step(s, calls[0]).0;
    let s2 = step(s1, c2[0]).0;
    assert(calls.drop_first() =~= c2);
    assert(c2.drop_first() =~= Seq::<Call<W>>::empty());
    assert(run(s2, c2.drop_first()) == (s2, Seq::<(W, Seq<char>)>::empty()));
    assert(run(s1, c2) == (s2, seq![(x, check_line((t2 - t1) as nat, (t2 - t1) as nat, b))]));
    assert(run(s, calls).1 =~= seq![
        (x, start_line(a)),
        (x, check_line((t2 - t1) as nat, (t2 - t1) as nat, b)),
    ]);
}

} // verus!
