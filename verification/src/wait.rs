//! The protocol between a wait strategy and whoever drives it.
//!
//! A strategy neither sleeps nor reads a clock. It decides: given how a wait has
//! gone so far, it names the next [`Step`]. The driver carries the step out,
//! reads the clock, records in the [`Wait`] how much time has passed since it
//! last did so (or since the wait began), and asks again until the strategy
//! answers [`Step::Done`]. The times recorded thus add up to the time that has
//! passed since the wait began.
//!
//! A driver that has a clock of its own keeps a [`Wait`] and records what it
//! measured. One that goes by the monotonic clock of the platform keeps a
//! [`TimedWait`], which reads that clock whenever a step is recorded.
//!
//! A strategy is asked for a step only while it is set up to wait, which
//! [`Limiter::ready`] says: a strategy that waits under a finer timer period
//! is asked after the period was requested and before it is given back.
//!
//! Nothing is assumed of the clock. A sleep may take longer than it was asked
//! to, or less, and the strategy is told what it took. Where a statement in
//! this crate depends on sleeps that do not end early, or on a clock that
//! moves, it says so: see [`faithful`] and [`advancing`].

use vstd::prelude::*;
use std::time::Instant;
use crate::clock::elapsed;
use crate::clock::now;
use crate::duration::Duration;
use crate::duration::MAX_NANOS;

verus! {

/// What the driver of a wait is to do next.
#[derive(Clone, Copy, Debug, PartialEq, Eq, Structural)]
pub enum Step {
    /// Sleep for this long, then record the time that has passed.
    Sleep(Duration),
    /// Do not sleep: read the clock again at once and record the time that has
    /// passed.
    Spin,
    /// Return to the caller: the wait is over.
    Done,
}

/// A [`Step`] with its span in nanoseconds.
pub enum StepView {
    Sleep(nat),
    Spin,
    Done,
}

impl View for Step {
    type V = StepView;

    open spec fn view(&self) -> StepView {
        match *self {
            Step::Sleep(chunk) => StepView::Sleep(chunk@),
            Step::Spin => StepView::Spin,
            Step::Done => StepView::Done,
        }
    }
}

/// How one wait has gone so far, as its driver measured it.
#[derive(Clone, Copy, Debug, PartialEq, Eq, Structural)]
pub struct Wait {
    requested: Duration,
    total: Duration,
    slept: bool,
}

/// A [`Wait`] with its spans in nanoseconds.
pub struct WaitView {
    /// The time the caller asked to wait.
    pub requested: nat,
    /// The sum of the times recorded so far.
    pub total: nat,
    /// Whether a sleep has been recorded.
    pub slept: bool,
}

impl WaitView {
    /// A wait for `requested` nanoseconds of which nothing has passed.
    pub open spec fn start(requested: nat) -> WaitView {
        WaitView { requested, total: 0, slept: false }
    }

    /// The wait after `step` was carried out and took `measured` nanoseconds.
    pub open spec fn record(self, step: StepView, measured: nat) -> WaitView {
        WaitView {
            requested: self.requested,
            total: self.total + measured,
            slept: self.slept || step is Sleep,
        }
    }

    /// The part of the requested time that has not passed yet.
    pub open spec fn remaining(self) -> nat {
        if self.total < self.requested {
            (self.requested - self.total) as nat
        } else {
            0
        }
    }
}

impl View for Wait {
    type V = WaitView;

    closed spec fn view(&self) -> WaitView {
        WaitView { requested: self.requested@, total: self.total@, slept: self.slept }
    }
}

impl Wait {
    /// Begins a wait for `requested`.
    pub fn new(requested: Duration) -> (wait: Wait)
        ensures
            wait@ == WaitView::start(requested@),
    {
        Wait { requested, total: Duration::zero(), slept: false }
    }

    /// The time the caller asked to wait.
    pub fn requested(&self) -> (d: Duration)
        ensures
            d@ == self@.requested,
    {
        self.requested
    }

    /// The sum of the times recorded so far.
    pub fn total(&self) -> (d: Duration)
        ensures
            d@ == self@.total,
    {
        self.total
    }

    /// Whether a sleep has been recorded.
    pub fn slept(&self) -> (b: bool)
        ensures
            b == self@.slept,
    {
        self.slept
    }

    /// The part of the requested time that has not passed yet.
    pub fn remaining(&self) -> (d: Duration)
        ensures
            d@ == self@.remaining(),
    {
        self.requested.saturating_sub(self.total)
    }

    /// Whether `measured` can still be recorded: whether the total stays within
    /// the range of a [`Duration`].
    pub fn can_record(&self, measured: Duration) -> (b: bool)
        ensures
            b == (self@.total + measured@ <= MAX_NANOS),
    {
        self.total.checked_add(measured).is_some()
    }

    /// Records that `step` was carried out and took `measured`.
    pub fn record(&mut self, step: Step, measured: Duration)
        requires
            old(self)@.total + measured@ <= MAX_NANOS,
        ensures
            final(self)@ == old(self)@.record(step@, measured@),
    {
        let sum: Option<Duration> = self.total.checked_add(measured);
        self.total = sum.unwrap();
        if let Step::Sleep(_) = step {
            self.slept = true;
        }
    }
}

/// A wait that is measured on the monotonic clock of the platform: a [`Wait`]
/// together with the reading of the clock up to which it is recorded.
#[derive(Debug)]
pub struct TimedWait {
    wait: Wait,
    now: Instant,
}

impl View for TimedWait {
    type V = WaitView;

    /// How the wait has gone so far.
    closed spec fn view(&self) -> WaitView {
        self.wait@
    }
}

impl TimedWait {
    /// Reads the clock and begins a wait for `requested` there.
    pub fn begin(requested: Duration) -> (timed: TimedWait)
        ensures
            timed@ == WaitView::start(requested@),
    {
        TimedWait { wait: Wait::new(requested), now: now() }
    }

    /// How the wait has gone so far.
    pub fn progress(&self) -> (wait: Wait)
        ensures
            wait@ == self@,
    {
        self.wait
    }

    /// Reads the clock and records the time that has passed since it was last
    /// read for this wait as the time that `step` took. Returns that time.
    ///
    /// The clock is taken never to run backwards; where it does, no time has
    /// passed. Nothing is recorded where the time recorded so far and the time
    /// that has passed exceed the range of a [`Duration`] together.
    pub fn record(&mut self, step: Step) -> (measured: Duration)
        ensures
            final(self)@ == if old(self)@.total + measured@ <= MAX_NANOS {
                old(self)@.record(step@, measured@)
            } else {
                old(self)@
            },
    {
        let last_now: Instant = self.now;
        self.now = now();
        let delta: Duration = elapsed(&last_now, &self.now);
        if self.wait.can_record(delta) {
            self.wait.record(step, delta);
        }
        delta
    }
}

/// A wait strategy: the decision what to do next at each point of a wait.
pub trait Limiter {
    /// Whether the strategy is set up to wait: whether it holds what it needs
    /// from the platform. A strategy that needs nothing is always ready; one
    /// that waits under a finer timer period is ready while its request for
    /// that period stands.
    spec fn ready(&self) -> bool;

    /// The step the strategy takes when a wait stands at `wait`.
    spec fn plan(&self, wait: WaitView) -> StepView;

    /// Whether the strategy is set up to wait.
    fn is_ready(&self) -> (b: bool)
        ensures
            b == self.ready(),
    ;

    /// The next step of `wait`. Only a strategy that is set up is asked.
    fn next(&self, wait: &Wait) -> (step: Step)
        requires
            self.ready(),
        ensures
            step@ == self.plan(wait@),
    ;
}

/// The wait after a driver has gone on from `wait`: as long as the strategy
/// names a step other than `Done` and `measured` still holds a time, the step
/// is recorded with the next time of `measured`.
pub open spec fn run<L: Limiter>(limiter: L, wait: WaitView, measured: Seq<nat>) -> WaitView
    decreases measured.len(),
{
    if measured.len() == 0 || limiter.plan(wait) is Done {
        wait
    } else {
        run(limiter, wait.record(limiter.plan(wait), measured[0]), measured.drop_first())
    }
}

/// The number of steps that [`run`] records.
pub open spec fn steps<L: Limiter>(limiter: L, wait: WaitView, measured: Seq<nat>) -> nat
    decreases measured.len(),
{
    if measured.len() == 0 || limiter.plan(wait) is Done {
        0
    } else {
        1 + steps(limiter, wait.record(limiter.plan(wait), measured[0]), measured.drop_first())
    }
}

/// Whether no sleep of [`run`] ends early: whether each sleep that the strategy
/// asks for is measured to take at least as long as was asked.
pub open spec fn faithful<L: Limiter>(limiter: L, wait: WaitView, measured: Seq<nat>) -> bool
    decreases measured.len(),
{
    measured.len() == 0 || limiter.plan(wait) is Done || {
        &&& limiter.plan(wait) matches StepView::Sleep(chunk) ==> measured[0] >= chunk
        &&& faithful(
            limiter,
            wait.record(limiter.plan(wait), measured[0]),
            measured.drop_first(),
        )
    }
}

/// Whether the clock moves with every step: whether every measured time is at
/// least one nanosecond.
pub open spec fn advancing(measured: Seq<nat>) -> bool {
    forall|i: int| 0 <= i < measured.len() ==> measured[i] > 0
}

/// A run that stops before `measured` is used up has reached `Done`.
pub proof fn lemma_run_stops_when_done<L: Limiter>(
    limiter: L,
    wait: WaitView,
    measured: Seq<nat>,
)
    requires
        steps(limiter, wait, measured) < measured.len(),
    ensures
        limiter.plan(run(limiter, wait, measured)) is Done,
    decreases measured.len(),
{
    if !(limiter.plan(wait) is Done) {
        lemma_run_stops_when_done(
            limiter,
            wait.record(limiter.plan(wait), measured[0]),
            measured.drop_first(),
        );
    }
}

/// Recording a step never brings back time that had passed: the remaining part
/// of the requested time does not grow.
pub proof fn lemma_remaining_never_grows(wait: WaitView, step: StepView, measured: nat)
    ensures
        wait.record(step, measured).remaining() <= wait.remaining(),
        wait.record(step, measured).requested == wait.requested,
{
}

} // verus!
