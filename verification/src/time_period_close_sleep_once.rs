//! One coarse sleep and a short spin, held together with a request for a finer
//! timer period.
//!
//! With the finer period in force a sleep may end about one period early or
//! late. So the strategy sleeps once, for the requested time less a margin of
//! two periods, and spins through the rest. However long the requested time,
//! the spin is no longer than the margin.

use vstd::prelude::*;
use crate::duration::Duration;
use crate::duration::NANOS_PER_MICRO;
use crate::duration::NANOS_PER_MILLI;
use crate::time_period::period_or_fallback;
use crate::time_period::PeriodCall;
use crate::time_period::TimePeriod;
use crate::time_period::TimePeriodView;
use crate::wait::advancing;
use crate::wait::faithful;
use crate::wait::lemma_run_stops_when_done;
use crate::wait::run;
use crate::wait::steps;
use crate::wait::Limiter;
use crate::wait::Step;
use crate::wait::StepView;
use crate::wait::Wait;
use crate::wait::WaitView;

verus! {

/// The tolerance of the strategy, in microseconds: the wait ends this much
/// before the requested time is up.
pub const CLOSE_ENOUGH_MICROS: u64 = 2;

/// The tolerance of the strategy, in nanoseconds.
pub open spec fn close_enough_nanos() -> nat {
    (CLOSE_ENOUGH_MICROS * NANOS_PER_MICRO) as nat
}

/// The time, in nanoseconds, after which the wait ends: the requested time less
/// the tolerance, and nothing for a request within the tolerance.
pub open spec fn target(requested: nat, tolerance: nat) -> nat {
    if requested > tolerance {
        (requested - tolerance) as nat
    } else {
        0
    }
}

/// The margin, in nanoseconds, that is kept free of sleep before the target:
/// two timer periods of `min_period` milliseconds each.
pub open spec fn safe_sleep(min_period: u32) -> nat {
    2 * (min_period * NANOS_PER_MILLI) as nat
}

/// The one sleep of the wait, in nanoseconds: the target less the margin, and
/// none when the target lies within the margin.
pub open spec fn coarse_sleep(requested: nat, tolerance: nat, min_period: u32) -> Option<nat> {
    if target(requested, tolerance) > safe_sleep(min_period) {
        Some((target(requested, tolerance) - safe_sleep(min_period)) as nat)
    } else {
        None
    }
}

/// The strategy of one sleep and a spin.
#[derive(Debug)]
pub struct LimiterImpl {
    period: TimePeriod,
    close_enough: Duration,
}

/// What a [`LimiterImpl`] holds.
pub struct LimiterView {
    /// The tolerance, in nanoseconds.
    pub close_enough: nat,
    /// The request for a timer period.
    pub period: TimePeriodView,
}

impl View for LimiterImpl {
    type V = LimiterView;

    closed spec fn view(&self) -> LimiterView {
        LimiterView { close_enough: self.close_enough@, period: self.period@ }
    }
}

impl LimiterImpl {
    /// The strategy with its tolerance of 2 microseconds and an idle request
    /// for the period that `queried` leads to: the platform's answer to the
    /// question for the shortest period it supports, `None` if that failed.
    pub fn new(queried: Option<u32>) -> (limiter: LimiterImpl)
        ensures
            limiter@ == (LimiterView {
                close_enough: close_enough_nanos(),
                period: TimePeriodView::idle(period_or_fallback(queried)),
            }),
    {
        LimiterImpl {
            period: TimePeriod::new(queried),
            close_enough: Duration::from_micros(CLOSE_ENOUGH_MICROS),
        }
    }

    /// The tolerance.
    pub fn close_enough(&self) -> (d: Duration)
        ensures
            d@ == self@.close_enough,
    {
        self.close_enough
    }

    /// The timer period that the strategy requests, in milliseconds.
    pub fn min_period(&self) -> (period: u32)
        ensures
            period == self@.period.min_period,
    {
        self.period.min_period()
    }

    /// The margin that is kept free of sleep before the target.
    pub fn safe_sleep_duration(&self) -> (d: Duration)
        ensures
            d@ == safe_sleep(self@.period.min_period),
    {
        let period: Duration = Duration::from_millis(self.period.min_period() as u64);
        period.checked_mul(2).unwrap()
    }

    /// Makes the request for the timer period if it is idle, and returns the
    /// call that the owner is to make to the platform, if any.
    pub fn init(&mut self) -> (call: Option<PeriodCall>)
        ensures
            (final(self)@.period, call) == old(self)@.period.init(),
            final(self)@.close_enough == old(self)@.close_enough,
    {
        self.period.init()
    }

    /// Gives the request for the timer period back if it is active, and returns
    /// the call that the owner is to make to the platform, if any.
    pub fn shutdown(&mut self) -> (call: Option<PeriodCall>)
        ensures
            (final(self)@.period, call) == old(self)@.period.shutdown(),
            final(self)@.close_enough == old(self)@.close_enough,
    {
        self.period.shutdown()
    }
}

impl Limiter for LimiterImpl {
    /// While the request for the timer period is active.
    open spec fn ready(&self) -> bool {
        self@.period.phase is Active
    }

    /// Before anything was slept, take the [`coarse_sleep`] if there is one.
    /// After that, spin until the recorded time has reached the [`target`].
    open spec fn plan(&self, wait: WaitView) -> StepView {
        let goal = target(wait.requested, self@.close_enough);
        let sleep = coarse_sleep(wait.requested, self@.close_enough, self@.period.min_period);
        if !wait.slept && sleep is Some {
            StepView::Sleep(sleep->0)
        } else if wait.total < goal {
            StepView::Spin
        } else {
            StepView::Done
        }
    }

    fn is_ready(&self) -> (b: bool) {
        self.period.is_active()
    }

    fn next(&self, wait: &Wait) -> (step: Step) {
        let target_duration: Duration = wait.requested().saturating_sub(self.close_enough);
        let safe_sleep_duration: Duration = self.safe_sleep_duration();
        if !wait.slept() && target_duration.as_nanos() > safe_sleep_duration.as_nanos() {
            Step::Sleep(target_duration.saturating_sub(safe_sleep_duration))
        } else if wait.total().as_nanos() < target_duration.as_nanos() {
            Step::Spin
        } else {
            Step::Done
        }
    }
}

/// The boxed strategy that [`LimiterImpl::new`] makes.
pub fn create(queried: Option<u32>) -> (limiter: Box<LimiterImpl>)
    ensures
        limiter@ == (LimiterView {
            close_enough: close_enough_nanos(),
            period: TimePeriodView::idle(period_or_fallback(queried)),
        }),
{
    Box::new(LimiterImpl::new(queried))
}

/// The spin is short, however long the requested time: whenever the strategy
/// spins, and the sleep before it (if there was one) did not end early, the
/// time still to go is at most the margin of two timer periods, and so at most
/// that margin plus the tolerance.
pub proof fn lemma_spin_bounded(limiter: LimiterImpl, wait: WaitView)
    requires
        limiter.plan(wait) is Spin,
        sleep_honoured(limiter, wait),
    ensures
        target(wait.requested, limiter@.close_enough) - wait.total <= safe_sleep(
            limiter@.period.min_period,
        ),
        target(wait.requested, limiter@.close_enough) - wait.total <= safe_sleep(
            limiter@.period.min_period,
        ) + limiter@.close_enough,
{
}

/// Whether the sleep of `wait`, if one is recorded, has brought the wait to
/// within the margin of its target.
pub open spec fn sleep_honoured(limiter: LimiterImpl, wait: WaitView) -> bool {
    wait.slept ==> wait.total + safe_sleep(limiter@.period.min_period) >= target(
        wait.requested,
        limiter@.close_enough,
    )
}

/// In a wait whose sleep does not end early, the spin is short at every point:
/// wherever such a wait has got to, if the strategy spins there, the time still
/// to go is at most the margin of two timer periods.
pub proof fn lemma_spin_bounded_throughout(
    limiter: LimiterImpl,
    requested: nat,
    measured: Seq<nat>,
)
    requires
        faithful(limiter, WaitView::start(requested), measured),
    ensures
        ({
            let reached = run(limiter, WaitView::start(requested), measured);
            limiter.plan(reached) is Spin ==> target(requested, limiter@.close_enough)
                - reached.total <= safe_sleep(limiter@.period.min_period)
        }),
{
    lemma_sleep_stays_honoured(limiter, WaitView::start(requested), measured);
}

/// A wait in which the sleep was honoured stays so while it runs on without a
/// sleep that ends early.
proof fn lemma_sleep_stays_honoured(limiter: LimiterImpl, wait: WaitView, measured: Seq<nat>)
    requires
        sleep_honoured(limiter, wait),
        faithful(limiter, wait, measured),
    ensures
        sleep_honoured(limiter, run(limiter, wait, measured)),
        run(limiter, wait, measured).requested == wait.requested,
    decreases measured.len(),
{
    if measured.len() > 0 && !(limiter.plan(wait) is Done) {
        lemma_sleep_stays_honoured(
            limiter,
            wait.record(limiter.plan(wait), measured[0]),
            measured.drop_first(),
        );
    }
}

/// The wait returns: as long as the clock moves with every step, the strategy
/// asks for at most one sleep and then for at most as many spins as
/// nanoseconds were left to its target, however many measurements are on
/// offer, and is done once it has been offered more than that.
pub proof fn lemma_wait_returns(limiter: LimiterImpl, wait: WaitView, measured: Seq<nat>)
    requires
        advancing(measured),
    ensures
        steps(limiter, wait, measured) <= 1 + target(wait.requested, limiter@.close_enough),
        measured.len() > 1 + target(wait.requested, limiter@.close_enough) ==> limiter.plan(
            run(limiter, wait, measured),
        ) is Done,
{
    lemma_steps_bounded(limiter, wait, measured);
    if measured.len() > 1 + target(wait.requested, limiter@.close_enough) {
        lemma_run_stops_when_done(limiter, wait, measured);
    }
}

/// With a clock that moves, the steps still to come are at most the
/// nanoseconds left to the target, and one more while the sleep is still to
/// come.
proof fn lemma_steps_bounded(limiter: LimiterImpl, wait: WaitView, measured: Seq<nat>)
    requires
        advancing(measured),
    ensures
        steps(limiter, wait, measured) <= (if wait.slept {
            0nat
        } else {
            1nat
        }) + if wait.total < target(wait.requested, limiter@.close_enough) {
            (target(wait.requested, limiter@.close_enough) - wait.total) as nat
        } else {
            0nat
        },
    decreases measured.len(),
{
    if measured.len() > 0 && !(limiter.plan(wait) is Done) {
        let rest = measured.drop_first();
        assert(advancing(rest)) by {
            assert forall|i: int| 0 <= i < rest.len() implies rest[i] > 0 by {
                assert(rest[i] == measured[i + 1]);
            }
        }
        lemma_steps_bounded(limiter, wait.record(limiter.plan(wait), measured[0]), rest);
    }
}

/// When the strategy is done, the wait has reached its target: at most the
/// tolerance is missing from the requested time.
pub proof fn lemma_done_reaches_target(limiter: LimiterImpl, wait: WaitView)
    requires
        limiter.plan(wait) is Done,
    ensures
        wait.total >= target(wait.requested, limiter@.close_enough),
        wait.remaining() <= limiter@.close_enough,
{
}

/// A wait whose target lies within the margin is a spin from beginning to end:
/// at no point of it does the strategy ask for a sleep.
pub proof fn lemma_short_wait_only_spins(limiter: LimiterImpl, wait: WaitView)
    requires
        target(wait.requested, limiter@.close_enough) <= safe_sleep(limiter@.period.min_period),
    ensures
        !(limiter.plan(wait) is Sleep),
{
}

/// The strategy sleeps at most once in a wait: once a sleep is recorded, no
/// step of the wait is a sleep again.
pub proof fn lemma_sleeps_once(limiter: LimiterImpl, wait: WaitView, measured: nat)
    requires
        limiter.plan(wait) is Sleep,
    ensures
        !(limiter.plan(wait.record(limiter.plan(wait), measured)) is Sleep),
{
}

} // verus!
