//! The halving wait, held together with a request for a finer timer period.
//!
//! The strategy never trusts one sleep to last as long as it was asked to.
//! It sleeps for half of what is left of the requested time, looks at how long
//! that really took, and halves what is left then, until the wait is close
//! enough to the requested time. It never spins: what is left at the end, at
//! most a little more than twice the tolerance, is the price of that.

use vstd::prelude::*;
use vstd::arithmetic::power2::lemma2_to64;
use vstd::arithmetic::power2::lemma_pow2_unfold;
use vstd::arithmetic::power2::pow2;
use crate::duration::Duration;
use crate::duration::NANOS_PER_MICRO;
use crate::time_period::period_or_fallback;
use crate::time_period::PeriodCall;
use crate::time_period::TimePeriod;
use crate::time_period::TimePeriodView;
use crate::wait::advancing;
use crate::wait::faithful;
use crate::wait::lemma_run_stops_when_done;
use crate::wait::run;
use crate::wait::steps;
use crate::wait::Limiter;
use crate::wait::Step;
use crate::wait::StepView;
use crate::wait::Wait;
use crate::wait::WaitView;

verus! {

/// The tolerance of the strategy, in microseconds: a wait is close enough once
/// less than this is missing from it.
pub const CLOSE_ENOUGH_MICROS: u64 = 500;

/// The tolerance of the strategy, in nanoseconds.
pub open spec fn close_enough_nanos() -> nat {
    (CLOSE_ENOUGH_MICROS * NANOS_PER_MICRO) as nat
}

/// The sleep that the halving wait takes next, in nanoseconds, when `total` of
/// the `requested` time has passed, or `None` when the wait is over.
///
/// A request within the tolerance is over before it begins. Otherwise the wait
/// goes on while less than `requested - tolerance` has passed and half of what
/// is left is still more than the tolerance; it then sleeps for that half.
pub open spec fn next_sleep(requested: nat, tolerance: nat, total: nat) -> Option<nat> {
    if requested > tolerance && total < requested - tolerance && (requested - total) / 2
        > tolerance {
        Some(((requested - total) / 2) as nat)
    } else {
        None
    }
}

/// The halving wait strategy.
#[derive(Debug)]
pub struct LimiterImpl {
    close_enough: Duration,
    period: TimePeriod,
}

/// What a [`LimiterImpl`] holds.
pub struct LimiterView {
    /// The tolerance, in nanoseconds.
    pub close_enough: nat,
    /// The request for a timer period.
    pub period: TimePeriodView,
}

impl View for LimiterImpl {
    type V = LimiterView;

    closed spec fn view(&self) -> LimiterView {
        LimiterView { close_enough: self.close_enough@, period: self.period@ }
    }
}

impl LimiterImpl {
    /// The strategy with its tolerance of 500 microseconds and an idle request
    /// for the period that `queried` leads to: the platform's answer to the
    /// question for the shortest period it supports, `None` if that failed.
    pub fn new(queried: Option<u32>) -> (limiter: LimiterImpl)
        ensures
            limiter@ == (LimiterView {
                close_enough: close_enough_nanos(),
                period: TimePeriodView::idle(period_or_fallback(queried)),
            }),
    {
        LimiterImpl {
            close_enough: Duration::from_micros(CLOSE_ENOUGH_MICROS),
            period: TimePeriod::new(queried),
        }
    }

    /// The tolerance.
    pub fn close_enough(&self) -> (d: Duration)
        ensures
            d@ == self@.close_enough,
    {
        self.close_enough
    }

    /// The timer period that the strategy requests, in milliseconds.
    pub fn min_period(&self) -> (period: u32)
        ensures
            period == self@.period.min_period,
    {
        self.period.min_period()
    }

    /// Makes the request for the timer period if it is idle, and returns the
    /// call that the owner is to make to the platform, if any.
    pub fn init(&mut self) -> (call: Option<PeriodCall>)
        ensures
            (final(self)@.period, call) == old(self)@.period.init(),
            final(self)@.close_enough == old(self)@.close_enough,
    {
        self.period.init()
    }

    /// Gives the request for the timer period back if it is active, and returns
    /// the call that the owner is to make to the platform, if any.
    pub fn shutdown(&mut self) -> (call: Option<PeriodCall>)
        ensures
            (final(self)@.period, call) == old(self)@.period.shutdown(),
            final(self)@.close_enough == old(self)@.close_enough,
    {
        self.period.shutdown()
    }
}

impl Limiter for LimiterImpl {
    /// While the request for the timer period is active.
    open spec fn ready(&self) -> bool {
        self@.period.phase is Active
    }

    /// Sleep for [`next_sleep`] as long as there is one; never spin.
    open spec fn plan(&self, wait: WaitView) -> StepView {
        match next_sleep(wait.requested, self@.close_enough, wait.total) {
            Some(chunk) => StepView::Sleep(chunk),
            None => StepView::Done,
        }
    }

    fn is_ready(&self) -> (b: bool) {
        self.period.is_active()
    }

    fn next(&self, wait: &Wait) -> (step: Step) {
        let requested: u128 = wait.requested().as_nanos();
        let tolerance: u128 = self.close_enough.as_nanos();
        if requested > tolerance {
            let target: u128 = requested - tolerance;
            let current: Duration = wait.remaining().checked_div(2).unwrap();
            if wait.total().as_nanos() < target && current.as_nanos() > tolerance {
                Step::Sleep(current)
            } else {
                Step::Done
            }
        } else {
            Step::Done
        }
    }
}

/// The boxed strategy that [`LimiterImpl::new`] makes.
pub fn create(queried: Option<u32>) -> (limiter: Box<LimiterImpl>)
    ensures
        limiter@ == (LimiterView {
            close_enough: close_enough_nanos(),
            period: TimePeriodView::idle(period_or_fallback(queried)),
        }),
{
    Box::new(LimiterImpl::new(queried))
}

/// A request within the tolerance is over at once: the strategy asks for no
/// sleep, whatever has been recorded.
pub proof fn lemma_within_tolerance_no_sleep(
    limiter: LimiterImpl,
    wait: WaitView,
    measured: Seq<nat>,
)
    requires
        wait.requested <= limiter@.close_enough,
    ensures
        limiter.plan(wait) is Done,
        steps(limiter, wait, measured) == 0,
{
}

/// Each sleep is computed from a gap that is no larger than the one before: if
/// the strategy asks for a sleep both before and after a step is recorded, the
/// later sleep is no longer than the earlier one, and each is half of what was
/// left of the requested time when it was asked for.
pub proof fn lemma_chunks_never_grow(
    limiter: LimiterImpl,
    wait: WaitView,
    step: StepView,
    measured: nat,
)
    requires
        limiter.plan(wait) is Sleep,
        limiter.plan(wait.record(step, measured)) is Sleep,
    ensures
        limiter.plan(wait)->Sleep_0 == wait.remaining() / 2,
        limiter.plan(wait.record(step, measured))->Sleep_0 == wait.record(
            step,
            measured,
        ).remaining() / 2,
        wait.record(step, measured).remaining() <= wait.remaining(),
        limiter.plan(wait.record(step, measured))->Sleep_0 <= limiter.plan(wait)->Sleep_0,
{
}

/// The wait returns: as long as the clock moves with every sleep, the strategy
/// asks for at most as many sleeps as nanoseconds were left of the requested
/// time, however many measurements are on offer, and is done once it has been
/// offered more than that.
pub proof fn lemma_wait_returns(limiter: LimiterImpl, wait: WaitView, measured: Seq<nat>)
    requires
        advancing(measured),
    ensures
        steps(limiter, wait, measured) <= wait.remaining(),
        measured.len() > wait.remaining() ==> limiter.plan(run(limiter, wait, measured)) is Done,
    decreases measured.len(),
{
    if measured.len() > 0 && !(limiter.plan(wait) is Done) {
        let next = wait.record(limiter.plan(wait), measured[0]);
        let rest = measured.drop_first();
        assert(advancing(rest)) by {
            assert forall|i: int| 0 <= i < rest.len() implies rest[i] > 0 by {
                assert(rest[i] == measured[i + 1]);
            }
        }
        lemma_wait_returns(limiter, next, rest);
    }
    if measured.len() > wait.remaining() {
        lemma_run_stops_when_done(limiter, wait, measured);
    }
}

/// The strategy never spins: what is left when it is done is left.
pub proof fn lemma_never_spins(limiter: LimiterImpl, wait: WaitView)
    ensures
        !(limiter.plan(wait) is Spin),
{
}

/// When the strategy is done, the wait is close to the requested time: what is
/// missing is at most twice the tolerance and one nanosecond.
pub proof fn lemma_done_is_close(limiter: LimiterImpl, wait: WaitView)
    requires
        limiter.plan(wait) is Done,
    ensures
        wait.remaining() <= 2 * limiter@.close_enough + 1,
{
}

/// With sleeps that never end early, what is left of the requested time is at
/// least halved by every sleep, so the number of sleeps is logarithmic: a wait
/// with at most `2^k * (2 * tolerance + 1)` nanoseconds left asks for at most
/// `k` sleeps. With a tolerance above zero that covers every wait with at most
/// `2^k * tolerance` nanoseconds left.
pub proof fn lemma_sleeps_bounded(
    limiter: LimiterImpl,
    wait: WaitView,
    measured: Seq<nat>,
    k: nat,
)
    requires
        faithful(limiter, wait, measured),
        wait.remaining() <= pow2(k) * (2 * limiter@.close_enough + 1),
    ensures
        steps(limiter, wait, measured) <= k,
    decreases measured.len(),
{
    let tolerance = limiter@.close_enough;
    if measured.len() > 0 && !(limiter.plan(wait) is Done) {
        let next = wait.record(limiter.plan(wait), measured[0]);
        if k == 0 {
            // Nothing is slept with so little left.
            lemma2_to64();
            assert(pow2(0) * (2 * tolerance + 1) == 2 * tolerance + 1) by (nonlinear_arith)
                requires
                    pow2(0) == 1,
            ;
        } else {
            // The sleep takes at least half of what is left off it.
            let half = pow2((k - 1) as nat) * (2 * tolerance + 1);
            lemma_pow2_unfold(k);
            assert(pow2(k) * (2 * tolerance + 1) == 2 * half) by (nonlinear_arith)
                requires
                    pow2(k) == 2 * pow2((k - 1) as nat),
                    half == pow2((k - 1) as nat) * (2 * tolerance + 1),
            ;
            lemma_sleeps_bounded(limiter, next, measured.drop_first(), (k - 1) as nat);
        }
    }
}

} // verus!
