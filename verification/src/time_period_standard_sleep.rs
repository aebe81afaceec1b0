//! The plain sleep, held together with a request for a finer timer period.
//!
//! The wait is the one sleep of [`crate::standard_sleep`]; what the strategy
//! adds is the finer period, which makes that sleep more accurate.

use vstd::prelude::*;
use crate::standard_sleep::plain_sleep;
use crate::time_period::period_or_fallback;
use crate::time_period::PeriodCall;
use crate::time_period::TimePeriod;
use crate::time_period::TimePeriodView;
use crate::wait::Limiter;
use crate::wait::Step;
use crate::wait::StepView;
use crate::wait::Wait;
use crate::wait::WaitView;

verus! {

/// The plain sleep under a finer timer period.
#[derive(Debug)]
pub struct LimiterImpl {
    period: TimePeriod,
}

impl View for LimiterImpl {
    type V = TimePeriodView;

    /// The request for a timer period.
    closed spec fn view(&self) -> TimePeriodView {
        self.period@
    }
}

impl LimiterImpl {
    /// The strategy with an idle request for the period that `queried` leads
    /// to: the platform's answer to the question for the shortest period it
    /// supports, `None` if that failed.
    pub fn new(queried: Option<u32>) -> (limiter: LimiterImpl)
        ensures
            limiter@ == TimePeriodView::idle(period_or_fallback(queried)),
    {
        LimiterImpl { period: TimePeriod::new(queried) }
    }

    /// The timer period that the strategy requests, in milliseconds.
    pub fn min_period(&self) -> (period: u32)
        ensures
            period == self@.min_period,
    {
        self.period.min_period()
    }

    /// Makes the request for the timer period if it is idle, and returns the
    /// call that the owner is to make to the platform, if any.
    pub fn init(&mut self) -> (call: Option<PeriodCall>)
        ensures
            (final(self)@, call) == old(self)@.init(),
    {
        self.period.init()
    }

    /// Gives the request for the timer period back if it is active, and returns
    /// the call that the owner is to make to the platform, if any.
    pub fn shutdown(&mut self) -> (call: Option<PeriodCall>)
        ensures
            (final(self)@, call) == old(self)@.shutdown(),
    {
        self.period.shutdown()
    }
}

impl Limiter for LimiterImpl {
    /// While the request for the timer period is active.
    open spec fn ready(&self) -> bool {
        self@.phase is Active
    }

    /// One [`plain_sleep`].
    open spec fn plan(&self, wait: WaitView) -> StepView {
        plain_sleep(wait)
    }

    fn is_ready(&self) -> (b: bool) {
        self.period.is_active()
    }

    fn next(&self, wait: &Wait) -> (step: Step) {
        if wait.slept() {
            Step::Done
        } else {
            Step::Sleep(wait.requested())
        }
    }
}

/// The boxed strategy that [`LimiterImpl::new`] makes.
pub fn create(queried: Option<u32>) -> (limiter: Box<LimiterImpl>)
    ensures
        limiter@ == TimePeriodView::idle(period_or_fallback(queried)),
{
    Box::new(LimiterImpl::new(queried))
}

} // verus!
