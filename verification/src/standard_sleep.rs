//! The plain sleep: the strategy that the others are measured against.

use vstd::prelude::*;
use crate::wait::run;
use crate::wait::steps;
use crate::wait::Limiter;
use crate::wait::Step;
use crate::wait::StepView;
use crate::wait::Wait;
use crate::wait::WaitView;

verus! {

/// The step of a wait that is one sleep for the whole requested time: that
/// sleep while none is recorded, and nothing after it.
pub open spec fn plain_sleep(wait: WaitView) -> StepView {
    if wait.slept {
        StepView::Done
    } else {
        StepView::Sleep(wait.requested)
    }
}

/// Nothing special here: one sleep for the requested time.
#[derive(Clone, Copy, Debug, PartialEq, Eq, Structural)]
pub struct LimiterImpl {}

impl Default for LimiterImpl {
    fn default() -> (limiter: LimiterImpl)
        ensures
            limiter == (LimiterImpl {  }),
    {
        LimiterImpl {  }
    }
}

impl LimiterImpl {
    /// The strategy.
    pub fn new() -> (limiter: LimiterImpl)
        ensures
            limiter == (LimiterImpl {  }),
    {
        LimiterImpl {  }
    }
}

impl Limiter for LimiterImpl {
    /// Always: the strategy needs nothing from the platform.
    open spec fn ready(&self) -> bool {
        true
    }

    /// One [`plain_sleep`].
    open spec fn plan(&self, wait: WaitView) -> StepView {
        plain_sleep(wait)
    }

    fn is_ready(&self) -> (b: bool) {
        true
    }

    fn next(&self, wait: &Wait) -> (step: Step) {
        if wait.slept() {
            Step::Done
        } else {
            Step::Sleep(wait.requested())
        }
    }
}

/// The boxed strategy.
pub fn create() -> (limiter: Box<LimiterImpl>)
    ensures
        *limiter == (LimiterImpl {  }),
{
    Box::new(LimiterImpl::new())
}

/// A wait is one sleep for the requested time and nothing else: whatever the
/// sleep is measured to take, the wait is over after it, and what was measured
/// is all that has passed.
pub proof fn lemma_one_sleep(limiter: LimiterImpl, requested: nat, measured: Seq<nat>)
    requires
        measured.len() > 0,
    ensures
        limiter.plan(WaitView::start(requested)) == StepView::Sleep(requested),
        steps(limiter, WaitView::start(requested), measured) == 1,
        run(limiter, WaitView::start(requested), measured).total == measured[0],
        limiter.plan(run(limiter, WaitView::start(requested), measured)) is Done,
{
    let start = WaitView::start(requested);
    let slept = start.record(limiter.plan(start), measured[0]);
    assert(limiter.plan(slept) is Done);
    assert(steps(limiter, slept, measured.drop_first()) == 0);
    assert(run(limiter, slept, measured.drop_first()) == slept);
}

} // verus!
