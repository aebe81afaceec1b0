//! The processor time that a process has used, in user code and in the kernel.

use vstd::prelude::*;
use crate::duration::Duration;

verus! {

/// Nanoseconds in one tick of a platform file time.
pub const NANOS_PER_TICK: u32 = 100;

/// The ticks that a platform file time counts: a 64-bit number, handed over in
/// its low and its high 32 bits.
pub open spec fn file_time_ticks(low: u32, high: u32) -> nat {
    (high * 0x1_0000_0000 + low) as nat
}

/// The processor time a process has used.
#[derive(Clone, Copy, Debug, PartialEq, Eq, Structural)]
pub struct ProcessTimes {
    /// Time spent in the code of the process.
    pub user: Duration,
    /// Time spent in the kernel on behalf of the process.
    pub kernel: Duration,
}

impl ProcessTimes {
    /// The times that the platform reports as two file times, each a count of
    /// ticks of 100 nanoseconds in two halves of 32 bits.
    pub fn from_file_times(user_low: u32, user_high: u32, kernel_low: u32, kernel_high: u32) -> (times:
        ProcessTimes)
        ensures
            times.user@ == file_time_ticks(user_low, user_high) * NANOS_PER_TICK,
            times.kernel@ == file_time_ticks(kernel_low, kernel_high) * NANOS_PER_TICK,
    {
        let user_ticks: u64 = (user_high as u64) * 0x1_0000_0000 + (user_low as u64);
        let kernel_ticks: u64 = (kernel_high as u64) * 0x1_0000_0000 + (kernel_low as u64);
        ProcessTimes {
            user: Duration::from_nanos(user_ticks).checked_mul(NANOS_PER_TICK).unwrap(),
            kernel: Duration::from_nanos(kernel_ticks).checked_mul(NANOS_PER_TICK).unwrap(),
        }
    }

    /// Whether `rhs` can be taken from these times: whether neither of its
    /// times is the longer one.
    pub fn covers(&self, rhs: &ProcessTimes) -> (b: bool)
        ensures
            b == (rhs.user@ <= self.user@ && rhs.kernel@ <= self.kernel@),
    {
        rhs.user.as_nanos() <= self.user.as_nanos() && rhs.kernel.as_nanos()
            <= self.kernel.as_nanos()
    }

    /// The time used since `rhs` was taken: each time less the time of `rhs`.
    pub fn sub(self, rhs: ProcessTimes) -> (used: ProcessTimes)
        requires
            rhs.user@ <= self.user@,
            rhs.kernel@ <= self.kernel@,
        ensures
            used.user@ == self.user@ - rhs.user@,
            used.kernel@ == self.kernel@ - rhs.kernel@,
    {
        ProcessTimes {
            user: self.user.checked_sub(rhs.user).unwrap(),
            kernel: self.kernel.checked_sub(rhs.kernel).unwrap(),
        }
    }
}

/// The times on a platform that keeps none: no time used at all.
pub fn get() -> (times: Option<ProcessTimes>)
    ensures
        times is Some,
        times->0.user@ == 0,
        times->0.kernel@ == 0,
{
    Some(ProcessTimes { user: Duration::from_secs(0), kernel: Duration::from_secs(0) })
}

} // verus!
