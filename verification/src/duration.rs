//! A span of time, counted in whole nanoseconds.
//!
//! A [`Duration`] covers the same range as `std::time::Duration`: from zero up to
//! `u64::MAX` seconds and 999,999,999 nanoseconds. Its view is the number of
//! nanoseconds as a `nat`, and every contract in this crate that speaks of time
//! speaks of that number.

use vstd::prelude::*;

verus! {

/// Nanoseconds in one microsecond.
pub const NANOS_PER_MICRO: u128 = 1_000;

/// Nanoseconds in one millisecond.
pub const NANOS_PER_MILLI: u128 = 1_000_000;

/// Nanoseconds in one second.
pub const NANOS_PER_SEC: u128 = 1_000_000_000;

/// Nanoseconds in the longest span: `u64::MAX` seconds and 999,999,999 nanoseconds.
pub const MAX_NANOS: u128 = 18_446_744_073_709_551_615_999_999_999;

/// A non-negative span of time of at most [`MAX_NANOS`] nanoseconds.
///
/// The derived order is the order of the nanosecond counts.
#[derive(Clone, Copy, Debug, PartialEq, Eq, PartialOrd, Ord, Hash, Structural)]
pub struct Duration {
    nanos: u128,
}

impl View for Duration {
    type V = nat;

    /// The span in nanoseconds.
    closed spec fn view(&self) -> nat {
        self.nanos as nat
    }
}

impl Duration {
    #[verifier::type_invariant]
    spec fn in_range(&self) -> bool {
        self.nanos <= MAX_NANOS
    }

    /// Two spans of the same length are the same value.
    pub proof fn lemma_view_determines(a: Duration, b: Duration)
        requires
            a@ == b@,
        ensures
            a == b,
    {
    }

    /// The empty span.
    pub fn zero() -> (d: Duration)
        ensures
            d@ == 0,
    {
        Duration { nanos: 0 }
    }

    /// The span of `secs` seconds and `nanos` further nanoseconds.
    ///
    /// `nanos` may exceed one second; the whole must not exceed [`MAX_NANOS`].
    pub fn new(secs: u64, nanos: u32) -> (d: Duration)
        requires
            secs * NANOS_PER_SEC + nanos <= MAX_NANOS,
        ensures
            d@ == secs * NANOS_PER_SEC + nanos,
    {
        Duration { nanos: secs as u128 * NANOS_PER_SEC + nanos as u128 }
    }

    /// The span of `secs` seconds.
    pub fn from_secs(secs: u64) -> (d: Duration)
        ensures
            d@ == secs * NANOS_PER_SEC,
    {
        Duration { nanos: secs as u128 * NANOS_PER_SEC }
    }

    /// The span of `millis` milliseconds.
    pub fn from_millis(millis: u64) -> (d: Duration)
        ensures
            d@ == millis * NANOS_PER_MILLI,
    {
        Duration { nanos: millis as u128 * NANOS_PER_MILLI }
    }

    /// The span of `micros` microseconds.
    pub fn from_micros(micros: u64) -> (d: Duration)
        ensures
            d@ == micros * NANOS_PER_MICRO,
    {
        Duration { nanos: micros as u128 * NANOS_PER_MICRO }
    }

    /// The span of `nanos` nanoseconds.
    pub fn from_nanos(nanos: u64) -> (d: Duration)
        ensures
            d@ == nanos,
    {
        Duration { nanos: nanos as u128 }
    }

    /// The whole span in nanoseconds.
    pub fn as_nanos(&self) -> (n: u128)
        ensures
            n == self@,
            n <= MAX_NANOS,
    {
        proof {
            use_type_invariant(self);
        }
        self.nanos
    }

    /// The whole milliseconds in the span.
    pub fn as_millis(&self) -> (n: u128)
        ensures
            n == self@ / (NANOS_PER_MILLI as nat),
    {
        self.nanos / NANOS_PER_MILLI
    }

    /// The whole seconds in the span.
    pub fn as_secs(&self) -> (n: u64)
        ensures
            n == self@ / (NANOS_PER_SEC as nat),
    {
        proof {
            use_type_invariant(self);
        }
        (self.nanos / NANOS_PER_SEC) as u64
    }

    /// The nanoseconds of the span beyond its whole seconds.
    pub fn subsec_nanos(&self) -> (n: u32)
        ensures
            n == self@ % (NANOS_PER_SEC as nat),
            n < NANOS_PER_SEC,
    {
        (self.nanos % NANOS_PER_SEC) as u32
    }

    /// The two spans one after the other, unless that exceeds [`MAX_NANOS`].
    pub fn checked_add(self, rhs: Duration) -> (sum: Option<Duration>)
        ensures
            self@ + rhs@ <= MAX_NANOS ==> sum is Some && sum->0@ == self@ + rhs@,
            self@ + rhs@ > MAX_NANOS ==> sum is None,
    {
        proof {
            use_type_invariant(self);
            use_type_invariant(rhs);
        }
        let nanos: u128 = self.nanos + rhs.nanos;
        if nanos <= MAX_NANOS {
            Some(Duration { nanos })
        } else {
            None
        }
    }

    /// What is left of the span after `rhs`, unless `rhs` is the longer one.
    pub fn checked_sub(self, rhs: Duration) -> (diff: Option<Duration>)
        ensures
            rhs@ <= self@ ==> diff is Some && diff->0@ == self@ - rhs@,
            rhs@ > self@ ==> diff is None,
    {
        proof {
            use_type_invariant(self);
        }
        if rhs.nanos <= self.nanos {
            Some(Duration { nanos: self.nanos - rhs.nanos })
        } else {
            None
        }
    }

    /// What is left of the span after `rhs`, and the empty span if `rhs` is the
    /// longer one.
    pub fn saturating_sub(self, rhs: Duration) -> (diff: Duration)
        ensures
            diff@ == if rhs@ <= self@ { self@ - rhs@ } else { 0 },
    {
        proof {
            use_type_invariant(self);
        }
        if rhs.nanos <= self.nanos {
            Duration { nanos: self.nanos - rhs.nanos }
        } else {
            Duration { nanos: 0 }
        }
    }

    /// The span `rhs` times over, unless that exceeds [`MAX_NANOS`].
    pub fn checked_mul(self, rhs: u32) -> (product: Option<Duration>)
        ensures
            self@ * rhs <= MAX_NANOS ==> product is Some && product->0@ == self@ * rhs,
            self@ * rhs > MAX_NANOS ==> product is None,
    {
        proof {
            use_type_invariant(self);
            assert(self.nanos * rhs <= MAX_NANOS * 0xffff_ffff) by (nonlinear_arith)
                requires
                    self.nanos <= MAX_NANOS,
                    rhs <= 0xffff_ffff,
            ;
        }
        let nanos: u128 = self.nanos * (rhs as u128);
        if nanos <= MAX_NANOS {
            Some(Duration { nanos })
        } else {
            None
        }
    }

    /// The span cut into `rhs` equal parts, rounded down to a whole nanosecond,
    /// unless `rhs` is zero.
    pub fn checked_div(self, rhs: u32) -> (quotient: Option<Duration>)
        ensures
            rhs != 0 ==> quotient is Some && quotient->0@ == self@ / (rhs as nat),
            rhs == 0 ==> quotient is None,
    {
        proof {
            use_type_invariant(self);
        }
        if rhs == 0 {
            None
        } else {
            let nanos: u128 = self.nanos / (rhs as u128);
            assert(nanos <= self.nanos) by (nonlinear_arith)
                requires
                    nanos == self.nanos / (rhs as u128),
                    rhs > 0,
            ;
            Some(Duration { nanos })
        }
    }
}

} // verus!
