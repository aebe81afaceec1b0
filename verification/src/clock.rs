//! The monotonic clock of the platform, as far as the library reads it itself.
//!
//! What the clock shows depends on when it is read, so nothing is known of an
//! instant or of the span between two of them beyond its type. The four
//! functions that reach into the standard library are believed, not proved;
//! [`elapsed`] is built on them and verified.

use vstd::prelude::*;
use std::time::Instant;
use crate::duration::Duration;

verus! {

/// `std::time::Instant`, a reading of the clock. It is carried from one call
/// to the next and never looked into.
#[verifier::external_type_specification]
#[verifier::external_body]
pub struct ExInstant(Instant);

/// Calls `std::time::Instant::now`. Nothing is claimed of the instant.
#[verifier::external_body]
pub(crate) fn now() -> (instant: Instant) {
    Instant::now()
}

/// Calls `std::time::Instant::saturating_duration_since`, which gives the time
/// from `earlier` to `later`, or zero where `later` is the earlier one.
/// Nothing is claimed of the span.
#[verifier::external_body]
fn saturating_duration_since(later: &Instant, earlier: &Instant) -> (span: core::time::Duration) {
    later.saturating_duration_since(*earlier)
}

/// Calls `core::time::Duration::as_secs`, the whole seconds of `span`. Nothing
/// is claimed of the number.
#[verifier::external_body]
fn whole_secs(span: &core::time::Duration) -> (secs: u64) {
    span.as_secs()
}

/// Calls `core::time::Duration::subsec_nanos`, the part of `span` beyond its
/// whole seconds in nanoseconds, which is documented to be less than one
/// billion. Only that is claimed.
#[verifier::external_body]
fn subsec_nanos(span: &core::time::Duration) -> (nanos: u32)
    ensures
        nanos < 1_000_000_000,
{
    span.subsec_nanos()
}

/// The time from `earlier` to `later` by the clock, and zero where `later` is
/// not the later one.
pub(crate) fn elapsed(earlier: &Instant, later: &Instant) -> (span: Duration) {
    let span: core::time::Duration = saturating_duration_since(later, earlier);
    Duration::new(whole_secs(&span), subsec_nanos(&span))
}

} // verus!
