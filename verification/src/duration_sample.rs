//! A running summary of measured spans: how many, their sum, the shortest and
//! the longest.

use vstd::prelude::*;
use std::time::Instant;
use crate::clock::elapsed;
use crate::clock::now;
use crate::duration::Duration;
use crate::duration::MAX_NANOS;
use crate::duration::NANOS_PER_SEC;

verus! {

/// The seconds that the shortest span of a summary is set to while it is empty.
pub const INITIAL_MIN_SECS: u64 = 100000;

/// A summary of the spans added to it.
#[derive(Clone, Copy, Debug, PartialEq, Eq, Structural)]
pub struct DurationSample {
    accumulator: Duration,
    min: Duration,
    max: Duration,
    count: u32,
}

/// A [`DurationSample`] with its spans in nanoseconds.
pub struct DurationSampleView {
    /// The sum of the spans.
    pub sum: nat,
    /// The shortest span, and [`INITIAL_MIN_SECS`] seconds while there is none.
    pub min: nat,
    /// The longest span.
    pub max: nat,
    /// The number of spans.
    pub count: nat,
}

impl DurationSampleView {
    /// The summary of no spans.
    pub open spec fn empty() -> DurationSampleView {
        DurationSampleView { sum: 0, min: (INITIAL_MIN_SECS * NANOS_PER_SEC) as nat, max: 0, count: 0 }
    }

    /// Whether a span of `value` nanoseconds can be added: whether the count
    /// stays within a `u32` and the sum within the range of a [`Duration`].
    pub open spec fn can_add(self, value: nat) -> bool {
        self.count < u32::MAX && self.sum + value <= MAX_NANOS
    }

    /// The summary with a span of `value` nanoseconds added. The first span
    /// added is the shortest, whatever the empty summary held in its place.
    pub open spec fn add(self, value: nat) -> DurationSampleView {
        DurationSampleView {
            sum: self.sum + value,
            min: if self.count == 0 || value < self.min {
                value
            } else {
                self.min
            },
            max: if self.max >= value {
                self.max
            } else {
                value
            },
            count: self.count + 1,
        }
    }

    /// The summary of `values`, added in order to the empty summary.
    pub open spec fn of(values: Seq<nat>) -> DurationSampleView
        decreases values.len(),
    {
        if values.len() == 0 {
            DurationSampleView::empty()
        } else {
            DurationSampleView::of(values.drop_last()).add(values.last())
        }
    }
}

impl View for DurationSample {
    type V = DurationSampleView;

    closed spec fn view(&self) -> DurationSampleView {
        DurationSampleView {
            sum: self.accumulator@,
            min: self.min@,
            max: self.max@,
            count: self.count as nat,
        }
    }
}

impl Default for DurationSample {
    fn default() -> (sample: DurationSample)
        ensures
            sample@ == DurationSampleView::empty(),
    {
        DurationSample {
            accumulator: Duration::zero(),
            min: Duration::from_secs(INITIAL_MIN_SECS),
            max: Duration::zero(),
            count: 0,
        }
    }
}

impl DurationSample {
    /// The shortest span added, and 100000 seconds while none is added.
    pub fn min(&self) -> (d: Duration)
        ensures
            d@ == self@.min,
    {
        self.min
    }

    /// The longest span added.
    pub fn max(&self) -> (d: Duration)
        ensures
            d@ == self@.max,
    {
        self.max
    }

    /// The sum of the spans added.
    pub fn duration(&self) -> (d: Duration)
        ensures
            d@ == self@.sum,
    {
        self.accumulator
    }

    /// The number of spans added.
    pub fn count(&self) -> (n: u32)
        ensures
            n == self@.count,
    {
        self.count
    }

    /// The mean of the spans added, rounded down to a whole nanosecond.
    pub fn average(&self) -> (d: Duration)
        requires
            self@.count > 0,
        ensures
            d@ == self@.sum / self@.count,
    {
        self.accumulator.checked_div(self.count).unwrap()
    }

    /// Whether `value` can be added.
    pub fn can_add(&self, value: Duration) -> (b: bool)
        ensures
            b == self@.can_add(value@),
    {
        self.count < u32::MAX && self.accumulator.checked_add(value).is_some()
    }

    /// Adds `value` to the summary.
    pub fn add(&mut self, value: Duration)
        requires
            old(self)@.can_add(value@),
        ensures
            final(self)@ == old(self)@.add(value@),
    {
        self.min = if self.count == 0 || value.as_nanos() < self.min.as_nanos() {
            value
        } else {
            self.min
        };
        self.count += 1;
        self.accumulator = self.accumulator.checked_add(value).unwrap();
        self.max = if self.max.as_nanos() >= value.as_nanos() {
            self.max
        } else {
            value
        };
    }

    /// Runs `f` once, measures on the monotonic clock how long it took, and
    /// adds that span to the summary if it can be added. Returns the span
    /// measured.
    pub fn capture<F>(&mut self, f: F) -> (measured: Duration) where F: FnOnce()
        requires
            f.requires(()),
        ensures
            f.ensures((), ()),
            final(self)@ == if old(self)@.can_add(measured@) {
                old(self)@.add(measured@)
            } else {
                old(self)@
            },
    {
        let start: Instant = now();
        f();
        let end: Instant = now();
        let measured: Duration = elapsed(&start, &end);
        if self.can_add(measured) {
            self.add(measured);
        }
        measured
    }
}

/// The summary is that of the spans added: it counts them, and once there is
/// one, its shortest span is the least of them and its longest the greatest.
pub proof fn lemma_summary_of_spans(values: Seq<nat>)
    ensures
        DurationSampleView::of(values).count == values.len(),
        values.len() > 0 ==> values.contains(DurationSampleView::of(values).min),
        values.len() > 0 ==> values.contains(DurationSampleView::of(values).max),
        forall|i: int|
            0 <= i < values.len() ==> DurationSampleView::of(values).min <= #[trigger] values[i]
                <= DurationSampleView::of(values).max,
    decreases values.len(),
{
    if values.len() > 0 {
        let before = values.drop_last();
        lemma_summary_of_spans(before);
        let summary = DurationSampleView::of(values);
        let last = values.len() - 1;
        assert(values[last] == values.last());
        assert forall|i: int| 0 <= i < before.len() implies before[i] == values[i] by {}
        if before.len() > 0 {
            let least = choose|i: int| 0 <= i < before.len() && before[i] == DurationSampleView::of(
                before,
            ).min;
            let greatest = choose|i: int|
                0 <= i < before.len() && before[i] == DurationSampleView::of(before).max;
            assert(values[least] == before[least]);
            assert(values[greatest] == before[greatest]);
        }
        assert forall|i: int| 0 <= i < values.len() implies summary.min <= #[trigger] values[i]
            <= summary.max by {
            if i < before.len() {
                assert(before[i] == values[i]);
            }
        }
    }
}

/// The first span added is all the summary knows: it is the shortest, the
/// longest, the sum and the mean.
pub proof fn lemma_first_span(value: nat)
    ensures
        DurationSampleView::empty().add(value) == (DurationSampleView {
            sum: value,
            min: value,
            max: value,
            count: 1,
        }),
{
}

} // verus!
