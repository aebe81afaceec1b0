//! The request for a finer timer period that a strategy holds with the platform.
//!
//! While such a request stands, the platform wakes sleeping threads at the
//! requested granularity, which makes every sleep of the process more accurate.
//! The request is a resource of the whole process: it is made once, when the
//! strategy is set up, and given back once, when the strategy goes away.
//!
//! A [`TimePeriod`] makes no call to the platform itself. It keeps the state of
//! the request and, at each transition, hands its owner the [`PeriodCall`] that
//! the owner is to make.
//!
//! A strategy that holds a request waits only while the request stands: after
//! the period was requested and before it is given back.

use vstd::prelude::*;
use vstd::multiset::Multiset;

verus! {

/// The period, in milliseconds, that is requested when the platform cannot say
/// which periods it supports.
pub const FALLBACK_PERIOD: u32 = 1;

/// Where a [`TimePeriod`] stands in its life.
#[derive(Clone, Copy, Debug, PartialEq, Eq, Structural)]
pub enum Phase {
    /// Nothing has been requested yet.
    Idle,
    /// The period has been requested and not given back.
    Active,
    /// The request has been given back, or was given up before it was made.
    Released,
}

/// A call that the owner of a [`TimePeriod`] makes to the platform.
#[derive(Clone, Copy, Debug, PartialEq, Eq, Structural)]
pub enum PeriodCall {
    /// Request this period, in milliseconds.
    Begin(u32),
    /// Give back an earlier request for this period.
    End(u32),
}

/// What can happen to a [`TimePeriod`].
pub enum Event {
    /// [`TimePeriod::init`] is called.
    Init,
    /// [`TimePeriod::shutdown`] is called.
    Shutdown,
    /// The strategy that holds the request is asked for a step of a wait,
    /// which it may be only while the request is active.
    Wait,
}

/// The state of one request for a timer period.
#[derive(Debug)]
pub struct TimePeriod {
    min_period: u32,
    phase: Phase,
}

/// What a [`TimePeriod`] holds.
pub struct TimePeriodView {
    /// The period that is requested, in milliseconds.
    pub min_period: u32,
    /// Where the request stands.
    pub phase: Phase,
}

/// The period to request, given what the platform answered when asked for the
/// shortest period it supports: that period, or [`FALLBACK_PERIOD`] if the
/// question failed.
pub open spec fn period_or_fallback(queried: Option<u32>) -> u32 {
    match queried {
        Some(period) => period,
        None => FALLBACK_PERIOD,
    }
}

impl TimePeriodView {
    /// A request for `min_period` that has not been made yet.
    pub open spec fn idle(min_period: u32) -> TimePeriodView {
        TimePeriodView { min_period, phase: Phase::Idle }
    }

    /// The state after `init`, and the call to make. Only an idle request is
    /// made; in any other phase nothing changes and nothing is called.
    pub open spec fn init(self) -> (TimePeriodView, Option<PeriodCall>) {
        match self.phase {
            Phase::Idle => (
                TimePeriodView { min_period: self.min_period, phase: Phase::Active },
                Some(PeriodCall::Begin(self.min_period)),
            ),
            _ => (self, None),
        }
    }

    /// The state after `shutdown`, and the call to make. Only an active request
    /// is given back; the state is released afterwards in every case.
    pub open spec fn shutdown(self) -> (TimePeriodView, Option<PeriodCall>) {
        (
            TimePeriodView { min_period: self.min_period, phase: Phase::Released },
            match self.phase {
                Phase::Active => Some(PeriodCall::End(self.min_period)),
                _ => None,
            },
        )
    }

    /// The state after `event`, and the call to make. A wait leaves the request
    /// as it is and calls nothing.
    pub open spec fn on(self, event: Event) -> (TimePeriodView, Option<PeriodCall>) {
        match event {
            Event::Init => self.init(),
            Event::Shutdown => self.shutdown(),
            Event::Wait => (self, None),
        }
    }

    /// The state after `events` have happened one after the other.
    pub open spec fn after(self, events: Seq<Event>) -> TimePeriodView
        decreases events.len(),
    {
        if events.len() == 0 {
            self
        } else {
            self.on(events[0]).0.after(events.drop_first())
        }
    }

    /// Whether `events` may happen one after the other: whether each wait among
    /// them finds the request active.
    pub open spec fn permits(self, events: Seq<Event>) -> bool
        decreases events.len(),
    {
        events.len() == 0 || {
            &&& events[0] is Wait ==> self.phase is Active
            &&& self.on(events[0]).0.permits(events.drop_first())
        }
    }

    /// The calls made to the platform, in order, while `events` happen one after
    /// the other.
    pub open spec fn calls(self, events: Seq<Event>) -> Seq<PeriodCall>
        decreases events.len(),
    {
        if events.len() == 0 {
            Seq::empty()
        } else {
            let (next, call) = self.on(events[0]);
            let rest = next.calls(events.drop_first());
            match call {
                Some(c) => seq![c] + rest,
                None => rest,
            }
        }
    }
}

/// The requests that a process holds with the platform after `call`, given
/// those it held before. The platform counts requests: a period that was
/// requested twice has to be given back twice.
pub open spec fn apply(requests: Multiset<u32>, call: PeriodCall) -> Multiset<u32> {
    match call {
        PeriodCall::Begin(period) => requests.insert(period),
        PeriodCall::End(period) => requests.remove(period),
    }
}

/// The requests that a process holds after `calls`, made in order.
pub open spec fn apply_all(requests: Multiset<u32>, calls: Seq<PeriodCall>) -> Multiset<u32>
    decreases calls.len(),
{
    if calls.len() == 0 {
        requests
    } else {
        apply_all(apply(requests, calls[0]), calls.drop_first())
    }
}

impl View for TimePeriod {
    type V = TimePeriodView;

    closed spec fn view(&self) -> TimePeriodView {
        TimePeriodView { min_period: self.min_period, phase: self.phase }
    }
}

impl TimePeriod {
    /// The period to request, given the platform's answer to the question for
    /// the shortest period it supports (`None` if the question failed).
    pub fn get_min_period(queried: Option<u32>) -> (period: u32)
        ensures
            period == period_or_fallback(queried),
            queried != Some(0u32) ==> period > 0,
    {
        match queried {
            Some(period) => period,
            None => FALLBACK_PERIOD,
        }
    }

    /// An idle request for the period that `queried` leads to.
    pub fn new(queried: Option<u32>) -> (handle: TimePeriod)
        ensures
            handle@ == TimePeriodView::idle(period_or_fallback(queried)),
    {
        TimePeriod { min_period: TimePeriod::get_min_period(queried), phase: Phase::Idle }
    }

    /// The period that is requested, in milliseconds.
    pub fn min_period(&self) -> (period: u32)
        ensures
            period == self@.min_period,
    {
        self.min_period
    }

    /// Where the request stands.
    pub fn phase(&self) -> (phase: Phase)
        ensures
            phase == self@.phase,
    {
        self.phase
    }

    /// Whether the period has been requested and not given back.
    pub fn is_active(&self) -> (b: bool)
        ensures
            b == (self@.phase is Active),
    {
        match self.phase {
            Phase::Active => true,
            _ => false,
        }
    }

    /// Makes the request if it is idle, and returns the call that the owner is
    /// to make to the platform, if any.
    pub fn init(&mut self) -> (call: Option<PeriodCall>)
        ensures
            (final(self)@, call) == old(self)@.init(),
    {
        match self.phase {
            Phase::Idle => {
                self.phase = Phase::Active;
                Some(PeriodCall::Begin(self.min_period))
            },
            _ => None,
        }
    }

    /// Gives the request back if it is active, and returns the call that the
    /// owner is to make to the platform, if any.
    pub fn shutdown(&mut self) -> (call: Option<PeriodCall>)
        ensures
            (final(self)@, call) == old(self)@.shutdown(),
    {
        let call: Option<PeriodCall> = match self.phase {
            Phase::Active => Some(PeriodCall::End(self.min_period)),
            _ => None,
        };
        self.phase = Phase::Released;
        call
    }
}

/// Whatever happens to a request, and in whatever order, the calls made to the
/// platform are a beginning of "request the period, give it back": the period
/// is requested at most once, given back at most once, and never given back
/// before it was requested.
pub proof fn lemma_calls_in_order(min_period: u32, events: Seq<Event>)
    ensures
        ({
            let calls = TimePeriodView::idle(min_period).calls(events);
            ||| calls == Seq::<PeriodCall>::empty()
            ||| calls == seq![PeriodCall::Begin(min_period)]
            ||| calls == seq![PeriodCall::Begin(min_period), PeriodCall::End(min_period)]
        }),
    decreases events.len(),
{
    let idle = TimePeriodView::idle(min_period);
    if events.len() > 0 {
        let (next, call) = idle.on(events[0]);
        if events[0] is Wait {
            lemma_calls_in_order(min_period, events.drop_first());
        } else {
            lemma_calls_after_init(next, events.drop_first());
        }
        if events[0] is Init {
            assert(seq![PeriodCall::Begin(min_period)] + Seq::<PeriodCall>::empty()
                =~= seq![PeriodCall::Begin(min_period)]);
            assert(seq![PeriodCall::Begin(min_period)] + seq![PeriodCall::End(min_period)]
                =~= seq![PeriodCall::Begin(min_period), PeriodCall::End(min_period)]);
        }
    }
}

/// A request that is made first and shut down at any later point is requested
/// once and given back once, in that order, whatever else happens to it.
pub proof fn lemma_released_exactly_once(min_period: u32, events: Seq<Event>)
    requires
        events.len() > 0,
        events[0] is Init,
        exists|i: int| 0 < i < events.len() && events[i] is Shutdown,
    ensures
        TimePeriodView::idle(min_period).calls(events) == seq![
            PeriodCall::Begin(min_period),
            PeriodCall::End(min_period),
        ],
{
    let idle = TimePeriodView::idle(min_period);
    let (next, call) = idle.on(events[0]);
    let tail = events.drop_first();
    let i = choose|i: int| 0 < i < events.len() && events[i] is Shutdown;
    assert(tail[i - 1] is Shutdown);
    lemma_calls_after_init(next, tail);
    assert(seq![PeriodCall::Begin(min_period)] + seq![PeriodCall::End(min_period)] =~= seq![
        PeriodCall::Begin(min_period),
        PeriodCall::End(min_period),
    ]);
}

/// Setting a strategy up and taking it down again leaves the platform with the
/// requests it held before, whatever they were.
pub proof fn lemma_platform_restored(
    requests: Multiset<u32>,
    min_period: u32,
    events: Seq<Event>,
)
    requires
        events.len() > 0,
        events[0] is Init,
        exists|i: int| 0 < i < events.len() && events[i] is Shutdown,
    ensures
        apply_all(requests, TimePeriodView::idle(min_period).calls(events)) == requests,
{
    lemma_released_exactly_once(min_period, events);
    let calls = seq![PeriodCall::Begin(min_period), PeriodCall::End(min_period)];
    let held = requests.insert(min_period);
    assert(apply_all(requests, calls) == apply_all(held, calls.drop_first()));
    let last = calls.drop_first();
    assert(apply_all(held, last) == apply_all(apply(held, last[0]), last.drop_first()));
    assert(apply_all(held, last) == held.remove(min_period));
    assert(held.remove(min_period) =~= requests);
}

/// A wait falls between the two calls: whenever a strategy that began idle is
/// asked for a step of a wait, the period has been requested from the platform
/// and has not been given back. No wait comes before the request, and none
/// after the period was given back.
pub proof fn lemma_waits_between_calls(min_period: u32, events: Seq<Event>, i: int)
    requires
        TimePeriodView::idle(min_period).permits(events),
        0 <= i < events.len(),
        events[i] is Wait,
    ensures
        TimePeriodView::idle(min_period).calls(events.take(i)) == seq![
            PeriodCall::Begin(min_period),
        ],
        TimePeriodView::idle(min_period).after(events.take(i)).phase is Active,
{
    let idle = TimePeriodView::idle(min_period);
    lemma_wait_finds_active(idle, events, i);
    lemma_calls_of_active(min_period, events.take(i));
}

/// Where events are permitted, the wait among them finds the request active.
proof fn lemma_wait_finds_active(state: TimePeriodView, events: Seq<Event>, i: int)
    requires
        state.permits(events),
        0 <= i < events.len(),
        events[i] is Wait,
    ensures
        state.after(events.take(i)).phase is Active,
    decreases i,
{
    if i > 0 {
        let next = state.on(events[0]).0;
        lemma_wait_finds_active(next, events.drop_first(), i - 1);
        assert(events.take(i).drop_first() =~= events.drop_first().take(i - 1));
        assert(events.take(i)[0] == events[0]);
    } else {
        assert(events.take(0).len() == 0);
    }
}

/// A request that began idle and is active has been requested and not given
/// back: the one call made for it is the request.
proof fn lemma_calls_of_active(min_period: u32, events: Seq<Event>)
    requires
        TimePeriodView::idle(min_period).after(events).phase is Active,
    ensures
        TimePeriodView::idle(min_period).calls(events) == seq![PeriodCall::Begin(min_period)],
    decreases events.len(),
{
    let idle = TimePeriodView::idle(min_period);
    if events.len() > 0 {
        let next = idle.on(events[0]).0;
        match events[0] {
            Event::Init => {
                lemma_calls_while_active(next, events.drop_first());
                assert(seq![PeriodCall::Begin(min_period)] + Seq::<PeriodCall>::empty()
                    =~= seq![PeriodCall::Begin(min_period)]);
            },
            Event::Shutdown => {
                lemma_calls_while_active(next, events.drop_first());
            },
            Event::Wait => {
                lemma_calls_of_active(min_period, events.drop_first());
            },
        }
    }
}

/// A request past its idle phase that is active after `events` has been active
/// all along, and nothing was called for it; a released one stays released.
proof fn lemma_calls_while_active(state: TimePeriodView, events: Seq<Event>)
    requires
        !(state.phase is Idle),
    ensures
        state.phase is Released ==> state.after(events).phase is Released,
        state.after(events).phase is Active ==> state.calls(events) == Seq::<
            PeriodCall,
        >::empty(),
    decreases events.len(),
{
    if events.len() > 0 {
        lemma_calls_while_active(state.on(events[0]).0, events.drop_first());
    }
}

/// The calls of a request that is past its idle phase: none once it is
/// released, and while it is active none until the first shutdown, which gives
/// the period back.
proof fn lemma_calls_after_init(state: TimePeriodView, events: Seq<Event>)
    requires
        !(state.phase is Idle),
    ensures
        state.phase is Released ==> state.calls(events) == Seq::<PeriodCall>::empty(),
        state.phase is Active ==> state.calls(events) == if exists|i: int|
            0 <= i < events.len() && events[i] is Shutdown {
            seq![PeriodCall::End(state.min_period)]
        } else {
            Seq::<PeriodCall>::empty()
        },
    decreases events.len(),
{
    if events.len() > 0 {
        let (next, call) = state.on(events[0]);
        let tail = events.drop_first();
        lemma_calls_after_init(next, tail);
        if state.phase is Active {
            match events[0] {
                Event::Init | Event::Wait => {
                    if exists|i: int| 0 <= i < events.len() && events[i] is Shutdown {
                        let i = choose|i: int| 0 <= i < events.len() && events[i] is Shutdown;
                        assert(tail[i - 1] is Shutdown);
                    }
                    if exists|i: int| 0 <= i < tail.len() && tail[i] is Shutdown {
                        let i = choose|i: int| 0 <= i < tail.len() && tail[i] is Shutdown;
                        assert(events[i + 1] is Shutdown);
                    }
                },
                Event::Shutdown => {
                    assert(events[0] is Shutdown);
                    assert(seq![PeriodCall::End(state.min_period)] + Seq::<PeriodCall>::empty()
                        =~= seq![PeriodCall::End(state.min_period)]);
                },
            }
        }
    }
}

} // verus!
