use limiter::duration::Duration;
use limiter::time_period::PeriodCall;
use limiter::time_period_close_sleep::create;
use limiter::time_period_close_sleep::LimiterImpl;
use limiter::time_period_close_sleep::CLOSE_ENOUGH_MICROS;
use limiter::wait::Limiter;
use limiter::wait::Step;
use limiter::wait::Wait;

/// The strategy set up for waits: made, and its timer period requested.
fn started(queried: Option<u32>) -> LimiterImpl {
    let mut limiter = LimiterImpl::new(queried);
    assert!(limiter.init().is_some());
    limiter
}

/// Drives a wait in which every sleep takes `percent` of what was asked, at
/// most `limit` steps long, and returns the sleeps that were asked for.
fn sleeps_at(limiter: &LimiterImpl, wait: &mut Wait, percent: u32, limit: usize) -> Vec<Duration> {
    let mut chunks = Vec::new();
    while chunks.len() < limit {
        let step = limiter.next(wait);
        match step {
            Step::Sleep(chunk) => {
                chunks.push(chunk);
                let measured = chunk.checked_mul(percent).unwrap().checked_div(100).unwrap();
                wait.record(step, measured);
            }
            Step::Spin => panic!("the halving wait never spins"),
            Step::Done => break,
        }
    }
    chunks
}

#[test]
fn halving_tolerance_is_500_microseconds() {
    assert_eq!(CLOSE_ENOUGH_MICROS, 500);
    assert_eq!(LimiterImpl::new(None).close_enough(), Duration::from_micros(500));
    assert_eq!(create(Some(3)).close_enough(), Duration::from_micros(500));
}

#[test]
fn halving_period_comes_from_the_query() {
    assert_eq!(LimiterImpl::new(Some(5)).min_period(), 5);
    assert_eq!(LimiterImpl::new(None).min_period(), 1);
    assert_eq!(create(Some(7)).min_period(), 7);
    assert_eq!(create(None).min_period(), 1);
}

#[test]
fn halving_handle_is_requested_and_given_back_once() {
    let mut limiter = LimiterImpl::new(Some(5));
    assert_eq!(limiter.init(), Some(PeriodCall::Begin(5)));
    assert_eq!(limiter.init(), None);
    assert_eq!(limiter.shutdown(), Some(PeriodCall::End(5)));
    assert_eq!(limiter.shutdown(), None);
    assert_eq!(limiter.close_enough(), Duration::from_micros(500));
}

#[test]
fn ten_milliseconds_start_with_a_sleep_of_five() {
    let limiter = started(None);
    let wait = Wait::new(Duration::from_millis(10));
    assert_eq!(limiter.next(&wait), Step::Sleep(Duration::from_millis(5)));
}

#[test]
fn ten_milliseconds_take_four_exact_sleeps() {
    let limiter = started(None);
    let mut wait = Wait::new(Duration::from_millis(10));
    let chunks = sleeps_at(&limiter, &mut wait, 100, 100);
    assert_eq!(
        chunks,
        vec![
            Duration::from_micros(5_000),
            Duration::from_micros(2_500),
            Duration::from_micros(1_250),
            Duration::from_micros(625),
        ]
    );
    assert!(chunks.len() <= 6);
    assert_eq!(limiter.next(&wait), Step::Done);
    assert_eq!(wait.total(), Duration::from_micros(9_375));
    assert_eq!(wait.remaining(), Duration::from_micros(625));
}

#[test]
fn request_within_tolerance_takes_no_sleep() {
    let limiter = started(None);
    for micros in [0, 1, 499, 500] {
        let wait = Wait::new(Duration::from_micros(micros));
        assert_eq!(limiter.next(&wait), Step::Done);
    }
}

#[test]
fn request_just_above_tolerance_takes_no_sleep_either() {
    let limiter = started(None);
    // Half of what is left has to exceed the tolerance for a sleep to be worth it.
    for nanos in [500_001, 1_000_000, 1_000_001] {
        let wait = Wait::new(Duration::from_nanos(nanos));
        assert_eq!(limiter.next(&wait), Step::Done);
    }
    let wait = Wait::new(Duration::from_nanos(1_000_002));
    assert_eq!(limiter.next(&wait), Step::Sleep(Duration::from_nanos(500_001)));
}

#[test]
fn next_sleep_is_half_of_what_is_left_by_the_clock() {
    let limiter = started(None);
    let mut wait = Wait::new(Duration::from_millis(10));
    let first = limiter.next(&wait);
    assert_eq!(first, Step::Sleep(Duration::from_millis(5)));
    // The sleep of 5 ms is measured to have taken 6.2 ms.
    wait.record(first, Duration::from_micros(6_200));
    assert_eq!(limiter.next(&wait), Step::Sleep(Duration::from_micros(1_900)));
}

#[test]
fn odd_gap_is_halved_rounding_down() {
    let limiter = started(None);
    let mut wait = Wait::new(Duration::from_nanos(10_000_001));
    let first = limiter.next(&wait);
    assert_eq!(first, Step::Sleep(Duration::from_nanos(5_000_000)));
    wait.record(first, Duration::from_nanos(5_000_000));
    assert_eq!(limiter.next(&wait), Step::Sleep(Duration::from_nanos(2_500_000)));
}

#[test]
fn wait_ends_once_within_tolerance_of_the_request() {
    let limiter = started(None);
    let mut wait = Wait::new(Duration::from_millis(10));
    let first = limiter.next(&wait);
    wait.record(first, Duration::from_micros(9_500));
    assert_eq!(limiter.next(&wait), Step::Done);
}

#[test]
fn wait_ends_when_the_request_is_overslept() {
    let limiter = started(None);
    let mut wait = Wait::new(Duration::from_millis(10));
    let first = limiter.next(&wait);
    wait.record(first, Duration::from_millis(25));
    assert_eq!(limiter.next(&wait), Step::Done);
    assert_eq!(wait.remaining(), Duration::zero());
}

#[test]
fn sleeps_never_grow_under_oversleep() {
    let limiter = started(None);
    let mut wait = Wait::new(Duration::from_secs(3));
    let chunks = sleeps_at(&limiter, &mut wait, 130, 100);
    assert!(!chunks.is_empty());
    for pair in chunks.windows(2) {
        assert!(pair[1] <= pair[0]);
    }
    assert_eq!(limiter.next(&wait), Step::Done);
}

#[test]
fn early_sleeps_still_end_the_wait() {
    let limiter = started(None);
    let mut wait = Wait::new(Duration::from_millis(10));
    let chunks = sleeps_at(&limiter, &mut wait, 50, 100);
    let nanos: Vec<u128> = chunks.iter().map(|chunk| chunk.as_nanos()).collect();
    assert_eq!(
        nanos,
        vec![
            5_000_000, 3_750_000, 2_812_500, 2_109_375, 1_582_031, 1_186_524, 889_893, 667_420,
            500_565,
        ]
    );
    assert_eq!(limiter.next(&wait), Step::Done);
    assert_eq!(wait.total(), Duration::from_nanos(9_249_152));
}

#[test]
fn finished_wait_misses_at_most_twice_the_tolerance() {
    let limiter = started(None);
    for millis in [1, 2, 3, 10, 16, 100, 1_000, 60_000] {
        let mut wait = Wait::new(Duration::from_millis(millis));
        let _ = sleeps_at(&limiter, &mut wait, 100, 1_000);
        assert_eq!(limiter.next(&wait), Step::Done);
        assert!(wait.remaining().as_nanos() <= 2 * 500_000 + 1);
    }
}

#[test]
fn exact_sleeps_are_logarithmic_in_the_request() {
    let limiter = started(None);
    // 2^k * (2 * 500_000 + 1) nanoseconds need at most k sleeps.
    for k in 0..20u32 {
        let nanos = (1u64 << k) * 1_000_001;
        let mut wait = Wait::new(Duration::from_nanos(nanos));
        let chunks = sleeps_at(&limiter, &mut wait, 100, 1_000);
        assert!(chunks.len() <= k as usize);
    }
    // The bound is met at 2^4 * 1_000_001 and is no bound a little above it.
    let mut wait = Wait::new(Duration::from_nanos(16 * 1_000_001));
    assert_eq!(sleeps_at(&limiter, &mut wait, 100, 1_000).len(), 4);
    let mut wait = Wait::new(Duration::from_nanos(16 * 1_000_001 + 16));
    assert_eq!(sleeps_at(&limiter, &mut wait, 100, 1_000).len(), 5);
}

#[test]
fn stalled_clock_keeps_the_wait_going() {
    let limiter = started(None);
    let mut wait = Wait::new(Duration::from_millis(10));
    for _ in 0..50 {
        let step = limiter.next(&wait);
        assert_eq!(step, Step::Sleep(Duration::from_millis(5)));
        wait.record(step, Duration::zero());
    }
    assert_eq!(wait.total(), Duration::zero());
}

#[test]
fn halving_is_ready_only_while_its_period_is_requested() {
    let mut limiter = LimiterImpl::new(Some(1));
    assert!(!limiter.is_ready());
    assert_eq!(limiter.init(), Some(PeriodCall::Begin(1)));
    assert!(limiter.is_ready());
    assert_eq!(limiter.init(), None);
    assert!(limiter.is_ready());
    assert_eq!(limiter.shutdown(), Some(PeriodCall::End(1)));
    assert!(!limiter.is_ready());
    assert_eq!(limiter.init(), None);
    assert!(!limiter.is_ready());
}
