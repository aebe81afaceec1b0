use limiter::duration::Duration;
use limiter::duration::MAX_NANOS;

fn longest() -> Duration {
    Duration::new(u64::MAX, 999_999_999)
}

#[test]
fn constructors_count_nanoseconds() {
    assert_eq!(Duration::zero().as_nanos(), 0);
    assert_eq!(Duration::from_nanos(7).as_nanos(), 7);
    assert_eq!(Duration::from_micros(500).as_nanos(), 500_000);
    assert_eq!(Duration::from_millis(10).as_nanos(), 10_000_000);
    assert_eq!(Duration::from_secs(100000).as_nanos(), 100_000_000_000_000);
    assert_eq!(Duration::new(3, 5).as_nanos(), 3_000_000_005);
}

#[test]
fn new_carries_nanoseconds_beyond_a_second() {
    assert_eq!(Duration::new(1, 2_500_000_000).as_nanos(), 3_500_000_000);
    assert_eq!(Duration::new(1, 2_500_000_000), Duration::new(3, 500_000_000));
}

#[test]
fn constructors_reach_the_ends_of_u64() {
    assert_eq!(Duration::from_secs(u64::MAX).as_nanos(), 18_446_744_073_709_551_615_000_000_000);
    assert_eq!(Duration::from_millis(u64::MAX).as_nanos(), 18_446_744_073_709_551_615_000_000);
    assert_eq!(Duration::from_micros(u64::MAX).as_nanos(), 18_446_744_073_709_551_615_000);
    assert_eq!(Duration::from_nanos(u64::MAX).as_nanos(), 18_446_744_073_709_551_615);
}

#[test]
fn longest_span_is_max_nanos() {
    assert_eq!(longest().as_nanos(), MAX_NANOS);
    assert_eq!(longest().as_secs(), u64::MAX);
    assert_eq!(longest().subsec_nanos(), 999_999_999);
}

#[test]
fn accessors_round_down() {
    let d = Duration::new(2, 345_678_901);
    assert_eq!(d.as_nanos(), 2_345_678_901);
    assert_eq!(d.as_millis(), 2_345);
    assert_eq!(d.as_secs(), 2);
    assert_eq!(d.subsec_nanos(), 345_678_901);
}

#[test]
fn checked_add_sums_within_range() {
    let sum = Duration::from_secs(3).checked_add(Duration::from_millis(5));
    assert_eq!(sum, Some(Duration::new(3, 5_000_000)));
    assert_eq!(Duration::zero().checked_add(longest()), Some(longest()));
}

#[test]
fn checked_add_refuses_beyond_the_longest_span() {
    assert_eq!(longest().checked_add(Duration::from_nanos(1)), None);
    assert_eq!(longest().checked_add(longest()), None);
}

#[test]
fn checked_sub_refuses_the_longer_span() {
    let a = Duration::from_millis(10);
    let b = Duration::from_micros(500);
    assert_eq!(a.checked_sub(b), Some(Duration::from_micros(9_500)));
    assert_eq!(a.checked_sub(a), Some(Duration::zero()));
    assert_eq!(b.checked_sub(a), None);
}

#[test]
fn saturating_sub_stops_at_zero() {
    let a = Duration::from_millis(10);
    let b = Duration::from_micros(500);
    assert_eq!(a.saturating_sub(b), Duration::from_micros(9_500));
    assert_eq!(b.saturating_sub(a), Duration::zero());
    assert_eq!(a.saturating_sub(a), Duration::zero());
}

#[test]
fn checked_mul_multiplies_within_range() {
    assert_eq!(Duration::from_millis(1).checked_mul(2), Some(Duration::from_millis(2)));
    assert_eq!(Duration::from_millis(7).checked_mul(0), Some(Duration::zero()));
    assert_eq!(
        Duration::from_millis(u32::MAX as u64).checked_mul(2),
        Some(Duration::from_millis(8_589_934_590))
    );
}

#[test]
fn checked_mul_refuses_beyond_the_longest_span() {
    assert_eq!(longest().checked_mul(2), None);
    assert_eq!(longest().checked_mul(1), Some(longest()));
    assert_eq!(Duration::from_secs(u64::MAX).checked_mul(u32::MAX), None);
}

#[test]
fn checked_div_rounds_down_and_refuses_zero() {
    assert_eq!(Duration::from_millis(10).checked_div(2), Some(Duration::from_millis(5)));
    assert_eq!(Duration::from_nanos(7).checked_div(2), Some(Duration::from_nanos(3)));
    assert_eq!(Duration::from_nanos(1).checked_div(2), Some(Duration::zero()));
    assert_eq!(Duration::from_millis(10).checked_div(0), None);
    assert_eq!(longest().checked_div(1), Some(longest()));
}

#[test]
fn order_is_the_order_of_the_spans() {
    assert!(Duration::from_micros(999) < Duration::from_millis(1));
    assert!(Duration::from_millis(1) <= Duration::from_micros(1000));
    assert!(Duration::from_secs(1) > Duration::from_millis(999));
    assert_eq!(Duration::from_secs(1), Duration::from_millis(1000));
    assert_ne!(Duration::from_secs(1), Duration::from_millis(1001));
}
