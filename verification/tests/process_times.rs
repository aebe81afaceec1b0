use limiter::duration::Duration;
use limiter::process_times::get;
use limiter::process_times::ProcessTimes;
use limiter::process_times::NANOS_PER_TICK;

#[test]
fn platform_without_process_times_reports_none_used() {
    let times = get();
    assert_eq!(times, Some(ProcessTimes { user: Duration::zero(), kernel: Duration::zero() }));
}

#[test]
fn file_time_ticks_are_100_nanoseconds() {
    assert_eq!(NANOS_PER_TICK, 100);
    let times = ProcessTimes::from_file_times(10_000, 0, 156_250, 0);
    assert_eq!(times.user, Duration::from_millis(1));
    assert_eq!(times.kernel, Duration::from_micros(15_625));
}

#[test]
fn file_time_high_half_counts_2_to_the_32_ticks() {
    let times = ProcessTimes::from_file_times(5, 1, 0, 2);
    assert_eq!(times.user.as_nanos(), (4_294_967_296 + 5) * 100);
    assert_eq!(times.kernel.as_nanos(), 2 * 4_294_967_296 * 100);
}

#[test]
fn file_time_of_all_ones_fits() {
    let times = ProcessTimes::from_file_times(u32::MAX, u32::MAX, 0, 0);
    assert_eq!(times.user.as_nanos(), 1_844_674_407_370_955_161_500);
    assert_eq!(times.kernel, Duration::zero());
}

#[test]
fn sub_takes_each_time_from_its_own() {
    let before = ProcessTimes { user: Duration::from_millis(120), kernel: Duration::from_millis(30) };
    let after = ProcessTimes { user: Duration::from_millis(150), kernel: Duration::from_millis(31) };
    assert!(after.covers(&before));
    let used = after.sub(before);
    assert_eq!(used.user, Duration::from_millis(30));
    assert_eq!(used.kernel, Duration::from_millis(1));
    assert_eq!(after.sub(after), ProcessTimes { user: Duration::zero(), kernel: Duration::zero() });
}

#[test]
fn covers_needs_both_times() {
    let small = ProcessTimes { user: Duration::from_millis(1), kernel: Duration::from_millis(5) };
    let large = ProcessTimes { user: Duration::from_millis(2), kernel: Duration::from_millis(4) };
    assert!(!small.covers(&large));
    assert!(!large.covers(&small));
    assert!(small.covers(&small));
}
