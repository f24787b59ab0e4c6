use ericspeed::speedtest::ping::{floor_sqrt, latency_stats, PingProgress, PingResult, PingTest};

#[test]
fn three_samples_mean_and_jitter() {
    let r = latency_stats(&vec![10_000, 20_000, 30_000]);
    assert_eq!(r, PingResult { avg_us: 20_000, jitter_us: 10_000 });
    let r = latency_stats(&vec![10, 20, 30]);
    assert_eq!(r, PingResult { avg_us: 20, jitter_us: 10 });
}

#[test]
fn single_sample_has_no_jitter() {
    let r = latency_stats(&vec![15_000]);
    assert_eq!(r, PingResult { avg_us: 15_000, jitter_us: 0 });
}

#[test]
fn no_sample_gives_zero() {
    let r = latency_stats(&Vec::new());
    assert_eq!(r, PingResult { avg_us: 0, jitter_us: 0 });
}

#[test]
fn equal_samples_have_no_jitter() {
    let r = latency_stats(&vec![50_000; 5]);
    assert_eq!(r, PingResult { avg_us: 50_000, jitter_us: 0 });
}

#[test]
fn jitter_uses_n_minus_one() {
    // Deviations 1 and 1 about the mean 1: variance 2 / 1, whose root is 1.41..
    let r = latency_stats(&vec![0, 2]);
    assert_eq!(r, PingResult { avg_us: 1, jitter_us: 1 });
    // 2, 4, 4, 4, 5, 5, 7, 9: squared deviations sum to 32, over 7 is 4.57..
    let r = latency_stats(&vec![2, 4, 4, 4, 5, 5, 7, 9]);
    assert_eq!(r, PingResult { avg_us: 5, jitter_us: 2 });
}

#[test]
fn mean_is_rounded_down() {
    let r = latency_stats(&vec![1, 2]);
    assert_eq!(r.avg_us, 1);
    assert_eq!(r.jitter_us, 0);
}

#[test]
fn largest_samples_do_not_overflow() {
    let r = latency_stats(&vec![u32::MAX, 0, u32::MAX, 0]);
    assert_eq!(r.avg_us, (u32::MAX as u64) / 2);
    // variance = 4 * (M/2)^2 / 3 = M^2 / 3
    let m = u32::MAX as u128;
    assert_eq!(r.jitter_us, floor_sqrt(m * m / 3));
}

#[test]
fn floor_sqrt_values() {
    assert_eq!(floor_sqrt(0), 0);
    assert_eq!(floor_sqrt(1), 1);
    assert_eq!(floor_sqrt(2), 1);
    assert_eq!(floor_sqrt(3), 1);
    assert_eq!(floor_sqrt(4), 2);
    assert_eq!(floor_sqrt(99), 9);
    assert_eq!(floor_sqrt(100), 10);
    assert_eq!(floor_sqrt(100_000_000), 10_000);
    assert_eq!(floor_sqrt(u128::MAX), u64::MAX);
    assert_eq!(floor_sqrt((u64::MAX as u128) * (u64::MAX as u128) - 1), u64::MAX - 1);
}

#[test]
fn ping_test_records_answers_and_counts_failures() {
    let mut t = PingTest::new(4);
    assert_eq!(t.remaining(), 4);
    assert_eq!(t.record(Some(10_000)), Some(PingProgress { latest_ping: Some(10_000) }));
    assert_eq!(t.record(None), Some(PingProgress { latest_ping: None }));
    assert_eq!(t.record(Some(20_000)), Some(PingProgress { latest_ping: Some(20_000) }));
    assert_eq!(t.remaining(), 1);
    assert_eq!(t.record(Some(30_000)), Some(PingProgress { latest_ping: Some(30_000) }));
    assert_eq!(t.remaining(), 0);
    assert_eq!(t.calculate_result(), PingResult { avg_us: 20_000, jitter_us: 10_000 });
}

#[test]
fn ping_test_takes_no_more_than_its_count() {
    let mut t = PingTest::new(1);
    assert!(t.record(Some(15_000)).is_some());
    assert_eq!(t.record(Some(99_000)), None);
    assert_eq!(t.record(None), None);
    assert_eq!(t.calculate_result(), PingResult { avg_us: 15_000, jitter_us: 0 });
}

#[test]
fn ping_test_with_only_failures_gives_zero() {
    let mut t = PingTest::new(3);
    for _ in 0..3 {
        assert_eq!(t.record(None), Some(PingProgress { latest_ping: None }));
    }
    assert_eq!(t.calculate_result(), PingResult { avg_us: 0, jitter_us: 0 });
}

#[test]
fn ping_test_of_zero_probes() {
    let mut t = PingTest::new(0);
    assert_eq!(t.remaining(), 0);
    assert_eq!(t.record(Some(1)), None);
    assert_eq!(t.calculate_result(), PingResult { avg_us: 0, jitter_us: 0 });
}
