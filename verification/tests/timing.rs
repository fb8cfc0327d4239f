use yourcontrols::clock::{connection_delay_over, update_due, NANOS_PER_SEC};

#[test]
fn delay_is_over_after_three_whole_seconds() {
    assert!(!connection_delay_over(5, 5));
    assert!(!connection_delay_over(5, 5 + 3 * NANOS_PER_SEC - 1));
    assert!(connection_delay_over(5, 5 + 3 * NANOS_PER_SEC));
    assert!(connection_delay_over(0, u64::MAX));
}

#[test]
fn delay_is_not_over_where_the_clock_went_back() {
    assert!(!connection_delay_over(10 * NANOS_PER_SEC, 2 * NANOS_PER_SEC));
}

#[test]
fn interval_is_over_strictly_after_its_end() {
    // Thirty times per second: one interval is 33 333 333.3 nanoseconds
    assert!(!update_due(0, 33_333_333, 30));
    assert!(update_due(0, 33_333_334, 30));
    // Ten times per second: one interval is exactly a tenth of a second
    assert!(!update_due(100, 100 + NANOS_PER_SEC / 10, 10));
    assert!(update_due(100, 101 + NANOS_PER_SEC / 10, 10));
}

#[test]
fn zero_rate_is_never_due() {
    assert!(!update_due(0, u64::MAX, 0));
}

#[test]
fn largest_values_do_not_overflow() {
    assert!(update_due(0, u64::MAX, u16::MAX));
    assert!(!update_due(u64::MAX, 0, u16::MAX));
}

#[test]
fn due_stays_due_later_and_at_higher_rates() {
    assert!(update_due(0, 100_000_001, 10));
    assert!(update_due(0, 100_000_002, 10));
    assert!(update_due(0, 100_000_001, 11));
    assert!(!update_due(0, 100_000_001, 9));
}

/// The interval in seconds, as a fraction of one second.
fn interval(rate: u16) -> f64 {
    1.0 / rate as f64
}

#[test]
fn due_agrees_with_the_interval_in_seconds() {
    for rate in 0..=u16::MAX {
        let end: u64 = if rate == 0 { NANOS_PER_SEC } else { NANOS_PER_SEC / rate as u64 };
        for nanos in [0, end.saturating_sub(1), end, end + 1, NANOS_PER_SEC, 7 * NANOS_PER_SEC + 1] {
            let elapsed = std::time::Duration::from_nanos(nanos).as_secs_f64();
            assert_eq!(update_due(0, nanos, rate), elapsed > interval(rate), "{rate} {nanos}");
        }
    }
}
