use nettest::report::{average_rate, IntervalClock, IntervalStats};

#[test]
fn average_rate_divides_by_open_and_closed_windows() {
    assert_eq!(average_rate(1000, 0), 1000);
    assert_eq!(average_rate(1000, 1), 500);
    assert_eq!(average_rate(1000, 3), 250);
    assert_eq!(average_rate(7, 2), 2);
    assert_eq!(average_rate(u64::MAX, u64::MAX), 0);
    assert_eq!(average_rate(0, 5), 0);
}

#[test]
fn clock_closes_one_window_per_reading() {
    let mut c = IntervalClock::new(500, 10);
    assert_eq!(c.tick(1_000_499), None);
    c.record(5);
    assert_eq!(c.tick(1_000_500), Some(IntervalStats { index: 0, bytes: 15 }));
    assert_eq!(c.tick(5_000_000), Some(IntervalStats { index: 1, bytes: 0 }));
    assert_eq!(c.boundary_us, 3_000_500);
    assert_eq!(c.index, 2);
}

#[test]
fn clock_counts_saturate() {
    let mut c = IntervalClock::new(u64::MAX - 10, u64::MAX - 1);
    assert_eq!(c.boundary_us, u64::MAX);
    c.record(5);
    assert_eq!(c.bytes, u64::MAX);
    assert_eq!(c.tick(u64::MAX - 1), None);
    assert_eq!(c.tick(u64::MAX), Some(IntervalStats { index: 0, bytes: u64::MAX }));
    assert_eq!(c.boundary_us, u64::MAX);
}
