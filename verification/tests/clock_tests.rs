use daq_recorder::clock::{
    cadence_elapsed, deadline_after_minutes, next_day_boundary, NANOS_PER_DAY,
};

#[test]
fn boundary_after_midday() {
    // 2024-01-15 12:00:00 UTC -> next midnight is 2024-01-16 00:00:00 UTC.
    let nanos: u64 = 1_705_320_000 * 1_000_000_000;
    assert_eq!(next_day_boundary(nanos), 1_705_363_200 * 1_000_000_000);
}

#[test]
fn boundary_at_exact_midnight_is_the_next_one() {
    let midnight: u64 = 19_737 * NANOS_PER_DAY;
    assert_eq!(next_day_boundary(midnight), midnight + NANOS_PER_DAY);
}

#[test]
fn boundary_is_strictly_later() {
    for nanos in [0u64, 1, NANOS_PER_DAY - 1, NANOS_PER_DAY, 7 * NANOS_PER_DAY + 42] {
        let boundary = next_day_boundary(nanos);
        assert!(boundary > nanos);
        assert!(boundary - nanos <= NANOS_PER_DAY);
        assert_eq!(boundary % NANOS_PER_DAY, 0);
    }
}

#[test]
fn deadline_exact() {
    assert_eq!(deadline_after_minutes(1_000, 10), 1_000 + 600_000_000_000);
}

#[test]
fn cadence_never_ends_early() {
    let start: u64 = 1_000_000;
    let period: u64 = 2_500;
    assert!(!cadence_elapsed(start, start, period));
    assert!(!cadence_elapsed(start, start + 2_499, period));
    assert!(cadence_elapsed(start, start + 2_500, period));
    assert!(cadence_elapsed(start, start + 40_000, period));
}
