use systemd_run::{Byte, Duration};

#[test]
fn byte_counts_round_trip() {
    let b = Byte::from_bytes(42);
    assert_eq!(b.get_bytes(), 42);
    assert_eq!(b.as_u64(), 42);
}

#[test]
fn byte_counts_clamp_on_the_wire() {
    assert_eq!(Byte::from_bytes(u64::MAX as u128).as_u64(), u64::MAX);
    assert_eq!(Byte::from_bytes(u64::MAX as u128 + 1).as_u64(), u64::MAX);
    assert_eq!(Byte::from_bytes(u128::MAX).as_u64(), u64::MAX);
}

#[test]
fn durations_count_microseconds() {
    assert_eq!(Duration::from_secs(2).as_micros(), 2_000_000);
    assert_eq!(Duration::from_millis(3).as_micros(), 3_000);
    assert_eq!(Duration::from_micros(7).as_micros(), 7);
    assert_eq!(Duration::new(1, 2_500).as_micros(), 1_000_002);
    assert_eq!(Duration::from_millis(1_500).as_millis(), 1_500);
}

#[test]
fn durations_compare_by_length() {
    assert!(Duration::from_secs(1) < Duration::from_millis(1_001));
    assert!(Duration::from_micros(1_000_000) == Duration::from_secs(1));
    assert!(Duration::from_secs(2) > Duration::from_secs(1));
}
