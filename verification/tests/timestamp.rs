use workload_identity::timestamp::{Timestamp, MAX_SECS, NANOS_PER_SEC, RANGE_END};

#[test]
fn instants_count_nanoseconds_from_the_epoch() {
    assert_eq!(Timestamp::epoch().unix_nanos(), 0);
    assert_eq!(Timestamp::from_unix(1, 0).unix_nanos(), 1_000_000_000);
    assert_eq!(Timestamp::from_unix(1_700_000_000, 5).unix_nanos(), 1_700_000_000_000_000_005);
    assert_eq!(
        Timestamp::from_unix(u64::MAX, 999_999_999).unix_nanos(),
        18_446_744_073_709_551_615_999_999_999
    );
    assert_eq!(Timestamp::from_unix(3, 4), Timestamp { nanos: 3_000_000_004 });
}

#[test]
fn range_ends_after_the_last_whole_second() {
    assert_eq!(RANGE_END, (MAX_SECS as u128 + 1) * NANOS_PER_SEC);
    assert_eq!(MAX_SECS, i64::MAX as u64);
}

#[test]
fn adding_seconds_moves_by_whole_seconds() {
    let start = Timestamp::from_unix(100, 7);
    assert_eq!(start.checked_add_secs(0), Some(start));
    assert_eq!(start.checked_add_secs(3600), Some(Timestamp::from_unix(3700, 7)));
}

#[test]
fn adding_seconds_stops_at_the_end_of_the_range() {
    let start = Timestamp::from_unix(100, 7);
    assert_eq!(
        start.checked_add_secs(MAX_SECS - 100),
        Some(Timestamp::from_unix(MAX_SECS, 7))
    );
    assert_eq!(start.checked_add_secs(MAX_SECS - 99), None);
    assert_eq!(start.checked_add_secs(u64::MAX), None);
    let last = Timestamp { nanos: RANGE_END - 1 };
    assert_eq!(last.checked_add_secs(0), Some(last));
    assert_eq!(last.checked_add_secs(1), None);
    let beyond = Timestamp { nanos: RANGE_END };
    assert_eq!(beyond.checked_add_secs(0), None);
    assert_eq!(Timestamp { nanos: u128::MAX }.checked_add_secs(u64::MAX), None);
}

#[test]
fn before_is_strict() {
    let early = Timestamp::from_unix(5, 0);
    let late = Timestamp::from_unix(5, 1);
    assert!(early.is_before(&late));
    assert!(!late.is_before(&early));
    assert!(!early.is_before(&early));
}
