use chrono::{DateTime, Utc};
use file_explorer::timestamp::{MAX_SECS, MIN_SECS, NANOS_PER_SEC};
use file_explorer::Timestamp;

#[test]
fn epoch_renders_as_rfc3339() {
    assert_eq!(Timestamp::epoch().to_rfc3339(), "1970-01-01T00:00:00+00:00");
}

#[test]
fn epoch_is_zero() {
    let epoch = Timestamp::epoch();
    assert_eq!(epoch.seconds(), 0);
    assert_eq!(epoch.subsec_nanos(), 0);
}

#[test]
fn whole_seconds_render_without_fraction() {
    let at = Timestamp::new(1_431_648_000, 0).unwrap();
    assert_eq!(at.to_rfc3339(), "2015-05-15T00:00:00+00:00");
}

#[test]
fn fractions_render_in_groups_of_three_digits() {
    assert_eq!(
        Timestamp::new(1, 500_000_000).unwrap().to_rfc3339(),
        "1970-01-01T00:00:01.500+00:00"
    );
    assert_eq!(
        Timestamp::new(1, 500_000).unwrap().to_rfc3339(),
        "1970-01-01T00:00:01.000500+00:00"
    );
    assert_eq!(
        Timestamp::new(1, 5).unwrap().to_rfc3339(),
        "1970-01-01T00:00:01.000000005+00:00"
    );
}

#[test]
fn instants_before_the_epoch_render() {
    assert_eq!(Timestamp::new(-1, 0).unwrap().to_rfc3339(), "1969-12-31T23:59:59+00:00");
}

#[test]
fn new_keeps_both_numbers() {
    let at = Timestamp::new(-42, 7).unwrap();
    assert_eq!(at.seconds(), -42);
    assert_eq!(at.subsec_nanos(), 7);
}

#[test]
fn new_accepts_exactly_the_renderable_range() {
    assert!(Timestamp::new(MIN_SECS, 0).is_some());
    assert!(Timestamp::new(MIN_SECS - 1, 0).is_none());
    assert!(Timestamp::new(MAX_SECS, NANOS_PER_SEC - 1).is_some());
    assert!(Timestamp::new(MAX_SECS + 1, 0).is_none());
    assert!(Timestamp::new(0, NANOS_PER_SEC).is_none());
    assert!(Timestamp::new(59, NANOS_PER_SEC).is_none());
    assert!(Timestamp::new(i64::MIN, 0).is_none());
    assert!(Timestamp::new(i64::MAX, 0).is_none());
    assert!(Timestamp::new(0, u32::MAX).is_none());
}

#[test]
fn range_is_that_of_the_calendar_library() {
    assert_eq!(DateTime::<Utc>::MIN_UTC.timestamp(), MIN_SECS);
    assert_eq!(DateTime::<Utc>::MAX_UTC.timestamp(), MAX_SECS);
    assert!(DateTime::<Utc>::from_timestamp(MIN_SECS - 1, 0).is_none());
    assert!(DateTime::<Utc>::from_timestamp(MAX_SECS + 1, 0).is_none());
}

#[test]
fn both_ends_of_the_range_render() {
    assert_eq!(
        Timestamp::new(MIN_SECS, 0).unwrap().to_rfc3339(),
        "-262143-01-01T00:00:00+00:00"
    );
    assert_eq!(
        Timestamp::new(MAX_SECS, NANOS_PER_SEC - 1).unwrap().to_rfc3339(),
        "+262142-12-31T23:59:59.999999999+00:00"
    );
}

#[test]
fn rendering_agrees_with_the_calendar_library() {
    for (secs, nanos) in [(0i64, 0u32), (1_700_000_000, 123_456_789), (-86_400, 1_000), (951_782_400, 0)] {
        let expected = DateTime::<Utc>::from_timestamp(secs, nanos).unwrap().to_rfc3339();
        assert_eq!(Timestamp::new(secs, nanos).unwrap().to_rfc3339(), expected);
    }
}

#[test]
fn same_instant_renders_the_same_twice() {
    let at = Timestamp::new(1_700_000_000, 1).unwrap();
    assert_eq!(at.to_rfc3339(), at.to_rfc3339());
}

#[test]
fn after_epoch_counts_forward() {
    let at = Timestamp::after_epoch(1_431_648_000, 250_000_000).unwrap();
    assert_eq!(at.seconds(), 1_431_648_000);
    assert_eq!(at.subsec_nanos(), 250_000_000);
    assert_eq!(Timestamp::after_epoch(0, 0).unwrap().to_rfc3339(), "1970-01-01T00:00:00+00:00");
}

#[test]
fn after_epoch_refuses_what_cannot_be_rendered() {
    assert!(Timestamp::after_epoch(MAX_SECS as u64, NANOS_PER_SEC - 1).is_some());
    assert!(Timestamp::after_epoch(MAX_SECS as u64 + 1, 0).is_none());
    assert!(Timestamp::after_epoch(u64::MAX, 0).is_none());
    assert!(Timestamp::after_epoch(0, NANOS_PER_SEC).is_none());
}

#[test]
fn before_epoch_counts_backward_in_whole_seconds() {
    let at = Timestamp::before_epoch(1, 0).unwrap();
    assert_eq!(at.seconds(), -1);
    assert_eq!(at.subsec_nanos(), 0);
    assert_eq!(at.to_rfc3339(), "1969-12-31T23:59:59+00:00");
    let at = Timestamp::before_epoch(0, 0).unwrap();
    assert_eq!(at.seconds(), 0);
    assert_eq!(at.subsec_nanos(), 0);
}

#[test]
fn before_epoch_keeps_nanoseconds_counting_forward() {
    let at = Timestamp::before_epoch(0, 500_000_000).unwrap();
    assert_eq!(at.seconds(), -1);
    assert_eq!(at.subsec_nanos(), 500_000_000);
    assert_eq!(at.to_rfc3339(), "1969-12-31T23:59:59.500+00:00");
    let at = Timestamp::before_epoch(2, 1).unwrap();
    assert_eq!(at.seconds(), -3);
    assert_eq!(at.subsec_nanos(), 999_999_999);
}

#[test]
fn before_epoch_refuses_what_cannot_be_rendered() {
    assert!(Timestamp::before_epoch(MIN_SECS.unsigned_abs(), 0).is_some());
    assert!(Timestamp::before_epoch(MIN_SECS.unsigned_abs(), 1).is_none());
    assert!(Timestamp::before_epoch(MIN_SECS.unsigned_abs() - 1, 1).is_some());
    assert!(Timestamp::before_epoch(MIN_SECS.unsigned_abs() + 1, 0).is_none());
    assert!(Timestamp::before_epoch(u64::MAX, 0).is_none());
    assert!(Timestamp::before_epoch(1, NANOS_PER_SEC).is_none());
}

#[test]
fn before_epoch_agrees_with_the_calendar_library() {
    let earlier = std::time::UNIX_EPOCH - std::time::Duration::new(86_400, 250);
    let expected: DateTime<Utc> = earlier.into();
    let at = Timestamp::before_epoch(86_400, 250).unwrap();
    assert_eq!(at.seconds(), expected.timestamp());
    assert_eq!(at.subsec_nanos(), expected.timestamp_subsec_nanos());
    assert_eq!(at.to_rfc3339(), expected.to_rfc3339());
}
