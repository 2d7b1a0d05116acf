use global_main_chain::timestamp::{Timestamp, MAX_SECONDS, MIN_SECONDS};

#[test]
fn timestamp_keeps_its_parts() {
    let t = Timestamp::new(1_700_000_000, 123_456_789).unwrap();
    assert_eq!(t.seconds(), 1_700_000_000);
    assert_eq!(t.subsec_nanos(), 123_456_789);
}

#[test]
fn timestamp_text_of_whole_second() {
    let t = Timestamp::new(1_700_000_000, 0).unwrap();
    assert_eq!(t.to_text(), "2023-11-14T22:13:20Z");
}

#[test]
fn timestamp_text_of_the_epoch() {
    let t = Timestamp::new(0, 0).unwrap();
    assert_eq!(t.to_text(), "1970-01-01T00:00:00Z");
}

#[test]
fn timestamp_text_before_the_epoch() {
    let t = Timestamp::new(-1, 0).unwrap();
    assert_eq!(t.to_text(), "1969-12-31T23:59:59Z");
}

#[test]
fn timestamp_text_shows_fractions_in_groups_of_three() {
    assert_eq!(
        Timestamp::new(1_700_000_000, 500_000_000).unwrap().to_text(),
        "2023-11-14T22:13:20.500Z"
    );
    assert_eq!(
        Timestamp::new(1_700_000_000, 1_000).unwrap().to_text(),
        "2023-11-14T22:13:20.000001Z"
    );
    assert_eq!(
        Timestamp::new(1_700_000_000, 1).unwrap().to_text(),
        "2023-11-14T22:13:20.000000001Z"
    );
}

#[test]
fn timestamp_accepts_a_leap_second_at_the_end_of_a_minute() {
    let t = Timestamp::new(1_700_000_039, 1_500_000_000).unwrap();
    assert_eq!(t.to_text(), "2023-11-14T22:13:60.500Z");
    assert_eq!(t.subsec_nanos(), 1_500_000_000);
}

#[test]
fn timestamp_accepts_a_leap_second_before_the_epoch() {
    let t = Timestamp::new(-1, 1_000_000_000).unwrap();
    assert_eq!(t.to_text(), "1969-12-31T23:59:60Z");
    assert!(chrono::DateTime::from_timestamp(-1, 1_000_000_000).is_some());
}

#[test]
fn timestamp_rejects_a_leap_second_elsewhere() {
    assert!(Timestamp::new(1_700_000_000, 1_000_000_000).is_none());
    assert!(chrono::DateTime::from_timestamp(1_700_000_000, 1_000_000_000).is_none());
    assert!(Timestamp::new(-2, 1_000_000_000).is_none());
    assert!(chrono::DateTime::from_timestamp(-2, 1_000_000_000).is_none());
}

#[test]
fn timestamp_rejects_too_many_nanoseconds() {
    assert!(Timestamp::new(1_700_000_039, 2_000_000_000).is_none());
    assert!(chrono::DateTime::from_timestamp(1_700_000_039, 2_000_000_000).is_none());
    assert!(Timestamp::new(1_700_000_039, 1_999_999_999).is_some());
}

#[test]
fn timestamp_range_ends_where_the_calendar_ends() {
    let last = Timestamp::new(MAX_SECONDS, 999_999_999).unwrap();
    assert_eq!(last.to_text(), "+262142-12-31T23:59:59.999999999Z");
    assert!(Timestamp::new(MAX_SECONDS + 1, 0).is_none());
    assert!(chrono::DateTime::from_timestamp(MAX_SECONDS + 1, 0).is_none());
    let last_leap = Timestamp::new(MAX_SECONDS, 1_999_999_999).unwrap();
    assert_eq!(last_leap.to_text(), "+262142-12-31T23:59:60.999999999Z");
}

#[test]
fn timestamp_range_starts_where_the_calendar_starts() {
    let first = Timestamp::new(MIN_SECONDS, 0).unwrap();
    assert_eq!(first.to_text(), "-262143-01-01T00:00:00Z");
    assert!(Timestamp::new(MIN_SECONDS - 1, 0).is_none());
    assert!(chrono::DateTime::from_timestamp(MIN_SECONDS - 1, 0).is_none());
    assert!(Timestamp::new(i64::MIN, 0).is_none());
    assert!(Timestamp::new(i64::MAX, 0).is_none());
}

#[test]
fn timestamp_range_is_the_one_of_the_calendar() {
    assert_eq!(chrono::DateTime::<chrono::Utc>::MIN_UTC.timestamp(), MIN_SECONDS);
    assert_eq!(chrono::DateTime::<chrono::Utc>::MAX_UTC.timestamp(), MAX_SECONDS);
}

#[test]
fn timestamp_now_is_the_present() {
    let before = chrono::Utc::now().timestamp();
    let t = Timestamp::now();
    let after = chrono::Utc::now().timestamp();
    assert!(before <= t.seconds() && t.seconds() <= after);
    assert!(t.subsec_nanos() < 1_000_000_000);
    assert_eq!(Timestamp::new(t.seconds(), t.subsec_nanos()), Some(t));
    assert!(t.to_text().ends_with('Z'));
}
