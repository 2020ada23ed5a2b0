use backend::clock::{now, rfc3339};
use backend::models::Timestamp;

fn written(seconds: i64, nanoseconds: u32) -> Option<String> {
    rfc3339(&Timestamp { seconds, nanoseconds })
}

#[test]
fn the_epoch_is_written_as_1970() {
    assert_eq!(written(0, 0), Some("1970-01-01T00:00:00+00:00".to_string()));
}

#[test]
fn whole_seconds_are_written_without_a_fraction() {
    assert_eq!(written(1_700_000_000, 0), Some("2023-11-14T22:13:20+00:00".to_string()));
    assert_eq!(written(1_431_648_000, 0), Some("2015-05-15T00:00:00+00:00".to_string()));
    assert_eq!(written(951_782_400, 0), Some("2000-02-29T00:00:00+00:00".to_string()));
    assert_eq!(written(86_399, 0), Some("1970-01-01T23:59:59+00:00".to_string()));
}

#[test]
fn the_fraction_has_three_six_or_nine_digits() {
    assert_eq!(written(1_700_000_000, 120_000_000), Some("2023-11-14T22:13:20.120+00:00".to_string()));
    assert_eq!(written(1_700_000_000, 1_000_000), Some("2023-11-14T22:13:20.001+00:00".to_string()));
    assert_eq!(written(1_700_000_000, 123_456_000), Some("2023-11-14T22:13:20.123456+00:00".to_string()));
    assert_eq!(written(1_700_000_000, 1_000), Some("2023-11-14T22:13:20.000001+00:00".to_string()));
    assert_eq!(written(1_700_000_000, 123_456_789), Some("2023-11-14T22:13:20.123456789+00:00".to_string()));
    assert_eq!(written(1_700_000_000, 1), Some("2023-11-14T22:13:20.000000001+00:00".to_string()));
    assert_eq!(written(1_700_000_000, 999_999_999), Some("2023-11-14T22:13:20.999999999+00:00".to_string()));
}

#[test]
fn an_instant_before_1970_is_written_too() {
    assert_eq!(written(-1, 0), Some("1969-12-31T23:59:59+00:00".to_string()));
    assert_eq!(written(-1, 500_000_000), Some("1969-12-31T23:59:59.500+00:00".to_string()));
}

#[test]
fn the_last_second_of_the_year_9999_has_four_digits() {
    assert_eq!(written(253_402_300_799, 0), Some("9999-12-31T23:59:59+00:00".to_string()));
    assert_eq!(written(253_402_300_800, 0), Some("+10000-01-01T00:00:00+00:00".to_string()));
}

#[test]
fn a_leap_second_is_written_as_second_sixty() {
    assert_eq!(written(59, 1_000_000_000), Some("1970-01-01T00:00:60+00:00".to_string()));
    assert_eq!(written(59, 1_500_000_000), Some("1970-01-01T00:00:60.500+00:00".to_string()));
}

#[test]
fn nanoseconds_that_are_no_part_of_the_second_are_not_written() {
    assert_eq!(written(0, 1_000_000_000), None);
    assert_eq!(written(58, 1_500_000_000), None);
    assert_eq!(written(59, 2_000_000_000), None);
    assert_eq!(written(0, u32::MAX), None);
}

#[test]
fn seconds_beyond_the_calendar_are_not_written() {
    assert_eq!(written(i64::MAX, 0), None);
    assert_eq!(written(i64::MIN, 0), None);
    assert_eq!(written(10_000_000_000_000, 0), None);
}

#[test]
fn the_text_is_read_back_as_the_instant() {
    for (seconds, nanoseconds) in [(0, 0), (1_700_000_000, 5), (-86_400, 999_000), (4_102_444_800, 0)] {
        let text = written(seconds, nanoseconds).unwrap();
        let read = chrono::DateTime::parse_from_rfc3339(&text).unwrap();
        assert_eq!(read.timestamp(), seconds);
        assert_eq!(read.timestamp_subsec_nanos(), nanoseconds);
    }
}

#[test]
fn the_clock_reads_an_instant_that_can_be_written() {
    let before = chrono::Utc::now();
    let instant = now();
    let after = chrono::Utc::now();
    let text = rfc3339(&instant).unwrap();
    let read = chrono::DateTime::parse_from_rfc3339(&text).unwrap();
    assert!(before <= read && read <= after);
    assert!(instant.nanoseconds < 1_000_000_000);
}
