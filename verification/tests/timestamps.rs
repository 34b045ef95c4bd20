use order_records::timestamp::{FIRST_SECOND, LAST_SECOND, NANOS_PER_SECOND, OFFSET_LIMIT};
use order_records::Timestamp;

fn text(seconds: i64, nanos: u32, offset: i32) -> String {
    Timestamp::new(seconds, nanos, offset).unwrap().to_rfc3339()
}

#[test]
fn the_epoch_is_written_with_z() {
    assert_eq!(text(0, 0, 0), "1970-01-01T00:00:00Z");
}

#[test]
fn local_time_and_offset_are_written() {
    assert_eq!(text(1_710_513_000, 0, -14_400), "2024-03-15T10:30:00-04:00");
    assert_eq!(text(1_710_513_000, 0, 19_800), "2024-03-15T20:00:00+05:30");
}

#[test]
fn the_fraction_takes_three_six_or_nine_digits() {
    assert_eq!(text(0, 500_000_000, 0), "1970-01-01T00:00:00.500Z");
    assert_eq!(text(0, 123_456_000, 0), "1970-01-01T00:00:00.123456Z");
    assert_eq!(text(0, 1, 0), "1970-01-01T00:00:00.000000001Z");
}

#[test]
fn a_leap_second_is_second_sixty() {
    assert_eq!(text(1_483_228_799, NANOS_PER_SECOND, 0), "2016-12-31T23:59:60Z");
    assert_eq!(text(-1, 1_250_000_000, 0), "1969-12-31T23:59:60.250Z");
}

#[test]
fn a_leap_second_needs_the_last_second_of_a_minute() {
    assert!(Timestamp::new(59, NANOS_PER_SECOND, 0).is_some());
    assert!(Timestamp::new(58, NANOS_PER_SECOND, 0).is_none());
    assert!(Timestamp::new(60, NANOS_PER_SECOND, 0).is_none());
    assert!(Timestamp::new(-1, NANOS_PER_SECOND, 0).is_some());
    assert!(Timestamp::new(-2, NANOS_PER_SECOND, 0).is_none());
    assert!(Timestamp::new(-61, NANOS_PER_SECOND, 0).is_some());
    assert!(Timestamp::new(59, 1_999_999_999, 0).is_some());
    assert!(Timestamp::new(59, 2_000_000_000, 0).is_none());
    assert!(Timestamp::new(58, 999_999_999, 0).is_some());
}

#[test]
fn the_years_run_from_0000_to_9999() {
    assert_eq!(FIRST_SECOND, -62_167_219_200);
    assert_eq!(LAST_SECOND, 253_402_300_799);
    assert_eq!(text(FIRST_SECOND, 0, 0), "0000-01-01T00:00:00Z");
    assert_eq!(text(LAST_SECOND, 0, 0), "9999-12-31T23:59:59Z");
    assert!(Timestamp::new(FIRST_SECOND - 1, 0, 0).is_none());
    assert!(Timestamp::new(LAST_SECOND + 1, 0, 0).is_none());
    assert!(Timestamp::new(i64::MIN, 0, 0).is_none());
    assert!(Timestamp::new(i64::MAX, 0, 0).is_none());
}

#[test]
fn the_local_year_decides_not_the_year_in_utc() {
    assert!(Timestamp::new(LAST_SECOND, 0, 1).is_none());
    assert!(Timestamp::new(FIRST_SECOND, 0, -1).is_none());
    assert_eq!(text(LAST_SECOND + 3_600, 0, -3_600), "9999-12-31T23:59:59-01:00");
    assert_eq!(text(FIRST_SECOND - 3_600, 0, 3_600), "0000-01-01T00:00:00+01:00");
}

#[test]
fn an_offset_stays_below_a_day() {
    assert_eq!(OFFSET_LIMIT, 86_400);
    assert!(Timestamp::new(0, 0, 86_400).is_none());
    assert!(Timestamp::new(0, 0, -86_400).is_none());
    assert!(Timestamp::new(0, 0, i32::MAX).is_none());
    assert!(Timestamp::new(0, 0, i32::MIN).is_none());
    assert_eq!(text(0, 0, 86_399), "1970-01-01T23:59:59+24:00");
    assert_eq!(text(0, 0, -86_399), "1969-12-31T00:00:01-24:00");
}

#[test]
fn a_timestamp_gives_back_its_numbers() {
    let stamp = Timestamp::new(1_710_513_000, 42, -14_400).unwrap();
    assert_eq!(stamp.seconds(), 1_710_513_000);
    assert_eq!(stamp.nanos(), 42);
    assert_eq!(stamp.offset(), -14_400);
    assert_eq!(stamp, Timestamp::new(1_710_513_000, 42, -14_400).unwrap());
    assert_ne!(stamp, Timestamp::new(1_710_513_000, 42, 0).unwrap());
}

#[test]
fn the_text_is_the_one_chrono_serializes() {
    let cases: Vec<(i64, u32, i32)> = vec![
        (0, 0, 0),
        (1_710_513_000, 0, -14_400),
        (1_710_513_000, 120_000_000, 3_600),
        (1_483_228_799, 1_000_000_000, 0),
        (-86_400, 999, 45 * 60),
        (LAST_SECOND, 0, 0),
    ];
    for (seconds, nanos, offset) in cases {
        let zone = chrono::FixedOffset::east_opt(offset).unwrap();
        let moment = chrono::DateTime::from_timestamp(seconds, nanos).unwrap().with_timezone(&zone);
        let quoted = serde_json::to_string(&moment).unwrap();
        assert_eq!(quoted, format!("\"{}\"", text(seconds, nanos, offset)));
    }
}

#[test]
fn the_text_reads_back_as_the_same_moment() {
    let stamp = Timestamp::new(1_710_513_000, 250_000_000, -14_400).unwrap();
    let read = chrono::DateTime::parse_from_rfc3339(&stamp.to_rfc3339()).unwrap();
    assert_eq!(read.timestamp(), stamp.seconds());
    assert_eq!(read.timestamp_subsec_nanos(), stamp.nanos());
    assert_eq!(read.offset().local_minus_utc(), stamp.offset());
}
