use rustcord::timestamp::{Timestamp, EARLIEST_SECOND, LATEST_SECOND};

const FIRST_SECOND: i64 = -62_135_596_800;
const LAST_SECOND: i64 = 253_402_300_799;

fn at(seconds: i64, nanos: u32, offset: i32) -> Option<String> {
    Timestamp { seconds, nanos, offset }.to_rfc3339()
}

#[test]
fn instants_are_written_as_rfc3339() {
    assert_eq!(at(0, 0, 0), Some("1970-01-01T00:00:00+00:00".to_owned()));
    assert_eq!(at(1_646_136_000, 0, 0), Some("2022-03-01T12:00:00+00:00".to_owned()));
    assert_eq!(at(-1, 0, 0), Some("1969-12-31T23:59:59+00:00".to_owned()));
}

#[test]
fn fractions_of_a_second_are_written_when_there_are_any() {
    assert_eq!(at(1_646_136_000, 500_000_000, 0), Some("2022-03-01T12:00:00.500+00:00".to_owned()));
    assert_eq!(
        at(1_646_136_000, 123_456_789, 0),
        Some("2022-03-01T12:00:00.123456789+00:00".to_owned())
    );
    assert_eq!(at(1_646_136_000, 1_000, 0), Some("2022-03-01T12:00:00.000001+00:00".to_owned()));
}

#[test]
fn offset_moves_the_clock_and_not_the_instant() {
    assert_eq!(at(1_646_136_000, 0, 3_600), Some("2022-03-01T13:00:00+01:00".to_owned()));
    assert_eq!(at(1_646_136_000, 0, -28_800), Some("2022-03-01T04:00:00-08:00".to_owned()));
    assert_eq!(at(1_646_136_000, 0, 19_800), Some("2022-03-01T17:30:00+05:30".to_owned()));
}

#[test]
fn instants_beyond_the_calendar_have_no_text() {
    assert_eq!(at(i64::MAX, 0, 0), None);
    assert_eq!(at(i64::MIN, 0, 0), None);
    assert_eq!(at(0, 2_000_000_000, 0), None);
    assert_eq!(at(0, 0, 86_400), None);
    assert_eq!(at(0, 0, -86_400), None);
}

#[test]
fn every_instant_of_the_years_one_to_9999_has_its_text() {
    assert_eq!(at(FIRST_SECOND, 0, 0), Some("0001-01-01T00:00:00+00:00".to_owned()));
    assert_eq!(
        at(LAST_SECOND, 999_999_999, 0),
        Some("9999-12-31T23:59:59.999999999+00:00".to_owned())
    );
    for seconds in [FIRST_SECOND, -1, 0, 59, 1_646_136_000, LAST_SECOND] {
        for nanos in [0, 1, 999_999_999] {
            for offset in [-86_399, -3_600, 0, 3_600, 86_399] {
                assert!(at(seconds, nanos, offset).is_some());
            }
        }
    }
}

#[test]
fn malformed_instants_have_no_text_whatever_their_date() {
    for seconds in [FIRST_SECOND, 0, 59, LAST_SECOND] {
        assert_eq!(at(seconds, 2_000_000_000, 0), None);
        assert_eq!(at(seconds, u32::MAX, 0), None);
        assert_eq!(at(seconds, 0, 86_400), None);
        assert_eq!(at(seconds, 0, -86_400), None);
        assert_eq!(at(seconds, 0, i32::MAX), None);
        assert_eq!(at(seconds, 0, i32::MIN), None);
    }
}

#[test]
fn calendar_ends_with_its_first_and_last_second() {
    assert_eq!(EARLIEST_SECOND, -8_334_601_228_800);
    assert_eq!(LATEST_SECOND, 8_210_266_876_799);
    assert_eq!(at(EARLIEST_SECOND, 0, 0), Some("-262143-01-01T00:00:00+00:00".to_owned()));
    assert_eq!(
        at(LATEST_SECOND, 999_999_999, 0),
        Some("+262142-12-31T23:59:59.999999999+00:00".to_owned())
    );
    for offset in [-86_399, 0, 86_399] {
        assert!(at(EARLIEST_SECOND, 0, offset).is_some());
        assert!(at(LATEST_SECOND, 0, offset).is_some());
        assert_eq!(at(EARLIEST_SECOND - 1, 0, offset), None);
        assert_eq!(at(LATEST_SECOND + 1, 0, offset), None);
    }
    assert_eq!(at(EARLIEST_SECOND - 1, 999_999_999, 0), None);
    assert_eq!(at(LATEST_SECOND + 1, 0, 0), None);
}

#[test]
fn leap_second_stands_in_the_last_second_of_a_minute_only() {
    for seconds in [59, 119, -1, -61, 1_646_136_059, LATEST_SECOND, EARLIEST_SECOND + 59] {
        assert!(at(seconds, 1_000_000_000, 0).is_some());
        assert!(at(seconds, 1_999_999_999, 0).is_some());
        assert_eq!(at(seconds, 2_000_000_000, 0), None);
    }
    for seconds in [0, 58, 60, -2, -60, 1_646_136_000, EARLIEST_SECOND, LATEST_SECOND - 1] {
        assert!(at(seconds, 999_999_999, 0).is_some());
        assert_eq!(at(seconds, 1_000_000_000, 0), None);
        assert_eq!(at(seconds, 1_999_999_999, 0), None);
    }
    assert_eq!(at(59, 1_500_000_000, 0), Some("1970-01-01T00:00:60.500+00:00".to_owned()));
}

#[test]
fn timestamps_are_plain_values() {
    let t = Timestamp { seconds: 5, nanos: 6, offset: 7 };
    let copy = t;
    assert_eq!(copy, t);
    assert_eq!(copy.clone(), Timestamp { seconds: 5, nanos: 6, offset: 7 });
    assert_ne!(t, Timestamp { seconds: 5, nanos: 6, offset: 8 });
}
