use heliocron::errors::{ConfigErrorKind, HeliocronError};
use heliocron::parsers::{date_from_reading, parse_date, parse_date_at};
use heliocron::time::Timestamp;

fn noon(year: i32, month: u32, day: u32, offset: i32) -> Timestamp {
    Timestamp { year, month, day, hour: 12, minute: 0, second: 0, nanosecond: 0, offset }
}

fn invalid() -> Result<Timestamp, HeliocronError> {
    Err(HeliocronError::Config(ConfigErrorKind::InvalidDate))
}

#[test]
fn a_date_with_a_zone_is_noon_in_that_zone() {
    assert_eq!(
        parse_date("2024-06-21", "%Y-%m-%d", Some("+02:00")),
        Ok(noon(2024, 6, 21, 7200))
    );
    assert_eq!(
        parse_date("2020-02-29", "%Y-%m-%d", Some("-05:30")),
        Ok(noon(2020, 2, 29, -19_800))
    );
    assert_eq!(
        parse_date("2024-06-21", "%Y-%m-%d", Some("+00:00")),
        Ok(noon(2024, 6, 21, 0))
    );
}

#[test]
fn the_zone_given_wins_over_the_local_offset() {
    for local in [0, 3600, -7200, 19_800] {
        assert_eq!(
            parse_date_at("2024-06-21", "%Y-%m-%d", Some("+02:00"), local),
            Ok(noon(2024, 6, 21, 7200))
        );
    }
}

#[test]
fn a_date_without_a_zone_is_noon_under_the_local_offset() {
    assert_eq!(
        parse_date_at("2024-06-21", "%Y-%m-%d", None, 3600),
        Ok(noon(2024, 6, 21, 3600))
    );
    assert_eq!(
        parse_date_at("2024-12-31", "%Y-%m-%d", None, -28_800),
        Ok(noon(2024, 12, 31, -28_800))
    );
    assert_eq!(parse_date_at("2024-01-01", "%Y-%m-%d", None, 0), Ok(noon(2024, 1, 1, 0)));
}

#[test]
fn a_date_without_a_zone_takes_the_offset_of_the_system() {
    let before = chrono::Local::now().offset().local_minus_utc();
    let date = parse_date("2024-06-21", "%Y-%m-%d", None).unwrap();
    let after = chrono::Local::now().offset().local_minus_utc();
    assert_eq!(date.with_offset(0), noon(2024, 6, 21, 0));
    if before == after {
        assert_eq!(date.offset, before);
    }
}

#[test]
fn the_format_can_be_chosen() {
    assert_eq!(
        parse_date("21/06/2024", "%d/%m/%Y", Some("+01:00")),
        Ok(noon(2024, 6, 21, 3600))
    );
    assert_eq!(
        parse_date_at("21 Jun 2024", "%d %b %Y", None, 0),
        Ok(noon(2024, 6, 21, 0))
    );
}

#[test]
fn a_date_that_does_not_follow_the_format_is_invalid() {
    assert_eq!(parse_date("21/06/2024", "%Y-%m-%d", Some("+02:00")), invalid());
    assert_eq!(parse_date("2024-06-21", "%d/%m/%Y", Some("+02:00")), invalid());
    assert_eq!(parse_date_at("", "%Y-%m-%d", None, 0), invalid());
    assert_eq!(parse_date_at("yesterday", "%Y-%m-%d", None, 0), invalid());
}

#[test]
fn a_day_that_is_not_in_the_calendar_is_invalid() {
    assert_eq!(parse_date_at("2023-02-29", "%Y-%m-%d", None, 0), invalid());
    assert_eq!(parse_date_at("2024-13-01", "%Y-%m-%d", None, 0), invalid());
    assert_eq!(parse_date_at("2024-06-31", "%Y-%m-%d", None, 0), invalid());
}

#[test]
fn a_malformed_zone_is_invalid() {
    assert_eq!(parse_date("2024-06-21", "%Y-%m-%d", Some("Europe/Paris")), invalid());
    assert_eq!(parse_date("2024-06-21", "%Y-%m-%d", Some("")), invalid());
    assert_eq!(parse_date("2024-06-21", "%Y-%m-%d", Some("+25:00")), invalid());
}

#[test]
fn a_reading_becomes_a_date() {
    let stamp = noon(2024, 6, 21, 7200);
    assert_eq!(date_from_reading(Some(stamp), None), Ok(stamp));
    assert_eq!(date_from_reading(Some(stamp), Some(-3600)), Ok(noon(2024, 6, 21, -3600)));
    assert_eq!(date_from_reading(None, None), invalid());
    assert_eq!(date_from_reading(None, Some(3600)), invalid());
}

#[test]
fn noon_keeps_the_day_and_the_offset() {
    let evening = Timestamp {
        year: 2024,
        month: 6,
        day: 21,
        hour: 23,
        minute: 59,
        second: 59,
        nanosecond: 1_500_000_000,
        offset: -3600,
    };
    assert_eq!(evening.at_noon(), noon(2024, 6, 21, -3600));
    assert_eq!(noon(2024, 6, 21, 0).at_noon(), noon(2024, 6, 21, 0));
    assert_eq!(evening.with_offset(60).offset, 60);
    assert_eq!(evening.with_offset(60).hour, 23);
}
