use chrono::TimeZone;
use oura_exporter::time::{try_parse_oura_date, try_parse_oura_timestamp, CalendarDate, Timestamp};

#[test]
fn test_try_parse_oura_timestamp() {
    let timestamp = "2021-01-01T00:00:00+00:00".to_string();
    let datetime = try_parse_oura_timestamp(&timestamp).unwrap();
    let expected = chrono::Utc.with_ymd_and_hms(2021, 01, 01, 0, 0, 0).unwrap();
    assert_eq!(
        datetime,
        Timestamp { seconds: expected.timestamp(), nanos: expected.timestamp_subsec_nanos() }
    );
}

#[test]
fn test_try_parse_oura_date() {
    let date = "2021-01-01".to_string();
    let naive_date = try_parse_oura_date(&date).unwrap();
    assert_eq!(naive_date, CalendarDate { year: 2021, month: 1, day: 1 });
}

#[test]
fn test_try_parse_oura_date_error() {
    let date = "2021-01-01T00:00:00+00:00".to_string();
    let error = try_parse_oura_date(&date).unwrap_err();
    assert_eq!(
        error.message(),
        "Cannot parse Oura API date '2021-01-01T00:00:00+00:00': trailing input"
    );
}

#[test]
fn test_try_parse_oura_timestamp_error() {
    let timestamp = "2021-01-01".to_string();
    let error = try_parse_oura_timestamp(&timestamp).unwrap_err();
    assert_eq!(
        error.message(),
        "Cannot parse Oura API timestamp '2021-01-01': premature end of input"
    );
}

#[test]
fn timestamp_with_offset_is_normalised_to_utc() {
    let t = try_parse_oura_timestamp("2023-06-22T15:00:00+03:00").unwrap();
    assert_eq!(t, Timestamp { seconds: 1687435200, nanos: 0 });
}

#[test]
fn timestamp_keeps_fractional_seconds() {
    let t = try_parse_oura_timestamp("2021-01-01T00:00:00.250Z").unwrap();
    assert_eq!(t, Timestamp { seconds: 1609459200, nanos: 250_000_000 });
}

#[test]
fn date_and_timestamp_strictness() {
    assert!(try_parse_oura_date("2021-01-01").is_ok());
    assert!(try_parse_oura_date("2021-01-01T00:00:00+00:00").is_err());
    assert!(try_parse_oura_timestamp("2021-01-01").is_err());
}

#[test]
fn invalid_calendar_day_is_rejected() {
    let error = try_parse_oura_date("2021-02-30").unwrap_err();
    assert!(error.message().starts_with("Cannot parse Oura API date '2021-02-30': "));
}
