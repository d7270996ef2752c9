//! Instants and calendar dates, and the parsing of the vendor's timestamp and
//! date strings.

use crate::errors::{error_view, OuraPollingError, PollingErrorView};
use vstd::prelude::*;
use vstd::string::StringExecFns;

verus! {

/// A point in time: whole seconds since 1970-01-01T00:00:00 UTC and the
/// nanoseconds past that second (above 999_999_999 only inside a leap second).
#[derive(Clone, Copy, Debug, PartialEq, Eq, Structural)]
pub struct Timestamp {
    pub seconds: i64,
    pub nanos: u32,
}

/// A day of the proleptic Gregorian calendar.
#[derive(Clone, Copy, Debug, PartialEq, Eq, Structural)]
pub struct CalendarDate {
    pub year: i32,
    pub month: u32,
    pub day: u32,
}

/// Parsing an RFC 3339 string: the instant it denotes, as (seconds,
/// nanoseconds) since the Unix epoch, or the description of why it is not
/// RFC 3339.
pub uninterp spec fn rfc3339_of(s: Seq<char>) -> Result<(i64, u32), Seq<char>>;

/// Parsing `s` under the strftime-style format `fmt`: the (year, month, day)
/// it denotes, or the description of why it does not match the format exactly.
pub uninterp spec fn date_of(s: Seq<char>, fmt: Seq<char>) -> Result<(i32, u32, u32), Seq<char>>;

/// Seconds since the Unix epoch of midnight UTC on the given day; `None` where
/// the triple is no valid date.
pub uninterp spec fn midnight_of(year: i32, month: u32, day: u32) -> Option<i64>;

/// The RFC 3339 text, in UTC with a `Z` suffix and as many fractional digits as
/// needed, of an instant; `None` where the instant is out of the calendar's range.
pub uninterp spec fn utc_text_of(seconds: i64, nanos: u32) -> Option<Seq<char>>;

/// Relies on chrono's `DateTime::parse_from_rfc3339`: parses an RFC 3339
/// string; the instant is read back with `timestamp` and
/// `timestamp_subsec_nanos`, a failure with the `Display` of `ParseError`.
#[verifier::external_body]
fn rfc3339_instant(s: &str) -> (r: Result<(i64, u32), String>)
    ensures
        match r {
            Ok(v) => rfc3339_of(s@) == Ok::<(i64, u32), Seq<char>>(v),
            Err(t) => rfc3339_of(s@) == Err::<(i64, u32), Seq<char>>(t@),
        },
{
    chrono::DateTime::parse_from_rfc3339(s).map(
        |d| (d.timestamp(), d.timestamp_subsec_nanos()),
    ).map_err(|e| e.to_string())
}

/// Relies on chrono's `NaiveDate::parse_from_str`: parses a date under a
/// format; the date is read back with `Datelike::{year, month, day}`, a
/// failure with the `Display` of `ParseError`.
#[verifier::external_body]
fn formatted_date(s: &str, fmt: &str) -> (r: Result<(i32, u32, u32), String>)
    ensures
        match r {
            Ok(v) => date_of(s@, fmt@) == Ok::<(i32, u32, u32), Seq<char>>(v),
            Err(t) => date_of(s@, fmt@) == Err::<(i32, u32, u32), Seq<char>>(t@),
        },
{
    chrono::NaiveDate::parse_from_str(s, fmt).map(
        |d| (chrono::Datelike::year(&d), chrono::Datelike::month(&d), chrono::Datelike::day(&d)),
    ).map_err(|e| e.to_string())
}

/// Relies on chrono's `NaiveDate::from_ymd_opt`, `and_hms_opt` at 00:00:00 and
/// `and_utc().timestamp()`: the epoch seconds of a day's first instant in UTC.
#[verifier::external_body]
pub(crate) fn midnight_utc_seconds(year: i32, month: u32, day: u32) -> (r: Option<i64>)
    ensures
        r == midnight_of(year, month, day),
{
    chrono::NaiveDate::from_ymd_opt(year, month, day).and_then(|d| d.and_hms_opt(0, 0, 0)).map(
        |t| t.and_utc().timestamp(),
    )
}

/// Relies on chrono's `DateTime::from_timestamp` and
/// `to_rfc3339_opts(SecondsFormat::AutoSi, true)`, the form in which chrono
/// serialises a UTC instant.
#[verifier::external_body]
pub(crate) fn utc_rfc3339_text(seconds: i64, nanos: u32) -> (r: Option<String>)
    ensures
        match r {
            Some(t) => utc_text_of(seconds, nanos) == Some(t@),
            None => utc_text_of(seconds, nanos) is None,
        },
{
    chrono::DateTime::from_timestamp(seconds, nanos).map(
        |d| d.to_rfc3339_opts(chrono::SecondsFormat::AutoSi, true),
    )
}

/// The format of the vendor's calendar dates.
pub const OURA_API_DATE_FORMAT: &'static str = "%Y-%m-%d";

/// What parsing a vendor timestamp gives.
pub open spec fn timestamp_outcome(s: Seq<char>) -> Result<Timestamp, PollingErrorView> {
    match rfc3339_of(s) {
        Ok((seconds, nanos)) => Ok(Timestamp { seconds, nanos }),
        Err(reason) => Err(PollingErrorView::TimestampParsing { timestamp: s, reason }),
    }
}

/// What parsing a vendor date gives.
pub open spec fn date_outcome(s: Seq<char>) -> Result<CalendarDate, PollingErrorView> {
    match date_of(s, OURA_API_DATE_FORMAT@) {
        Ok((year, month, day)) => Ok(CalendarDate { year, month, day }),
        Err(reason) => Err(PollingErrorView::DateParsing { date: s, reason }),
    }
}

/// Parses a vendor timestamp (RFC 3339, with any offset) into the instant it
/// denotes.
pub fn try_parse_oura_timestamp(s: &str) -> (r: Result<Timestamp, OuraPollingError>)
    ensures
        error_view(r) == timestamp_outcome(s@),
{
    match rfc3339_instant(s) {
        Ok((seconds, nanos)) => Ok(Timestamp { seconds, nanos }),
        Err(reason) => Err(
            OuraPollingError::TimestampParsingError { timestamp: String::from_str(s), reason },
        ),
    }
}

/// Parses a vendor date, `YYYY-MM-DD` with nothing after it.
pub fn try_parse_oura_date(s: &str) -> (r: Result<CalendarDate, OuraPollingError>)
    ensures
        error_view(r) == date_outcome(s@),
{
    match formatted_date(s, OURA_API_DATE_FORMAT) {
        Ok((year, month, day)) => Ok(CalendarDate { year, month, day }),
        Err(reason) => Err(OuraPollingError::DateParsingError { date: String::from_str(s), reason }),
    }
}

} // verus!
