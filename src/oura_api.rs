//! The documents that the vendor's API returns, as the library holds them.

use crate::text::{decimal_of, decimal_text};
use vstd::prelude::*;
use vstd::string::StringExecFns;

verus! {

/// A 32-bit float carried as its IEEE 754 bit pattern. The library only moves
/// such values from a document to a record and on to an export item; it never
/// computes with them.
#[derive(Clone, Copy, Debug, Default, PartialEq, Eq, Structural)]
pub struct RawF32 {
    pub bits: u32,
}

impl RawF32 {
    /// Positive zero, the default of an absent score delta.
    pub open spec fn spec_zero() -> RawF32 {
        RawF32 { bits: 0 }
    }

    /// Positive zero, the default of an absent score delta.
    pub fn zero() -> (r: RawF32)
        ensures
            r == RawF32::spec_zero(),
    {
        RawF32 { bits: 0 }
    }
}

/// One heart-rate sample.
#[derive(Debug)]
pub struct OuraHeartRateData {
    pub bpm: u8,
    pub source: String,
    pub timestamp: String,
}

/// A series sampled at a fixed interval, embedded in a sleep document. The
/// interval and the samples are held rounded to the nearest integer (a
/// saturating conversion from the vendor's floats); `None` marks a gap.
#[derive(Debug, Default)]
pub struct OuraSleepMeasurement {
    pub interval_seconds: i64,
    pub items: Vec<Option<i64>>,
    pub timestamp: String,
}

/// The contributors to a readiness score.
#[derive(Clone, Copy, Debug, Default, PartialEq, Eq, Structural)]
pub struct OuraContributors {
    pub activity_balance: u8,
    pub body_temperature: u8,
    pub hrv_balance: u8,
    pub previous_day_activity: u8,
    pub previous_night: u8,
    pub recovery_index: u8,
    pub resting_heart_rate: u8,
    pub sleep_balance: u8,
}

/// The readiness block of a sleep document.
#[derive(Debug, Default)]
pub struct OuraReadiness {
    pub contributors: OuraContributors,
    pub score: Option<u8>,
    pub temperature_deviation: Option<RawF32>,
    pub temperature_trend_deviation: Option<RawF32>,
}

/// One sleep period as the vendor reports it.
#[derive(Debug, Default)]
pub struct OuraSleepDocument {
    pub id: String,
    pub average_breath: Option<RawF32>,
    pub average_heart_rate: Option<RawF32>,
    pub average_hrv: Option<i16>,
    pub awake_time: i16,
    pub bedtime_end: String,
    pub bedtime_start: String,
    pub day: String,
    pub deep_sleep_duration: Option<i16>,
    pub efficiency: Option<i16>,
    pub heart_rate: Option<OuraSleepMeasurement>,
    pub hrv: Option<OuraSleepMeasurement>,
    pub latency: Option<i16>,
    pub light_sleep_duration: Option<i16>,
    pub low_battery_alert: bool,
    pub lowest_heart_rate: Option<i16>,
    pub movement_30_sec: String,
    pub period: i16,
    pub readiness: Option<OuraReadiness>,
    pub readiness_score_delta: Option<RawF32>,
    pub rem_sleep_duration: Option<i16>,
    pub restless_periods: Option<i16>,
    pub sleep_phase_5_min: Option<String>,
    pub sleep_score_delta: Option<RawF32>,
    pub time_in_bed: i16,
    pub total_sleep_duration: Option<i16>,
    pub sleep_type: String,
}

/// One page of a collection endpoint. The continuation token is kept but not
/// followed.
#[derive(Debug)]
pub struct OuraApiResponse<T> {
    pub data: Vec<T>,
    pub next_token: Option<String>,
}

/// A failed call to the vendor's API.
#[derive(Debug)]
pub enum OuraApiError {
    /// The request could not be sent or its answer not read.
    RequestError(String),
    /// The API answered with an error, or with a body that could not be read.
    ResponseError { status_code: Option<u16>, error: String, url: String },
    /// The HTTP client could not be built from the configuration.
    InvalidHttpClientConfig(String),
}

/// A status code as the description of a response error shows it.
pub open spec fn status_text(status_code: Option<u16>) -> Seq<char> {
    match status_code {
        Some(c) => "Some("@ + decimal_of(c as nat) + ")"@,
        None => "None"@,
    }
}

impl OuraApiError {
    /// The human-readable description of the error.
    pub open spec fn spec_message(&self) -> Seq<char> {
        match self {
            OuraApiError::RequestError(m) => "Failed to send request to Oura API: "@ + m@,
            OuraApiError::ResponseError { status_code, error, url } => {
                "Received error response from Oura API when requesting url: "@ + url@
                    + ". Error: \""@ + error@ + "\", status: "@ + status_text(*status_code)
            },
            OuraApiError::InvalidHttpClientConfig(m) => "Invalid Oura HTTP client configuration: "@
                + m@,
        }
    }

    /// The human-readable description of the error.
    pub fn message(&self) -> (r: String)
        ensures
            r@ == self.spec_message(),
    {
        match self {
            OuraApiError::RequestError(m) => {
                let mut r = String::from_str("Failed to send request to Oura API: ");
                r.append(m.as_str());
                r
            },
            OuraApiError::ResponseError { status_code, error, url } => {
                let mut r = String::from_str(
                    "Received error response from Oura API when requesting url: ",
                );
                r.append(url.as_str());
                r.append(". Error: \"");
                r.append(error.as_str());
                r.append("\", status: ");
                match status_code {
                    Some(c) => {
                        r.append("Some(");
                        let digits = decimal_text(*c as u64);
                        r.append(digits.as_str());
                        r.append(")");
                    },
                    None => {
                        r.append("None");
                    },
                }
                r
            },
            OuraApiError::InvalidHttpClientConfig(m) => {
                let mut r = String::from_str("Invalid Oura HTTP client configuration: ");
                r.append(m.as_str());
                r
            },
        }
    }
}

} // verus!
