//! The ways in which turning one vendor document into records can fail.

use vstd::prelude::*;
use vstd::string::StringExecFns;

verus! {

/// Why a document, or one derivation from it, gave no records.
#[derive(Debug)]
pub enum OuraPollingError {
    TimestampParsingError { timestamp: String, reason: String },
    DateParsingError { date: String, reason: String },
    UnknownEnumVariantError { enum_name: String, variant: String },
    NoReadinessDataFoundError { sleep_id: String },
    NoSleepDataFoundError { sleep_id: String },
    NoSleepPhaseDataFoundError { sleep_id: String },
    NoHeartRateDataFoundError { sleep_id: String },
    NoHeartRateVariabilityDataFoundError { sleep_id: String },
    NoReadinessScoreFoundError { sleep_id: String },
    UnexpectedError(String),
}

/// The mathematical value of an [`OuraPollingError`]: its texts as character
/// sequences.
pub enum PollingErrorView {
    TimestampParsing { timestamp: Seq<char>, reason: Seq<char> },
    DateParsing { date: Seq<char>, reason: Seq<char> },
    UnknownEnumVariant { enum_name: Seq<char>, variant: Seq<char> },
    NoReadinessDataFound { sleep_id: Seq<char> },
    NoSleepDataFound { sleep_id: Seq<char> },
    NoSleepPhaseDataFound { sleep_id: Seq<char> },
    NoHeartRateDataFound { sleep_id: Seq<char> },
    NoHeartRateVariabilityDataFound { sleep_id: Seq<char> },
    NoReadinessScoreFound { sleep_id: Seq<char> },
    Unexpected(Seq<char>),
}

impl View for OuraPollingError {
    type V = PollingErrorView;

    open spec fn view(&self) -> PollingErrorView {
        match self {
            OuraPollingError::TimestampParsingError { timestamp, reason } => {
                PollingErrorView::TimestampParsing { timestamp: timestamp@, reason: reason@ }
            },
            OuraPollingError::DateParsingError { date, reason } => {
                PollingErrorView::DateParsing { date: date@, reason: reason@ }
            },
            OuraPollingError::UnknownEnumVariantError { enum_name, variant } => {
                PollingErrorView::UnknownEnumVariant { enum_name: enum_name@, variant: variant@ }
            },
            OuraPollingError::NoReadinessDataFoundError { sleep_id } => {
                PollingErrorView::NoReadinessDataFound { sleep_id: sleep_id@ }
            },
            OuraPollingError::NoSleepDataFoundError { sleep_id } => {
                PollingErrorView::NoSleepDataFound { sleep_id: sleep_id@ }
            },
            OuraPollingError::NoSleepPhaseDataFoundError { sleep_id } => {
                PollingErrorView::NoSleepPhaseDataFound { sleep_id: sleep_id@ }
            },
            OuraPollingError::NoHeartRateDataFoundError { sleep_id } => {
                PollingErrorView::NoHeartRateDataFound { sleep_id: sleep_id@ }
            },
            OuraPollingError::NoHeartRateVariabilityDataFoundError { sleep_id } => {
                PollingErrorView::NoHeartRateVariabilityDataFound { sleep_id: sleep_id@ }
            },
            OuraPollingError::NoReadinessScoreFoundError { sleep_id } => {
                PollingErrorView::NoReadinessScoreFound { sleep_id: sleep_id@ }
            },
            OuraPollingError::UnexpectedError(m) => PollingErrorView::Unexpected(m@),
        }
    }
}

/// The error's model, where there is one.
pub open spec fn error_view<T>(r: Result<T, OuraPollingError>) -> Result<T, PollingErrorView> {
    match r {
        Ok(v) => Ok(v),
        Err(e) => Err(e@),
    }
}

/// `prefix` + `quoted` between single quotes.
pub open spec fn with_quoted(prefix: Seq<char>, quoted: Seq<char>) -> Seq<char> {
    prefix + "'"@ + quoted + "'"@
}

impl PollingErrorView {
    /// The human-readable description of the error.
    pub open spec fn message(self) -> Seq<char> {
        match self {
            PollingErrorView::TimestampParsing { timestamp, reason } => {
                with_quoted("Cannot parse Oura API timestamp "@, timestamp) + ": "@ + reason
            },
            PollingErrorView::DateParsing { date, reason } => {
                with_quoted("Cannot parse Oura API date "@, date) + ": "@ + reason
            },
            PollingErrorView::UnknownEnumVariant { enum_name, variant } => {
                with_quoted("Unknown "@ + enum_name + ": "@, variant)
            },
            PollingErrorView::NoReadinessDataFound { sleep_id } => {
                with_quoted("No readiness data found for sleep document with id: "@, sleep_id)
            },
            PollingErrorView::NoSleepDataFound { sleep_id } => {
                with_quoted("No sleep data found for sleep document with id: "@, sleep_id)
            },
            PollingErrorView::NoSleepPhaseDataFound { sleep_id } => {
                with_quoted("No sleep phase data found for sleep document with id: "@, sleep_id)
            },
            PollingErrorView::NoHeartRateDataFound { sleep_id } => {
                with_quoted("No heart rate data found for sleep document with id: "@, sleep_id)
            },
            PollingErrorView::NoHeartRateVariabilityDataFound { sleep_id } => {
                with_quoted(
                    "No heart rate variability data found for sleep document with id: "@,
                    sleep_id,
                )
            },
            PollingErrorView::NoReadinessScoreFound { sleep_id } => {
                with_quoted("No readiness score found for sleep document with id: "@, sleep_id)
            },
            PollingErrorView::Unexpected(m) => "Something went wrong when polling Oura data: "@
                + m,
        }
    }
}

/// A new string holding `prefix`, then `quoted` between single quotes.
pub fn quoted_text(prefix: &str, quoted: &str) -> (r: String)
    ensures
        r@ == with_quoted(prefix@, quoted@),
{
    let mut r = String::from_str(prefix);
    r.append("'");
    r.append(quoted);
    r.append("'");
    r
}

impl OuraPollingError {
    /// The human-readable description of the error.
    pub fn message(&self) -> (r: String)
        ensures
            r@ == self@.message(),
    {
        match self {
            OuraPollingError::TimestampParsingError { timestamp, reason } => {
                let mut r = quoted_text("Cannot parse Oura API timestamp ", timestamp.as_str());
                r.append(": ");
                r.append(reason.as_str());
                r
            },
            OuraPollingError::DateParsingError { date, reason } => {
                let mut r = quoted_text("Cannot parse Oura API date ", date.as_str());
                r.append(": ");
                r.append(reason.as_str());
                r
            },
            OuraPollingError::UnknownEnumVariantError { enum_name, variant } => {
                let mut prefix = String::from_str("Unknown ");
                prefix.append(enum_name.as_str());
                prefix.append(": ");
                quoted_text(prefix.as_str(), variant.as_str())
            },
            OuraPollingError::NoReadinessDataFoundError { sleep_id } => {
                quoted_text(
                    "No readiness data found for sleep document with id: ",
                    sleep_id.as_str(),
                )
            },
            OuraPollingError::NoSleepDataFoundError { sleep_id } => {
                quoted_text(
                    "No sleep data found for sleep document with id: ",
                    sleep_id.as_str(),
                )
            },
            OuraPollingError::NoSleepPhaseDataFoundError { sleep_id } => {
                quoted_text(
                    "No sleep phase data found for sleep document with id: ",
                    sleep_id.as_str(),
                )
            },
            OuraPollingError::NoHeartRateDataFoundError { sleep_id } => {
                quoted_text(
                    "No heart rate data found for sleep document with id: ",
                    sleep_id.as_str(),
                )
            },
            OuraPollingError::NoHeartRateVariabilityDataFoundError { sleep_id } => {
                quoted_text(
                    "No heart rate variability data found for sleep document with id: ",
                    sleep_id.as_str(),
                )
            },
            OuraPollingError::NoReadinessScoreFoundError { sleep_id } => {
                quoted_text(
                    "No readiness score found for sleep document with id: ",
                    sleep_id.as_str(),
                )
            },
            OuraPollingError::UnexpectedError(m) => {
                let mut r = String::from_str("Something went wrong when polling Oura data: ");
                r.append(m.as_str());
                r
            },
        }
    }
}

} // verus!
