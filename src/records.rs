//! The normalised records: one tagged union over the kinds of data polled.

use crate::errors::{error_view, OuraPollingError, PollingErrorView};
use crate::oura_api::{OuraContributors, RawF32};
use crate::time::{CalendarDate, Timestamp};
use crate::text::{char_text, same_text};
use vstd::prelude::*;
use vstd::string::StringExecFns;

verus! {

/// The error for a literal that names no variant of the enum called `enum_name`.
pub open spec fn unknown_variant(enum_name: Seq<char>, variant: Seq<char>) -> PollingErrorView {
    PollingErrorView::UnknownEnumVariant { enum_name, variant }
}

fn unknown_variant_error(enum_name: &str, variant: &str) -> (e: OuraPollingError)
    ensures
        e@ == unknown_variant(enum_name@, variant@),
{
    OuraPollingError::UnknownEnumVariantError {
        enum_name: String::from_str(enum_name),
        variant: String::from_str(variant),
    }
}

/// Where a heart-rate sample was taken.
#[derive(Clone, Copy, Debug, PartialEq, Eq, Structural)]
pub enum HeartRateSource {
    Awake,
    Rest,
    Sleep,
    Session,
    Live,
}

/// The variant that a vendor literal names.
pub open spec fn source_of_literal(s: Seq<char>) -> Option<HeartRateSource> {
    if s == "awake"@ {
        Some(HeartRateSource::Awake)
    } else if s == "rest"@ {
        Some(HeartRateSource::Rest)
    } else if s == "sleep"@ {
        Some(HeartRateSource::Sleep)
    } else if s == "session"@ {
        Some(HeartRateSource::Session)
    } else if s == "live"@ {
        Some(HeartRateSource::Live)
    } else {
        None
    }
}

/// What decoding a vendor literal as a [`HeartRateSource`] gives.
pub open spec fn source_outcome(s: Seq<char>) -> Result<HeartRateSource, PollingErrorView> {
    match source_of_literal(s) {
        Some(v) => Ok(v),
        None => Err(unknown_variant("HeartRateSource"@, s)),
    }
}

impl HeartRateSource {
    /// The vendor literal of the variant.
    pub open spec fn literal(self) -> Seq<char> {
        match self {
            HeartRateSource::Awake => "awake"@,
            HeartRateSource::Rest => "rest"@,
            HeartRateSource::Sleep => "sleep"@,
            HeartRateSource::Session => "session"@,
            HeartRateSource::Live => "live"@,
        }
    }

    /// The variant's name as it is spelled in a serialised record.
    pub open spec fn variant_name(self) -> Seq<char> {
        match self {
            HeartRateSource::Awake => "Awake"@,
            HeartRateSource::Rest => "Rest"@,
            HeartRateSource::Sleep => "Sleep"@,
            HeartRateSource::Session => "Session"@,
            HeartRateSource::Live => "Live"@,
        }
    }

    /// Decodes a vendor literal; the literals are matched exactly.
    pub fn from_literal(s: &str) -> (r: Result<HeartRateSource, OuraPollingError>)
        ensures
            error_view(r) == source_outcome(s@),
    {
        if same_text(s, "awake") {
            Ok(HeartRateSource::Awake)
        } else if same_text(s, "rest") {
            Ok(HeartRateSource::Rest)
        } else if same_text(s, "sleep") {
            Ok(HeartRateSource::Sleep)
        } else if same_text(s, "session") {
            Ok(HeartRateSource::Session)
        } else if same_text(s, "live") {
            Ok(HeartRateSource::Live)
        } else {
            Err(unknown_variant_error("HeartRateSource", s))
        }
    }

    /// The vendor literal of the variant.
    pub fn as_literal(&self) -> (r: &'static str)
        ensures
            r@ == self.literal(),
    {
        match self {
            HeartRateSource::Awake => "awake",
            HeartRateSource::Rest => "rest",
            HeartRateSource::Sleep => "sleep",
            HeartRateSource::Session => "session",
            HeartRateSource::Live => "live",
        }
    }

    /// The variant's name as it is spelled in a serialised record.
    pub fn as_variant_name(&self) -> (r: &'static str)
        ensures
            r@ == self.variant_name(),
    {
        match self {
            HeartRateSource::Awake => "Awake",
            HeartRateSource::Rest => "Rest",
            HeartRateSource::Sleep => "Sleep",
            HeartRateSource::Session => "Session",
            HeartRateSource::Live => "Live",
        }
    }
}

impl std::str::FromStr for HeartRateSource {
    type Err = OuraPollingError;

    fn from_str(s: &str) -> (r: Result<HeartRateSource, OuraPollingError>)
        ensures
            error_view(r) == source_outcome(s@),
    {
        HeartRateSource::from_literal(s)
    }
}

/// Decoding a literal and encoding the variant again gives the literal back,
/// and every variant's literal decodes to that variant.
pub proof fn lemma_source_literal_round_trip(s: Seq<char>, v: HeartRateSource)
    ensures
        source_of_literal(s) is Some ==> source_of_literal(s)->0.literal() == s,
        source_of_literal(v.literal()) == Some(v),
{
    reveal_strlit("awake");
    reveal_strlit("rest");
    reveal_strlit("sleep");
    reveal_strlit("session");
    reveal_strlit("live");
    assert("rest"@ != "awake"@ && "sleep"@ != "awake"@ && "sleep"@ != "rest"@) by {
        assert("rest"@.len() != "awake"@.len());
        assert("sleep"@[0] != "awake"@[0]);
        assert("sleep"@.len() != "rest"@.len());
    }
    assert("session"@ != "awake"@ && "session"@ != "rest"@ && "session"@ != "sleep"@) by {
        assert("session"@.len() == 7);
    }
    assert("live"@ != "awake"@ && "live"@ != "rest"@ && "live"@ != "sleep"@ && "live"@
        != "session"@) by {
        assert("live"@.len() == 4);
        assert("live"@[0] != "rest"@[0]);
    }
}

/// The kind of a sleep period.
#[derive(Clone, Copy, Debug, PartialEq, Eq, Structural)]
pub enum SleepType {
    Deleted,
    Sleep,
    LongSleep,
    LateNap,
    Rest,
}

/// The variant that a vendor literal names.
pub open spec fn sleep_type_of_literal(s: Seq<char>) -> Option<SleepType> {
    if s == "deleted"@ {
        Some(SleepType::Deleted)
    } else if s == "sleep"@ {
        Some(SleepType::Sleep)
    } else if s == "long_sleep"@ {
        Some(SleepType::LongSleep)
    } else if s == "late_nap"@ {
        Some(SleepType::LateNap)
    } else if s == "rest"@ {
        Some(SleepType::Rest)
    } else {
        None
    }
}

/// What decoding a vendor literal as a [`SleepType`] gives.
pub open spec fn sleep_type_outcome(s: Seq<char>) -> Result<SleepType, PollingErrorView> {
    match sleep_type_of_literal(s) {
        Some(v) => Ok(v),
        None => Err(unknown_variant("SleepType"@, s)),
    }
}

impl SleepType {
    /// The vendor literal of the variant.
    pub open spec fn literal(self) -> Seq<char> {
        match self {
            SleepType::Deleted => "deleted"@,
            SleepType::Sleep => "sleep"@,
            SleepType::LongSleep => "long_sleep"@,
            SleepType::LateNap => "late_nap"@,
            SleepType::Rest => "rest"@,
        }
    }

    /// Decodes a vendor literal; the literals are matched exactly.
    pub fn from_literal(s: &str) -> (r: Result<SleepType, OuraPollingError>)
        ensures
            error_view(r) == sleep_type_outcome(s@),
    {
        if same_text(s, "deleted") {
            Ok(SleepType::Deleted)
        } else if same_text(s, "sleep") {
            Ok(SleepType::Sleep)
        } else if same_text(s, "long_sleep") {
            Ok(SleepType::LongSleep)
        } else if same_text(s, "late_nap") {
            Ok(SleepType::LateNap)
        } else if same_text(s, "rest") {
            Ok(SleepType::Rest)
        } else {
            Err(unknown_variant_error("SleepType", s))
        }
    }

    /// The vendor literal of the variant.
    pub fn as_literal(&self) -> (r: &'static str)
        ensures
            r@ == self.literal(),
    {
        match self {
            SleepType::Deleted => "deleted",
            SleepType::Sleep => "sleep",
            SleepType::LongSleep => "long_sleep",
            SleepType::LateNap => "late_nap",
            SleepType::Rest => "rest",
        }
    }
}

impl std::str::FromStr for SleepType {
    type Err = OuraPollingError;

    fn from_str(s: &str) -> (r: Result<SleepType, OuraPollingError>)
        ensures
            error_view(r) == sleep_type_outcome(s@),
    {
        SleepType::from_literal(s)
    }
}

/// Decoding a literal and encoding the variant again gives the literal back,
/// and every variant's literal decodes to that variant.
pub proof fn lemma_sleep_type_literal_round_trip(s: Seq<char>, v: SleepType)
    ensures
        sleep_type_of_literal(s) is Some ==> sleep_type_of_literal(s)->0.literal() == s,
        sleep_type_of_literal(v.literal()) == Some(v),
{
    reveal_strlit("deleted");
    reveal_strlit("sleep");
    reveal_strlit("long_sleep");
    reveal_strlit("late_nap");
    reveal_strlit("rest");
    assert("sleep"@[0] != "deleted"@[0]);
    assert("late_nap"@[1] != "long_sleep"@[1]);
}

/// The phase of sleep in one five-minute bucket.
#[derive(Clone, Copy, Debug, PartialEq, Eq, Structural)]
pub enum SleepPhaseType {
    DeepSleep,
    LightSleep,
    REMSleep,
    Awake,
}

/// The phase that a vendor digit names.
pub open spec fn phase_of_code(c: char) -> Option<SleepPhaseType> {
    if c == '1' {
        Some(SleepPhaseType::DeepSleep)
    } else if c == '2' {
        Some(SleepPhaseType::LightSleep)
    } else if c == '3' {
        Some(SleepPhaseType::REMSleep)
    } else if c == '4' {
        Some(SleepPhaseType::Awake)
    } else {
        None
    }
}

/// What decoding a vendor digit as a [`SleepPhaseType`] gives.
pub open spec fn phase_outcome(c: char) -> Result<SleepPhaseType, PollingErrorView> {
    match phase_of_code(c) {
        Some(v) => Ok(v),
        None => Err(unknown_variant("SleepPhaseType"@, seq![c])),
    }
}

impl SleepPhaseType {
    /// The phase's numeric code, 1 (deep) to 4 (awake).
    pub open spec fn spec_code(self) -> i64 {
        match self {
            SleepPhaseType::DeepSleep => 1,
            SleepPhaseType::LightSleep => 2,
            SleepPhaseType::REMSleep => 3,
            SleepPhaseType::Awake => 4,
        }
    }

    /// Decodes one vendor digit.
    pub fn from_code(c: char) -> (r: Result<SleepPhaseType, OuraPollingError>)
        ensures
            error_view(r) == phase_outcome(c),
    {
        if c == '1' {
            Ok(SleepPhaseType::DeepSleep)
        } else if c == '2' {
            Ok(SleepPhaseType::LightSleep)
        } else if c == '3' {
            Ok(SleepPhaseType::REMSleep)
        } else if c == '4' {
            Ok(SleepPhaseType::Awake)
        } else {
            let variant = char_text(c);
            Err(unknown_variant_error("SleepPhaseType", variant.as_str()))
        }
    }

    /// The phase's numeric code, 1 (deep) to 4 (awake).
    pub fn code(&self) -> (r: i64)
        ensures
            r == self.spec_code(),
    {
        match self {
            SleepPhaseType::DeepSleep => 1,
            SleepPhaseType::LightSleep => 2,
            SleepPhaseType::REMSleep => 3,
            SleepPhaseType::Awake => 4,
        }
    }
}


/// One heart-rate sample of a person.
#[derive(Debug, PartialEq)]
pub struct HeartRate {
    pub bpm: u8,
    pub source: HeartRateSource,
    pub timestamp: Timestamp,
    pub person_name: String,
}

/// The model of a [`HeartRate`].
pub struct HeartRateView {
    pub bpm: u8,
    pub source: HeartRateSource,
    pub timestamp: Timestamp,
    pub person_name: Seq<char>,
}

impl View for HeartRate {
    type V = HeartRateView;

    open spec fn view(&self) -> HeartRateView {
        HeartRateView {
            bpm: self.bpm,
            source: self.source,
            timestamp: self.timestamp,
            person_name: self.person_name@,
        }
    }
}

/// One heart-rate-variability sample of a person.
#[derive(Debug, PartialEq)]
pub struct HeartRateVariability {
    pub ms: u16,
    pub timestamp: Timestamp,
    pub person_name: String,
}

/// The model of a [`HeartRateVariability`].
pub struct HeartRateVariabilityView {
    pub ms: u16,
    pub timestamp: Timestamp,
    pub person_name: Seq<char>,
}

impl View for HeartRateVariability {
    type V = HeartRateVariabilityView;

    open spec fn view(&self) -> HeartRateVariabilityView {
        HeartRateVariabilityView {
            ms: self.ms,
            timestamp: self.timestamp,
            person_name: self.person_name@,
        }
    }
}

/// One sleep period of a person. Durations are in the vendor's units.
#[derive(Debug, PartialEq)]
pub struct Sleep {
    pub id: String,
    pub average_breath: Option<RawF32>,
    pub average_heartrate: Option<RawF32>,
    pub average_hrv: Option<i16>,
    pub awake_time: i16,
    pub bedtime_end: Timestamp,
    pub bedtime_start: Timestamp,
    pub day: CalendarDate,
    pub deep_sleep_duration: Option<i16>,
    pub efficiency: Option<i16>,
    pub latency: Option<i16>,
    pub light_sleep_duration: Option<i16>,
    pub low_battery_alert: bool,
    pub lowest_heart_rate: Option<i16>,
    pub readiness_score_delta: Option<RawF32>,
    pub rem_sleep_duration: Option<i16>,
    pub restless_periods: Option<i16>,
    pub sleep_score_delta: Option<RawF32>,
    pub time_in_bed: i16,
    pub total_sleep_duration: Option<i16>,
    pub sleep_type: SleepType,
    pub person_name: String,
}

/// The model of a [`Sleep`].
pub struct SleepView {
    pub id: Seq<char>,
    pub average_breath: Option<RawF32>,
    pub average_heartrate: Option<RawF32>,
    pub average_hrv: Option<i16>,
    pub awake_time: i16,
    pub bedtime_end: Timestamp,
    pub bedtime_start: Timestamp,
    pub day: CalendarDate,
    pub deep_sleep_duration: Option<i16>,
    pub efficiency: Option<i16>,
    pub latency: Option<i16>,
    pub light_sleep_duration: Option<i16>,
    pub low_battery_alert: bool,
    pub lowest_heart_rate: Option<i16>,
    pub readiness_score_delta: Option<RawF32>,
    pub rem_sleep_duration: Option<i16>,
    pub restless_periods: Option<i16>,
    pub sleep_score_delta: Option<RawF32>,
    pub time_in_bed: i16,
    pub total_sleep_duration: Option<i16>,
    pub sleep_type: SleepType,
    pub person_name: Seq<char>,
}

impl View for Sleep {
    type V = SleepView;

    open spec fn view(&self) -> SleepView {
        SleepView {
            id: self.id@,
            average_breath: self.average_breath,
            average_heartrate: self.average_heartrate,
            average_hrv: self.average_hrv,
            awake_time: self.awake_time,
            bedtime_end: self.bedtime_end,
            bedtime_start: self.bedtime_start,
            day: self.day,
            deep_sleep_duration: self.deep_sleep_duration,
            efficiency: self.efficiency,
            latency: self.latency,
            light_sleep_duration: self.light_sleep_duration,
            low_battery_alert: self.low_battery_alert,
            lowest_heart_rate: self.lowest_heart_rate,
            readiness_score_delta: self.readiness_score_delta,
            rem_sleep_duration: self.rem_sleep_duration,
            restless_periods: self.restless_periods,
            sleep_score_delta: self.sleep_score_delta,
            time_in_bed: self.time_in_bed,
            total_sleep_duration: self.total_sleep_duration,
            sleep_type: self.sleep_type,
            person_name: self.person_name@,
        }
    }
}

/// The phase of one five-minute bucket of a sleep period.
#[derive(Debug, PartialEq)]
pub struct SleepPhase {
    pub sleep_id: String,
    pub sleep_phase: SleepPhaseType,
    pub timestamp: Timestamp,
    pub person_name: String,
}

/// The model of a [`SleepPhase`].
pub struct SleepPhaseView {
    pub sleep_id: Seq<char>,
    pub sleep_phase: SleepPhaseType,
    pub timestamp: Timestamp,
    pub person_name: Seq<char>,
}

impl View for SleepPhase {
    type V = SleepPhaseView;

    open spec fn view(&self) -> SleepPhaseView {
        SleepPhaseView {
            sleep_id: self.sleep_id@,
            sleep_phase: self.sleep_phase,
            timestamp: self.timestamp,
            person_name: self.person_name@,
        }
    }
}

/// The contributors to a readiness score.
#[derive(Clone, Copy, Debug, PartialEq, Eq, Structural)]
pub struct Contributors {
    pub activity_balance: u8,
    pub body_temperature: u8,
    pub hrv_balance: u8,
    pub previous_day_activity: u8,
    pub previous_night: u8,
    pub recovery_index: u8,
    pub resting_heart_rate: u8,
    pub sleep_balance: u8,
}

impl Contributors {
    /// The contributors as the vendor reported them.
    pub open spec fn spec_from_oura(c: OuraContributors) -> Contributors {
        Contributors {
            activity_balance: c.activity_balance,
            body_temperature: c.body_temperature,
            hrv_balance: c.hrv_balance,
            previous_day_activity: c.previous_day_activity,
            previous_night: c.previous_night,
            recovery_index: c.recovery_index,
            resting_heart_rate: c.resting_heart_rate,
            sleep_balance: c.sleep_balance,
        }
    }

    /// The contributors as the vendor reported them.
    pub fn from_oura(c: &OuraContributors) -> (r: Contributors)
        ensures
            r == Contributors::spec_from_oura(*c),
    {
        Contributors {
            activity_balance: c.activity_balance,
            body_temperature: c.body_temperature,
            hrv_balance: c.hrv_balance,
            previous_day_activity: c.previous_day_activity,
            previous_night: c.previous_night,
            recovery_index: c.recovery_index,
            resting_heart_rate: c.resting_heart_rate,
            sleep_balance: c.sleep_balance,
        }
    }
}

/// The readiness of a person on one day.
#[derive(Debug, PartialEq)]
pub struct Readiness {
    pub score: u8,
    pub temperature_deviation: Option<RawF32>,
    pub temperature_trend_deviation: Option<RawF32>,
    pub contributors: Contributors,
    pub timestamp: Timestamp,
    pub person_name: String,
}

/// The model of a [`Readiness`].
pub struct ReadinessView {
    pub score: u8,
    pub temperature_deviation: Option<RawF32>,
    pub temperature_trend_deviation: Option<RawF32>,
    pub contributors: Contributors,
    pub timestamp: Timestamp,
    pub person_name: Seq<char>,
}

impl View for Readiness {
    type V = ReadinessView;

    open spec fn view(&self) -> ReadinessView {
        ReadinessView {
            score: self.score,
            temperature_deviation: self.temperature_deviation,
            temperature_trend_deviation: self.temperature_trend_deviation,
            contributors: self.contributors,
            timestamp: self.timestamp,
            person_name: self.person_name@,
        }
    }
}

/// One normalised record, or the description of a failure in its place.
#[derive(Debug, PartialEq)]
pub enum OuraData {
    HeartRate(HeartRate),
    HeartRateVariability(HeartRateVariability),
    Sleep(Sleep),
    SleepPhase(SleepPhase),
    Activity,
    Readiness(Readiness),
    Error { message: String },
}

/// The model of an [`OuraData`].
pub enum OuraDataView {
    HeartRate(HeartRateView),
    HeartRateVariability(HeartRateVariabilityView),
    Sleep(SleepView),
    SleepPhase(SleepPhaseView),
    Activity,
    Readiness(ReadinessView),
    Error { message: Seq<char> },
}

impl View for OuraData {
    type V = OuraDataView;

    open spec fn view(&self) -> OuraDataView {
        match self {
            OuraData::HeartRate(d) => OuraDataView::HeartRate(d@),
            OuraData::HeartRateVariability(d) => OuraDataView::HeartRateVariability(d@),
            OuraData::Sleep(d) => OuraDataView::Sleep(d@),
            OuraData::SleepPhase(d) => OuraDataView::SleepPhase(d@),
            OuraData::Activity => OuraDataView::Activity,
            OuraData::Readiness(d) => OuraDataView::Readiness(d@),
            OuraData::Error { message } => OuraDataView::Error { message: message@ },
        }
    }
}

impl OuraDataView {
    /// The instant that a record stands at: the end of a sleep period, the
    /// sample's time for the others; none for an error.
    pub open spec fn datetime(self) -> Option<Timestamp> {
        match self {
            OuraDataView::HeartRate(d) => Some(d.timestamp),
            OuraDataView::HeartRateVariability(d) => Some(d.timestamp),
            OuraDataView::Sleep(d) => Some(d.bedtime_end),
            OuraDataView::SleepPhase(d) => Some(d.timestamp),
            OuraDataView::Readiness(d) => Some(d.timestamp),
            OuraDataView::Activity => None,
            OuraDataView::Error { .. } => None,
        }
    }
}

impl OuraData {
    /// The instant that a record stands at: the end of a sleep period, the
    /// sample's time for the others; none for an error.
    pub fn get_datetime(&self) -> (r: Option<Timestamp>)
        ensures
            r == self@.datetime(),
    {
        match self {
            OuraData::HeartRate(d) => Some(d.timestamp),
            OuraData::HeartRateVariability(d) => Some(d.timestamp),
            OuraData::Sleep(d) => Some(d.bedtime_end),
            OuraData::SleepPhase(d) => Some(d.timestamp),
            OuraData::Readiness(d) => Some(d.timestamp),
            OuraData::Activity => None,
            OuraData::Error { .. } => None,
        }
    }

    /// The record that stands in for a failed derivation.
    pub fn from_error(e: &OuraPollingError) -> (r: OuraData)
        ensures
            r@ == (OuraDataView::Error { message: e@.message() }),
    {
        OuraData::Error { message: e.message() }
    }
}

/// The models of a sequence of records.
pub open spec fn data_views(v: Seq<OuraData>) -> Seq<OuraDataView> {
    v.map_values(|d: OuraData| d@)
}

} // verus!
