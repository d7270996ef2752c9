//! The fan-out of records into export items: time-series points and pub/sub
//! messages, in batches.

use crate::oura_api::RawF32;
use crate::records::{
    Contributors, HeartRate, HeartRateSource, HeartRateVariability, HeartRateView, OuraData, OuraDataView,
    Readiness, Sleep, SleepPhase,
};
use crate::text::{decimal_of, decimal_text};
use crate::time::{midnight_of, midnight_utc_seconds, utc_rfc3339_text, utc_text_of};
use vstd::prelude::*;
use vstd::string::StringExecFns;

verus! {

/// The lower-case hexadecimal digit of `d`, for `d` below sixteen.
pub open spec fn hex_digit(d: int) -> char {
    seq!['0', '1', '2', '3', '4', '5', '6', '7', '8', '9', 'a', 'b', 'c', 'd', 'e', 'f'][d]
}

/// How one character stands inside a JSON string literal: a quote and a
/// backslash are escaped, controls below 0x20 take their short escape or
/// `\u00XX`, every other character stands as it is.
pub open spec fn json_escaped_char(c: char) -> Seq<char> {
    if c == '"' {
        seq!['\\', '"']
    } else if c == '\\' {
        seq!['\\', '\\']
    } else if c == '\x08' {
        seq!['\\', 'b']
    } else if c == '\t' {
        seq!['\\', 't']
    } else if c == '\n' {
        seq!['\\', 'n']
    } else if c == '\x0C' {
        seq!['\\', 'f']
    } else if c == '\r' {
        seq!['\\', 'r']
    } else if (c as u32) < 0x20 {
        seq!['\\', 'u', '0', '0', hex_digit((c as u32) as int / 16), hex_digit((c as u32) as int % 16)]
    } else {
        seq![c]
    }
}

/// The characters of `s`, each escaped for a JSON string literal.
pub open spec fn json_escaped(s: Seq<char>) -> Seq<char>
    decreases s.len(),
{
    if s.len() == 0 {
        seq![]
    } else {
        json_escaped(s.drop_last()) + json_escaped_char(s.last())
    }
}

/// The JSON string literal of `s`: its escaped characters between quotes.
pub open spec fn json_string_literal(s: Seq<char>) -> Seq<char> {
    seq!['"'] + json_escaped(s) + seq!['"']
}

#[verifier::external_type_specification]
#[verifier::external_body]
pub struct ExJsonError(serde_json::Error);

/// Relies on `serde_json::to_string` for a `str`: the JSON string literal,
/// escaped as serde_json's `format_escaped_str_contents` does. Serialising a
/// `str` into the `Vec` that `to_string` writes to cannot fail.
#[verifier::external_body]
fn json_string(s: &str) -> (r: Result<String, serde_json::Error>)
    ensures
        r is Ok,
        r->Ok_0@ == json_string_literal(s@),
{
    serde_json::to_string(s)
}

/// Relies on the `Display` of `serde_json::Error`: a description of the error.
#[verifier::external_body]
fn json_error_text(e: &serde_json::Error) -> (r: String) {
    e.to_string()
}

/// The topic that a pub/sub message is published to.
#[derive(Clone, Copy, Debug, PartialEq, Eq, Structural)]
pub enum MqttTopic {
    HeartRate,
    Sleep,
    Activity,
    Readiness,
}

impl MqttTopic {
    /// The topic's name.
    pub open spec fn spec_name(self) -> Seq<char> {
        match self {
            MqttTopic::HeartRate => "heart_rate"@,
            MqttTopic::Sleep => "sleep"@,
            MqttTopic::Activity => "activity"@,
            MqttTopic::Readiness => "readiness"@,
        }
    }

    /// The topic's name.
    pub fn name(&self) -> (r: &'static str)
        ensures
            r@ == self.spec_name(),
    {
        match self {
            MqttTopic::HeartRate => "heart_rate",
            MqttTopic::Sleep => "sleep",
            MqttTopic::Activity => "activity",
            MqttTopic::Readiness => "readiness",
        }
    }
}

/// A message for the pub/sub sink.
#[derive(Debug)]
pub struct MqttMessage {
    pub topic: MqttTopic,
    pub payload: String,
}

/// Why a record could not be turned into a time-series point.
#[derive(Debug)]
pub enum MeasurementConvertingError {
    DayToDateTimeConversionError(String),
}

impl MeasurementConvertingError {
    /// The human-readable description of the error.
    pub open spec fn spec_message(&self) -> Seq<char> {
        match self {
            MeasurementConvertingError::DayToDateTimeConversionError(m) => {
                "Error while converting day into datetime for measurement: '"@ + m@ + "'"@
            },
        }
    }

    /// The human-readable description of the error.
    pub fn message(&self) -> (r: String)
        ensures
            r@ == self.spec_message(),
    {
        match self {
            MeasurementConvertingError::DayToDateTimeConversionError(m) => {
                let mut r = String::from_str(
                    "Error while converting day into datetime for measurement: '",
                );
                r.append(m.as_str());
                r.append("'");
                r
            },
        }
    }
}

/// The time-series point of a heart-rate sample (measurement `heart_rate`).
#[derive(Debug, Default)]
pub struct HeartRateDataPoint {
    pub bpm: i64,
    pub timestamp: i64,
    pub source: String,
    pub person_name: String,
}

/// The time-series point of a sleep phase (measurement `sleep_phase`).
#[derive(Debug, Default)]
pub struct SleepPhaseDataPoint {
    pub phase: i64,
    pub timestamp: i64,
    pub person_name: String,
    pub sleep_id: String,
}

/// The time-series point of a sleep period (measurement `sleep`), stamped at
/// the period's start; instants are in epoch seconds.
#[derive(Debug, Default)]
pub struct SleepDataPoint {
    pub id: String,
    pub average_breath: Option<RawF32>,
    pub average_hrv: Option<i64>,
    pub awake_time: i64,
    pub bedtime_end: i64,
    pub bedtime_start: i64,
    pub day: i64,
    pub deep_sleep_duration: Option<i64>,
    pub efficiency: Option<i64>,
    pub latency: Option<i64>,
    pub light_sleep_duration: Option<i64>,
    pub low_battery_alert: bool,
    pub lowest_heart_rate: Option<i64>,
    pub readiness_score_delta: RawF32,
    pub rem_sleep_duration: Option<i64>,
    pub restless_periods: Option<i64>,
    pub sleep_score_delta: RawF32,
    pub time_in_bed: i64,
    pub total_sleep_duration: Option<i64>,
    pub sleep_type: String,
    pub person_name: String,
}

/// The time-series point of a heart-rate-variability sample (measurement
/// `heart_rate_variability`).
#[derive(Debug, Default)]
pub struct HeartRateVariabilityDataPoint {
    pub ms: i64,
    pub timestamp: i64,
    pub person_name: String,
}

/// The time-series point of a readiness record (measurement `readiness`).
#[derive(Debug, Default)]
pub struct ReadinessDataPoint {
    pub readiness_score: i64,
    pub temperature_deviation: Option<RawF32>,
    pub temperature_trend_deviation: Option<RawF32>,
    pub activity_balance_contribution: i64,
    pub body_temperature_contribution: i64,
    pub hrv_balance_contribution: i64,
    pub previous_day_activity_contribution: i64,
    pub previous_night_contribution: i64,
    pub recovery_index_contribution: i64,
    pub resting_heart_rate_contribution: i64,
    pub sleep_balance_contribution: i64,
    pub timestamp: i64,
    pub person_name: String,
}

/// A point for the time-series sink.
#[derive(Debug)]
pub enum InfluxDBMeasurement {
    HeartRate(HeartRateDataPoint),
    SleepPhase(SleepPhaseDataPoint),
    Sleep(SleepDataPoint),
    HeartRateVariability(HeartRateVariabilityDataPoint),
    Readiness(ReadinessDataPoint),
}

/// One item for one of the two sinks.
#[derive(Debug)]
pub enum ExportItem {
    MQTT(MqttMessage),
    InfluxDB(InfluxDBMeasurement),
}

/// Why a record gave fewer export items than its kind calls for.
#[derive(Debug)]
pub enum ExportItemGenerationError {
    InfluxDBItemGenerationError(MeasurementConvertingError),
    MQTTMessageSerializationError(String),
    InvalidOuraData(String),
}

impl ExportItemGenerationError {
    /// The human-readable description of the error.
    pub open spec fn spec_message(&self) -> Seq<char> {
        match self {
            ExportItemGenerationError::InfluxDBItemGenerationError(e) => {
                "Error while generating InfluxDB export item: "@ + e.spec_message()
            },
            ExportItemGenerationError::MQTTMessageSerializationError(m) => {
                "Error while serializing MQTT message: "@ + m@
            },
            ExportItemGenerationError::InvalidOuraData(m) => "Invalid Oura data: "@ + m@,
        }
    }

    /// The human-readable description of the error.
    pub fn message(&self) -> (r: String)
        ensures
            r@ == self.spec_message(),
    {
        match self {
            ExportItemGenerationError::InfluxDBItemGenerationError(e) => {
                let mut r = String::from_str("Error while generating InfluxDB export item: ");
                let m = e.message();
                r.append(m.as_str());
                r
            },
            ExportItemGenerationError::MQTTMessageSerializationError(m) => {
                let mut r = String::from_str("Error while serializing MQTT message: ");
                r.append(m.as_str());
                r
            },
            ExportItemGenerationError::InvalidOuraData(m) => {
                let mut r = String::from_str("Invalid Oura data: ");
                r.append(m.as_str());
                r
            },
        }
    }
}

/// An optional count widened to 64 bits.
pub open spec fn widen(o: Option<i16>) -> Option<i64> {
    match o {
        Some(v) => Some(v as i64),
        None => None,
    }
}

fn widen_exec(o: Option<i16>) -> (r: Option<i64>)
    ensures
        r == widen(o),
{
    match o {
        Some(v) => Some(v as i64),
        None => None,
    }
}

/// An optional float, or positive zero where it is absent.
pub open spec fn or_zero(o: Option<RawF32>) -> RawF32 {
    match o {
        Some(v) => v,
        None => RawF32::spec_zero(),
    }
}

fn or_zero_exec(o: Option<RawF32>) -> (r: RawF32)
    ensures
        r == or_zero(o),
{
    match o {
        Some(v) => v,
        None => RawF32::zero(),
    }
}

/// Whether `m` is the time-series point of the record `d`.
pub open spec fn measurement_of(m: InfluxDBMeasurement, d: OuraDataView) -> bool {
    match (m, d) {
        (InfluxDBMeasurement::HeartRate(p), OuraDataView::HeartRate(h)) => {
            &&& p.bpm == h.bpm as i64
            &&& p.timestamp == h.timestamp.seconds
            &&& p.source@ == h.source.literal()
            &&& p.person_name@ == h.person_name
        },
        (InfluxDBMeasurement::HeartRateVariability(p), OuraDataView::HeartRateVariability(h)) => {
            &&& p.ms == h.ms as i64
            &&& p.timestamp == h.timestamp.seconds
            &&& p.person_name@ == h.person_name
        },
        (InfluxDBMeasurement::SleepPhase(p), OuraDataView::SleepPhase(s)) => {
            &&& p.phase == s.sleep_phase.spec_code()
            &&& p.timestamp == s.timestamp.seconds
            &&& p.person_name@ == s.person_name
            &&& p.sleep_id@ == s.sleep_id
        },
        (InfluxDBMeasurement::Sleep(p), OuraDataView::Sleep(s)) => {
            &&& p.id@ == s.id
            &&& p.average_breath == s.average_breath
            &&& p.average_hrv == widen(s.average_hrv)
            &&& p.awake_time == s.awake_time as i64
            &&& p.bedtime_end == s.bedtime_end.seconds
            &&& p.bedtime_start == s.bedtime_start.seconds
            &&& Some(p.day) == midnight_of(s.day.year, s.day.month, s.day.day)
            &&& p.deep_sleep_duration == widen(s.deep_sleep_duration)
            &&& p.efficiency == widen(s.efficiency)
            &&& p.latency == widen(s.latency)
            &&& p.light_sleep_duration == widen(s.light_sleep_duration)
            &&& p.low_battery_alert == s.low_battery_alert
            &&& p.lowest_heart_rate == widen(s.lowest_heart_rate)
            &&& p.readiness_score_delta == or_zero(s.readiness_score_delta)
            &&& p.rem_sleep_duration == widen(s.rem_sleep_duration)
            &&& p.restless_periods == widen(s.restless_periods)
            &&& p.sleep_score_delta == or_zero(s.sleep_score_delta)
            &&& p.time_in_bed == s.time_in_bed as i64
            &&& p.total_sleep_duration == widen(s.total_sleep_duration)
            &&& p.sleep_type@ == s.sleep_type.literal()
            &&& p.person_name@ == s.person_name
        },
        (InfluxDBMeasurement::Readiness(p), OuraDataView::Readiness(r)) => {
            &&& p.readiness_score == r.score as i64
            &&& p.temperature_deviation == r.temperature_deviation
            &&& p.temperature_trend_deviation == r.temperature_trend_deviation
            &&& p.activity_balance_contribution == r.contributors.activity_balance as i64
            &&& p.body_temperature_contribution == r.contributors.body_temperature as i64
            &&& p.hrv_balance_contribution == r.contributors.hrv_balance as i64
            &&& p.previous_day_activity_contribution == r.contributors.previous_day_activity as i64
            &&& p.previous_night_contribution == r.contributors.previous_night as i64
            &&& p.recovery_index_contribution == r.contributors.recovery_index as i64
            &&& p.resting_heart_rate_contribution == r.contributors.resting_heart_rate as i64
            &&& p.sleep_balance_contribution == r.contributors.sleep_balance as i64
            &&& p.timestamp == r.timestamp.seconds
            &&& p.person_name@ == r.person_name
        },
        _ => false,
    }
}

/// The record kind whose day cannot be turned into an instant.
pub const SLEEP_MEASUREMENT_NAME: &'static str = "Sleep";

impl InfluxDBMeasurement {
    /// The point of a heart-rate sample.
    pub fn from_heart_rate(h: &HeartRate) -> (r: InfluxDBMeasurement)
        ensures
            measurement_of(r, OuraDataView::HeartRate(h@)),
    {
        InfluxDBMeasurement::HeartRate(
            HeartRateDataPoint {
                bpm: h.bpm as i64,
                source: String::from_str(h.source.as_literal()),
                timestamp: h.timestamp.seconds,
                person_name: h.person_name.clone(),
            },
        )
    }

    /// The point of a heart-rate-variability sample.
    pub fn from_heart_rate_variability(h: &HeartRateVariability) -> (r: InfluxDBMeasurement)
        ensures
            measurement_of(r, OuraDataView::HeartRateVariability(h@)),
    {
        InfluxDBMeasurement::HeartRateVariability(
            HeartRateVariabilityDataPoint {
                person_name: h.person_name.clone(),
                ms: h.ms as i64,
                timestamp: h.timestamp.seconds,
            },
        )
    }

    /// The point of a sleep phase.
    pub fn from_sleep_phase(s: &SleepPhase) -> (r: InfluxDBMeasurement)
        ensures
            measurement_of(r, OuraDataView::SleepPhase(s@)),
    {
        InfluxDBMeasurement::SleepPhase(
            SleepPhaseDataPoint {
                person_name: s.person_name.clone(),
                phase: s.sleep_phase.code(),
                timestamp: s.timestamp.seconds,
                sleep_id: s.sleep_id.clone(),
            },
        )
    }

    /// The point of a readiness record.
    pub fn from_readiness(r: &Readiness) -> (m: InfluxDBMeasurement)
        ensures
            measurement_of(m, OuraDataView::Readiness(r@)),
    {
        let c: Contributors = r.contributors;
        InfluxDBMeasurement::Readiness(
            ReadinessDataPoint {
                readiness_score: r.score as i64,
                temperature_deviation: r.temperature_deviation,
                temperature_trend_deviation: r.temperature_trend_deviation,
                activity_balance_contribution: c.activity_balance as i64,
                body_temperature_contribution: c.body_temperature as i64,
                hrv_balance_contribution: c.hrv_balance as i64,
                previous_day_activity_contribution: c.previous_day_activity as i64,
                previous_night_contribution: c.previous_night as i64,
                recovery_index_contribution: c.recovery_index as i64,
                resting_heart_rate_contribution: c.resting_heart_rate as i64,
                sleep_balance_contribution: c.sleep_balance as i64,
                timestamp: r.timestamp.seconds,
                person_name: r.person_name.clone(),
            },
        )
    }

    /// The point of a sleep period; fails where the period's day has no
    /// midnight instant.
    pub fn try_from_sleep(s: &Sleep) -> (r: Result<InfluxDBMeasurement, MeasurementConvertingError>)
        ensures
            match r {
                Ok(m) => measurement_of(m, OuraDataView::Sleep(s@)),
                Err(e) => midnight_of(s.day.year, s.day.month, s.day.day) is None && e.spec_message()
                    == "Error while converting day into datetime for measurement: '"@
                    + SLEEP_MEASUREMENT_NAME@ + "'"@,
            },
    {
        let day = match midnight_utc_seconds(s.day.year, s.day.month, s.day.day) {
            Some(d) => d,
            None => {
                return Err(
                    MeasurementConvertingError::DayToDateTimeConversionError(
                        String::from_str(SLEEP_MEASUREMENT_NAME),
                    ),
                );
            },
        };
        Ok(
            InfluxDBMeasurement::Sleep(
                SleepDataPoint {
                    id: s.id.clone(),
                    average_breath: s.average_breath,
                    average_hrv: widen_exec(s.average_hrv),
                    awake_time: s.awake_time as i64,
                    bedtime_end: s.bedtime_end.seconds,
                    bedtime_start: s.bedtime_start.seconds,
                    day,
                    deep_sleep_duration: widen_exec(s.deep_sleep_duration),
                    efficiency: widen_exec(s.efficiency),
                    latency: widen_exec(s.latency),
                    light_sleep_duration: widen_exec(s.light_sleep_duration),
                    low_battery_alert: s.low_battery_alert,
                    lowest_heart_rate: widen_exec(s.lowest_heart_rate),
                    readiness_score_delta: or_zero_exec(s.readiness_score_delta),
                    rem_sleep_duration: widen_exec(s.rem_sleep_duration),
                    restless_periods: widen_exec(s.restless_periods),
                    sleep_score_delta: or_zero_exec(s.sleep_score_delta),
                    time_in_bed: s.time_in_bed as i64,
                    total_sleep_duration: widen_exec(s.total_sleep_duration),
                    sleep_type: String::from_str(s.sleep_type.as_literal()),
                    person_name: s.person_name.clone(),
                },
            ),
        )
    }
}

/// The JSON text of a heart-rate record, the payload of its pub/sub message;
/// `None` where its instant has no calendar form.
pub open spec fn heart_rate_payload(h: HeartRateView) -> Option<Seq<char>> {
    match utc_text_of(h.timestamp.seconds, h.timestamp.nanos) {
        None => None,
        Some(t) => Some(
            heart_rate_json(
                h.bpm,
                h.source,
                json_string_literal(t),
                json_string_literal(h.person_name),
            ),
        ),
    }
}

/// The JSON object of a heart-rate record, from the JSON literals of its
/// instant and of its person's name.
pub open spec fn heart_rate_json(
    bpm: u8,
    source: HeartRateSource,
    instant_json: Seq<char>,
    name_json: Seq<char>,
) -> Seq<char> {
    "{\"bpm\":"@ + decimal_of(bpm as nat) + ",\"source\":\""@ + source.variant_name()
        + "\",\"timestamp\":"@ + instant_json + ",\"person_name\":"@ + name_json + "}"@
}

/// The JSON object of a heart-rate record, from the JSON literals of its
/// instant and of its person's name.
pub fn frame_heart_rate_json(
    bpm: u8,
    source: HeartRateSource,
    instant_json: &str,
    name_json: &str,
) -> (r: String)
    ensures
        r@ == heart_rate_json(bpm, source, instant_json@, name_json@),
{
    let mut r = String::from_str("{\"bpm\":");
    let digits = decimal_text(bpm as u64);
    r.append(digits.as_str());
    r.append(",\"source\":\"");
    r.append(source.as_variant_name());
    r.append("\",\"timestamp\":");
    r.append(instant_json);
    r.append(",\"person_name\":");
    r.append(name_json);
    r.append("}");
    r
}

/// The description of an instant that has no calendar form.
pub const TIMESTAMP_RANGE_TEXT: &'static str = "timestamp out of the calendar's range";

/// The JSON text of a heart-rate record, the payload of its pub/sub message.
pub fn heart_rate_payload_text(h: &HeartRate) -> (r: Result<String, ExportItemGenerationError>)
    ensures
        match r {
            Ok(p) => heart_rate_payload(h@) == Some(p@),
            Err(e) => heart_rate_payload(h@) is None && e is MQTTMessageSerializationError,
        },
{
    let instant = match utc_rfc3339_text(h.timestamp.seconds, h.timestamp.nanos) {
        Some(t) => t,
        None => {
            return Err(
                ExportItemGenerationError::MQTTMessageSerializationError(
                    String::from_str(TIMESTAMP_RANGE_TEXT),
                ),
            );
        },
    };
    let instant_json = match json_string(instant.as_str()) {
        Ok(t) => t,
        Err(e) => return Err(ExportItemGenerationError::MQTTMessageSerializationError(json_error_text(&e))),
    };
    let name_json = match json_string(h.person_name.as_str()) {
        Ok(t) => t,
        Err(e) => return Err(ExportItemGenerationError::MQTTMessageSerializationError(json_error_text(&e))),
    };
    Ok(frame_heart_rate_json(h.bpm, h.source, instant_json.as_str(), name_json.as_str()))
}

/// What one record gives for the sinks: its export items, and the reasons
/// for any item that its kind calls for and that could not be formed.
#[derive(Debug)]
pub struct ExportOutcome {
    pub items: Vec<ExportItem>,
    pub errors: Vec<ExportItemGenerationError>,
}

/// Whether `i` is the time-series point of the record `d`.
pub open spec fn is_point_of(i: ExportItem, d: OuraDataView) -> bool {
    match i {
        ExportItem::InfluxDB(m) => measurement_of(m, d),
        ExportItem::MQTT(_) => false,
    }
}

/// Whether `i` is the pub/sub message of the heart-rate record `h`.
pub open spec fn is_message_of(i: ExportItem, h: HeartRateView) -> bool {
    match i {
        ExportItem::MQTT(m) => m.topic == MqttTopic::HeartRate && heart_rate_payload(h) == Some(
            m.payload@,
        ),
        ExportItem::InfluxDB(_) => false,
    }
}

/// Whether `o` is what the record `d` gives for the sinks: a heart-rate
/// record gives a message and a point (the point alone, with a serialisation
/// error, where its payload cannot be written); the other kinds give one
/// point (a sleep period none, with an error, where its day has no midnight);
/// an error record gives nothing and passes its message on.
pub open spec fn export_outcome_of(d: OuraDataView, o: ExportOutcome) -> bool {
    match d {
        OuraDataView::Error { message } => {
            &&& o.items@.len() == 0
            &&& o.errors@.len() == 1
            &&& o.errors@[0] is InvalidOuraData
            &&& o.errors@[0]->InvalidOuraData_0@ == message
        },
        OuraDataView::Activity => o.items@.len() == 0 && o.errors@.len() == 0,
        OuraDataView::HeartRate(h) => match heart_rate_payload(h) {
            Some(_) => {
                &&& o.items@.len() == 2
                &&& is_message_of(o.items@[0], h)
                &&& is_point_of(o.items@[1], d)
                &&& o.errors@.len() == 0
            },
            None => {
                &&& o.items@.len() == 1
                &&& is_point_of(o.items@[0], d)
                &&& o.errors@.len() == 1
                &&& o.errors@[0] is MQTTMessageSerializationError
            },
        },
        OuraDataView::Sleep(s) => match midnight_of(s.day.year, s.day.month, s.day.day) {
            Some(_) => o.items@.len() == 1 && is_point_of(o.items@[0], d) && o.errors@.len() == 0,
            None => {
                &&& o.items@.len() == 0
                &&& o.errors@.len() == 1
                &&& o.errors@[0] is InfluxDBItemGenerationError
            },
        },
        _ => o.items@.len() == 1 && is_point_of(o.items@[0], d) && o.errors@.len() == 0,
    }
}

/// The export items of a heart-rate record, given the outcome of writing its
/// payload: the message and the point, or the point alone and the error.
pub fn heart_rate_items_from_payload(
    h: &HeartRate,
    payload: Result<String, ExportItemGenerationError>,
) -> (r: ExportOutcome)
    ensures
        match payload {
            Ok(p) => {
                &&& r.items@.len() == 2
                &&& r.items@[0] matches ExportItem::MQTT(m) && m.topic == MqttTopic::HeartRate
                    && m.payload == p
                &&& is_point_of(r.items@[1], OuraDataView::HeartRate(h@))
                &&& r.errors@.len() == 0
            },
            Err(e) => {
                &&& r.items@.len() == 1
                &&& is_point_of(r.items@[0], OuraDataView::HeartRate(h@))
                &&& r.errors@ == seq![e]
            },
        },
{
    let point = ExportItem::InfluxDB(InfluxDBMeasurement::from_heart_rate(h));
    match payload {
        Ok(p) => ExportOutcome {
            items: vec![ExportItem::MQTT(MqttMessage { topic: MqttTopic::HeartRate, payload: p }), point],
            errors: Vec::new(),
        },
        Err(e) => ExportOutcome { items: vec![point], errors: vec![e] },
    }
}

/// What one record gives for the sinks.
pub fn export_items(data: &OuraData) -> (r: ExportOutcome)
    ensures
        export_outcome_of(data@, r),
{
    match data {
        OuraData::HeartRate(h) => {
            let payload = heart_rate_payload_text(h);
            heart_rate_items_from_payload(h, payload)
        },
        OuraData::HeartRateVariability(h) => ExportOutcome {
            items: vec![ExportItem::InfluxDB(InfluxDBMeasurement::from_heart_rate_variability(h))],
            errors: Vec::new(),
        },
        OuraData::Sleep(s) => match InfluxDBMeasurement::try_from_sleep(s) {
            Ok(m) => ExportOutcome { items: vec![ExportItem::InfluxDB(m)], errors: Vec::new() },
            Err(e) => ExportOutcome {
                items: Vec::new(),
                errors: vec![ExportItemGenerationError::InfluxDBItemGenerationError(e)],
            },
        },
        OuraData::SleepPhase(p) => ExportOutcome {
            items: vec![ExportItem::InfluxDB(InfluxDBMeasurement::from_sleep_phase(p))],
            errors: Vec::new(),
        },
        OuraData::Activity => ExportOutcome { items: Vec::new(), errors: Vec::new() },
        OuraData::Readiness(r) => ExportOutcome {
            items: vec![ExportItem::InfluxDB(InfluxDBMeasurement::from_readiness(r))],
            errors: Vec::new(),
        },
        OuraData::Error { message } => ExportOutcome {
            items: Vec::new(),
            errors: vec![ExportItemGenerationError::InvalidOuraData(message.clone())],
        },
    }
}

/// An error record gives no export item, whatever its message; a heart-rate
/// record whose payload can be written gives exactly two, one time-series
/// point and one pub/sub message.
pub proof fn lemma_fan_out_counts(d: OuraDataView, o: ExportOutcome)
    requires
        export_outcome_of(d, o),
    ensures
        d is Error ==> o.items@.len() == 0,
        d is HeartRate && heart_rate_payload(d->HeartRate_0) is Some ==> {
            &&& o.items@.len() == 2
            &&& o.items@[0] is MQTT
            &&& o.items@[1] is InfluxDB
        },
{
}

/// What each record gives for the sinks, in order.
pub fn export_outcomes(records: &Vec<OuraData>) -> (r: Vec<ExportOutcome>)
    ensures
        r@.len() == records@.len(),
        forall|i: int| 0 <= i < r@.len() ==> export_outcome_of(records@[i]@, #[trigger] r@[i]),
{
    let mut out: Vec<ExportOutcome> = Vec::new();
    let mut i: usize = 0;
    while i < records.len()
        invariant
            i <= records@.len(),
            out@.len() == i,
            forall|j: int| 0 <= j < i ==> export_outcome_of(records@[j]@, #[trigger] out@[j]),
        decreases records@.len() - i,
    {
        out.push(export_items(&records[i]));
        i = i + 1;
    }
    out
}

/// The export items of a sequence of outcomes, concatenated in order.
pub open spec fn all_items(os: Seq<ExportOutcome>) -> Seq<ExportItem>
    decreases os.len(),
{
    if os.len() == 0 {
        seq![]
    } else {
        all_items(os.drop_last()) + os.last().items@
    }
}

/// The errors of a sequence of outcomes, concatenated in order.
pub open spec fn all_errors(os: Seq<ExportOutcome>) -> Seq<ExportItemGenerationError>
    decreases os.len(),
{
    if os.len() == 0 {
        seq![]
    } else {
        all_errors(os.drop_last()) + os.last().errors@
    }
}

/// The items and the errors of a sequence of outcomes, each concatenated in
/// order: the continuous stream of export items.
pub fn merge_outcomes(outcomes: Vec<ExportOutcome>) -> (r: ExportOutcome)
    ensures
        r.items@ == all_items(outcomes@),
        r.errors@ == all_errors(outcomes@),
{
    let ghost all = outcomes@;
    let mut items: Vec<ExportItem> = Vec::new();
    let mut errors: Vec<ExportItemGenerationError> = Vec::new();
    for o in it: outcomes.into_iter()
        invariant
            it.seq() == all,
            items@ == all_items(all.take(it.index() as int)),
            errors@ == all_errors(all.take(it.index() as int)),
    {
        proof {
            assert(all.take(it.index() + 1).drop_last() =~= all.take(it.index() as int));
        }
        let mut o = o;
        items.append(&mut o.items);
        errors.append(&mut o.errors);
    }
    proof {
        assert(all.take(all.len() as int) =~= all);
    }
    ExportOutcome { items, errors }
}

/// How many export items go into one batch.
pub const EXPORT_BATCH_SIZE: usize = 100;

/// The items of a sequence of batches, concatenated in order.
pub open spec fn batches_items(bs: Seq<Vec<ExportItem>>) -> Seq<ExportItem>
    decreases bs.len(),
{
    if bs.len() == 0 {
        seq![]
    } else {
        batches_items(bs.drop_last()) + bs.last()@
    }
}

/// Cuts a stream of items into batches of `batch_size`, in order; only the
/// last batch may be shorter, and no batch is empty.
pub fn into_batches(items: Vec<ExportItem>, batch_size: usize) -> (r: Vec<Vec<ExportItem>>)
    requires
        batch_size > 0,
    ensures
        batches_items(r@) == items@,
        forall|i: int| 0 <= i < r@.len() ==> 0 < (#[trigger] r@[i])@.len() <= batch_size,
        forall|i: int| 0 <= i < r@.len() - 1 ==> (#[trigger] r@[i])@.len() == batch_size,
{
    let ghost all = items@;
    let mut batches: Vec<Vec<ExportItem>> = Vec::new();
    let mut current: Vec<ExportItem> = Vec::new();
    for item in it: items.into_iter()
        invariant
            batch_size > 0,
            it.seq() == all,
            batches_items(batches@) + current@ == all.take(it.index() as int),
            current@.len() < batch_size,
            forall|i: int| 0 <= i < batches@.len() ==> (#[trigger] batches@[i])@.len() == batch_size,
    {
        let ghost before = batches_items(batches@) + current@;
        current.push(item);
        proof {
            assert(all.take(it.index() + 1) =~= before.push(item));
            assert(batches_items(batches@) + current@ =~= before.push(item));
        }
        if current.len() == batch_size {
            let ghost bs = batches@;
            let ghost full = current@;
            batches.push(current);
            current = Vec::new();
            proof {
                assert(batches@.drop_last() =~= bs);
                assert(batches_items(batches@) + current@ =~= batches_items(bs) + full);
            }
        }
    }
    proof {
        assert(all.take(all.len() as int) =~= all);
    }
    if current.len() > 0 {
        let ghost bs = batches@;
        let ghost last = current@;
        batches.push(current);
        proof {
            assert(batches@.drop_last() =~= bs);
        }
    } else {
        assert(current@ =~= Seq::<ExportItem>::empty());
        assert(batches_items(batches@) + current@ =~= batches_items(batches@));
    }
    batches
}

/// The time-series points of a batch, in order.
pub open spec fn points_of(items: Seq<ExportItem>) -> Seq<InfluxDBMeasurement>
    decreases items.len(),
{
    if items.len() == 0 {
        seq![]
    } else {
        match items.last() {
            ExportItem::InfluxDB(m) => points_of(items.drop_last()).push(m),
            ExportItem::MQTT(_) => points_of(items.drop_last()),
        }
    }
}

/// The pub/sub messages of a batch, in order.
pub open spec fn messages_of(items: Seq<ExportItem>) -> Seq<MqttMessage>
    decreases items.len(),
{
    if items.len() == 0 {
        seq![]
    } else {
        match items.last() {
            ExportItem::MQTT(m) => messages_of(items.drop_last()).push(m),
            ExportItem::InfluxDB(_) => messages_of(items.drop_last()),
        }
    }
}

/// A batch split by sink.
#[derive(Debug)]
pub struct ExportBatch {
    pub influxdb_data_points: Vec<InfluxDBMeasurement>,
    pub mqtt_messages: Vec<MqttMessage>,
}

/// Splits a batch into its time-series points and its pub/sub messages, each
/// in the order of the batch.
pub fn partition_batch(items: Vec<ExportItem>) -> (r: ExportBatch)
    ensures
        r.influxdb_data_points@ == points_of(items@),
        r.mqtt_messages@ == messages_of(items@),
{
    let ghost all = items@;
    let mut points: Vec<InfluxDBMeasurement> = Vec::new();
    let mut messages: Vec<MqttMessage> = Vec::new();
    for item in it: items.into_iter()
        invariant
            it.seq() == all,
            points@ == points_of(all.take(it.index() as int)),
            messages@ == messages_of(all.take(it.index() as int)),
    {
        proof {
            assert(all.take(it.index() + 1).drop_last() =~= all.take(it.index() as int));
        }
        match item {
            ExportItem::MQTT(m) => messages.push(m),
            ExportItem::InfluxDB(p) => points.push(p),
        }
    }
    proof {
        assert(all.take(all.len() as int) =~= all);
    }
    ExportBatch { influxdb_data_points: points, mqtt_messages: messages }
}

/// What is sent of a batch: its points go to the time-series sink only where
/// one is configured; its messages go to the pub/sub sink either way.
#[derive(Debug)]
pub struct BatchDispatch {
    pub influxdb_write: Option<Vec<InfluxDBMeasurement>>,
    pub mqtt_messages: Vec<MqttMessage>,
}

/// What is sent of `batch`, with or without a time-series sink.
pub open spec fn dispatch_of(batch: ExportBatch, influxdb_configured: bool) -> BatchDispatch {
    BatchDispatch {
        influxdb_write: if influxdb_configured {
            Some(batch.influxdb_data_points)
        } else {
            None
        },
        mqtt_messages: batch.mqtt_messages,
    }
}

/// What is sent of `batch`, with or without a time-series sink.
pub fn dispatch_batch(batch: ExportBatch, influxdb_configured: bool) -> (r: BatchDispatch)
    ensures
        r == dispatch_of(batch, influxdb_configured),
{
    let ExportBatch { influxdb_data_points, mqtt_messages } = batch;
    if influxdb_configured {
        BatchDispatch { influxdb_write: Some(influxdb_data_points), mqtt_messages }
    } else {
        BatchDispatch { influxdb_write: None, mqtt_messages }
    }
}

/// Whether a time-series sink is configured changes nothing of the pub/sub
/// messages sent for a batch.
pub proof fn lemma_messages_independent_of_sink(batch: ExportBatch)
    ensures
        dispatch_of(batch, true).mqtt_messages == dispatch_of(batch, false).mqtt_messages,
        dispatch_of(batch, false).influxdb_write is None,
{
}

} // verus!
