//! Turning vendor documents into records: one function per pair of document
//! kind and record kind.

use crate::errors::{OuraPollingError, PollingErrorView};
use crate::oura_api::{OuraHeartRateData, OuraSleepDocument, OuraSleepMeasurement};
use crate::records::{
    phase_of_code, sleep_type_outcome, source_outcome, unknown_variant, Contributors, HeartRate,
    HeartRateSource, HeartRateVariability, HeartRateVariabilityView, HeartRateView, Readiness,
    ReadinessView, Sleep, SleepPhase, SleepPhaseType, SleepType, SleepPhaseView, SleepView,
};
use crate::time::{
    date_outcome, midnight_of, midnight_utc_seconds, timestamp_outcome, try_parse_oura_date,
    try_parse_oura_timestamp, Timestamp,
};
use vstd::prelude::*;
use vstd::string::{StrSliceExecFns, StringExecFns};

verus! {

/// One present value of an interval series, at the instant it was sampled.
#[derive(Clone, Copy, Debug, PartialEq, Eq, Structural)]
pub struct Sample {
    pub value: i64,
    pub timestamp: Timestamp,
}

/// The present values of a series, each with its position in the series; gaps
/// are skipped but keep their positions.
pub open spec fn present_samples(items: Seq<Option<i64>>) -> Seq<(i64, int)>
    decreases items.len(),
{
    if items.len() == 0 {
        seq![]
    } else {
        let before = present_samples(items.drop_last());
        match items.last() {
            Some(v) => before.push((v, items.len() - 1)),
            None => before,
        }
    }
}

/// Whether `start + n * step` is a representable count of seconds: the cursor
/// that walks a series of `n` positions stays in range.
pub open spec fn cursor_fits(start: i64, step: int, n: int) -> bool {
    i64::MIN <= start + n * step <= i64::MAX
}

/// The instant of position `k` of a series that starts at `start` and steps by
/// `step` seconds.
pub open spec fn instant_at(start: Timestamp, step: int, k: int) -> Timestamp {
    Timestamp { seconds: (start.seconds + k * step) as i64, nanos: start.nanos }
}

/// The description of a series whose instants leave the range of a timestamp.
pub const SERIES_RANGE_TEXT: &'static str = "series timestamps out of range";

proof fn lemma_cursor_between(start: i64, step: i64, k: int, n: int)
    requires
        0 <= k <= n,
        cursor_fits(start, step as int, n),
    ensures
        cursor_fits(start, step as int, k),
{
    if step >= 0 {
        assert(0 <= k * step <= n * step) by (nonlinear_arith)
            requires
                0 <= k <= n,
                step >= 0,
        ;
    } else {
        assert(n * step <= k * step <= 0) by (nonlinear_arith)
            requires
                0 <= k <= n,
                step < 0,
        ;
    }
}

proof fn lemma_present_positions(items: Seq<Option<i64>>)
    ensures
        forall|i: int, j: int|
            0 <= i < j < present_samples(items).len() ==> #[trigger] present_samples(items)[i].1
                < #[trigger] present_samples(items)[j].1,
        forall|i: int|
            0 <= i < present_samples(items).len() ==> 0 <= #[trigger] present_samples(items)[i].1
                < items.len(),
    decreases items.len(),
{
    if items.len() > 0 {
        let rest = items.drop_last();
        lemma_present_positions(rest);
        let before = present_samples(rest);
        let all = present_samples(items);
        match items.last() {
            Some(v) => {
                assert(all == before.push((v, items.len() - 1)));
                assert forall|i: int| 0 <= i < all.len() implies 0 <= #[trigger] all[i].1
                    < items.len() by {
                    if i < before.len() {
                        assert(all[i] == before[i]);
                    }
                }
                assert forall|i: int, j: int| 0 <= i < j < all.len() implies #[trigger] all[i].1
                    < #[trigger] all[j].1 by {
                    assert(all[i] == before[i]);
                    if j < before.len() {
                        assert(all[j] == before[j]);
                    }
                }
            },
            None => {
                assert(all == before);
            },
        }
    }
}

/// Within one rebuilt series with a non-negative step, instants never go
/// back: a later sample stands at or after an earlier one, and every sample's
/// instant is in range.
pub proof fn lemma_series_instants_ordered(start: Timestamp, step: i64, items: Seq<Option<i64>>)
    requires
        step >= 0,
        cursor_fits(start.seconds, step as int, items.len() as int),
    ensures
        forall|i: int, j: int|
            0 <= i < j < present_samples(items).len() ==> start.seconds + #[trigger] present_samples(
                items,
            )[i].1 * step <= start.seconds + #[trigger] present_samples(items)[j].1 * step,
        forall|i: int|
            0 <= i < present_samples(items).len() ==> cursor_fits(
                start.seconds,
                step as int,
                #[trigger] present_samples(items)[i].1,
            ),
{
    lemma_present_positions(items);
    let ps = present_samples(items);
    assert forall|i: int, j: int| 0 <= i < j < ps.len() implies start.seconds + #[trigger] ps[i].1
        * step <= start.seconds + #[trigger] ps[j].1 * step by {
        let a = ps[i].1;
        let b = ps[j].1;
        assert(a * step <= b * step) by (nonlinear_arith)
            requires
                a < b,
                step >= 0,
        ;
    }
    assert forall|i: int| 0 <= i < ps.len() implies cursor_fits(
        start.seconds,
        step as int,
        #[trigger] ps[i].1,
    ) by {
        lemma_cursor_between(start.seconds, step, ps[i].1, items.len() as int);
    }
}

/// Rebuilds the samples of an interval series: the value at position `k`
/// stands at `start + k * step_seconds`, gaps included in the count. `None`
/// where the cursor would leave the range of a timestamp.
pub fn interval_series(start: Timestamp, step_seconds: i64, items: &Vec<Option<i64>>) -> (r:
    Option<Vec<Sample>>)
    ensures
        match r {
            Some(v) => {
                &&& cursor_fits(start.seconds, step_seconds as int, items@.len() as int)
                &&& v@.len() == present_samples(items@).len()
                &&& forall|j: int|
                    0 <= j < v@.len() ==> #[trigger] v@[j] == (Sample {
                        value: present_samples(items@)[j].0,
                        timestamp: instant_at(
                            start,
                            step_seconds as int,
                            present_samples(items@)[j].1,
                        ),
                    })
            },
            None => !cursor_fits(start.seconds, step_seconds as int, items@.len() as int),
        },
{
    let n = items.len();
    assert(-0x7fff_ffff_ffff_ffff_8000_0000_0000_0000 <= (n as int) * (step_seconds as int)
        <= 0x7fff_ffff_ffff_ffff_0000_0000_0000_0000) by (nonlinear_arith)
        requires
            0 <= n <= usize::MAX,
            i64::MIN <= step_seconds <= i64::MAX,
    ;
    let last: i128 = start.seconds as i128 + (n as i128) * (step_seconds as i128);
    if last < i64::MIN as i128 || last > i64::MAX as i128 {
        return None;
    }
    let mut out: Vec<Sample> = Vec::new();
    let mut i: usize = 0;
    while i < n
        invariant
            i <= n,
            n == items@.len(),
            cursor_fits(start.seconds, step_seconds as int, n as int),
            out@.len() == present_samples(items@.take(i as int)).len(),
            forall|j: int|
                0 <= j < out@.len() ==> #[trigger] out@[j] == (Sample {
                    value: present_samples(items@.take(i as int))[j].0,
                    timestamp: instant_at(
                        start,
                        step_seconds as int,
                        present_samples(items@.take(i as int))[j].1,
                    ),
                }),
        decreases n - i,
    {
        proof {
            lemma_cursor_between(start.seconds, step_seconds, i as int, n as int);
            assert(items@.take(i + 1).drop_last() =~= items@.take(i as int));
        }
        assert(-0x7fff_ffff_ffff_ffff_8000_0000_0000_0000 <= (i as int) * (step_seconds as int)
            <= 0x7fff_ffff_ffff_ffff_0000_0000_0000_0000) by (nonlinear_arith)
            requires
                0 <= i <= usize::MAX,
                i64::MIN <= step_seconds <= i64::MAX,
        ;
        let cursor: i128 = start.seconds as i128 + (i as i128) * (step_seconds as i128);
        match items[i] {
            Some(v) => {
                out.push(
                    Sample { value: v, timestamp: Timestamp { seconds: cursor as i64, nanos: start.nanos } },
                );
            },
            None => {},
        }
        i = i + 1;
    }
    assert(items@.take(n as int) =~= items@);
    Some(out)
}


/// `v` held in a `u8`, saturating at either end.
pub open spec fn clamp_u8(v: i64) -> u8 {
    if v < 0 {
        0
    } else if v > 255 {
        255
    } else {
        v as u8
    }
}

/// `v` held in a `u16`, saturating at either end.
pub open spec fn clamp_u16(v: i64) -> u16 {
    if v < 0 {
        0
    } else if v > 65535 {
        65535
    } else {
        v as u16
    }
}

fn saturate_u8(v: i64) -> (r: u8)
    ensures
        r == clamp_u8(v),
{
    if v < 0 {
        0
    } else if v > 255 {
        255
    } else {
        v as u8
    }
}

fn saturate_u16(v: i64) -> (r: u16)
    ensures
        r == clamp_u16(v),
{
    if v < 0 {
        0
    } else if v > 65535 {
        65535
    } else {
        v as u16
    }
}

/// The models of a vector's elements, or the model of the error.
pub open spec fn views_or_error<T: View>(r: Result<Vec<T>, OuraPollingError>) -> Result<
    Seq<T::V>,
    PollingErrorView,
> {
    match r {
        Ok(v) => Ok(v@.map_values(|x: T| x@)),
        Err(e) => Err(e@),
    }
}

/// The model of a record, or the model of the error.
pub open spec fn view_or_error<T: View>(r: Result<T, OuraPollingError>) -> Result<
    T::V,
    PollingErrorView,
> {
    match r {
        Ok(v) => Ok(v@),
        Err(e) => Err(e@),
    }
}

/// The heart-rate record of a sample document.
pub open spec fn sample_heart_rate(d: OuraHeartRateData, person: Seq<char>) -> Result<
    HeartRateView,
    PollingErrorView,
> {
    match timestamp_outcome(d.timestamp@) {
        Err(e) => Err(e),
        Ok(t) => match source_outcome(d.source@) {
            Err(e) => Err(e),
            Ok(source) => Ok(HeartRateView { bpm: d.bpm, source, timestamp: t, person_name: person }),
        },
    }
}

/// The records of a series embedded in a sleep document, built by `record`
/// from each present value and its instant; an error where the series is
/// absent (`missing`), its start does not parse, or its instants leave the
/// range of a timestamp.
pub open spec fn series_records<V>(
    m: Option<OuraSleepMeasurement>,
    missing: PollingErrorView,
    record: spec_fn(i64, Timestamp) -> V,
) -> Result<Seq<V>, PollingErrorView> {
    match m {
        None => Err(missing),
        Some(m) => match timestamp_outcome(m.timestamp@) {
            Err(e) => Err(e),
            Ok(start) => if cursor_fits(start.seconds, m.interval_seconds as int, m.items@.len() as int) {
                Ok(
                    present_samples(m.items@).map_values(
                        |p: (i64, int)| record(p.0, instant_at(start, m.interval_seconds as int, p.1)),
                    ),
                )
            } else {
                Err(PollingErrorView::Unexpected(SERIES_RANGE_TEXT@))
            },
        },
    }
}

/// The heart-rate records of a sleep document's embedded heart-rate series.
pub open spec fn sleep_heart_rates(doc: OuraSleepDocument, person: Seq<char>) -> Result<
    Seq<HeartRateView>,
    PollingErrorView,
> {
    series_records(
        doc.heart_rate,
        PollingErrorView::NoHeartRateDataFound { sleep_id: doc.id@ },
        |v: i64, t: Timestamp|
            HeartRateView {
                bpm: clamp_u8(v),
                source: HeartRateSource::Sleep,
                timestamp: t,
                person_name: person,
            },
    )
}

/// The heart-rate-variability records of a sleep document's embedded series.
pub open spec fn sleep_heart_rate_variabilities(
    doc: OuraSleepDocument,
    person: Seq<char>,
) -> Result<Seq<HeartRateVariabilityView>, PollingErrorView> {
    series_records(
        doc.hrv,
        PollingErrorView::NoHeartRateVariabilityDataFound { sleep_id: doc.id@ },
        |v: i64, t: Timestamp|
            HeartRateVariabilityView { ms: clamp_u16(v), timestamp: t, person_name: person },
    )
}

/// The sleep record of a sleep document.
pub open spec fn sleep_record(doc: OuraSleepDocument, person: Seq<char>) -> Result<
    SleepView,
    PollingErrorView,
> {
    match date_outcome(doc.day@) {
        Err(e) => Err(e),
        Ok(day) => match timestamp_outcome(doc.bedtime_start@) {
            Err(e) => Err(e),
            Ok(bedtime_start) => match timestamp_outcome(doc.bedtime_end@) {
                Err(e) => Err(e),
                Ok(bedtime_end) => match sleep_type_outcome(doc.sleep_type@) {
                    Err(e) => Err(e),
                    Ok(sleep_type) => Ok(
                        SleepView {
                            id: doc.id@,
                            average_breath: doc.average_breath,
                            average_heartrate: doc.average_heart_rate,
                            average_hrv: doc.average_hrv,
                            awake_time: doc.awake_time,
                            bedtime_end,
                            bedtime_start,
                            day,
                            deep_sleep_duration: doc.deep_sleep_duration,
                            efficiency: doc.efficiency,
                            latency: doc.latency,
                            light_sleep_duration: doc.light_sleep_duration,
                            low_battery_alert: doc.low_battery_alert,
                            lowest_heart_rate: doc.lowest_heart_rate,
                            readiness_score_delta: doc.readiness_score_delta,
                            rem_sleep_duration: doc.rem_sleep_duration,
                            restless_periods: doc.restless_periods,
                            sleep_score_delta: doc.sleep_score_delta,
                            time_in_bed: doc.time_in_bed,
                            total_sleep_duration: doc.total_sleep_duration,
                            sleep_type,
                            person_name: person,
                        },
                    ),
                },
            },
        },
    }
}

/// The description of a day whose midnight cannot be formed.
pub const MIDNIGHT_TEXT: &'static str = "Cannot construct a NaiveDate from parsed oura date";

/// The readiness record of a sleep document, at midnight UTC of its day.
pub open spec fn readiness_record(doc: OuraSleepDocument, person: Seq<char>) -> Result<
    ReadinessView,
    PollingErrorView,
> {
    match date_outcome(doc.day@) {
        Err(e) => Err(e),
        Ok(day) => match doc.readiness {
            None => Err(PollingErrorView::NoReadinessDataFound { sleep_id: doc.id@ }),
            Some(r) => match r.score {
                None => Err(PollingErrorView::NoReadinessScoreFound { sleep_id: doc.id@ }),
                Some(score) => match midnight_of(day.year, day.month, day.day) {
                    None => Err(PollingErrorView::Unexpected(MIDNIGHT_TEXT@)),
                    Some(seconds) => Ok(
                        ReadinessView {
                            score,
                            temperature_deviation: r.temperature_deviation,
                            temperature_trend_deviation: r.temperature_trend_deviation,
                            contributors: Contributors::spec_from_oura(r.contributors),
                            timestamp: Timestamp { seconds, nanos: 0 },
                            person_name: person,
                        },
                    ),
                },
            },
        },
    }
}

/// The length of one sleep-phase bucket, in seconds.
pub const PHASE_BUCKET_SECONDS: i64 = 300;

/// The first character of `codes` that names no sleep phase.
pub open spec fn first_unknown_phase(codes: Seq<char>) -> Option<char>
    decreases codes.len(),
{
    if codes.len() == 0 {
        None
    } else {
        match first_unknown_phase(codes.drop_last()) {
            Some(c) => Some(c),
            None => if phase_of_code(codes.last()) is None {
                Some(codes.last())
            } else {
                None
            },
        }
    }
}

/// The sleep-phase records of a sleep document: one per digit, five minutes
/// apart from the start of the period.
pub open spec fn sleep_phase_records(doc: OuraSleepDocument, person: Seq<char>) -> Result<
    Seq<SleepPhaseView>,
    PollingErrorView,
> {
    match doc.sleep_phase_5_min {
        None => Err(PollingErrorView::NoSleepPhaseDataFound { sleep_id: doc.id@ }),
        Some(codes) => match timestamp_outcome(doc.bedtime_start@) {
            Err(e) => Err(e),
            Ok(start) => if !cursor_fits(
                start.seconds,
                PHASE_BUCKET_SECONDS as int,
                codes@.len() as int,
            ) {
                Err(PollingErrorView::Unexpected(SERIES_RANGE_TEXT@))
            } else {
                match first_unknown_phase(codes@) {
                    Some(c) => Err(unknown_variant("SleepPhaseType"@, seq![c])),
                    None => Ok(
                        Seq::new(
                            codes@.len(),
                            |i: int|
                                SleepPhaseView {
                                    sleep_id: doc.id@,
                                    sleep_phase: phase_of_code(codes@[i])->0,
                                    timestamp: instant_at(start, PHASE_BUCKET_SECONDS as int, i),
                                    person_name: person,
                                },
                        ),
                    ),
                }
            },
        },
    }
}

impl OuraHeartRateData {
    /// The heart-rate record of the sample, for `person`.
    pub fn try_to_heart_rate_data(&self, person: &str) -> (r: Result<HeartRate, OuraPollingError>)
        ensures
            view_or_error(r) == sample_heart_rate(*self, person@),
    {
        let timestamp = match try_parse_oura_timestamp(self.timestamp.as_str()) {
            Ok(t) => t,
            Err(e) => return Err(e),
        };
        let source = match HeartRateSource::from_literal(self.source.as_str()) {
            Ok(s) => s,
            Err(e) => return Err(e),
        };
        Ok(HeartRate { bpm: self.bpm, person_name: String::from_str(person), source, timestamp })
    }
}


fn series_range_error() -> (e: OuraPollingError)
    ensures
        e@ == PollingErrorView::Unexpected(SERIES_RANGE_TEXT@),
{
    OuraPollingError::UnexpectedError(String::from_str(SERIES_RANGE_TEXT))
}

impl OuraSleepDocument {
    /// The heart-rate records of the document's embedded heart-rate series,
    /// for `person`: one per present value, rounded into a `u8`.
    pub fn try_to_heart_rate_data(&self, person: &str) -> (r: Result<
        Vec<HeartRate>,
        OuraPollingError,
    >)
        ensures
            views_or_error(r) == sleep_heart_rates(*self, person@),
    {
        match &self.heart_rate {
            None => Err(OuraPollingError::NoHeartRateDataFoundError { sleep_id: self.id.clone() }),
            Some(m) => {
                let start = match try_parse_oura_timestamp(m.timestamp.as_str()) {
                    Ok(t) => t,
                    Err(e) => return Err(e),
                };
                let samples = match interval_series(start, m.interval_seconds, &m.items) {
                    Some(v) => v,
                    None => return Err(series_range_error()),
                };
                let mut out: Vec<HeartRate> = Vec::new();
                let mut i: usize = 0;
                while i < samples.len()
                    invariant
                        i <= samples@.len(),
                        out@.len() == i,
                        forall|j: int|
                            0 <= j < i ==> #[trigger] out@[j]@ == (HeartRateView {
                                bpm: clamp_u8(samples@[j].value),
                                source: HeartRateSource::Sleep,
                                timestamp: samples@[j].timestamp,
                                person_name: person@,
                            }),
                    decreases samples@.len() - i,
                {
                    let sample = samples[i];
                    out.push(
                        HeartRate {
                            bpm: saturate_u8(sample.value),
                            source: HeartRateSource::Sleep,
                            timestamp: sample.timestamp,
                            person_name: String::from_str(person),
                        },
                    );
                    i = i + 1;
                }
                proof {
                    let expected = sleep_heart_rates(*self, person@)->Ok_0;
                    assert(out@.map_values(|h: HeartRate| h@) =~= expected);
                }
                Ok(out)
            },
        }
    }

    /// The heart-rate-variability records of the document's embedded series,
    /// for `person`: one per present value, rounded into a `u16`.
    pub fn try_to_heart_rate_variability(&self, person: &str) -> (r: Result<
        Vec<HeartRateVariability>,
        OuraPollingError,
    >)
        ensures
            views_or_error(r) == sleep_heart_rate_variabilities(*self, person@),
    {
        match &self.hrv {
            None => Err(
                OuraPollingError::NoHeartRateVariabilityDataFoundError { sleep_id: self.id.clone() },
            ),
            Some(m) => {
                let start = match try_parse_oura_timestamp(m.timestamp.as_str()) {
                    Ok(t) => t,
                    Err(e) => return Err(e),
                };
                let samples = match interval_series(start, m.interval_seconds, &m.items) {
                    Some(v) => v,
                    None => return Err(series_range_error()),
                };
                let mut out: Vec<HeartRateVariability> = Vec::new();
                let mut i: usize = 0;
                while i < samples.len()
                    invariant
                        i <= samples@.len(),
                        out@.len() == i,
                        forall|j: int|
                            0 <= j < i ==> #[trigger] out@[j]@ == (HeartRateVariabilityView {
                                ms: clamp_u16(samples@[j].value),
                                timestamp: samples@[j].timestamp,
                                person_name: person@,
                            }),
                    decreases samples@.len() - i,
                {
                    let sample = samples[i];
                    out.push(
                        HeartRateVariability {
                            ms: saturate_u16(sample.value),
                            timestamp: sample.timestamp,
                            person_name: String::from_str(person),
                        },
                    );
                    i = i + 1;
                }
                proof {
                    let expected = sleep_heart_rate_variabilities(*self, person@)->Ok_0;
                    assert(out@.map_values(|h: HeartRateVariability| h@) =~= expected);
                }
                Ok(out)
            },
        }
    }
}


proof fn lemma_first_unknown_extends(codes: Seq<char>, k: int)
    requires
        0 <= k <= codes.len(),
        first_unknown_phase(codes.take(k)) is Some,
    ensures
        first_unknown_phase(codes) == first_unknown_phase(codes.take(k)),
    decreases codes.len() - k,
{
    if k < codes.len() {
        assert(codes.take(k + 1).drop_last() =~= codes.take(k));
        lemma_first_unknown_extends(codes, k + 1);
    } else {
        assert(codes.take(k) =~= codes);
    }
}

impl OuraSleepDocument {
    /// The sleep record of the document, for `person`.
    pub fn try_to_sleep_data(&self, person_name: &str) -> (r: Result<Sleep, OuraPollingError>)
        ensures
            view_or_error(r) == sleep_record(*self, person_name@),
    {
        let day = match try_parse_oura_date(self.day.as_str()) {
            Ok(d) => d,
            Err(e) => return Err(e),
        };
        let bedtime_start = match try_parse_oura_timestamp(self.bedtime_start.as_str()) {
            Ok(t) => t,
            Err(e) => return Err(e),
        };
        let bedtime_end = match try_parse_oura_timestamp(self.bedtime_end.as_str()) {
            Ok(t) => t,
            Err(e) => return Err(e),
        };
        let sleep_type = match SleepType::from_literal(self.sleep_type.as_str()) {
            Ok(t) => t,
            Err(e) => return Err(e),
        };
        Ok(
            Sleep {
                id: self.id.clone(),
                awake_time: self.awake_time,
                average_breath: self.average_breath,
                average_heartrate: self.average_heart_rate,
                average_hrv: self.average_hrv,
                day,
                bedtime_start,
                bedtime_end,
                deep_sleep_duration: self.deep_sleep_duration,
                efficiency: self.efficiency,
                latency: self.latency,
                light_sleep_duration: self.light_sleep_duration,
                low_battery_alert: self.low_battery_alert,
                lowest_heart_rate: self.lowest_heart_rate,
                readiness_score_delta: self.readiness_score_delta,
                rem_sleep_duration: self.rem_sleep_duration,
                restless_periods: self.restless_periods,
                sleep_score_delta: self.sleep_score_delta,
                time_in_bed: self.time_in_bed,
                total_sleep_duration: self.total_sleep_duration,
                sleep_type,
                person_name: String::from_str(person_name),
            },
        )
    }

    /// The readiness record of the document, for `person`, at midnight UTC of
    /// the document's day.
    pub fn try_to_readiness(&self, person: &str) -> (r: Result<Readiness, OuraPollingError>)
        ensures
            view_or_error(r) == readiness_record(*self, person@),
    {
        let day = match try_parse_oura_date(self.day.as_str()) {
            Ok(d) => d,
            Err(e) => return Err(e),
        };
        match &self.readiness {
            None => Err(OuraPollingError::NoReadinessDataFoundError { sleep_id: self.id.clone() }),
            Some(readiness) => {
                let score = match readiness.score {
                    Some(score) => score,
                    None => {
                        return Err(
                            OuraPollingError::NoReadinessScoreFoundError {
                                sleep_id: self.id.clone(),
                            },
                        );
                    },
                };
                let seconds = match midnight_utc_seconds(day.year, day.month, day.day) {
                    Some(s) => s,
                    None => {
                        return Err(
                            OuraPollingError::UnexpectedError(String::from_str(MIDNIGHT_TEXT)),
                        );
                    },
                };
                Ok(
                    Readiness {
                        score,
                        temperature_deviation: readiness.temperature_deviation,
                        temperature_trend_deviation: readiness.temperature_trend_deviation,
                        contributors: Contributors::from_oura(&readiness.contributors),
                        timestamp: Timestamp { seconds, nanos: 0 },
                        person_name: String::from_str(person),
                    },
                )
            },
        }
    }

    /// The sleep-phase records of the document, for `person`: one per digit of
    /// the phase string, five minutes apart from the start of the period. An
    /// unknown digit fails the whole extraction.
    pub fn try_extract_sleep_phases(&self, person_name: &str) -> (r: Result<
        Vec<SleepPhase>,
        OuraPollingError,
    >)
        ensures
            views_or_error(r) == sleep_phase_records(*self, person_name@),
    {
        let codes = match &self.sleep_phase_5_min {
            None => {
                return Err(
                    OuraPollingError::NoSleepPhaseDataFoundError { sleep_id: self.id.clone() },
                );
            },
            Some(c) => c.as_str(),
        };
        let start = match try_parse_oura_timestamp(self.bedtime_start.as_str()) {
            Ok(t) => t,
            Err(e) => return Err(e),
        };
        let n = codes.unicode_len();
        assert(-0x7fff_ffff_ffff_ffff_8000_0000_0000_0000 <= (n as int) * 300
            <= 0x7fff_ffff_ffff_ffff_0000_0000_0000_0000) by (nonlinear_arith)
            requires
                0 <= n <= usize::MAX,
        ;
        let last: i128 = start.seconds as i128 + (n as i128) * (PHASE_BUCKET_SECONDS as i128);
        if last < i64::MIN as i128 || last > i64::MAX as i128 {
            return Err(series_range_error());
        }
        let mut out: Vec<SleepPhase> = Vec::new();
        let mut i: usize = 0;
        while i < n
            invariant
                i <= n,
                n == codes@.len(),
                self.sleep_phase_5_min is Some,
                self.sleep_phase_5_min->0@ == codes@,
                timestamp_outcome(self.bedtime_start@) == Ok::<Timestamp, PollingErrorView>(start),
                cursor_fits(start.seconds, PHASE_BUCKET_SECONDS as int, n as int),
                first_unknown_phase(codes@.take(i as int)) is None,
                out@.len() == i,
                forall|j: int|
                    0 <= j < i ==> #[trigger] out@[j]@ == (SleepPhaseView {
                        sleep_id: self.id@,
                        sleep_phase: phase_of_code(codes@[j])->0,
                        timestamp: instant_at(start, PHASE_BUCKET_SECONDS as int, j),
                        person_name: person_name@,
                    }),
            decreases n - i,
        {
            proof {
                lemma_cursor_between(start.seconds, PHASE_BUCKET_SECONDS, i as int, n as int);
                assert(codes@.take(i + 1).drop_last() =~= codes@.take(i as int));
            }
            let c = codes.get_char(i);
            let phase = match SleepPhaseType::from_code(c) {
                Ok(p) => p,
                Err(e) => {
                    proof {
                        assert(codes@.take(i + 1).last() == c);
                        assert(first_unknown_phase(codes@.take(i + 1)) == Some(c));
                        lemma_first_unknown_extends(codes@, i + 1);
                    }
                    return Err(e);
                },
            };
            let seconds: i128 = start.seconds as i128 + (i as i128) * (PHASE_BUCKET_SECONDS as i128);
            out.push(
                SleepPhase {
                    sleep_phase: phase,
                    sleep_id: self.id.clone(),
                    timestamp: Timestamp { seconds: seconds as i64, nanos: start.nanos },
                    person_name: String::from_str(person_name),
                },
            );
            i = i + 1;
        }
        proof {
            assert(codes@.take(n as int) =~= codes@);
            let expected = sleep_phase_records(*self, person_name@)->Ok_0;
            assert(out@.map_values(|p: SleepPhase| p@) =~= expected);
        }
        Ok(out)
    }
}

} // verus!
