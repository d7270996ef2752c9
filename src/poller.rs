//! Assembling one poll cycle's records from what the vendor's API returned.

use crate::derivation::{
    readiness_record, sample_heart_rate, sleep_heart_rate_variabilities, sleep_heart_rates,
    sleep_phase_records, sleep_record,
};
use crate::errors::PollingErrorView;
use crate::oura_api::{OuraApiError, OuraApiResponse, OuraHeartRateData, OuraSleepDocument};
use crate::records::{
    data_views, HeartRate, HeartRateVariability, HeartRateVariabilityView, HeartRateView, OuraData,
    OuraDataView, ReadinessView, SleepPhase, SleepPhaseView, SleepView,
};
use crate::time::Timestamp;
use vstd::prelude::*;

verus! {

/// The records that one derivation contributes: its records, each wrapped by
/// `wrap`, or one error record in their place.
pub open spec fn outcome_records<V>(
    r: Result<Seq<V>, PollingErrorView>,
    wrap: spec_fn(V) -> OuraDataView,
) -> Seq<OuraDataView> {
    match r {
        Ok(s) => s.map_values(wrap),
        Err(e) => seq![OuraDataView::Error { message: e.message() }],
    }
}

/// The record that one single-record derivation contributes: its record,
/// wrapped by `wrap`, or an error record in its place.
pub open spec fn single_outcome_records<V>(
    r: Result<V, PollingErrorView>,
    wrap: spec_fn(V) -> OuraDataView,
) -> Seq<OuraDataView> {
    match r {
        Ok(v) => seq![wrap(v)],
        Err(e) => seq![OuraDataView::Error { message: e.message() }],
    }
}

/// The records of each document in turn, concatenated.
pub open spec fn per_document<D>(docs: Seq<D>, f: spec_fn(D) -> Seq<OuraDataView>) -> Seq<
    OuraDataView,
>
    decreases docs.len(),
{
    if docs.len() == 0 {
        seq![]
    } else {
        per_document(docs.drop_last(), f) + f(docs.last())
    }
}

proof fn lemma_per_document_step<D>(docs: Seq<D>, i: int, f: spec_fn(D) -> Seq<OuraDataView>)
    requires
        0 <= i < docs.len(),
    ensures
        per_document(docs.take(i + 1), f) == per_document(docs.take(i), f) + f(docs[i]),
{
    assert(docs.take(i + 1).drop_last() =~= docs.take(i));
}

fn push_heart_rates(out: &mut Vec<OuraData>, v: Vec<HeartRate>)
    ensures
        data_views(final(out)@) == data_views(old(out)@) + v@.map_values(
            |h: HeartRate| OuraDataView::HeartRate(h@),
        ),
{
    let ghost start = data_views(out@);
    let ghost all = v@;
    for h in it: v.into_iter()
        invariant
            it.seq() == all,
            data_views(out@) == start + all.take(it.index() as int).map_values(
                |h: HeartRate| OuraDataView::HeartRate(h@),
            ),
    {
        let ghost before = out@;
        out.push(OuraData::HeartRate(h));
        proof {
            assert(data_views(out@) =~= data_views(before).push(OuraDataView::HeartRate(h@)));
            assert(all.take(it.index() + 1).map_values(|h: HeartRate| OuraDataView::HeartRate(h@))
                =~= all.take(it.index() as int).map_values(
                |h: HeartRate| OuraDataView::HeartRate(h@),
            ).push(OuraDataView::HeartRate(h@)));
        }
    }
}

fn push_heart_rate_variabilities(out: &mut Vec<OuraData>, v: Vec<HeartRateVariability>)
    ensures
        data_views(final(out)@) == data_views(old(out)@) + v@.map_values(
            |h: HeartRateVariability| OuraDataView::HeartRateVariability(h@),
        ),
{
    let ghost start = data_views(out@);
    let ghost all = v@;
    for h in it: v.into_iter()
        invariant
            it.seq() == all,
            data_views(out@) == start + all.take(it.index() as int).map_values(
                |h: HeartRateVariability| OuraDataView::HeartRateVariability(h@),
            ),
    {
        let ghost before = out@;
        out.push(OuraData::HeartRateVariability(h));
        proof {
            assert(data_views(out@) =~= data_views(before).push(OuraDataView::HeartRateVariability(h@)));
            assert(all.take(it.index() + 1).map_values(|h: HeartRateVariability| OuraDataView::HeartRateVariability(h@))
                =~= all.take(it.index() as int).map_values(
                |h: HeartRateVariability| OuraDataView::HeartRateVariability(h@),
            ).push(OuraDataView::HeartRateVariability(h@)));
        }
    }
}

fn push_sleep_phases(out: &mut Vec<OuraData>, v: Vec<SleepPhase>)
    ensures
        data_views(final(out)@) == data_views(old(out)@) + v@.map_values(
            |h: SleepPhase| OuraDataView::SleepPhase(h@),
        ),
{
    let ghost start = data_views(out@);
    let ghost all = v@;
    for h in it: v.into_iter()
        invariant
            it.seq() == all,
            data_views(out@) == start + all.take(it.index() as int).map_values(
                |h: SleepPhase| OuraDataView::SleepPhase(h@),
            ),
    {
        let ghost before = out@;
        out.push(OuraData::SleepPhase(h));
        proof {
            assert(data_views(out@) =~= data_views(before).push(OuraDataView::SleepPhase(h@)));
            assert(all.take(it.index() + 1).map_values(|h: SleepPhase| OuraDataView::SleepPhase(h@))
                =~= all.take(it.index() as int).map_values(
                |h: SleepPhase| OuraDataView::SleepPhase(h@),
            ).push(OuraDataView::SleepPhase(h@)));
        }
    }
}

/// The records that the heart-rate series of a sleep document gives.
pub open spec fn heart_rate_records_of(person: Seq<char>) -> spec_fn(OuraSleepDocument) -> Seq<
    OuraDataView,
> {
    |d: OuraSleepDocument|
        outcome_records(
            sleep_heart_rates(d, person),
            |h: HeartRateView| OuraDataView::HeartRate(h),
        )
}

/// The records that the heart-rate-variability series of a sleep document gives.
pub open spec fn hrv_records_of(person: Seq<char>) -> spec_fn(OuraSleepDocument) -> Seq<
    OuraDataView,
> {
    |d: OuraSleepDocument|
        outcome_records(
            sleep_heart_rate_variabilities(d, person),
            |h: HeartRateVariabilityView| OuraDataView::HeartRateVariability(h),
        )
}

/// The record that the sleep derivation of a sleep document gives.
pub open spec fn sleep_records_of(person: Seq<char>) -> spec_fn(OuraSleepDocument) -> Seq<
    OuraDataView,
> {
    |d: OuraSleepDocument|
        single_outcome_records(sleep_record(d, person), |s: SleepView| OuraDataView::Sleep(s))
}

/// The records that the phase string of a sleep document gives.
pub open spec fn sleep_phase_records_of(person: Seq<char>) -> spec_fn(OuraSleepDocument) -> Seq<
    OuraDataView,
> {
    |d: OuraSleepDocument|
        outcome_records(
            sleep_phase_records(d, person),
            |p: SleepPhaseView| OuraDataView::SleepPhase(p),
        )
}

/// The record that the readiness derivation of a sleep document gives.
pub open spec fn readiness_records_of(person: Seq<char>) -> spec_fn(OuraSleepDocument) -> Seq<
    OuraDataView,
> {
    |d: OuraSleepDocument|
        single_outcome_records(
            readiness_record(d, person),
            |r: ReadinessView| OuraDataView::Readiness(r),
        )
}

/// The record that a heart-rate sample document gives.
pub open spec fn sample_records_of(person: Seq<char>) -> spec_fn(OuraHeartRateData) -> Seq<
    OuraDataView,
> {
    |d: OuraHeartRateData|
        single_outcome_records(sample_heart_rate(d, person), |h: HeartRateView| OuraDataView::HeartRate(h))
}

/// The heart-rate records of each sleep document's embedded series, a
/// document that fails giving one error record.
pub fn parse_heart_rate_data(person_name: &str, sleep_documents: &Vec<OuraSleepDocument>) -> (r:
    Vec<OuraData>)
    ensures
        data_views(r@) == per_document(sleep_documents@, heart_rate_records_of(person_name@)),
{
    let ghost f = heart_rate_records_of(person_name@);
    let mut out: Vec<OuraData> = Vec::new();
    let mut i: usize = 0;
    while i < sleep_documents.len()
        invariant
            i <= sleep_documents@.len(),
            f == heart_rate_records_of(person_name@),
            data_views(out@) == per_document(sleep_documents@.take(i as int), f),
        decreases sleep_documents@.len() - i,
    {
        proof {
            lemma_per_document_step(sleep_documents@, i as int, f);
        }
        let ghost before = out@;
        match sleep_documents[i].try_to_heart_rate_data(person_name) {
            Ok(v) => push_heart_rates(&mut out, v),
            Err(e) => {
                out.push(OuraData::from_error(&e));
                assert(data_views(out@) =~= data_views(before) + f(sleep_documents@[i as int]));
            },
        }
        i = i + 1;
    }
    assert(sleep_documents@.take(i as int) =~= sleep_documents@);
    out
}

/// The heart-rate-variability records of each sleep document's embedded
/// series, a document that fails giving one error record.
pub fn parse_hrv_data(person_name: &str, sleep_documents: &Vec<OuraSleepDocument>) -> (r:
    Vec<OuraData>)
    ensures
        data_views(r@) == per_document(sleep_documents@, hrv_records_of(person_name@)),
{
    let ghost f = hrv_records_of(person_name@);
    let mut out: Vec<OuraData> = Vec::new();
    let mut i: usize = 0;
    while i < sleep_documents.len()
        invariant
            i <= sleep_documents@.len(),
            f == hrv_records_of(person_name@),
            data_views(out@) == per_document(sleep_documents@.take(i as int), f),
        decreases sleep_documents@.len() - i,
    {
        proof {
            lemma_per_document_step(sleep_documents@, i as int, f);
        }
        let ghost before = out@;
        match sleep_documents[i].try_to_heart_rate_variability(person_name) {
            Ok(v) => push_heart_rate_variabilities(&mut out, v),
            Err(e) => {
                out.push(OuraData::from_error(&e));
                assert(data_views(out@) =~= data_views(before) + f(sleep_documents@[i as int]));
            },
        }
        i = i + 1;
    }
    assert(sleep_documents@.take(i as int) =~= sleep_documents@);
    out
}

/// The sleep record of each sleep document, or an error record in its place.
pub fn parse_sleep_data(person_name: &str, sleep_documents: &Vec<OuraSleepDocument>) -> (r:
    Vec<OuraData>)
    ensures
        data_views(r@) == per_document(sleep_documents@, sleep_records_of(person_name@)),
{
    let ghost f = sleep_records_of(person_name@);
    let mut out: Vec<OuraData> = Vec::new();
    let mut i: usize = 0;
    while i < sleep_documents.len()
        invariant
            i <= sleep_documents@.len(),
            f == sleep_records_of(person_name@),
            data_views(out@) == per_document(sleep_documents@.take(i as int), f),
        decreases sleep_documents@.len() - i,
    {
        proof {
            lemma_per_document_step(sleep_documents@, i as int, f);
        }
        let ghost before = out@;
        match sleep_documents[i].try_to_sleep_data(person_name) {
            Ok(v) => {
                out.push(OuraData::Sleep(v));
                assert(data_views(out@) =~= data_views(before) + f(sleep_documents@[i as int]));
            },
            Err(e) => {
                out.push(OuraData::from_error(&e));
                assert(data_views(out@) =~= data_views(before) + f(sleep_documents@[i as int]));
            },
        }
        i = i + 1;
    }
    assert(sleep_documents@.take(i as int) =~= sleep_documents@);
    out
}

/// The sleep-phase records of each sleep document, a document that fails
/// giving one error record.
pub fn parse_sleep_phase_data(person_name: &str, sleep_documents: &Vec<OuraSleepDocument>) -> (r:
    Vec<OuraData>)
    ensures
        data_views(r@) == per_document(sleep_documents@, sleep_phase_records_of(person_name@)),
{
    let ghost f = sleep_phase_records_of(person_name@);
    let mut out: Vec<OuraData> = Vec::new();
    let mut i: usize = 0;
    while i < sleep_documents.len()
        invariant
            i <= sleep_documents@.len(),
            f == sleep_phase_records_of(person_name@),
            data_views(out@) == per_document(sleep_documents@.take(i as int), f),
        decreases sleep_documents@.len() - i,
    {
        proof {
            lemma_per_document_step(sleep_documents@, i as int, f);
        }
        let ghost before = out@;
        match sleep_documents[i].try_extract_sleep_phases(person_name) {
            Ok(v) => push_sleep_phases(&mut out, v),
            Err(e) => {
                out.push(OuraData::from_error(&e));
                assert(data_views(out@) =~= data_views(before) + f(sleep_documents@[i as int]));
            },
        }
        i = i + 1;
    }
    assert(sleep_documents@.take(i as int) =~= sleep_documents@);
    out
}

/// The readiness record of each sleep document, or an error record in its
/// place.
pub fn parse_readiness_data(person_name: &str, sleep_documents: &Vec<OuraSleepDocument>) -> (r:
    Vec<OuraData>)
    ensures
        data_views(r@) == per_document(sleep_documents@, readiness_records_of(person_name@)),
{
    let ghost f = readiness_records_of(person_name@);
    let mut out: Vec<OuraData> = Vec::new();
    let mut i: usize = 0;
    while i < sleep_documents.len()
        invariant
            i <= sleep_documents@.len(),
            f == readiness_records_of(person_name@),
            data_views(out@) == per_document(sleep_documents@.take(i as int), f),
        decreases sleep_documents@.len() - i,
    {
        proof {
            lemma_per_document_step(sleep_documents@, i as int, f);
        }
        let ghost before = out@;
        match sleep_documents[i].try_to_readiness(person_name) {
            Ok(v) => {
                out.push(OuraData::Readiness(v));
                assert(data_views(out@) =~= data_views(before) + f(sleep_documents@[i as int]));
            },
            Err(e) => {
                out.push(OuraData::from_error(&e));
                assert(data_views(out@) =~= data_views(before) + f(sleep_documents@[i as int]));
            },
        }
        i = i + 1;
    }
    assert(sleep_documents@.take(i as int) =~= sleep_documents@);
    out
}

/// The heart-rate record of each sample document, or an error record in its
/// place.
pub fn parse_heart_rate_samples(person_name: &str, samples: &Vec<OuraHeartRateData>) -> (r:
    Vec<OuraData>)
    ensures
        data_views(r@) == per_document(samples@, sample_records_of(person_name@)),
{
    let ghost f = sample_records_of(person_name@);
    let mut out: Vec<OuraData> = Vec::new();
    let mut i: usize = 0;
    while i < samples.len()
        invariant
            i <= samples@.len(),
            f == sample_records_of(person_name@),
            data_views(out@) == per_document(samples@.take(i as int), f),
        decreases samples@.len() - i,
    {
        proof {
            lemma_per_document_step(samples@, i as int, f);
        }
        let ghost before = out@;
        match samples[i].try_to_heart_rate_data(person_name) {
            Ok(v) => {
                out.push(OuraData::HeartRate(v));
                assert(data_views(out@) =~= data_views(before) + f(samples@[i as int]));
            },
            Err(e) => {
                out.push(OuraData::from_error(&e));
                assert(data_views(out@) =~= data_views(before) + f(samples@[i as int]));
            },
        }
        i = i + 1;
    }
    assert(samples@.take(i as int) =~= samples@);
    out
}

/// The records that a person's sleep documents give: first those of the
/// heart-rate series, then heart-rate variability, sleep, sleep phases and
/// readiness, each kind in document order.
pub open spec fn sleep_document_views(docs: Seq<OuraSleepDocument>, person: Seq<char>) -> Seq<
    OuraDataView,
> {
    per_document(docs, heart_rate_records_of(person)) + per_document(docs, hrv_records_of(person))
        + per_document(docs, sleep_records_of(person)) + per_document(
        docs,
        sleep_phase_records_of(person),
    ) + per_document(docs, readiness_records_of(person))
}

fn append_records(out: &mut Vec<OuraData>, more: Vec<OuraData>)
    ensures
        data_views(final(out)@) == data_views(old(out)@) + data_views(more@),
{
    let mut more = more;
    let ghost a = out@;
    let ghost b = more@;
    out.append(&mut more);
    assert(data_views(out@) =~= data_views(a) + data_views(b));
}

/// All records that a person's sleep documents give.
pub fn sleep_document_records(person_name: &str, sleep_documents: &Vec<OuraSleepDocument>) -> (r:
    Vec<OuraData>)
    ensures
        data_views(r@) == sleep_document_views(sleep_documents@, person_name@),
{
    let mut out = parse_heart_rate_data(person_name, sleep_documents);
    append_records(&mut out, parse_hrv_data(person_name, sleep_documents));
    append_records(&mut out, parse_sleep_data(person_name, sleep_documents));
    append_records(&mut out, parse_sleep_phase_data(person_name, sleep_documents));
    append_records(&mut out, parse_readiness_data(person_name, sleep_documents));
    out
}

/// The record that stands in for a failed call to the vendor's API.
pub open spec fn fetch_failure_view(e: OuraApiError) -> OuraDataView {
    OuraDataView::Error { message: e.spec_message() }
}

/// The record that stands in for a failed call to the vendor's API.
pub fn fetch_failure_record(e: &OuraApiError) -> (r: OuraData)
    ensures
        r@ == fetch_failure_view(*e),
{
    OuraData::Error { message: e.message() }
}

/// The records of a person's heart-rate endpoint: one per sample, or one
/// error record where the call failed.
pub open spec fn heart_rate_poll_views(
    person: Seq<char>,
    response: Result<OuraApiResponse<OuraHeartRateData>, OuraApiError>,
) -> Seq<OuraDataView> {
    match response {
        Ok(page) => per_document(page.data@, sample_records_of(person)),
        Err(e) => seq![fetch_failure_view(e)],
    }
}

/// The records of a person's sleep endpoint: those its documents give, or one
/// error record where the call failed.
pub open spec fn sleep_poll_views(
    person: Seq<char>,
    response: Result<OuraApiResponse<OuraSleepDocument>, OuraApiError>,
) -> Seq<OuraDataView> {
    match response {
        Ok(page) => sleep_document_views(page.data@, person),
        Err(e) => seq![fetch_failure_view(e)],
    }
}

/// The records of a person's heart-rate endpoint, from what the call returned.
pub fn poll_heart_rate_data(
    person_name: &str,
    response: &Result<OuraApiResponse<OuraHeartRateData>, OuraApiError>,
) -> (r: Vec<OuraData>)
    ensures
        data_views(r@) == heart_rate_poll_views(person_name@, *response),
{
    match response {
        Ok(page) => parse_heart_rate_samples(person_name, &page.data),
        Err(e) => {
            let r = vec![fetch_failure_record(e)];
            assert(data_views(r@) =~= seq![fetch_failure_view(*e)]);
            r
        },
    }
}

/// The records of a person's sleep endpoint, from what the call returned.
pub fn poll_sleep_data(
    person_name: &str,
    response: &Result<OuraApiResponse<OuraSleepDocument>, OuraApiError>,
) -> (r: Vec<OuraData>)
    ensures
        data_views(r@) == sleep_poll_views(person_name@, *response),
{
    match response {
        Ok(page) => sleep_document_records(person_name, &page.data),
        Err(e) => {
            let r = vec![fetch_failure_record(e)];
            assert(data_views(r@) =~= seq![fetch_failure_view(*e)]);
            r
        },
    }
}

/// One poll cycle's records for a person: those of the heart-rate endpoint,
/// then those of the sleep endpoint. A failed call gives one error record and
/// does not keep the other endpoint's records out.
pub fn person_cycle_records(
    person_name: &str,
    heart_rate: &Result<OuraApiResponse<OuraHeartRateData>, OuraApiError>,
    sleep: &Result<OuraApiResponse<OuraSleepDocument>, OuraApiError>,
) -> (r: Vec<OuraData>)
    ensures
        data_views(r@) == heart_rate_poll_views(person_name@, *heart_rate) + sleep_poll_views(
            person_name@,
            *sleep,
        ),
{
    let mut out = poll_heart_rate_data(person_name, heart_rate);
    append_records(&mut out, poll_sleep_data(person_name, sleep));
    out
}

/// Whether `a` comes after `b`.
pub open spec fn later(a: Timestamp, b: Timestamp) -> bool {
    a.seconds > b.seconds || (a.seconds == b.seconds && a.nanos > b.nanos)
}

/// Whether `a` comes after `b`.
pub fn is_later(a: Timestamp, b: Timestamp) -> (r: bool)
    ensures
        r == later(a, b),
{
    a.seconds > b.seconds || (a.seconds == b.seconds && a.nanos > b.nanos)
}

/// One second after `t`, saturating at the largest count of seconds.
pub open spec fn one_second_after(t: Timestamp) -> Timestamp {
    Timestamp {
        seconds: if t.seconds == i64::MAX {
            t.seconds
        } else {
            (t.seconds + 1) as i64
        },
        nanos: t.nanos,
    }
}

/// Where the next poll window starts: one second after the latest instant
/// among `records` where that is after `latest`, else `latest` itself.
pub fn next_window_start(latest: Timestamp, records: &Vec<OuraData>) -> (r: Timestamp)
    ensures
        (forall|i: int|
            0 <= i < records@.len() && (#[trigger] records@[i]@).datetime() is Some ==> !later(
                records@[i]@.datetime()->0,
                latest,
            )) ==> r == latest,
        (exists|i: int|
            0 <= i < records@.len() && (#[trigger] records@[i]@).datetime() is Some && later(
                records@[i]@.datetime()->0,
                latest,
            )) ==> exists|i: int|
            0 <= i < records@.len() && (#[trigger] records@[i]@).datetime() is Some && later(
                records@[i]@.datetime()->0,
                latest,
            ) && r == one_second_after(records@[i]@.datetime()->0) && forall|j: int|
                0 <= j < records@.len() && (#[trigger] records@[j]@).datetime() is Some ==> !later(
                    records@[j]@.datetime()->0,
                    records@[i]@.datetime()->0,
                ),
{
    let mut best: Option<Timestamp> = None;
    let ghost mut best_at: int = 0;
    let mut i: usize = 0;
    while i < records.len()
        invariant
            i <= records@.len(),
            best is None ==> forall|j: int|
                0 <= j < i ==> (#[trigger] records@[j]@).datetime() is None,
            best is Some ==> {
                &&& 0 <= best_at < i
                &&& records@[best_at]@.datetime() == best
                &&& forall|j: int|
                    0 <= j < i && (#[trigger] records@[j]@).datetime() is Some ==> !later(
                        records@[j]@.datetime()->0,
                        best->0,
                    )
            },
        decreases records@.len() - i,
    {
        match records[i].get_datetime() {
            Some(t) => {
                let replace = match best {
                    None => true,
                    Some(b) => is_later(t, b),
                };
                if replace {
                    best = Some(t);
                    proof {
                        best_at = i as int;
                    }
                }
            },
            None => {},
        }
        i = i + 1;
    }
    match best {
        Some(b) => {
            if is_later(b, latest) {
                if b.seconds == i64::MAX {
                    b
                } else {
                    Timestamp { seconds: b.seconds + 1, nanos: b.nanos }
                }
            } else {
                latest
            }
        },
        None => latest,
    }
}


/// The person that a record is about; none for an error or an activity.
pub open spec fn person_of(d: OuraDataView) -> Option<Seq<char>> {
    match d {
        OuraDataView::HeartRate(h) => Some(h.person_name),
        OuraDataView::HeartRateVariability(h) => Some(h.person_name),
        OuraDataView::Sleep(s) => Some(s.person_name),
        OuraDataView::SleepPhase(p) => Some(p.person_name),
        OuraDataView::Readiness(r) => Some(r.person_name),
        OuraDataView::Activity => None,
        OuraDataView::Error { .. } => None,
    }
}

/// Whether every record in `records` that is about a person is about `person`.
pub open spec fn all_about(records: Seq<OuraDataView>, person: Seq<char>) -> bool {
    forall|i: int|
        0 <= i < records.len() ==> (#[trigger] person_of(records[i])) is None || person_of(
            records[i],
        ) == Some(person)
}

proof fn lemma_per_document_about<D>(
    docs: Seq<D>,
    f: spec_fn(D) -> Seq<OuraDataView>,
    person: Seq<char>,
)
    requires
        forall|d: D| all_about(#[trigger] f(d), person),
    ensures
        all_about(per_document(docs, f), person),
    decreases docs.len(),
{
    if docs.len() > 0 {
        lemma_per_document_about(docs.drop_last(), f, person);
        let a = per_document(docs.drop_last(), f);
        let b = f(docs.last());
        assert(all_about(b, person));
        assert forall|i: int| 0 <= i < (a + b).len() implies (#[trigger] person_of((a + b)[i])) is None
            || person_of((a + b)[i]) == Some(person) by {
            if i < a.len() {
                assert((a + b)[i] == a[i]);
            } else {
                assert((a + b)[i] == b[i - a.len()]);
            }
        }
    }
}

proof fn lemma_concat_about(a: Seq<OuraDataView>, b: Seq<OuraDataView>, person: Seq<char>)
    requires
        all_about(a, person),
        all_about(b, person),
    ensures
        all_about(a + b, person),
{
    assert forall|i: int| 0 <= i < (a + b).len() implies (#[trigger] person_of((a + b)[i])) is None
        || person_of((a + b)[i]) == Some(person) by {
        if i < a.len() {
            assert((a + b)[i] == a[i]);
        } else {
            assert((a + b)[i] == b[i - a.len()]);
        }
    }
}

/// Every record of a person's poll cycle that is about a person is about the
/// person whose data was fetched; errors are about no one.
pub proof fn lemma_cycle_records_are_about_the_person(
    person: Seq<char>,
    heart_rate: Result<OuraApiResponse<OuraHeartRateData>, OuraApiError>,
    sleep: Result<OuraApiResponse<OuraSleepDocument>, OuraApiError>,
)
    ensures
        all_about(heart_rate_poll_views(person, heart_rate) + sleep_poll_views(person, sleep), person),
{
    assert forall|d: OuraHeartRateData| all_about(#[trigger] sample_records_of(person)(d), person) by {}
    assert forall|d: OuraSleepDocument| all_about(#[trigger] heart_rate_records_of(person)(d), person) by {}
    assert forall|d: OuraSleepDocument| all_about(#[trigger] hrv_records_of(person)(d), person) by {}
    assert forall|d: OuraSleepDocument| all_about(#[trigger] sleep_records_of(person)(d), person) by {}
    assert forall|d: OuraSleepDocument| all_about(#[trigger] sleep_phase_records_of(person)(d), person) by {}
    assert forall|d: OuraSleepDocument| all_about(#[trigger] readiness_records_of(person)(d), person) by {}
    let hr = heart_rate_poll_views(person, heart_rate);
    let sl = sleep_poll_views(person, sleep);
    match heart_rate {
        Ok(page) => lemma_per_document_about(page.data@, sample_records_of(person), person),
        Err(_) => {},
    }
    match sleep {
        Ok(page) => {
            let docs = page.data@;
            lemma_per_document_about(docs, heart_rate_records_of(person), person);
            lemma_per_document_about(docs, hrv_records_of(person), person);
            lemma_per_document_about(docs, sleep_records_of(person), person);
            lemma_per_document_about(docs, sleep_phase_records_of(person), person);
            lemma_per_document_about(docs, readiness_records_of(person), person);
            let a = per_document(docs, heart_rate_records_of(person));
            let b = per_document(docs, hrv_records_of(person));
            let c = per_document(docs, sleep_records_of(person));
            let d = per_document(docs, sleep_phase_records_of(person));
            let e = per_document(docs, readiness_records_of(person));
            lemma_concat_about(a, b, person);
            lemma_concat_about(a + b, c, person);
            lemma_concat_about(a + b + c, d, person);
            lemma_concat_about(a + b + c + d, e, person);
        },
        Err(_) => {},
    }
    lemma_concat_about(hr, sl, person);
}

} // verus!
