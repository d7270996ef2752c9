use oura_exporter::derivation::{interval_series, Sample};
use oura_exporter::oura_api::{OuraHeartRateData, OuraSleepDocument, OuraSleepMeasurement};
use oura_exporter::records::{HeartRate, HeartRateSource};
use oura_exporter::time::Timestamp;

fn instant(s: &str) -> Timestamp {
    let d = chrono::DateTime::parse_from_rfc3339(s).unwrap();
    Timestamp { seconds: d.timestamp(), nanos: d.timestamp_subsec_nanos() }
}

fn rounded(x: f32) -> i64 {
    x.round() as i64
}

#[test]
fn test_heart_rate_source_from_str() {
    assert_eq!("awake".parse::<HeartRateSource>().unwrap(), HeartRateSource::Awake);
    assert_eq!("rest".parse::<HeartRateSource>().unwrap(), HeartRateSource::Rest);
    assert_eq!("sleep".parse::<HeartRateSource>().unwrap(), HeartRateSource::Sleep);
    assert_eq!("session".parse::<HeartRateSource>().unwrap(), HeartRateSource::Session);
    assert_eq!("live".parse::<HeartRateSource>().unwrap(), HeartRateSource::Live);

    let error_source = "not-existing".parse::<HeartRateSource>().unwrap_err();
    assert_eq!(error_source.message(), "Unknown HeartRateSource: 'not-existing'");
}

#[test]
fn heart_rate_source_literals_round_trip() {
    for literal in ["awake", "rest", "sleep", "session", "live"] {
        let source = HeartRateSource::from_literal(literal).unwrap();
        assert_eq!(source.as_literal(), literal);
    }
    assert!(HeartRateSource::from_literal("Awake").is_err());
}

#[test]
fn test_try_oura_heart_rate_data_to_heart_rate_data() {
    let heart_rate_data = OuraHeartRateData {
        bpm: 60,
        source: "rest".to_owned(),
        timestamp: "2021-01-01T00:00:00Z".to_owned(),
    };

    let heart_rate = heart_rate_data.try_to_heart_rate_data("test").unwrap();
    assert_eq!(
        heart_rate,
        HeartRate {
            bpm: 60,
            source: HeartRateSource::Rest,
            timestamp: instant("2021-01-01T00:00:00Z"),
            person_name: "test".to_string(),
        }
    );
}

#[test]
fn heart_rate_sample_with_unknown_source_fails() {
    let heart_rate_data = OuraHeartRateData {
        bpm: 60,
        source: "running".to_owned(),
        timestamp: "2021-01-01T00:00:00Z".to_owned(),
    };
    let error = heart_rate_data.try_to_heart_rate_data("test").unwrap_err();
    assert_eq!(error.message(), "Unknown HeartRateSource: 'running'");
}

#[test]
fn test_try_oura_sleep_document_to_heart_rate_data() {
    let oura_sleep_document = OuraSleepDocument {
        id: "id".to_owned(),
        heart_rate: Some(OuraSleepMeasurement {
            interval_seconds: rounded(1.0),
            items: vec![Some(rounded(60.0)), Some(rounded(61.0)), Some(rounded(62.0))],
            timestamp: "2023-06-22T15:00:00+03:00".to_string(),
        }),
        ..Default::default()
    };

    let heart_rate_data = oura_sleep_document.try_to_heart_rate_data("person").unwrap();
    assert_eq!(heart_rate_data.len(), 3);

    assert_eq!(heart_rate_data[0].bpm, 60);
    assert_eq!(heart_rate_data[0].person_name, "person");
    assert_eq!(heart_rate_data[0].source, HeartRateSource::Sleep);
    assert_eq!(heart_rate_data[0].timestamp, instant("2023-06-22T15:00:00+03:00"));

    assert_eq!(heart_rate_data[1].bpm, 61);
    assert_eq!(heart_rate_data[1].person_name, "person");
    assert_eq!(heart_rate_data[1].source, HeartRateSource::Sleep);
    assert_eq!(heart_rate_data[1].timestamp, instant("2023-06-22T15:00:01+03:00"));

    assert_eq!(heart_rate_data[2].bpm, 62);
    assert_eq!(heart_rate_data[2].person_name, "person");
    assert_eq!(heart_rate_data[2].source, HeartRateSource::Sleep);
    assert_eq!(heart_rate_data[2].timestamp, instant("2023-06-22T15:00:02+03:00"));
}

#[test]
fn sleep_document_without_heart_rate_fails() {
    let document = OuraSleepDocument { id: "abc".to_owned(), ..Default::default() };
    let error = document.try_to_heart_rate_data("person").unwrap_err();
    assert_eq!(error.message(), "No heart rate data found for sleep document with id: 'abc'");
}

#[test]
fn heart_rate_values_saturate_into_u8() {
    let document = OuraSleepDocument {
        id: "id".to_owned(),
        heart_rate: Some(OuraSleepMeasurement {
            interval_seconds: 5,
            items: vec![Some(300), Some(-4)],
            timestamp: "2021-01-01T00:00:00Z".to_string(),
        }),
        ..Default::default()
    };
    let data = document.try_to_heart_rate_data("p").unwrap();
    assert_eq!(data[0].bpm, 255);
    assert_eq!(data[1].bpm, 0);
    assert_eq!(data[1].timestamp, instant("2021-01-01T00:00:05Z"));
}

#[test]
fn interval_series_skips_gaps_but_advances() {
    let start = instant("2021-01-01T00:00:00+00:00");
    let samples = interval_series(start, 60, &vec![Some(50), Some(60), None, Some(70)]).unwrap();
    assert_eq!(
        samples,
        vec![
            Sample { value: 50, timestamp: instant("2021-01-01T00:00:00+00:00") },
            Sample { value: 60, timestamp: instant("2021-01-01T00:01:00+00:00") },
            Sample { value: 70, timestamp: instant("2021-01-01T00:03:00+00:00") },
        ]
    );
}

#[test]
fn interval_series_of_nothing_is_empty() {
    let start = instant("2021-01-01T00:00:00+00:00");
    assert_eq!(interval_series(start, 60, &vec![]).unwrap(), vec![]);
    assert_eq!(interval_series(start, 60, &vec![None, None]).unwrap(), vec![]);
}

#[test]
fn interval_series_out_of_range_fails() {
    let start = Timestamp { seconds: i64::MAX - 10, nanos: 0 };
    assert_eq!(interval_series(start, 5, &vec![Some(1), Some(2)]), Some(vec![
        Sample { value: 1, timestamp: Timestamp { seconds: i64::MAX - 10, nanos: 0 } },
        Sample { value: 2, timestamp: Timestamp { seconds: i64::MAX - 5, nanos: 0 } },
    ]));
    assert_eq!(interval_series(start, 6, &vec![Some(1), Some(2)]), None);
}
