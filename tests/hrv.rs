use oura_exporter::oura_api::{OuraSleepDocument, OuraSleepMeasurement};
use oura_exporter::time::Timestamp;

fn instant(s: &str) -> Timestamp {
    let d = chrono::DateTime::parse_from_rfc3339(s).unwrap();
    Timestamp { seconds: d.timestamp(), nanos: d.timestamp_subsec_nanos() }
}

fn rounded(x: f32) -> i64 {
    x.round() as i64
}

#[test]
fn test_try_to_heart_rate_variability() {
    let sleep_document = OuraSleepDocument {
        id: "test_id".to_owned(),
        hrv: Some(OuraSleepMeasurement {
            interval_seconds: rounded(60.0),
            timestamp: "2021-01-01T00:00:00+00:00".to_owned(),
            items: vec![Some(rounded(50.0)), Some(rounded(60.0)), None, Some(rounded(70.0))],
        }),
        ..Default::default()
    };

    let hrv_data = sleep_document.try_to_heart_rate_variability("test_person").unwrap();

    assert_eq!(hrv_data.len(), 3);
    assert_eq!(hrv_data[0].ms, 50);
    assert_eq!(hrv_data[1].ms, 60);
    assert_eq!(hrv_data[2].ms, 70);

    assert_eq!(hrv_data[0].person_name, "test_person");
    assert_eq!(hrv_data[1].person_name, "test_person");
    assert_eq!(hrv_data[2].person_name, "test_person");

    assert_eq!(hrv_data[0].timestamp, instant("2021-01-01T00:00:00+00:00"));
    assert_eq!(hrv_data[1].timestamp, instant("2021-01-01T00:01:00+00:00"));
    assert_eq!(hrv_data[2].timestamp, instant("2021-01-01T00:03:00+00:00"));
}

#[test]
fn sleep_document_without_hrv_fails() {
    let document = OuraSleepDocument { id: "x".to_owned(), ..Default::default() };
    let error = document.try_to_heart_rate_variability("p").unwrap_err();
    assert_eq!(
        error.message(),
        "No heart rate variability data found for sleep document with id: 'x'"
    );
}

#[test]
fn hrv_with_unparsable_start_fails() {
    let document = OuraSleepDocument {
        id: "x".to_owned(),
        hrv: Some(OuraSleepMeasurement {
            interval_seconds: 60,
            timestamp: "yesterday".to_owned(),
            items: vec![Some(1)],
        }),
        ..Default::default()
    };
    let error = document.try_to_heart_rate_variability("p").unwrap_err();
    assert!(error.message().starts_with("Cannot parse Oura API timestamp 'yesterday': "));
}
