use oura_exporter::oura_api::{OuraContributors, OuraReadiness, OuraSleepDocument, RawF32};
use oura_exporter::time::Timestamp;

fn raw(x: f32) -> RawF32 {
    RawF32 { bits: x.to_bits() }
}

fn contributors() -> OuraContributors {
    OuraContributors {
        activity_balance: 1,
        body_temperature: 2,
        hrv_balance: 3,
        previous_day_activity: 4,
        previous_night: 5,
        recovery_index: 6,
        resting_heart_rate: 7,
        sleep_balance: 8,
    }
}

#[test]
fn test_try_to_readiness() {
    let sleep_document = OuraSleepDocument {
        id: "test_id".to_owned(),
        day: "2021-01-01".to_owned(),
        readiness: Some(OuraReadiness {
            score: Some(80),
            temperature_deviation: Some(raw(0.5)),
            temperature_trend_deviation: Some(raw(0.1)),
            contributors: contributors(),
        }),
        ..Default::default()
    };

    let readiness = sleep_document.try_to_readiness("test_person").unwrap();

    assert_eq!(readiness.score, 80);
    assert_eq!(readiness.temperature_deviation.map(|r| f32::from_bits(r.bits)), Some(0.5));
    assert_eq!(readiness.temperature_trend_deviation.map(|r| f32::from_bits(r.bits)), Some(0.1));

    assert_eq!(readiness.contributors.activity_balance, 1);
    assert_eq!(readiness.contributors.body_temperature, 2);
    assert_eq!(readiness.contributors.hrv_balance, 3);
    assert_eq!(readiness.contributors.previous_day_activity, 4);
    assert_eq!(readiness.contributors.previous_night, 5);
    assert_eq!(readiness.contributors.recovery_index, 6);
    assert_eq!(readiness.contributors.resting_heart_rate, 7);
    assert_eq!(readiness.contributors.sleep_balance, 8);

    let expected = chrono::DateTime::parse_from_rfc3339("2021-01-01T00:00:00+00:00").unwrap();
    assert_eq!(readiness.timestamp, Timestamp { seconds: expected.timestamp(), nanos: 0 });
    assert_eq!(readiness.person_name, "test_person");
}

#[test]
fn test_try_to_readiness_with_empty_readiness() {
    let sleep_document = OuraSleepDocument {
        id: "test_id".to_owned(),
        day: "2021-01-01".to_owned(),
        readiness: None,
        ..Default::default()
    };

    let result = sleep_document.try_to_readiness("test_person");

    assert!(result.is_err());
    assert_eq!(
        result.unwrap_err().message(),
        "No readiness data found for sleep document with id: 'test_id'"
    );
}

#[test]
fn test_try_to_readiness_with_empty_score() {
    let sleep_document = OuraSleepDocument {
        id: "test_id".to_owned(),
        day: "2021-01-01".to_owned(),
        readiness: Some(OuraReadiness {
            score: None,
            temperature_deviation: Some(raw(0.5)),
            temperature_trend_deviation: Some(raw(0.1)),
            contributors: contributors(),
        }),
        ..Default::default()
    };

    let result = sleep_document.try_to_readiness("test_person");

    assert!(result.is_err());
    assert_eq!(
        result.unwrap_err().message(),
        "No readiness score found for sleep document with id: 'test_id'"
    );
}

#[test]
fn readiness_with_bad_day_fails_on_the_date() {
    let sleep_document = OuraSleepDocument {
        id: "test_id".to_owned(),
        day: "01/01/2021".to_owned(),
        readiness: None,
        ..Default::default()
    };
    let error = sleep_document.try_to_readiness("p").unwrap_err();
    assert!(error.message().starts_with("Cannot parse Oura API date '01/01/2021': "));
}

#[test]
fn readiness_stands_at_midnight_utc() {
    let sleep_document = OuraSleepDocument {
        id: "i".to_owned(),
        day: "2023-06-22".to_owned(),
        readiness: Some(OuraReadiness {
            score: Some(1),
            temperature_deviation: None,
            temperature_trend_deviation: None,
            contributors: contributors(),
        }),
        ..Default::default()
    };
    let readiness = sleep_document.try_to_readiness("p").unwrap();
    assert_eq!(readiness.timestamp, Timestamp { seconds: 1687392000, nanos: 0 });
    assert_eq!(readiness.temperature_deviation, None);
}
