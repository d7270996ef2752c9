use oura_exporter::oura_api::OuraSleepDocument;
use oura_exporter::records::SleepPhaseType;
use oura_exporter::time::Timestamp;

fn instant(s: &str) -> Timestamp {
    let d = chrono::DateTime::parse_from_rfc3339(s).unwrap();
    Timestamp { seconds: d.timestamp(), nanos: d.timestamp_subsec_nanos() }
}

#[test]
fn test_try_from_char_for_sleep_phase_type() {
    assert_eq!(SleepPhaseType::DeepSleep, SleepPhaseType::from_code('1').unwrap());
    assert_eq!(SleepPhaseType::LightSleep, SleepPhaseType::from_code('2').unwrap());
    assert_eq!(SleepPhaseType::REMSleep, SleepPhaseType::from_code('3').unwrap());
    assert_eq!(SleepPhaseType::Awake, SleepPhaseType::from_code('4').unwrap());
}

#[test]
fn unknown_phase_digit_is_rejected() {
    let error = SleepPhaseType::from_code('5').unwrap_err();
    assert_eq!(error.message(), "Unknown SleepPhaseType: '5'");
}

#[test]
fn phase_codes_are_one_to_four() {
    assert_eq!(SleepPhaseType::DeepSleep.code(), 1);
    assert_eq!(SleepPhaseType::LightSleep.code(), 2);
    assert_eq!(SleepPhaseType::REMSleep.code(), 3);
    assert_eq!(SleepPhaseType::Awake.code(), 4);
}

#[test]
fn test_try_extract_sleep_phases() {
    let oura_sleep_document = OuraSleepDocument {
        id: "id".to_owned(),
        bedtime_start: "2023-06-22T15:00:00+03:00".to_string(),
        sleep_phase_5_min: Some("1234".to_owned()),
        ..Default::default()
    };

    let sleep_phases = oura_sleep_document.try_extract_sleep_phases("person").unwrap();

    assert_eq!(4, sleep_phases.len());

    assert_eq!(SleepPhaseType::DeepSleep, sleep_phases[0].sleep_phase);
    assert_eq!("person", sleep_phases[0].person_name);
    assert_eq!("id", sleep_phases[0].sleep_id);
    assert_eq!(instant("2023-06-22T15:00:00+03:00"), sleep_phases[0].timestamp);

    assert_eq!(SleepPhaseType::LightSleep, sleep_phases[1].sleep_phase);
    assert_eq!("person", sleep_phases[1].person_name);
    assert_eq!("id", sleep_phases[1].sleep_id);
    assert_eq!(instant("2023-06-22T15:05:00+03:00"), sleep_phases[1].timestamp);

    assert_eq!(SleepPhaseType::REMSleep, sleep_phases[2].sleep_phase);
    assert_eq!("person", sleep_phases[2].person_name);
    assert_eq!("id", sleep_phases[2].sleep_id);
    assert_eq!(instant("2023-06-22T15:10:00+03:00"), sleep_phases[2].timestamp);

    assert_eq!(SleepPhaseType::Awake, sleep_phases[3].sleep_phase);
    assert_eq!("person", sleep_phases[3].person_name);
    assert_eq!("id", sleep_phases[3].sleep_id);
    assert_eq!(instant("2023-06-22T15:15:00+03:00"), sleep_phases[3].timestamp);
}

#[test]
fn one_unknown_digit_fails_the_whole_extraction() {
    let document = OuraSleepDocument {
        id: "id".to_owned(),
        bedtime_start: "2023-06-22T15:00:00+03:00".to_string(),
        sleep_phase_5_min: Some("12x4".to_owned()),
        ..Default::default()
    };
    let error = document.try_extract_sleep_phases("person").unwrap_err();
    assert_eq!(error.message(), "Unknown SleepPhaseType: 'x'");
}

#[test]
fn missing_phase_string_fails() {
    let document = OuraSleepDocument {
        id: "id".to_owned(),
        bedtime_start: "2023-06-22T15:00:00+03:00".to_string(),
        ..Default::default()
    };
    let error = document.try_extract_sleep_phases("person").unwrap_err();
    assert_eq!(error.message(), "No sleep phase data found for sleep document with id: 'id'");
}

#[test]
fn empty_phase_string_gives_no_records() {
    let document = OuraSleepDocument {
        id: "id".to_owned(),
        bedtime_start: "2023-06-22T15:00:00+03:00".to_string(),
        sleep_phase_5_min: Some(String::new()),
        ..Default::default()
    };
    assert!(document.try_extract_sleep_phases("person").unwrap().is_empty());
}
