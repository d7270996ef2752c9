use oura_exporter::oura_api::{OuraSleepDocument, RawF32};
use oura_exporter::records::SleepType;
use oura_exporter::time::{CalendarDate, Timestamp};

fn document() -> OuraSleepDocument {
    OuraSleepDocument {
        id: "sleep-1".to_owned(),
        average_breath: Some(RawF32 { bits: 14.5f32.to_bits() }),
        average_hrv: Some(40),
        awake_time: 300,
        bedtime_start: "2023-06-21T23:00:00+00:00".to_owned(),
        bedtime_end: "2023-06-22T07:00:00+00:00".to_owned(),
        day: "2023-06-22".to_owned(),
        deep_sleep_duration: Some(3600),
        low_battery_alert: true,
        time_in_bed: 28800,
        sleep_type: "long_sleep".to_owned(),
        ..Default::default()
    }
}

#[test]
fn sleep_record_copies_and_parses_fields() {
    let sleep = document().try_to_sleep_data("ann").unwrap();
    assert_eq!(sleep.id, "sleep-1");
    assert_eq!(sleep.average_breath.map(|r| f32::from_bits(r.bits)), Some(14.5));
    assert_eq!(sleep.average_hrv, Some(40));
    assert_eq!(sleep.awake_time, 300);
    assert_eq!(sleep.bedtime_start, Timestamp { seconds: 1687388400, nanos: 0 });
    assert_eq!(sleep.bedtime_end, Timestamp { seconds: 1687417200, nanos: 0 });
    assert_eq!(sleep.day, CalendarDate { year: 2023, month: 6, day: 22 });
    assert_eq!(sleep.deep_sleep_duration, Some(3600));
    assert_eq!(sleep.efficiency, None);
    assert!(sleep.low_battery_alert);
    assert_eq!(sleep.readiness_score_delta, None);
    assert_eq!(sleep.time_in_bed, 28800);
    assert_eq!(sleep.sleep_type, SleepType::LongSleep);
    assert_eq!(sleep.person_name, "ann");
}

#[test]
fn sleep_type_literals_round_trip() {
    for literal in ["deleted", "sleep", "long_sleep", "late_nap", "rest"] {
        assert_eq!(SleepType::from_literal(literal).unwrap().as_literal(), literal);
    }
    assert_eq!("late_nap".parse::<SleepType>().unwrap(), SleepType::LateNap);
}

#[test]
fn unknown_sleep_type_fails() {
    let mut doc = document();
    doc.sleep_type = "nap".to_owned();
    let error = doc.try_to_sleep_data("ann").unwrap_err();
    assert_eq!(error.message(), "Unknown SleepType: 'nap'");
}

#[test]
fn bad_bedtime_fails_sleep_record() {
    let mut doc = document();
    doc.bedtime_end = "2023-06-22".to_owned();
    let error = doc.try_to_sleep_data("ann").unwrap_err();
    assert_eq!(
        error.message(),
        "Cannot parse Oura API timestamp '2023-06-22': premature end of input"
    );
}
