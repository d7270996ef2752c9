use oura_exporter::export::{
    dispatch_batch, export_items, export_outcomes, frame_heart_rate_json, heart_rate_payload_text,
    into_batches,
    merge_outcomes, partition_batch, ExportItem, ExportItemGenerationError, InfluxDBMeasurement,
    MqttMessage, MqttTopic,
};
use oura_exporter::oura_api::RawF32;
use oura_exporter::records::{
    Contributors, HeartRate, HeartRateSource, HeartRateVariability, OuraData, Readiness, Sleep,
    SleepPhase, SleepPhaseType, SleepType,
};
use oura_exporter::time::{CalendarDate, Timestamp};

fn heart_rate() -> HeartRate {
    HeartRate {
        bpm: 60,
        source: HeartRateSource::Rest,
        timestamp: Timestamp { seconds: 1609459200, nanos: 0 },
        person_name: "test".to_string(),
    }
}

fn hrv(ms: u16) -> OuraData {
    OuraData::HeartRateVariability(HeartRateVariability {
        ms,
        timestamp: Timestamp { seconds: 1609459200, nanos: 0 },
        person_name: "p".to_string(),
    })
}

#[test]
fn heart_rate_payload_is_its_json() {
    let payload = heart_rate_payload_text(&heart_rate()).unwrap();
    assert_eq!(
        payload,
        "{\"bpm\":60,\"source\":\"Rest\",\"timestamp\":\"2021-01-01T00:00:00Z\",\"person_name\":\"test\"}"
    );
}

#[test]
fn heart_rate_payload_escapes_the_name() {
    let mut h = heart_rate();
    h.person_name = "a\"b".to_string();
    h.timestamp.nanos = 500_000_000;
    let payload = heart_rate_payload_text(&h).unwrap();
    assert_eq!(
        payload,
        "{\"bpm\":60,\"source\":\"Rest\",\"timestamp\":\"2021-01-01T00:00:00.500Z\",\"person_name\":\"a\\\"b\"}"
    );
}

#[test]
fn heart_rate_payload_escapes_controls() {
    let mut h = heart_rate();
    h.person_name = "a\\b\n\u{1}é".to_string();
    let payload = heart_rate_payload_text(&h).unwrap();
    assert!(payload.ends_with(",\"person_name\":\"a\\\\b\\n\\u0001é\"}"));
}

#[test]
fn heart_rate_topic_is_heart_rate() {
    assert_eq!(MqttTopic::HeartRate.name(), "heart_rate");
}

#[test]
fn heart_rate_gives_a_message_and_a_point() {
    let outcome = export_items(&OuraData::HeartRate(heart_rate()));
    assert_eq!(outcome.items.len(), 2);
    assert!(outcome.errors.is_empty());
    match &outcome.items[0] {
        ExportItem::MQTT(m) => {
            assert_eq!(m.topic, MqttTopic::HeartRate);
            assert_eq!(m.topic.name(), "heart_rate");
        }
        other => panic!("unexpected item {:?}", other),
    }
    match &outcome.items[1] {
        ExportItem::InfluxDB(InfluxDBMeasurement::HeartRate(p)) => {
            assert_eq!(p.bpm, 60);
            assert_eq!(p.source, "rest");
            assert_eq!(p.timestamp, 1609459200);
            assert_eq!(p.person_name, "test");
        }
        other => panic!("unexpected item {:?}", other),
    }
}

#[test]
fn heart_rate_out_of_calendar_gives_the_point_alone() {
    let mut h = heart_rate();
    h.timestamp.seconds = i64::MAX;
    let outcome = export_items(&OuraData::HeartRate(h));
    assert_eq!(outcome.items.len(), 1);
    assert!(matches!(outcome.items[0], ExportItem::InfluxDB(_)));
    assert_eq!(outcome.errors.len(), 1);
    assert!(matches!(
        outcome.errors[0],
        ExportItemGenerationError::MQTTMessageSerializationError(_)
    ));
}

#[test]
fn error_record_gives_no_item() {
    let outcome = export_items(&OuraData::Error { message: "boom".to_string() });
    assert!(outcome.items.is_empty());
    assert_eq!(outcome.errors.len(), 1);
    assert_eq!(outcome.errors[0].message(), "Invalid Oura data: boom");
}

#[test]
fn activity_gives_nothing() {
    let outcome = export_items(&OuraData::Activity);
    assert!(outcome.items.is_empty());
    assert!(outcome.errors.is_empty());
}

#[test]
fn sleep_phase_point_carries_its_code() {
    let outcome = export_items(&OuraData::SleepPhase(SleepPhase {
        sleep_id: "s".to_string(),
        sleep_phase: SleepPhaseType::REMSleep,
        timestamp: Timestamp { seconds: 10, nanos: 0 },
        person_name: "p".to_string(),
    }));
    match &outcome.items[..] {
        [ExportItem::InfluxDB(InfluxDBMeasurement::SleepPhase(p))] => {
            assert_eq!(p.phase, 3);
            assert_eq!(p.sleep_id, "s");
            assert_eq!(p.timestamp, 10);
        }
        other => panic!("unexpected items {:?}", other),
    }
}

#[test]
fn batches_keep_order_and_size() {
    let records: Vec<OuraData> = (0..5).map(hrv).collect();
    let merged = merge_outcomes(export_outcomes(&records));
    assert_eq!(merged.items.len(), 5);
    let batches = into_batches(merged.items, 2);
    assert_eq!(batches.iter().map(|b| b.len()).collect::<Vec<_>>(), vec![2, 2, 1]);
    let mut seen = Vec::new();
    for batch in batches {
        for item in batch {
            match item {
                ExportItem::InfluxDB(InfluxDBMeasurement::HeartRateVariability(p)) => seen.push(p.ms),
                other => panic!("unexpected item {:?}", other),
            }
        }
    }
    assert_eq!(seen, vec![0, 1, 2, 3, 4]);
}

#[test]
fn empty_stream_gives_no_batch() {
    assert!(into_batches(Vec::new(), 10).is_empty());
}

#[test]
fn partition_splits_by_sink() {
    let outcome = export_items(&OuraData::HeartRate(heart_rate()));
    let batch = partition_batch(outcome.items);
    assert_eq!(batch.influxdb_data_points.len(), 1);
    assert_eq!(batch.mqtt_messages.len(), 1);
}

fn messages(m: &[MqttMessage]) -> Vec<String> {
    m.iter().map(|m| m.payload.clone()).collect()
}

#[test]
fn unconfigured_sink_keeps_the_messages() {
    let with = dispatch_batch(partition_batch(export_items(&OuraData::HeartRate(heart_rate())).items), true);
    let without = dispatch_batch(partition_batch(export_items(&OuraData::HeartRate(heart_rate())).items), false);
    assert_eq!(messages(&with.mqtt_messages), messages(&without.mqtt_messages));
    assert_eq!(with.influxdb_write.map(|p| p.len()), Some(1));
    assert!(without.influxdb_write.is_none());
}

fn sleep_record(day: CalendarDate) -> Sleep {
    Sleep {
        id: "s1".to_string(),
        average_breath: None,
        average_heartrate: None,
        average_hrv: Some(35),
        awake_time: 10,
        bedtime_end: Timestamp { seconds: 2000, nanos: 0 },
        bedtime_start: Timestamp { seconds: 1000, nanos: 0 },
        day,
        deep_sleep_duration: None,
        efficiency: Some(90),
        latency: None,
        light_sleep_duration: None,
        low_battery_alert: false,
        lowest_heart_rate: None,
        readiness_score_delta: None,
        rem_sleep_duration: None,
        restless_periods: None,
        sleep_score_delta: Some(RawF32 { bits: 1.5f32.to_bits() }),
        time_in_bed: 100,
        total_sleep_duration: None,
        sleep_type: SleepType::LateNap,
        person_name: "ann".to_string(),
    }
}

#[test]
fn sleep_point_defaults_score_deltas_to_zero() {
    let outcome = export_items(&OuraData::Sleep(sleep_record(CalendarDate { year: 2021, month: 1, day: 1 })));
    match &outcome.items[..] {
        [ExportItem::InfluxDB(InfluxDBMeasurement::Sleep(p))] => {
            assert_eq!(p.day, 1609459200);
            assert_eq!(p.bedtime_start, 1000);
            assert_eq!(p.bedtime_end, 2000);
            assert_eq!(f32::from_bits(p.readiness_score_delta.bits), 0.0);
            assert_eq!(f32::from_bits(p.sleep_score_delta.bits), 1.5);
            assert_eq!(p.average_hrv, Some(35));
            assert_eq!(p.efficiency, Some(90));
            assert_eq!(p.sleep_type, "late_nap");
            assert_eq!(p.person_name, "ann");
        }
        other => panic!("unexpected items {:?}", other),
    }
}

#[test]
fn sleep_with_impossible_day_gives_a_conversion_error() {
    let outcome = export_items(&OuraData::Sleep(sleep_record(CalendarDate { year: 2021, month: 2, day: 30 })));
    assert!(outcome.items.is_empty());
    assert_eq!(
        outcome.errors[0].message(),
        "Error while generating InfluxDB export item: Error while converting day into datetime for measurement: 'Sleep'"
    );
}

#[test]
fn framed_heart_rate_json() {
    let json = frame_heart_rate_json(7, HeartRateSource::Live, "\"t\"", "\"n\"");
    assert_eq!(json, "{\"bpm\":7,\"source\":\"Live\",\"timestamp\":\"t\",\"person_name\":\"n\"}");
}

#[test]
fn readiness_point_copies_contributors() {
    let outcome = export_items(&OuraData::Readiness(Readiness {
        score: 80,
        temperature_deviation: None,
        temperature_trend_deviation: Some(RawF32 { bits: 0.25f32.to_bits() }),
        contributors: Contributors {
            activity_balance: 1,
            body_temperature: 2,
            hrv_balance: 3,
            previous_day_activity: 4,
            previous_night: 5,
            recovery_index: 6,
            resting_heart_rate: 7,
            sleep_balance: 8,
        },
        timestamp: Timestamp { seconds: 1609459200, nanos: 0 },
        person_name: "p".to_string(),
    }));
    match &outcome.items[..] {
        [ExportItem::InfluxDB(InfluxDBMeasurement::Readiness(p))] => {
            assert_eq!(p.readiness_score, 80);
            assert_eq!(p.sleep_balance_contribution, 8);
            assert_eq!(p.activity_balance_contribution, 1);
            assert_eq!(p.temperature_deviation, None);
            assert_eq!(p.temperature_trend_deviation.map(|r| f32::from_bits(r.bits)), Some(0.25));
            assert_eq!(p.timestamp, 1609459200);
        }
        other => panic!("unexpected items {:?}", other),
    }
}
