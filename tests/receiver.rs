use monitoring_core::publisher::{PublisherAction, PublisherUnit, DEFAULT_CADENCE_MS};
use monitoring_core::reading::{Reading, Topic, HUMIDITY_TOPIC, TEMPERATURE_TOPIC};
use monitoring_core::receiver::{handle_event, InboundEvent, Received};
use monitoring_core::wire::{encode_reading, PayloadError};

fn publish(topic: &str, payload: Vec<u8>) -> InboundEvent {
    InboundEvent::Publish { topic: topic.to_string(), payload }
}

#[test]
fn topic_names() {
    assert_eq!(Topic::Temperature.name(), "monitoring/temperature");
    assert_eq!(Topic::Humidity.name(), "monitoring/humidity");
    assert_eq!(Topic::from_name("monitoring/temperature"), Some(Topic::Temperature));
    assert_eq!(Topic::from_name("monitoring/humidity"), Some(Topic::Humidity));
    assert_eq!(Topic::from_name("monitoring/pressure"), None);
    assert_eq!(Topic::from_name(""), None);
}

#[test]
fn temperature_topic_decodes_as_temperature_only() {
    let payload = encode_reading(&Reading::new("t1".to_string(), 21.0f32.to_bits(), 5));
    match handle_event(&publish(TEMPERATURE_TOPIC, payload.clone())) {
        Received::Temperature(t) => {
            assert_eq!(t.reading.device_id, "t1");
            assert_eq!(t.reading.timestamp, 5);
        }
        _ => panic!("a temperature reading was expected"),
    }
    match handle_event(&publish(HUMIDITY_TOPIC, payload)) {
        Received::Humidity(h) => assert_eq!(h.reading.value_bits, 21.0f32.to_bits()),
        _ => panic!("a humidity reading was expected"),
    }
}

#[test]
fn malformed_payload_is_reported_and_not_fatal() {
    match handle_event(&publish(HUMIDITY_TOPIC, vec![0x18])) {
        Received::Malformed { topic, error } => {
            assert_eq!(topic, Topic::Humidity);
            assert_eq!(error, PayloadError::Malformed);
        }
        _ => panic!("the payload is malformed"),
    }
    let payload = encode_reading(&Reading::new("t1".to_string(), 0, 1));
    assert!(matches!(handle_event(&publish(TEMPERATURE_TOPIC, payload)), Received::Temperature(_)));
}

#[test]
fn other_events_are_only_observed() {
    assert!(matches!(handle_event(&publish("elsewhere", vec![])), Received::UnknownTopic));
    for ev in [InboundEvent::ConnAck, InboundEvent::PingResponse, InboundEvent::Disconnect, InboundEvent::Other] {
        assert!(matches!(handle_event(&ev), Received::Observed));
    }
}

/// Three temperature and three humidity readings, published by two units and
/// handed to the receiver unchanged.
#[test]
fn three_and_three_readings_are_all_received() {
    let mut units = vec![
        PublisherUnit::new(Topic::Temperature, "temperature_sensor_1".to_string(), DEFAULT_CADENCE_MS, Some(3)),
        PublisherUnit::new(Topic::Humidity, "humidity_sensor_1".to_string(), DEFAULT_CADENCE_MS, Some(3)),
    ];
    let mut events = Vec::new();
    let mut now = 0u64;
    loop {
        let mut all_done = true;
        for u in units.iter_mut() {
            match u.poll_sampled(now) {
                PublisherAction::Publish { payload, .. } => {
                    all_done = false;
                    events.push(publish(u.topic.name(), payload));
                    u.on_published(true, now);
                }
                PublisherAction::Wait(_) => all_done = false,
                PublisherAction::Done => {}
                PublisherAction::Failed => panic!("no publish failed"),
            }
        }
        if all_done {
            break;
        }
        now += DEFAULT_CADENCE_MS;
    }
    let mut temperature: Vec<(String, u64, f32)> = Vec::new();
    let mut humidity: Vec<(String, u64, f32)> = Vec::new();
    for ev in &events {
        match handle_event(ev) {
            Received::Temperature(t) => temperature.push((t.reading.device_id, t.reading.timestamp, f32::from_bits(t.reading.value_bits))),
            Received::Humidity(h) => humidity.push((h.reading.device_id, h.reading.timestamp, f32::from_bits(h.reading.value_bits))),
            _ => panic!("every event is a reading"),
        }
    }
    assert_eq!(temperature.len() + humidity.len(), 6);
    assert_eq!(temperature.len(), 3);
    for list in [&temperature, &humidity] {
        for w in list.windows(2) {
            assert_eq!(w[0].0, w[1].0);
            assert!(w[0].1 <= w[1].1);
        }
        for (_, _, v) in list.iter() {
            assert!(*v >= 1.0 && *v <= 100.0);
        }
    }
    assert!(temperature.iter().all(|r| r.0 == "temperature_sensor_1"));
    assert!(humidity.iter().all(|r| r.0 == "humidity_sensor_1"));
}
