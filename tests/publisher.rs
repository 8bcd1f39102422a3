use monitoring_core::publisher::{PublisherAction, PublisherUnit, DEFAULT_CADENCE_MS};
use monitoring_core::reading::{whole_to_f32_bits, Topic};
use monitoring_core::wire::decode_reading;

fn unit(bound: Option<u64>) -> PublisherUnit {
    PublisherUnit::new(Topic::Temperature, "temperature_sensor_1".to_string(), DEFAULT_CADENCE_MS, bound)
}

#[test]
fn whole_numbers_convert_exactly() {
    for n in 1u32..=100 {
        assert_eq!(whole_to_f32_bits(n), (n as f32).to_bits());
    }
    assert_eq!(whole_to_f32_bits(0xff_ffff), (0xff_ffff as f32).to_bits());
}

#[test]
fn publishes_are_spaced_by_the_cadence() {
    let mut u = unit(None);
    let first = u.poll(0, 7, 1000);
    match first {
        PublisherAction::Publish { reading, payload } => {
            assert_eq!(reading.device_id, "temperature_sensor_1");
            assert_eq!(reading.value_bits, 7.0f32.to_bits());
            assert_eq!(reading.timestamp, 1000);
            let back = decode_reading(&payload).unwrap();
            assert_eq!(back.value_bits, 7.0f32.to_bits());
        }
        _ => panic!("the first poll publishes"),
    }
    // the publish started at 0 completes at 500: the cadence runs from there
    u.on_published(true, 500);
    assert_eq!(u.published, 1);
    assert!(matches!(u.poll(500, 7, 1500), PublisherAction::Wait(1000)));
    assert!(matches!(u.poll(1000, 7, 2000), PublisherAction::Wait(500)));
    assert!(matches!(u.poll(1499, 7, 2499), PublisherAction::Wait(1)));
    assert!(matches!(u.poll(1500, 8, 2500), PublisherAction::Publish { .. }));
    u.on_published(true, 1600);
    // a clock that went back still waits the full cadence from the completion
    assert!(matches!(u.poll(1500, 8, 2600), PublisherAction::Wait(1100)));
}

#[test]
fn unit_keeps_its_identity_while_publishing() {
    let mut u = unit(Some(5));
    assert!(matches!(u.poll_sampled(0), PublisherAction::Publish { .. }));
    assert!(u.awaiting);
    assert_eq!(u.topic, Topic::Temperature);
    assert_eq!(u.device_id, "temperature_sensor_1");
    assert_eq!(u.cadence_ms, DEFAULT_CADENCE_MS);
    assert_eq!(u.bound, Some(5));
}

#[test]
fn bounded_unit_completes_after_its_count() {
    let mut u = unit(Some(3));
    let mut now = 0u64;
    let mut publishes = 0;
    loop {
        match u.poll(now, 50, now) {
            PublisherAction::Publish { .. } => {
                publishes += 1;
                u.on_published(true, now);
            }
            PublisherAction::Wait(d) => now += d,
            PublisherAction::Done => break,
            PublisherAction::Failed => panic!("no publish failed"),
        }
    }
    assert_eq!(publishes, 3);
    assert_eq!(u.published, 3);
    assert_eq!(now, 2 * DEFAULT_CADENCE_MS);
}

#[test]
fn zero_bound_publishes_nothing() {
    let mut u = unit(Some(0));
    assert!(matches!(u.poll(0, 1, 0), PublisherAction::Done));
}

#[test]
fn failed_publish_ends_the_unit() {
    let mut u = unit(Some(10));
    assert!(matches!(u.poll(0, 1, 0), PublisherAction::Publish { .. }));
    u.on_published(false, 10);
    assert!(u.failed);
    assert_eq!(u.published, 0);
    assert!(matches!(u.poll(5000, 1, 5000), PublisherAction::Failed));
}

#[test]
fn sampled_values_stay_in_range() {
    let mut u = unit(None);
    let mut now = 0u64;
    for _ in 0..200 {
        match u.poll_sampled(now) {
            PublisherAction::Publish { reading, .. } => {
                let v = f32::from_bits(reading.value_bits);
                assert!(v >= 1.0 && v <= 100.0 && v.fract() == 0.0, "{}", v);
                // stamped with the wall clock: later than 2020-01-01
                assert!(reading.timestamp > 1_577_836_800_000);
                u.on_published(true, now);
            }
            _ => panic!("due every cadence"),
        }
        now += DEFAULT_CADENCE_MS;
    }
}
