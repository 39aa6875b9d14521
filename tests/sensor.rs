use soil_sensor::message::StatusMessage;
use soil_sensor::sensor::{DeviceState, SoilMoistureSensor};

fn sensor_in(state: DeviceState, moisture: u64, threshold: i32) -> SoilMoistureSensor {
    SoilMoistureSensor {
        state,
        moisture,
        threshold,
        just_watered: false,
        animation_frame: 0,
    }
}

#[test]
fn new_sensor_starts_monitoring_at_fifty() {
    let s = SoilMoistureSensor::new(300);
    assert_eq!(s.state, DeviceState::Monitoring);
    assert_eq!(s.moisture, 500);
    assert_eq!(s.threshold, 300);
    assert!(!s.just_watered);
    assert_eq!(s.animation_frame, 0);
}

#[test]
fn low_reading_waters_then_goes_idle() {
    let mut s = SoilMoistureSensor::new(300);

    let m1 = s.transition(290);
    assert_eq!(s.moisture, 290);
    assert_eq!(s.state, DeviceState::Activating);
    assert_eq!(m1.unwrap().text(), "Moisture low (29.0%), activating...");

    let m2 = s.transition(290);
    assert_eq!(s.moisture, 440);
    assert_eq!(s.state, DeviceState::Adjusting);
    assert!(s.just_watered);
    assert_eq!(m2.unwrap().text(), "Watering... Moisture now 44.0%");

    // The reading of this tick is ignored: the level stays at 44.0.
    let m3 = s.transition(0);
    assert_eq!(s.moisture, 440);
    assert_eq!(s.state, DeviceState::Idle);
    assert_eq!(m3.unwrap().text(), "Moisture optimal (44.0%), going idle");

    let m4 = s.transition(420);
    assert_eq!(s.moisture, 420);
    assert_eq!(s.state, DeviceState::Idle);
    assert_eq!(m4, None);
}

#[test]
fn monitoring_toggles_blink_phase_while_moisture_is_fine() {
    let mut s = SoilMoistureSensor::new(300);
    assert_eq!(s.transition(490), None);
    assert_eq!(s.animation_frame, 1);
    assert_eq!(s.transition(480), None);
    assert_eq!(s.animation_frame, 0);
    assert_eq!(s.state, DeviceState::Monitoring);
}

#[test]
fn monitoring_at_threshold_does_not_water() {
    let mut s = SoilMoistureSensor::new(300);
    assert_eq!(s.transition(300), None);
    assert_eq!(s.state, DeviceState::Monitoring);
}

#[test]
fn forced_error_blinks_and_reports() {
    let mut s = SoilMoistureSensor::new(300);
    s.transition(290);
    s.force_error();
    assert_eq!(s.state, DeviceState::Error);
    let mut expected_frame = s.animation_frame;
    for reading in [0, 290, 1000, -50] {
        let m = s.transition(reading);
        expected_frame = 1 - expected_frame;
        assert_eq!(s.state, DeviceState::Error);
        assert_eq!(s.animation_frame, expected_frame);
        assert_eq!(m.unwrap().text(), "Error state, no transitions");
    }
}

#[test]
fn forcing_error_from_every_state() {
    for state in [
        DeviceState::Monitoring,
        DeviceState::Activating,
        DeviceState::Adjusting,
        DeviceState::Idle,
        DeviceState::Error,
    ] {
        let mut s = sensor_in(state, 350, 300);
        s.force_error();
        assert_eq!(s.state, DeviceState::Error);
        assert_eq!(s.moisture, 350);
        assert_eq!(s.transition(100), Some(StatusMessage::ErrorState));
        assert_eq!(s.state, DeviceState::Error);
    }
}

#[test]
fn error_state_is_never_left() {
    let mut s = sensor_in(DeviceState::Error, 500, 300);
    for reading in [i32::MIN, -1, 0, 100, 299, 300, 400, 2000, i32::MAX] {
        s.transition(reading);
        assert_eq!(s.state, DeviceState::Error);
    }
}

#[test]
fn adjusting_holds_in_band_until_optimal() {
    let mut s = sensor_in(DeviceState::Adjusting, 300, 300);
    for reading in [300, 320, 320, 350, 399] {
        assert_eq!(s.transition(reading), None);
        assert_eq!(s.state, DeviceState::Adjusting);
        assert_eq!(s.moisture, reading as u64);
    }
    let m = s.transition(400);
    assert_eq!(s.state, DeviceState::Idle);
    assert_eq!(m.unwrap().text(), "Moisture optimal (40.0%), going idle");
}

#[test]
fn adjusting_below_threshold_returns_to_monitoring() {
    let mut s = sensor_in(DeviceState::Adjusting, 350, 300);
    let m = s.transition(299);
    assert_eq!(s.state, DeviceState::Monitoring);
    assert_eq!(s.animation_frame, 0);
    assert_eq!(m.unwrap().text(), "Moisture still low (29.9%), back to monitoring");
}

#[test]
fn idle_returns_to_monitoring_when_moisture_drops() {
    let mut s = sensor_in(DeviceState::Idle, 450, 300);
    assert_eq!(s.transition(300), None);
    assert_eq!(s.state, DeviceState::Idle);
    let m = s.transition(299);
    assert_eq!(s.state, DeviceState::Monitoring);
    assert_eq!(m.unwrap().text(), "Moisture dropping, back to monitoring");
}

#[test]
fn watering_adds_exactly_fifteen_and_ignores_next_reading() {
    let mut s = SoilMoistureSensor::new(300);
    s.transition(250);
    assert_eq!(s.state, DeviceState::Activating);
    let before = s.moisture;
    s.transition(before as i32);
    assert_eq!(s.moisture, before + 150);
    let watered = s.moisture;
    s.transition(10);
    assert_eq!(s.moisture, watered);
    assert!(!s.just_watered);
}

#[test]
fn watering_can_push_past_one_hundred() {
    let mut s = sensor_in(DeviceState::Activating, 0, 300);
    let m = s.transition(990);
    assert_eq!(s.moisture, 1140);
    assert_eq!(m.unwrap().text(), "Watering... Moisture now 114.0%");
}

#[test]
fn negative_reading_clamps_to_zero() {
    let mut s = sensor_in(DeviceState::Idle, 450, 300);
    s.transition(-75);
    assert_eq!(s.moisture, 0);
    let mut s = sensor_in(DeviceState::Monitoring, 450, 300);
    let m = s.transition(i32::MIN);
    assert_eq!(s.moisture, 0);
    assert_eq!(m.unwrap().text(), "Moisture low (0.0%), activating...");
    let mut s = sensor_in(DeviceState::Activating, 450, 300);
    s.transition(-1);
    assert_eq!(s.moisture, 150);
}

#[test]
fn every_state_takes_every_reading() {
    for state in [
        DeviceState::Monitoring,
        DeviceState::Activating,
        DeviceState::Adjusting,
        DeviceState::Idle,
        DeviceState::Error,
    ] {
        for reading in [i32::MIN, -1, 0, 299, 300, 399, 400, i32::MAX] {
            let mut s = sensor_in(state, 500, 300);
            s.transition(reading);
            assert!(s.animation_frame <= 1);
        }
    }
}

#[test]
fn message_texts() {
    assert_eq!(StatusMessage::MoistureLow(0).text(), "Moisture low (0.0%), activating...");
    assert_eq!(StatusMessage::Watering(1234).text(), "Watering... Moisture now 123.4%");
    assert_eq!(StatusMessage::Optimal(405).text(), "Moisture optimal (40.5%), going idle");
    assert_eq!(StatusMessage::StillLow(7).text(), "Moisture still low (0.7%), back to monitoring");
    assert_eq!(StatusMessage::Dropping.text(), "Moisture dropping, back to monitoring");
    assert_eq!(StatusMessage::ErrorState.text(), "Error state, no transitions");
}
