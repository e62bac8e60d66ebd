use dht_sensor::config::Config;
use dht_sensor::reading::{Reading, SensorError};
use dht_sensor::shared::SharedReading;

#[test]
fn new_cell_is_empty() {
    let cell = SharedReading::new();
    assert_eq!(cell.get(), None);
}

#[test]
fn set_replaces_the_whole_reading() {
    let mut cell = SharedReading::new();
    cell.set(Reading::new(215, 400));
    assert_eq!(cell.get(), Some(Reading::new(215, 400)));
    cell.set(Reading::new(-80, 955));
    let seen = cell.get().unwrap();
    assert_eq!(seen.temperature_tenths, -80);
    assert_eq!(seen.humidity_tenths, 955);
}

#[test]
fn get_does_not_change_the_cell() {
    let mut cell = SharedReading::new();
    cell.set(Reading::new(7, 8));
    let first = cell.get();
    let second = cell.get();
    assert_eq!(first, second);
    assert_eq!(second, Some(Reading::new(7, 8)));
}

#[test]
fn gets_around_one_set_see_prior_or_new() {
    let prior = Reading::new(100, 200);
    let next = Reading::new(300, 400);
    for position in 0..5usize {
        let mut cell = SharedReading::new();
        cell.set(prior);
        let mut seen = Vec::new();
        for step in 0..5usize {
            if step == position {
                cell.set(next);
            } else {
                seen.push((step, cell.get()));
            }
        }
        for (step, value) in seen {
            if step < position {
                assert_eq!(value, Some(prior));
            } else {
                assert_eq!(value, Some(next));
            }
        }
    }
}

#[test]
fn reading_keeps_its_fields() {
    let reading = Reading::new(-1, 1);
    assert_eq!(reading.temperature_tenths, -1);
    assert_eq!(reading.humidity_tenths, 1);
    assert_eq!(reading, Reading { temperature_tenths: -1, humidity_tenths: 1 });
    assert_ne!(reading, Reading::new(1, 1));
}

#[test]
fn sensor_errors_are_distinct() {
    assert_ne!(SensorError::Timeout, SensorError::ChecksumMismatch);
    assert_ne!(SensorError::ChecksumMismatch, SensorError::ProtocolViolation);
    assert_ne!(SensorError::ProtocolViolation, SensorError::Timeout);
}

#[test]
fn compiled_in_credentials_are_blank() {
    let config = Config::compiled_in();
    assert_eq!(config.wifi_ssid, "");
    assert_eq!(config.wifi_pwd, "");
}
