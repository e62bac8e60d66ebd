use dht_sensor::reading::Reading;
use dht_sensor::server::{
    push_decimal, push_signed_tenths, push_tenths, render_alive, render_measurement,
    respond, Route, DEFAULT_PORT, STATUS_NO_DATA, STATUS_OK,
};
use dht_sensor::shared::SharedReading;

fn text(bytes: &[u8]) -> String {
    String::from_utf8(bytes.to_vec()).unwrap()
}

#[test]
fn alive_answers_without_any_reading() {
    let response = respond(Route::Alive, None);
    assert_eq!(response.status, 200);
    assert_eq!(text(&response.body), "alive");
}

#[test]
fn alive_answers_the_same_with_a_reading() {
    let response = respond(Route::Alive, Some(Reading::new(215, 400)));
    assert_eq!(response.status, 200);
    assert_eq!(text(&response.body), "alive");
    assert_eq!(render_alive(), b"alive".to_vec());
}

#[test]
fn measurement_before_first_sample_has_no_data() {
    let cell = SharedReading::new();
    let response = respond(Route::Measurement, cell.get());
    assert_eq!(response.status, 503);
    assert!(response.body.is_empty());
    let direct = respond(Route::Measurement, None);
    assert_eq!(direct.status, STATUS_NO_DATA);
    assert!(direct.body.is_empty());
}

#[test]
fn measurement_renders_the_reading() {
    let response = respond(Route::Measurement, Some(Reading::new(215, 400)));
    assert_eq!(response.status, STATUS_OK);
    assert_eq!(text(&response.body), "21.5°C, 40% RH");
    assert_eq!(response.body, "21.5°C, 40% RH".as_bytes().to_vec());
}

#[test]
fn measurement_reads_through_the_cell() {
    let mut cell = SharedReading::new();
    cell.set(Reading::new(-123, 1000));
    let response = respond(Route::Measurement, cell.get());
    assert_eq!(response.status, 200);
    assert_eq!(text(&response.body), "-12.3°C, 100% RH");
}

#[test]
fn measurement_renders_zero_and_fractions() {
    assert_eq!(text(&render_measurement(Reading::new(0, 0))), "0°C, 0% RH");
    assert_eq!(text(&render_measurement(Reading::new(5, 7))), "0.5°C, 0.7% RH");
    assert_eq!(text(&render_measurement(Reading::new(-5, 999))), "-0.5°C, 99.9% RH");
    assert_eq!(text(&render_measurement(Reading::new(-400, 10))), "-40°C, 1% RH");
    assert_eq!(text(&render_measurement(Reading::new(800, 655))), "80°C, 65.5% RH");
}

#[test]
fn measurement_renders_the_extremes() {
    assert_eq!(
        text(&render_measurement(Reading::new(i32::MAX, u32::MAX))),
        "214748364.7°C, 429496729.5% RH"
    );
    assert_eq!(
        text(&render_measurement(Reading::new(i32::MIN, 65535))),
        "-214748364.8°C, 6553.5% RH"
    );
}

#[test]
fn push_decimal_appends_digits() {
    let mut out = b"n=".to_vec();
    push_decimal(&mut out, 0);
    assert_eq!(text(&out), "n=0");
    push_decimal(&mut out, 9);
    push_decimal(&mut out, 10);
    push_decimal(&mut out, 4294967295);
    assert_eq!(text(&out), "n=09104294967295");
}

#[test]
fn push_tenths_drops_a_zero_fraction() {
    let mut out = Vec::new();
    push_tenths(&mut out, 400);
    out.push(b' ');
    push_tenths(&mut out, 401);
    out.push(b' ');
    push_tenths(&mut out, 9);
    out.push(b' ');
    push_tenths(&mut out, 10);
    assert_eq!(text(&out), "40 40.1 0.9 1");
}

#[test]
fn push_signed_tenths_marks_negatives() {
    let mut out = Vec::new();
    push_signed_tenths(&mut out, -1);
    out.push(b' ');
    push_signed_tenths(&mut out, 1);
    out.push(b' ');
    push_signed_tenths(&mut out, -250);
    assert_eq!(text(&out), "-0.1 0.1 -25");
}

#[test]
fn routes_have_their_paths() {
    assert_eq!(Route::Alive.path(), "/alive");
    assert_eq!(Route::Measurement.path(), "/measurement");
    assert_ne!(Route::Alive, Route::Measurement);
    assert_eq!(DEFAULT_PORT, 4000);
}
