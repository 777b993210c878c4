use bms_telemetry::snapshot::{FlightSnapshot, SessionSnapshot};
use bms_telemetry::transform::{
    compute_actual_fields, compute_actual_flight_data, compute_is_on_ground, compute_zero_data,
    decide_mode, flight_data_line, render_line, Mode,
};

const ZERO_LINE: &str = "bms;0.00;0.00;0.00;0.00;0.00;0.00;0.00;0.00;0.00\n";

fn flight(kias: i64, z_dot: i64, alpha: i64, gear_pos: i64, speed_brake: i64, rpm: i64) -> FlightSnapshot {
    FlightSnapshot { kias, z_dot, alpha, gear_pos, speed_brake, rpm }
}

fn session(on_ground: bool, g_force: i64, paused: bool, ejecting: bool, end_flight: bool) -> SessionSnapshot {
    SessionSnapshot { on_ground, g_force, paused, ejecting, end_flight, exit_game: false }
}

fn example_flight() -> FlightSnapshot {
    flight(100_000_000, 5_000_000, 3_000_000, 1_000_000, 500_000, 850_000)
}

#[test]
fn example_line() {
    let s = session(false, 2_000_000, false, false, false);
    assert_eq!(
        flight_data_line(&example_flight(), &s),
        "bms;185.20;1.52;3.00;2.00;1.00;50.00;0.00;0.85;0.00\n"
    );
}

#[test]
fn zero_line_text() {
    assert_eq!(compute_zero_data(), ZERO_LINE);
}

#[test]
fn suppressed_sessions_send_zero_line() {
    let flights = [example_flight(), flight(-7, 9_999_999, -3, 0, 1_000_000, 1), flight(0, 0, 0, 0, 0, 0)];
    let flags = [(true, false, false), (false, true, false), (false, false, true), (true, true, true)];
    for f in flights.iter() {
        for &(p, e, x) in flags.iter() {
            let s = session(true, 3_000_000, p, e, x);
            assert_eq!(decide_mode(&s), Mode::Suppressed);
            assert_eq!(flight_data_line(f, &s), ZERO_LINE);
        }
    }
}

#[test]
fn active_mode_when_no_flag() {
    assert_eq!(decide_mode(&session(true, 0, false, false, false)), Mode::Active);
}

#[test]
fn airspeed_and_vertical_speed_conversion() {
    let s = session(false, 0, false, false, false);
    let v = compute_actual_fields(&flight(250_000_000, -10_000_000, 0, 0, 0, 0), &s);
    assert_eq!(v[0], 46300);
    assert_eq!(v[1], -305);
    let v = compute_actual_fields(&flight(1_000_000, 1_000_000, 0, 0, 0, 0), &s);
    assert_eq!(v[0], 185);
    assert_eq!(v[1], 30);
}

#[test]
fn airbrake_percent() {
    let s = session(false, 0, false, false, false);
    let v = compute_actual_fields(&flight(0, 0, 0, 0, 333_333, 0), &s);
    assert_eq!(v[5], 3333);
    let line = compute_actual_flight_data(&flight(0, 0, 0, 0, 1_000_000, 0), &s);
    assert_eq!(line, "bms;0.00;0.00;0.00;0.00;0.00;100.00;0.00;0.00;0.00\n");
}

#[test]
fn flaps_always_zero() {
    let s = session(true, 9_000_000, false, false, false);
    let v = compute_actual_fields(&flight(1, 2, 3, 4, 5, 6), &s);
    assert_eq!(v.len(), 9);
    assert_eq!(v[6], 0);
    let line = compute_actual_flight_data(&example_flight(), &s);
    assert_eq!(line.split(';').nth(7), Some("0.00"));
}

#[test]
fn on_ground_field() {
    assert_eq!(compute_is_on_ground(&session(true, 0, false, false, false)), 100);
    assert_eq!(compute_is_on_ground(&session(false, 0, false, false, false)), 0);
    let line = compute_actual_flight_data(&example_flight(), &session(true, 0, false, false, false));
    assert!(line.ends_with(";1.00\n"));
    let line = compute_actual_flight_data(&example_flight(), &session(false, 0, false, false, false));
    assert!(line.ends_with(";0.00\n"));
}

#[test]
fn rounding_halves_away_from_zero() {
    let s = session(false, 5_000, false, false, false);
    let v = compute_actual_fields(&flight(0, 0, -5_000, 4_999, 0, 15_000), &s);
    assert_eq!(v[2], -1);
    assert_eq!(v[3], 1);
    assert_eq!(v[4], 0);
    assert_eq!(v[7], 2);
}

#[test]
fn negative_values_render_with_sign() {
    assert_eq!(render_line(&vec![-5, -123456, 7, 0, 0, 0, 0, 0, 0]), "bms;-0.05;-1234.56;0.07;0.00;0.00;0.00;0.00;0.00;0.00\n");
}

#[test]
fn extreme_inputs_do_not_overflow() {
    let s = session(false, i64::MIN, false, false, false);
    let v = compute_actual_fields(&flight(i64::MAX, i64::MIN, i64::MIN, i64::MAX, i64::MAX, i64::MIN), &s);
    assert_eq!(v[0], 1_708_168_501_225_504);
    assert_eq!(v[3], -922_337_203_685_478);
    let line = render_line(&v);
    assert!(line.starts_with("bms;17081685012255.04;"));
}
