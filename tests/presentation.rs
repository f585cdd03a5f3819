use controller::bluetooth::{ControllerServiceAttrs, temperature_bytes};
use controller::display::Display;
use controller::panel::address_window;
use controller::state::State;
use controller::text::{push_fixed, push_int, round_fixed};

#[test]
fn screen_text() {
    let mut state = State::new(95_000, true, 69_000, 170, 0, false, false);
    state.set_current_boiler_temp(93_600);
    state.set_last_pid_out(412_400);
    let mut display = Display::new();
    let frame = display.draw_screen(&state);
    assert_eq!(frame.current, "Current: 94°C");
    assert_eq!(frame.target, "Target:  95°C");
    assert_eq!(frame.heater, "Heater:  On");
    assert_eq!(frame.output, "PID Output: 412");
    assert_eq!(frame.tunings, "P: 69 I: 0.17 D: 0");
    assert_eq!(frame.alive, "><");
    state.set_heater_on(false);
    let frame = display.draw_screen(&state);
    assert_eq!(frame.heater, "Heater:  Off");
    assert_eq!(frame.alive, "<>");
    let frame = display.draw_screen(&state);
    assert_eq!(frame.alive, "><");
}

#[test]
fn screen_start_tunings() {
    let state = State::new(95_000, false, 200_000, 30, 0, true, false);
    let mut display = Display::new();
    let frame = display.draw_screen(&state);
    assert_eq!(frame.current, "Current: 0°C");
    assert_eq!(frame.tunings, "P: 200 I: 0.03 D: 0");
}

#[test]
fn rounding_halves_away_from_zero() {
    assert_eq!(round_fixed(94_500), 95);
    assert_eq!(round_fixed(94_499), 94);
    assert_eq!(round_fixed(-1_500), -2);
    assert_eq!(round_fixed(-1_499), -1);
    assert_eq!(round_fixed(0), 0);
}

#[test]
fn fixed_point_text() {
    let cases = [(0, "0"), (1_000, "1"), (1_500, "1.5"), (1_050, "1.05"), (1_005, "1.005"), (-2_250, "-2.25"), (-5, "-0.005"), (123_456_000, "123456")];
    for (x, text) in cases {
        let mut s = String::new();
        push_fixed(&mut s, x);
        assert_eq!(s, text);
    }
}

#[test]
fn integer_text() {
    let cases = [(0, "0"), (7, "7"), (10, "10"), (-42, "-42"), (i32::MIN, "-2147483648"), (i32::MAX, "2147483647")];
    for (x, text) in cases {
        let mut s = String::from("x=");
        push_int(&mut s, x);
        assert_eq!(s, format!("x={}", text));
    }
}

#[test]
fn temperature_characteristic_bytes() {
    assert_eq!(temperature_bytes(95_400), vec![95, 0]);
    assert_eq!(temperature_bytes(-1_600), vec![0xFE, 0xFF]);
    assert_eq!(temperature_bytes(300_000), vec![0x2C, 0x01]);
    assert_eq!(temperature_bytes(i32::MAX), vec![0xFF, 0x7F]);
    assert_eq!(temperature_bytes(i32::MIN), vec![0x00, 0x80]);
}

#[test]
fn attribute_table() {
    let mut attrs = ControllerServiceAttrs::new();
    assert_eq!(attrs.len(), 3);
    assert_eq!(attrs.attribute(0).att_type, 0x2800);
    assert_eq!(attrs.attribute(0).value, vec![0x00, 0x18]);
    assert_eq!(attrs.attribute(1).value, vec![0x02, 0x03, 0x00, 0x1F, 0x2A]);
    assert_eq!(attrs.attribute(2).handle, 3);
    assert_eq!(attrs.attribute(2).value, vec![0, 0]);
    attrs.set_boiler_temp(94_700);
    assert_eq!(attrs.attribute(2).value, vec![95, 0]);
    assert_eq!(attrs.attribute(2).att_type, 0x2A1F);
}

#[test]
fn attribute_ranges() {
    let attrs = ControllerServiceAttrs::new();
    assert_eq!(attrs.attrs_in_range(1, 0xFFFF), Some((0, 2)));
    assert_eq!(attrs.attrs_in_range(2, 2), Some((1, 1)));
    assert_eq!(attrs.attrs_in_range(3, 9), Some((2, 2)));
    assert_eq!(attrs.attrs_in_range(4, 9), None);
    assert_eq!(attrs.attrs_in_range(0, 9), None);
    assert_eq!(attrs.attrs_in_range(3, 2), None);
    assert!(attrs.is_grouping_attr(0x2800));
    assert!(!attrs.is_grouping_attr(0x2803));
    assert_eq!(attrs.group_end(1), Some(2));
    assert_eq!(attrs.group_end(2), Some(2));
    assert_eq!(attrs.group_end(3), None);
}

#[test]
fn panel_address_window_bytes() {
    assert_eq!(address_window(0x0123, 0x00EF), [0x01, 0x23, 0x00, 0xEF]);
    assert_eq!(address_window(0, 319), [0, 0, 0x01, 0x3F]);
}
