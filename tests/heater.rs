use controller::heater::{Heater, HeaterConfig};
use controller::pid::Proportional;

/// An actuator whose first window ends with a command of 400 ms: ki = 4 per
/// second over a 1 s window on an error of 100 degrees.
fn heater_with_400ms_command() -> Heater {
    let mut heater = Heater::new(HeaterConfig::new(100_000, 0, 4_000, 0, 1000));
    for _ in 0..51 {
        assert!(!heater.control(0));
    }
    assert_eq!(heater.last_output(), 400_000);
    heater
}

#[test]
fn heater_time_proportional_duty() {
    let mut heater = heater_with_400ms_command();
    let mut high = 0;
    let mut low = 0;
    for _ in 0..50 {
        if heater.control(0) {
            high += 1;
        } else {
            low += 1;
        }
    }
    assert_eq!(high, 20);
    assert_eq!(low, 30);
    assert_eq!(high * 20, 400);
}

#[test]
fn heater_high_ticks_come_first_in_window() {
    let mut heater = heater_with_400ms_command();
    for tick in 0..51 {
        assert_eq!(heater.control(0), tick < 20);
    }
    // the next window starts with the new command of 800 ms
    assert_eq!(heater.last_output(), 800_000);
}

#[test]
fn heater_turn_off_twice() {
    let mut heater = heater_with_400ms_command();
    assert!(heater.control(0));
    assert!(heater.is_on());
    heater.turn_heater_off();
    assert!(!heater.is_on());
    heater.turn_heater_off();
    assert!(!heater.is_on());
}

#[test]
fn heater_update_pid_keeps_command() {
    let mut heater = heater_with_400ms_command();
    heater.update_pid(69_000, 170, 0, Proportional::OnError);
    assert_eq!(heater.last_output(), 400_000);
    assert!(heater.control(0));
}

#[test]
fn heater_new_starts_off() {
    let heater = Heater::new(HeaterConfig::new(95_000, 200_000, 30, 0, 1000));
    assert!(!heater.is_on());
    assert_eq!(heater.last_output(), 0);
}
