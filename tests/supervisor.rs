use controller::boiler::{Boiler, BoilerError};
use controller::supervisor::{Phase, Supervisor, SupervisorConfig};

fn config() -> SupervisorConfig {
    SupervisorConfig {
        target_temp: 95_000,
        start_kp: 200_000,
        start_ki: 30,
        start_kd: 0,
        warm_kp: 69_000,
        warm_ki: 170,
        warm_kd: 0,
        cold_enabled: true,
        window_ms: 1000,
    }
}

#[test]
fn cold_start_to_warm_transition() {
    let mut sup = Supervisor::new(config());
    assert!(sup.state().in_coldstart());
    assert_eq!(sup.state().kp(), 200_000);
    for t in [20_000, 40_000, 70_000, 94_900] {
        sup.measure_temperature(Some(t));
        assert!(sup.state().in_coldstart());
        assert_eq!(sup.phase(), Phase::ColdStart);
        assert_eq!(sup.state().current_boiler_temp(), t);
    }
    sup.measure_temperature(Some(95_100));
    assert!(!sup.state().in_coldstart());
    assert_eq!(sup.phase(), Phase::Warm);
    assert_eq!(sup.state().kp(), 69_000);
    assert_eq!(sup.state().ki(), 170);
    assert_eq!(sup.state().kd(), 0);
    sup.measure_temperature(Some(95_000));
    assert!(!sup.state().in_coldstart());
    assert_eq!(sup.phase(), Phase::Warm);
    assert_eq!(sup.state().kp(), 69_000);
    assert_eq!(sup.state().ki(), 170);
    assert_eq!(sup.state().kd(), 0);
}

#[test]
fn cold_start_disabled_starts_warm() {
    let mut c = config();
    c.cold_enabled = false;
    let mut sup = Supervisor::new(c);
    assert_eq!(sup.phase(), Phase::Warm);
    assert!(!sup.state().in_coldstart());
    assert_eq!(sup.state().kp(), 69_000);
    sup.measure_temperature(Some(96_000));
    assert_eq!(sup.phase(), Phase::Warm);
}

#[test]
fn sensor_fault_safe_off() {
    let mut sup = Supervisor::new(config());
    // normal operation at 90 degrees: the heater cycles
    let mut seen_high = false;
    let mut seen_low = false;
    for _ in 0..8 {
        sup.measure_temperature(Some(90_000));
        for _ in 0..25 {
            let on = sup.drive_heater();
            assert_eq!(on, sup.state().heater_on());
            if on {
                seen_high = true;
            } else {
                seen_low = true;
            }
        }
    }
    assert!(seen_high && seen_low);
    // three faults in a row: off for the whole interval
    for _ in 0..3 {
        sup.measure_temperature(None);
        assert!(!sup.state().heater_on());
        assert!(!sup.heater().is_on());
        for _ in 0..25 {
            assert!(!sup.drive_heater());
            assert!(!sup.state().heater_on());
            assert!(!sup.heater().is_on());
        }
    }
    assert_eq!(sup.state().current_boiler_temp(), 90_000);
    // readings resume: cycling resumes within one window
    sup.measure_temperature(Some(90_000));
    let mut resumed = false;
    for _ in 0..51 {
        if sup.drive_heater() {
            resumed = true;
        }
    }
    assert!(resumed);
}

#[test]
fn sensor_fault_keeps_phase() {
    let mut sup = Supervisor::new(config());
    sup.measure_temperature(Some(20_000));
    sup.measure_temperature(None);
    assert_eq!(sup.phase(), Phase::ColdStart);
    assert_eq!(sup.state().current_boiler_temp(), 20_000);
    assert_eq!(sup.boiler().current_temperature(), Some(20_000));
}

#[test]
fn out_of_range_reading_is_fault() {
    let mut sup = Supervisor::new(config());
    sup.measure_temperature(Some(90_000));
    sup.measure_temperature(Some(400_000));
    assert!(!sup.state().heater_on());
    assert!(!sup.drive_heater());
    assert_eq!(sup.state().current_boiler_temp(), 90_000);
}

#[test]
fn no_heating_before_first_reading() {
    let mut sup = Supervisor::new(config());
    for _ in 0..200 {
        assert!(!sup.drive_heater());
    }
}

#[test]
fn watchdog_reset_reporting() {
    let mut sup = Supervisor::new(config());
    assert!(!sup.state().watchdog_reset());
    assert!(sup.record_reset_cause(true));
    assert!(sup.state().watchdog_reset());
}

#[test]
fn no_watchdog_reset_reported() {
    let mut sup = Supervisor::new(config());
    assert!(!sup.record_reset_cause(false));
    assert!(!sup.state().watchdog_reset());
}

#[test]
fn boiler_keeps_last_good_reading() {
    let mut boiler = Boiler::new();
    assert_eq!(boiler.current_temperature(), None);
    assert_eq!(boiler.read_temperature(Some(93_250)), Ok(93_250));
    assert_eq!(boiler.read_temperature(None), Err(BoilerError::TempReadFailed));
    assert_eq!(boiler.read_temperature(Some(-50_001)), Err(BoilerError::TempReadFailed));
    assert_eq!(boiler.read_temperature(Some(150_001)), Err(BoilerError::TempReadFailed));
    assert_eq!(boiler.current_temperature(), Some(93_250));
    assert_eq!(boiler.read_temperature(Some(150_000)), Ok(150_000));
    assert_eq!(boiler.current_temperature(), Some(150_000));
}
