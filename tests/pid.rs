use controller::pid::{Direction, Mode, Pid, PidError, Proportional};

fn automatic(setpoint: i32, kp: i32, ki: i32, kd: i32, pon: Proportional, min: i32, max: i32) -> Pid {
    let mut pid = Pid::new(setpoint, kp, ki, kd, pon, Direction::Direct);
    pid.set_output_limits(min, max);
    pid.set_mode(Mode::Automatic);
    pid
}

#[test]
fn pid_on_measurement_step() {
    let mut pid = automatic(100_000, 10_000, 0, 0, Proportional::OnMeasurement, 0, 100_000);
    assert_eq!(pid.compute(0), Ok(0));
    assert_eq!(pid.compute(0), Ok(0));
    assert_eq!(pid.compute(0), Ok(0));
}

#[test]
fn pid_on_error_proportional_term() {
    // kp = 2, error = 10 - 4 = 6: output 12
    let mut pid = automatic(10_000, 2_000, 0, 0, Proportional::OnError, 0, 100_000);
    assert_eq!(pid.compute(4_000), Ok(12_000));
}

#[test]
fn pid_integral_scaled_by_sample_time() {
    // ki = 2 per second, sample period 100 ms: 0.2 per sample; error 10 -> 2 per step
    let mut pid = automatic(10_000, 0, 2_000, 0, Proportional::OnError, 0, 100_000);
    assert_eq!(pid.compute(0), Ok(2_000));
    assert_eq!(pid.compute(0), Ok(4_000));
    pid.set_sample_time(1_000);
    // now 2 per sample: error 10 -> 20 per step
    assert_eq!(pid.compute(0), Ok(24_000));
}

#[test]
fn pid_derivative_on_input_change() {
    // kd = 0.1 s, sample 100 ms: kd_eff = 1; input rises by 5 -> output drops by 5
    let mut pid = automatic(0, 0, 0, 100, Proportional::OnError, -100_000, 100_000);
    assert_eq!(pid.compute(0), Ok(0));
    assert_eq!(pid.compute(5_000), Ok(-5_000));
}

#[test]
fn pid_manual_mode_not_ready() {
    let mut pid = Pid::new(10_000, 1_000, 0, 0, Proportional::OnError, Direction::Direct);
    assert_eq!(pid.compute(0), Err(PidError::NotReady));
    pid.set_mode(Mode::Automatic);
    assert!(pid.compute(0).is_ok());
    pid.set_mode(Mode::Manual);
    assert_eq!(pid.compute(0), Err(PidError::NotReady));
}

#[test]
fn pid_output_clamped_for_extreme_inputs() {
    let mut pid = automatic(95_000, 2_000_000, 2_000_000, 2_000_000, Proportional::OnError, 0, 1_000_000);
    for input in [i32::MIN, -1, 0, 95_000, i32::MAX, i32::MIN, 12_345] {
        let u = pid.compute(input).unwrap();
        assert!(0 <= u && u <= 1_000_000);
    }
}

#[test]
fn pid_integrator_clamped() {
    // a large error for many steps winds up no further than the upper limit:
    // one step of opposite error brings the output down at once
    let mut pid = automatic(100_000, 0, 1_000, 0, Proportional::OnError, 0, 50_000);
    for step in 1..=100 {
        assert_eq!(pid.compute(0), Ok(10_000 * step.min(5)));
    }
    // error -100: integrator 50 - 10 = 40
    assert_eq!(pid.compute(200_000), Ok(40_000));
}

#[test]
fn pid_set_tunings_twice_same_as_once() {
    let mut once = automatic(50_000, 1_000, 500, 20, Proportional::OnError, 0, 255_000);
    let mut twice = automatic(50_000, 1_000, 500, 20, Proportional::OnError, 0, 255_000);
    once.set_tunings(3_000, 1_500, 10, Proportional::OnMeasurement);
    twice.set_tunings(3_000, 1_500, 10, Proportional::OnMeasurement);
    twice.set_tunings(3_000, 1_500, 10, Proportional::OnMeasurement);
    for input in [0, 10_000, 20_000, 45_000, 60_000] {
        assert_eq!(once.compute(input), twice.compute(input));
    }
}

#[test]
fn pid_empty_output_limits_ignored() {
    let mut pid = automatic(100_000, 1_000, 0, 0, Proportional::OnError, 0, 50_000);
    pid.set_output_limits(20_000, 20_000);
    pid.set_output_limits(30_000, 10_000);
    // limits still [0, 50]: error 100 gives 50, not 20 or 10
    assert_eq!(pid.compute(0), Ok(50_000));
}

#[test]
fn pid_negative_gains_rejected() {
    let mut pid = automatic(10_000, 1_000, 0, 0, Proportional::OnError, 0, 100_000);
    pid.set_tunings(-1, 0, 0, Proportional::OnError);
    pid.set_tunings(5_000, -1, 0, Proportional::OnError);
    pid.set_tunings(5_000, 0, -1, Proportional::OnError);
    // kp still 1: error 10 gives 10
    assert_eq!(pid.compute(0), Ok(10_000));
}

#[test]
fn pid_zero_sample_time_ignored() {
    let mut pid = automatic(10_000, 0, 2_000, 0, Proportional::OnError, 0, 100_000);
    pid.set_sample_time(0);
    // still 100 ms: 0.2 per sample on error 10
    assert_eq!(pid.compute(0), Ok(2_000));
}

#[test]
fn pid_direction_reverse() {
    let mut pid = automatic(50_000, 1_000, 0, 0, Proportional::OnError, -1_000_000, 1_000_000);
    let inputs = [10_000, 20_000, 30_000, 40_000, 50_000];
    let mut prev = i32::MAX;
    for input in inputs {
        let u = pid.compute(input).unwrap();
        assert!(u < prev);
        prev = u;
    }
    pid.set_controller_direction(Direction::Reverse);
    let mut prev = i32::MIN;
    for input in inputs {
        let u = pid.compute(input).unwrap();
        assert!(u > prev);
        prev = u;
    }
}

#[test]
fn pid_direction_flip_negates_contribution() {
    // integral only: each step adds ki_eff * e; after the flip it subtracts
    let mut pid = automatic(10_000, 0, 10_000, 0, Proportional::OnError, -100_000, 100_000);
    assert_eq!(pid.compute(0), Ok(10_000));
    pid.set_controller_direction(Direction::Reverse);
    assert_eq!(pid.compute(0), Ok(0));
    assert_eq!(pid.compute(0), Ok(-10_000));
}

#[test]
fn pid_reverse_at_construction() {
    let mut pid = Pid::new(10_000, 1_000, 0, 0, Proportional::OnError, Direction::Reverse);
    pid.set_output_limits(-100_000, 100_000);
    pid.set_mode(Mode::Automatic);
    assert_eq!(pid.compute(0), Ok(-10_000));
}
