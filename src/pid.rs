//! Discrete incremental PID controller with selectable proportional source,
//! integrator clamping and gains stored pre-scaled by the sample period.
use vstd::prelude::*;
use crate::fixed::{clamp, clamp_i32, mul_fixed, mul_fx};

verus! {

/// Whether a rising error drives the output up (`Direct`) or down (`Reverse`).
#[derive(Clone, Copy, Debug, PartialEq, Eq, Structural)]
pub enum Direction {
    Direct,
    Reverse,
}

/// Whether `compute` runs (`Automatic`) or refuses (`Manual`).
#[derive(Clone, Copy, Debug, PartialEq, Eq, Structural)]
pub enum Mode {
    Manual,
    Automatic,
}

/// Where the proportional term is taken from.
#[derive(Clone, Copy, Debug, PartialEq, Eq, Structural)]
pub enum Proportional {
    OnError,
    OnMeasurement,
}

/// `compute` was called while the controller is in manual mode.
#[derive(Clone, Copy, Debug, PartialEq, Eq, Structural)]
pub enum PidError {
    NotReady,
}

/// The controller's state as mathematical values.
///
/// `kp`, `ki`, `kd` are the gains as the user gave them; `kp_eff`, `ki_eff`,
/// `kd_eff` the gains that `compute` applies, scaled by the sample period and
/// signed by the direction.
pub struct PidModel {
    pub direction: Direction,
    pub pon: Proportional,
    pub kp: int,
    pub ki: int,
    pub kd: int,
    pub kp_eff: int,
    pub ki_eff: int,
    pub kd_eff: int,
    pub setpoint: int,
    pub last_input: int,
    pub in_auto: bool,
    pub output_sum: int,
    pub out_min: int,
    pub out_max: int,
    pub sample_time: int,
}

/// `g` with the sign that `direction` gives it.
pub open spec fn signed(direction: Direction, g: int) -> int {
    if direction == Direction::Reverse {
        -g
    } else {
        g
    }
}

/// Integral gain per sample: `ki · sample_time / 1 s`.
pub open spec fn ki_per_sample(ki: int, sample_time: int) -> int {
    ki * sample_time / 1000
}

/// Derivative gain per sample: `kd / (sample_time / 1 s)`.
pub open spec fn kd_per_sample(kd: int, sample_time: int) -> int {
    kd * 1000 / sample_time
}

pub open spec fn is_i32(x: int) -> bool {
    i32::MIN <= x <= i32::MAX
}

impl PidModel {
    /// The invariant of a controller.
    pub open spec fn wf(self) -> bool {
        &&& is_i32(self.setpoint)
        &&& is_i32(self.last_input)
        &&& is_i32(self.output_sum)
        &&& is_i32(self.out_min)
        &&& is_i32(self.out_max)
        &&& 0 <= self.kp <= i32::MAX
        &&& 0 <= self.ki <= i32::MAX
        &&& 0 <= self.kd <= i32::MAX
        &&& 0 < self.sample_time <= u32::MAX
        &&& self.out_min < self.out_max
        &&& self.kp_eff == signed(self.direction, self.kp)
        &&& self.ki_eff == signed(self.direction, ki_per_sample(self.ki, self.sample_time))
        &&& self.kd_eff == signed(self.direction, kd_per_sample(self.kd, self.sample_time))
        &&& self.in_auto ==> self.out_min <= self.output_sum <= self.out_max
    }

    /// `output_sum` limited to the output range.
    pub open spec fn clamped_sum(self) -> int {
        clamp(self.output_sum, self.out_min, self.out_max)
    }

    /// The integrator after one step on input `y`, before it is clamped.
    pub open spec fn raw_sum(self, y: int) -> int {
        let e = self.setpoint - y;
        let dy = y - self.last_input;
        let s = self.output_sum + mul_fx(self.ki_eff, e);
        if self.pon == Proportional::OnMeasurement {
            s - mul_fx(self.kp_eff, dy)
        } else {
            s
        }
    }

    /// The integrator after one step on input `y`.
    pub open spec fn next_sum(self, y: int) -> int {
        clamp(self.raw_sum(y), self.out_min, self.out_max)
    }

    /// The output of one step on input `y`.
    pub open spec fn output(self, y: int) -> int {
        let e = self.setpoint - y;
        let dy = y - self.last_input;
        let p = if self.pon == Proportional::OnError {
            mul_fx(self.kp_eff, e)
        } else {
            0
        };
        clamp(p + self.next_sum(y) - mul_fx(self.kd_eff, dy), self.out_min, self.out_max)
    }

    /// The state after one step on input `y`.
    pub open spec fn after_compute(self, y: int) -> PidModel {
        PidModel { output_sum: self.next_sum(y), last_input: y, ..self }
    }

    /// The state with the given gains and proportional source, all other state kept.
    pub open spec fn with_tunings(self, kp: int, ki: int, kd: int, pon: Proportional) -> PidModel {
        PidModel {
            pon,
            kp,
            ki,
            kd,
            kp_eff: signed(self.direction, kp),
            ki_eff: signed(self.direction, ki_per_sample(ki, self.sample_time)),
            kd_eff: signed(self.direction, kd_per_sample(kd, self.sample_time)),
            ..self
        }
    }

    /// What `set_tunings` leaves: negative gains change nothing.
    pub open spec fn tuned(self, kp: int, ki: int, kd: int, pon: Proportional) -> PidModel {
        if kp < 0 || ki < 0 || kd < 0 {
            self
        } else {
            self.with_tunings(kp, ki, kd, pon)
        }
    }

    /// What `set_sample_time` leaves: the gains rescaled to the new period, or
    /// nothing changed for a period of zero.
    pub open spec fn with_sample_time(self, t: int) -> PidModel {
        if t <= 0 {
            self
        } else {
            PidModel {
                sample_time: t,
                ki_eff: signed(self.direction, ki_per_sample(self.ki, t)),
                kd_eff: signed(self.direction, kd_per_sample(self.kd, t)),
                ..self
            }
        }
    }

    /// What `set_output_limits` leaves: an empty range changes nothing; in
    /// automatic mode the integrator is clamped into the new range.
    pub open spec fn with_limits(self, min: int, max: int) -> PidModel {
        if min >= max {
            self
        } else {
            let s = PidModel { out_min: min, out_max: max, ..self };
            if self.in_auto {
                PidModel { output_sum: s.clamped_sum(), ..s }
            } else {
                s
            }
        }
    }

    /// What `initialize` leaves: the integrator clamped into the output range.
    pub open spec fn initialized(self) -> PidModel {
        PidModel { output_sum: self.clamped_sum(), ..self }
    }

    /// What `set_mode` leaves: entering automatic mode clamps the integrator.
    pub open spec fn with_mode(self, mode: Mode) -> PidModel {
        let auto = mode == Mode::Automatic;
        let s = if auto && !self.in_auto {
            self.initialized()
        } else {
            self
        };
        PidModel { in_auto: auto, ..s }
    }

    /// What `set_controller_direction` leaves: the effective gains carry the
    /// sign of the new direction.
    pub open spec fn with_direction(self, direction: Direction) -> PidModel {
        if direction == self.direction {
            self
        } else {
            PidModel {
                direction,
                kp_eff: -self.kp_eff,
                ki_eff: -self.ki_eff,
                kd_eff: -self.kd_eff,
                ..self
            }
        }
    }

    /// A fresh controller before its gains are set: output range `[0, 255]`,
    /// sample period 100 ms, manual mode.
    pub open spec fn fresh(setpoint: int, direction: Direction) -> PidModel {
        PidModel {
            direction,
            pon: Proportional::OnError,
            kp: 0,
            ki: 0,
            kd: 0,
            kp_eff: 0,
            ki_eff: 0,
            kd_eff: 0,
            setpoint,
            last_input: 0,
            in_auto: false,
            output_sum: 0,
            out_min: 0,
            out_max: 255_000,
            sample_time: 100,
        }
    }
}

/// A discrete PID controller.
pub struct Pid {
    direction: Direction,
    kp: i32,
    ki: i32,
    kd: i32,
    kp_eff: i64,
    ki_eff: i64,
    kd_eff: i64,
    setpoint: i32,
    last_input: i32,
    in_auto: bool,
    output_sum: i32,
    out_min: i32,
    out_max: i32,
    sample_time: u32,
    pon: Proportional,
}

impl View for Pid {
    type V = PidModel;

    closed spec fn view(&self) -> PidModel {
        PidModel {
            direction: self.direction,
            pon: self.pon,
            kp: self.kp as int,
            ki: self.ki as int,
            kd: self.kd as int,
            kp_eff: self.kp_eff as int,
            ki_eff: self.ki_eff as int,
            kd_eff: self.kd_eff as int,
            setpoint: self.setpoint as int,
            last_input: self.last_input as int,
            in_auto: self.in_auto,
            output_sum: self.output_sum as int,
            out_min: self.out_min as int,
            out_max: self.out_max as int,
            sample_time: self.sample_time as int,
        }
    }
}

proof fn lemma_gain_bounds(g: int, t: int)
    requires
        0 <= g <= i32::MAX,
        0 < t <= u32::MAX,
    ensures
        0 <= g * t <= i64::MAX,
        0 <= ki_per_sample(g, t) <= 0x40_0000_0000_0000,
        0 <= kd_per_sample(g, t) <= 0x200_0000_0000,
{
    assert(0 <= g * t <= 0x7fff_ffff * 0xffff_ffff) by (nonlinear_arith)
        requires
            0 <= g <= i32::MAX,
            0 < t <= u32::MAX,
    ;
    assert(g * t / 1000 <= 0x8000_0000 * 0x1_0000_0000 / 1000) by (nonlinear_arith)
        requires
            0 <= g * t <= 0x7fff_ffff * 0xffff_ffff,
    ;
    assert(g * 1000 / t <= g * 1000) by (nonlinear_arith)
        requires
            0 <= g,
            0 < t,
    ;
}

/// Gain `g` scaled to sample period `t` and signed by `direction`.
fn integral_gain(g: i32, t: u32, direction: Direction) -> (r: i64)
    requires
        0 <= g,
        0 < t,
    ensures
        r == signed(direction, ki_per_sample(g as int, t as int)),
{
    proof {
        lemma_gain_bounds(g as int, t as int);
    }
    let s = (g as i64) * (t as i64) / 1000;
    match direction {
        Direction::Direct => s,
        Direction::Reverse => -s,
    }
}

/// Gain `g` divided by sample period `t` and signed by `direction`.
fn derivative_gain(g: i32, t: u32, direction: Direction) -> (r: i64)
    requires
        0 <= g,
        0 < t,
    ensures
        r == signed(direction, kd_per_sample(g as int, t as int)),
{
    proof {
        lemma_gain_bounds(g as int, t as int);
    }
    let s = (g as i64) * 1000 / (t as i64);
    match direction {
        Direction::Direct => s,
        Direction::Reverse => -s,
    }
}

impl Pid {
    /// A controller on `setpoint` with the given gains, output range `[0, 255]`,
    /// sample period 100 ms, in manual mode. Negative gains are refused and
    /// leave all gains zero.
    pub fn new(
        setpoint: i32,
        kp: i32,
        ki: i32,
        kd: i32,
        pon: Proportional,
        direction: Direction,
    ) -> (r: Pid)
        ensures
            r@.wf(),
            r@ == PidModel::fresh(setpoint as int, direction).tuned(
                kp as int,
                ki as int,
                kd as int,
                pon,
            ),
    {
        let mut pid = Pid {
            direction: Direction::Direct,
            pon: Proportional::OnError,
            kp: 0,
            ki: 0,
            kd: 0,
            kp_eff: 0,
            ki_eff: 0,
            kd_eff: 0,
            setpoint,
            last_input: 0,
            in_auto: false,
            output_sum: 0,
            out_min: 0,
            out_max: 1,
            sample_time: 100,
        };
        pid.set_output_limits(0, 255_000);
        pid.set_controller_direction(direction);
        pid.set_tunings(kp, ki, kd, pon);
        proof {
            assert(pid@ =~= PidModel::fresh(setpoint as int, direction).tuned(
                kp as int,
                ki as int,
                kd as int,
                pon,
            ));
        }
        pid
    }

    /// One control step on `input`. In manual mode nothing changes and
    /// `NotReady` comes back; otherwise the integrator and the last input are
    /// updated and the output, within `[out_min, out_max]`, is returned.
    pub fn compute(&mut self, input: i32) -> (r: Result<i32, PidError>)
        requires
            old(self)@.wf(),
        ensures
            final(self)@.wf(),
            old(self)@.in_auto ==> r == Ok::<i32, PidError>(old(self)@.output(input as int) as i32)
                && final(self)@ == old(self)@.after_compute(input as int),
            !old(self)@.in_auto ==> r == Err::<i32, PidError>(PidError::NotReady) && final(self)@
                == old(self)@,
            r is Ok ==> old(self)@.out_min <= r->Ok_0 <= old(self)@.out_max,
            r is Ok ==> final(self)@.out_min <= final(self)@.output_sum <= final(self)@.out_max,
    {
        if !self.in_auto {
            return Err(PidError::NotReady);
        }
        let ghost m = self@;
        proof {
            lemma_gain_bounds(m.ki, m.sample_time);
            lemma_gain_bounds(m.kd, m.sample_time);
        }
        let error: i64 = self.setpoint as i64 - input as i64;
        let d_input: i64 = input as i64 - self.last_input as i64;
        proof {
            crate::fixed::lemma_mul_fx_bound(m.ki_eff, error as int, 0x40_0000_0000_0000, 0x1_0000_0000);
            crate::fixed::lemma_mul_fx_bound(m.kp_eff, error as int, 0x40_0000_0000_0000, 0x1_0000_0000);
            crate::fixed::lemma_mul_fx_bound(m.kp_eff, d_input as int, 0x40_0000_0000_0000, 0x1_0000_0000);
            crate::fixed::lemma_mul_fx_bound(m.kd_eff, d_input as int, 0x40_0000_0000_0000, 0x1_0000_0000);
        }
        let mut sum: i128 = self.output_sum as i128 + mul_fixed(self.ki_eff, error);
        if let Proportional::OnMeasurement = self.pon {
            sum = sum - mul_fixed(self.kp_eff, d_input);
        }
        let clamped = clamp_i32(sum, self.out_min, self.out_max);
        self.output_sum = clamped;
        let p: i128 = if let Proportional::OnError = self.pon {
            mul_fixed(self.kp_eff, error)
        } else {
            0
        };
        let output = clamp_i32(
            p + clamped as i128 - mul_fixed(self.kd_eff, d_input),
            self.out_min,
            self.out_max,
        );
        self.last_input = input;
        proof {
            assert(self@ =~= m.after_compute(input as int));
        }
        Ok(output)
    }

    /// Sets the gains and the proportional source. A negative gain is refused
    /// and nothing changes.
    pub fn set_tunings(&mut self, kp: i32, ki: i32, kd: i32, pon: Proportional)
        requires
            old(self)@.wf(),
        ensures
            final(self)@.wf(),
            final(self)@ == old(self)@.tuned(kp as int, ki as int, kd as int, pon),
            kp < 0 || ki < 0 || kd < 0 ==> final(self)@ == old(self)@,
    {
        if kp < 0 || ki < 0 || kd < 0 {
            return ;
        }
        let ghost m = self@;
        self.pon = pon;
        self.kp = kp;
        self.ki = ki;
        self.kd = kd;
        self.kp_eff = match self.direction {
            Direction::Direct => kp as i64,
            Direction::Reverse => -(kp as i64),
        };
        self.ki_eff = integral_gain(ki, self.sample_time, self.direction);
        self.kd_eff = derivative_gain(kd, self.sample_time, self.direction);
        proof {
            assert(self@ =~= m.with_tunings(kp as int, ki as int, kd as int, pon));
        }
    }

    /// Changes the sample period and rescales the effective integral and
    /// derivative gains so that the user's gains keep their meaning. A period
    /// of zero changes nothing.
    pub fn set_sample_time(&mut self, new_sample_time: u32)
        requires
            old(self)@.wf(),
        ensures
            final(self)@.wf(),
            final(self)@ == old(self)@.with_sample_time(new_sample_time as int),
            new_sample_time == 0 ==> final(self)@ == old(self)@,
    {
        if new_sample_time > 0 {
            let ghost m = self@;
            self.ki_eff = integral_gain(self.ki, new_sample_time, self.direction);
            self.kd_eff = derivative_gain(self.kd, new_sample_time, self.direction);
            self.sample_time = new_sample_time;
            proof {
                assert(self@ =~= m.with_sample_time(new_sample_time as int));
            }
        }
    }

    /// Sets the output range. An empty range (`min >= max`) changes nothing;
    /// in automatic mode the integrator is clamped into the new range.
    pub fn set_output_limits(&mut self, min: i32, max: i32)
        requires
            old(self)@.wf(),
        ensures
            final(self)@.wf(),
            final(self)@ == old(self)@.with_limits(min as int, max as int),
            min >= max ==> final(self)@ == old(self)@,
    {
        if min >= max {
            return ;
        }
        let ghost m = self@;
        self.out_min = min;
        self.out_max = max;
        if self.in_auto {
            self.output_sum = clamp_i32(self.output_sum as i128, min, max);
        }
        proof {
            assert(self@ =~= m.with_limits(min as int, max as int));
        }
    }

    /// Switches between manual and automatic mode; entering automatic mode
    /// clamps the integrator into the output range.
    pub fn set_mode(&mut self, mode: Mode)
        requires
            old(self)@.wf(),
        ensures
            final(self)@.wf(),
            final(self)@ == old(self)@.with_mode(mode),
    {
        let new_auto = match mode {
            Mode::Automatic => true,
            Mode::Manual => false,
        };
        if new_auto && !self.in_auto {
            self.initialize();
        }
        self.in_auto = new_auto;
        proof {
            assert(self@ =~= old(self)@.with_mode(mode));
        }
    }

    /// Clamps the integrator into the output range.
    pub fn initialize(&mut self)
        requires
            old(self)@.wf(),
        ensures
            final(self)@.wf(),
            final(self)@ == old(self)@.initialized(),
    {
        self.output_sum = clamp_i32(self.output_sum as i128, self.out_min, self.out_max);
        proof {
            assert(self@ =~= old(self)@.initialized());
        }
    }

    /// Sets the direction; on a change the effective gains are negated in place.
    pub fn set_controller_direction(&mut self, direction: Direction)
        requires
            old(self)@.wf(),
        ensures
            final(self)@.wf(),
            final(self)@ == old(self)@.with_direction(direction),
    {
        if self.direction != direction {
            proof {
                lemma_gain_bounds(self.ki as int, self.sample_time as int);
                lemma_gain_bounds(self.kd as int, self.sample_time as int);
            }
            self.kp_eff = -self.kp_eff;
            self.ki_eff = -self.ki_eff;
            self.kd_eff = -self.kd_eff;
        }
        self.direction = direction;
        proof {
            assert(self@ =~= old(self)@.with_direction(direction));
        }
    }
}

/// Applying the same gains twice leaves the state that applying them once leaves.
pub proof fn lemma_set_tunings_idempotent(m: PidModel, kp: int, ki: int, kd: int, pon: Proportional)
    ensures
        m.tuned(kp, ki, kd, pon).tuned(kp, ki, kd, pon) == m.tuned(kp, ki, kd, pon),
{
}

/// Flipping the direction in automatic mode negates what each of the three
/// terms contributes on the next step, for every error `e` and input change
/// `dy`, and keeps the output range, the integrator and the mode.
pub proof fn lemma_direction_flip_negates_terms(m: PidModel, direction: Direction, e: int, dy: int)
    requires
        m.wf(),
        m.in_auto,
        direction != m.direction,
    ensures
        m.with_direction(direction).wf(),
        m.with_direction(direction).in_auto,
        m.with_direction(direction).out_min == m.out_min,
        m.with_direction(direction).out_max == m.out_max,
        m.with_direction(direction).output_sum == m.output_sum,
        mul_fx(m.with_direction(direction).kp_eff, e) == -mul_fx(m.kp_eff, e),
        mul_fx(m.with_direction(direction).kp_eff, dy) == -mul_fx(m.kp_eff, dy),
        mul_fx(m.with_direction(direction).ki_eff, e) == -mul_fx(m.ki_eff, e),
        mul_fx(m.with_direction(direction).kd_eff, dy) == -mul_fx(m.kd_eff, dy),
{
    crate::fixed::lemma_mul_fx_neg(m.kp_eff, e);
    crate::fixed::lemma_mul_fx_neg(m.kp_eff, dy);
    crate::fixed::lemma_mul_fx_neg(m.ki_eff, e);
    crate::fixed::lemma_mul_fx_neg(m.kd_eff, dy);
}

} // verus!
