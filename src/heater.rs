//! Time-proportional heater actuator: a PID command in `[0, W]` milliseconds
//! becomes an on-time within each window of `W` milliseconds, decided one
//! 20 ms tick at a time.
use vstd::prelude::*;
use crate::pid::{Direction, Mode, Pid, PidModel, Proportional, is_i32};

verus! {

/// Period of one actuator tick, in milliseconds.
pub const TICK_MS: u32 = 20;

/// Longest window the actuator accepts, in milliseconds.
pub const MAX_WINDOW_MS: u32 = 2_000_000;

/// Settings of the actuator and of the PID controller behind it.
#[derive(Clone, Copy, Debug)]
pub struct HeaterConfig {
    pub kp: i32,
    pub ki: i32,
    pub kd: i32,
    pub setpoint: i32,
    pub window_size: u32,
}

impl HeaterConfig {
    pub fn new(setpoint: i32, kp: i32, ki: i32, kd: i32, window_size: u32) -> (r: HeaterConfig)
        ensures
            r.setpoint == setpoint,
            r.kp == kp,
            r.ki == ki,
            r.kd == kd,
            r.window_size == window_size,
    {
        HeaterConfig { kp, ki, kd, setpoint, window_size }
    }
}

/// The actuator's state as mathematical values. `last_output` is the PID
/// command in thousandths of a millisecond; `isr_counter` the position within
/// the window in milliseconds; `pin_high` the level the heater pin is driven to.
pub struct HeaterModel {
    pub pid: PidModel,
    pub window_size: int,
    pub isr_counter: int,
    pub last_output: int,
    pub pin_high: bool,
}

impl HeaterModel {
    /// The invariant of an actuator.
    pub open spec fn wf(self) -> bool {
        &&& self.pid.wf()
        &&& self.pid.in_auto
        &&& 0 < self.window_size <= MAX_WINDOW_MS
        &&& self.pid.out_min == 0
        &&& self.pid.out_max == self.window_size * 1000
        &&& 0 <= self.isr_counter <= self.window_size
        &&& 0 <= self.last_output <= self.window_size * 1000
    }

    /// The pin level that the current command and window position call for.
    pub open spec fn demand(self) -> bool {
        self.last_output > self.isr_counter * 1000
    }

    /// One tick: drive the pin as the command calls for, advance the window,
    /// and at the end of the window start a new one with a fresh PID command
    /// for `temp`.
    pub open spec fn tick(self, temp: int) -> HeaterModel {
        let c = self.isr_counter + TICK_MS;
        if c > self.window_size {
            HeaterModel {
                pin_high: self.demand(),
                isr_counter: 0,
                last_output: self.pid.output(temp),
                pid: self.pid.after_compute(temp),
                ..self
            }
        } else {
            HeaterModel { pin_high: self.demand(), isr_counter: c, ..self }
        }
    }

    /// The state with the pin driven low.
    pub open spec fn off(self) -> HeaterModel {
        HeaterModel { pin_high: false, ..self }
    }

    /// The state with the pin driven high.
    pub open spec fn on(self) -> HeaterModel {
        HeaterModel { pin_high: true, ..self }
    }

    /// The PID controller's state after `update_pid`, all else kept.
    pub open spec fn with_tunings(self, kp: int, ki: int, kd: int, pon: Proportional) -> HeaterModel {
        HeaterModel { pid: self.pid.tuned(kp, ki, kd, pon), ..self }
    }

    /// The controller that `Heater::new` sets up.
    pub open spec fn initial_pid(config: HeaterConfig) -> PidModel {
        let w = config.window_size as int;
        PidModel::fresh(config.setpoint as int, Direction::Direct).tuned(
            config.kp as int,
            config.ki as int,
            config.kd as int,
            Proportional::OnMeasurement,
        ).with_mode(Mode::Automatic).with_sample_time(w).with_limits(0, w * 1000)
    }
}

/// The heater actuator: a PID controller whose output is spread over a
/// window of fixed length as an on-time.
pub struct Heater {
    pid: Pid,
    window_size: u32,
    isr_counter: u32,
    last_output: i32,
    pin_high: bool,
}

impl View for Heater {
    type V = HeaterModel;

    closed spec fn view(&self) -> HeaterModel {
        HeaterModel {
            pid: self.pid@,
            window_size: self.window_size as int,
            isr_counter: self.isr_counter as int,
            last_output: self.last_output as int,
            pin_high: self.pin_high,
        }
    }
}

/// A tick keeps the actuator's invariant.
pub proof fn lemma_tick_wf(h: HeaterModel, temp: int)
    requires
        h.wf(),
        is_i32(temp),
    ensures
        h.tick(temp).wf(),
{
}

impl Heater {
    /// An actuator with the pin low, at the start of a window with command 0,
    /// over a PID controller on proportional-on-measurement, direct, in
    /// automatic mode, with sample period `W` and output range `[0, W]`.
    pub fn new(config: HeaterConfig) -> (r: Heater)
        requires
            0 < config.window_size <= MAX_WINDOW_MS,
        ensures
            r@.wf(),
            r@.pid == HeaterModel::initial_pid(config),
            r@.window_size == config.window_size,
            r@.isr_counter == 0,
            r@.last_output == 0,
            !r@.pin_high,
    {
        let window_size = config.window_size;
        let mut pid = Pid::new(
            config.setpoint,
            config.kp,
            config.ki,
            config.kd,
            Proportional::OnMeasurement,
            Direction::Direct,
        );
        pid.set_mode(Mode::Automatic);
        pid.set_sample_time(window_size);
        pid.set_output_limits(0, (window_size * 1000) as i32);
        Heater { pid, window_size, isr_counter: 0, last_output: 0, pin_high: false }
    }

    /// One 20 ms tick: drives the pin high exactly when the command exceeds
    /// the position in the window, advances the window, and at its end takes
    /// a new command from the PID controller on `current_temperature`.
    /// Returns the level the pin is driven to.
    pub fn control(&mut self, current_temperature: i32) -> (r: bool)
        requires
            old(self)@.wf(),
        ensures
            final(self)@.wf(),
            final(self)@ == old(self)@.tick(current_temperature as int),
            r == final(self)@.pin_high,
            r == old(self)@.demand(),
    {
        if (self.last_output as i64) <= (self.isr_counter as i64) * 1000 {
            self.turn_heater_off();
        } else {
            self.turn_heater_on();
        }
        self.isr_counter = self.isr_counter + TICK_MS;
        if self.isr_counter > self.window_size {
            self.isr_counter = 0;
            match self.pid.compute(current_temperature) {
                Ok(output) => {
                    self.last_output = output;
                },
                Err(_) => {},
            }
        }
        self.is_on()
    }

    /// Gives the PID controller new gains and proportional source; the
    /// command and the window are left as they are.
    pub fn update_pid(&mut self, kp: i32, ki: i32, kd: i32, pon: Proportional)
        requires
            old(self)@.wf(),
        ensures
            final(self)@.wf(),
            final(self)@ == old(self)@.with_tunings(kp as int, ki as int, kd as int, pon),
    {
        self.pid.set_tunings(kp, ki, kd, pon);
    }

    /// Whether the pin is driven high.
    pub fn is_on(&self) -> (r: bool)
        ensures
            r == self@.pin_high,
    {
        self.pin_high
    }

    /// The current PID command, in thousandths of a millisecond.
    pub fn last_output(&self) -> (r: i32)
        ensures
            r == self@.last_output,
    {
        self.last_output
    }

    fn turn_heater_on(&mut self)
        ensures
            final(self)@ == old(self)@.on(),
    {
        if !self.pin_high {
            self.pin_high = true;
        }
    }

    /// Drives the pin low, whatever the state; the safe state of the heater.
    pub fn turn_heater_off(&mut self)
        ensures
            final(self)@ == old(self)@.off(),
            !final(self)@.pin_high,
    {
        if self.pin_high {
            self.pin_high = false;
        }
    }
}

/// Turning the heater off twice leaves it as turning it off once does, with
/// the pin low.
pub proof fn lemma_turn_off_idempotent(h: HeaterModel)
    ensures
        h.off().off() == h.off(),
        !h.off().off().pin_high,
{
}

/// Ticks left in the window that `h` is in, its current one included.
pub open spec fn window_ticks(h: HeaterModel, temp: int) -> nat
    decreases h.window_size - h.isr_counter,
{
    if h.isr_counter + TICK_MS > h.window_size || h.isr_counter < 0 {
        1
    } else {
        1 + window_ticks(h.tick(temp), temp)
    }
}

/// Of the ticks left in the window that `h` is in, the number that drive the
/// pin high.
pub open spec fn window_high_ticks(h: HeaterModel, temp: int) -> nat
    decreases h.window_size - h.isr_counter,
{
    let here: nat = if h.tick(temp).pin_high {
        1
    } else {
        0
    };
    if h.isr_counter + TICK_MS > h.window_size || h.isr_counter < 0 {
        here
    } else {
        here + window_high_ticks(h.tick(temp), temp)
    }
}

proof fn lemma_window_from(h: HeaterModel, temp: int)
    requires
        h.wf(),
        is_i32(temp),
        h.isr_counter % 20 == 0,
        h.last_output % 20_000 == 0,
    ensures
        window_ticks(h, temp) == h.window_size / 20 - h.isr_counter / 20 + 1,
        window_high_ticks(h, temp) == if h.last_output / 20_000 > h.isr_counter / 20 {
            h.last_output / 20_000 - h.isr_counter / 20
        } else {
            0
        },
    decreases h.window_size - h.isr_counter,
{
    if h.isr_counter + TICK_MS <= h.window_size {
        lemma_window_from(h.tick(temp), temp);
    }
}

/// Over a whole window, a command `u` that is a whole number of ticks drives
/// the pin high in exactly `u / 20 ms` ticks and low in the rest; the window
/// has `W / 20 ms + 1` ticks, the last at position `W`, where the pin is low.
pub proof fn lemma_window_duty(h: HeaterModel, temp: int)
    requires
        h.wf(),
        is_i32(temp),
        h.isr_counter == 0,
        h.last_output % 20_000 == 0,
    ensures
        window_high_ticks(h, temp) == h.last_output / 20_000,
        window_ticks(h, temp) == h.window_size / 20 + 1,
        window_ticks(h, temp) - window_high_ticks(h, temp) == h.window_size / 20 + 1
            - h.last_output / 20_000,
{
    lemma_window_from(h, temp);
}

} // verus!
