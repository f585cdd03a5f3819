//! The shared telemetry snapshot: the latest values that the display and the
//! wireless publisher show.
use vstd::prelude::*;

verus! {

/// The snapshot as mathematical values. Temperatures, gains and the PID
/// output are fixed-point numbers with three decimal places.
pub struct StateView {
    pub current_boiler_temp: int,
    pub target_boiler_temp: int,
    pub heater_on: bool,
    pub kp: int,
    pub ki: int,
    pub kd: int,
    pub coldstart: bool,
    pub last_pid_out: int,
    pub watchdog_reset: bool,
}

/// The latest observed control and telemetry values.
#[derive(Clone, Copy, Debug)]
pub struct State {
    current_boiler_temp: i32,
    target_boiler_temp: i32,
    heater_on: bool,
    kp: i32,
    ki: i32,
    kd: i32,
    coldstart: bool,
    last_pid_out: i32,
    watchdog_reset: bool,
}

impl View for State {
    type V = StateView;

    closed spec fn view(&self) -> StateView {
        StateView {
            current_boiler_temp: self.current_boiler_temp as int,
            target_boiler_temp: self.target_boiler_temp as int,
            heater_on: self.heater_on,
            kp: self.kp as int,
            ki: self.ki as int,
            kd: self.kd as int,
            coldstart: self.coldstart,
            last_pid_out: self.last_pid_out as int,
            watchdog_reset: self.watchdog_reset,
        }
    }
}

impl State {
    /// A snapshot before the first reading: current temperature and PID
    /// output 0.
    pub fn new(
        target_boiler_temp: i32,
        heater_on: bool,
        kp: i32,
        ki: i32,
        kd: i32,
        coldstart: bool,
        watchdog_reset: bool,
    ) -> (r: State)
        ensures
            r@ == (StateView {
                current_boiler_temp: 0,
                target_boiler_temp: target_boiler_temp as int,
                heater_on,
                kp: kp as int,
                ki: ki as int,
                kd: kd as int,
                coldstart,
                last_pid_out: 0,
                watchdog_reset,
            }),
    {
        State {
            current_boiler_temp: 0,
            target_boiler_temp,
            heater_on,
            kp,
            ki,
            kd,
            coldstart,
            last_pid_out: 0,
            watchdog_reset,
        }
    }

    pub fn set_current_boiler_temp(&mut self, current_boiler_temp: i32)
        ensures
            final(self)@ == (StateView { current_boiler_temp: current_boiler_temp as int, ..old(self)@ }),
    {
        self.current_boiler_temp = current_boiler_temp;
    }

    pub fn current_boiler_temp(&self) -> (r: i32)
        ensures
            r == self@.current_boiler_temp,
    {
        self.current_boiler_temp
    }

    pub fn set_target_boiler_temp(&mut self, target_boiler_temp: i32)
        ensures
            final(self)@ == (StateView { target_boiler_temp: target_boiler_temp as int, ..old(self)@ }),
    {
        self.target_boiler_temp = target_boiler_temp;
    }

    pub fn target_boiler_temp(&self) -> (r: i32)
        ensures
            r == self@.target_boiler_temp,
    {
        self.target_boiler_temp
    }

    pub fn set_heater_on(&mut self, heater_on: bool)
        ensures
            final(self)@ == (StateView { heater_on, ..old(self)@ }),
    {
        self.heater_on = heater_on;
    }

    pub fn heater_on(&self) -> (r: bool)
        ensures
            r == self@.heater_on,
    {
        self.heater_on
    }

    pub fn kp(&self) -> (r: i32)
        ensures
            r == self@.kp,
    {
        self.kp
    }

    pub fn ki(&self) -> (r: i32)
        ensures
            r == self@.ki,
    {
        self.ki
    }

    pub fn kd(&self) -> (r: i32)
        ensures
            r == self@.kd,
    {
        self.kd
    }

    pub fn set_kp(&mut self, kp: i32)
        ensures
            final(self)@ == (StateView { kp: kp as int, ..old(self)@ }),
    {
        self.kp = kp;
    }

    pub fn set_ki(&mut self, ki: i32)
        ensures
            final(self)@ == (StateView { ki: ki as int, ..old(self)@ }),
    {
        self.ki = ki;
    }

    pub fn set_kd(&mut self, kd: i32)
        ensures
            final(self)@ == (StateView { kd: kd as int, ..old(self)@ }),
    {
        self.kd = kd;
    }

    pub fn in_coldstart(&self) -> (r: bool)
        ensures
            r == self@.coldstart,
    {
        self.coldstart
    }

    pub fn disable_coldstart(&mut self)
        ensures
            final(self)@ == (StateView { coldstart: false, ..old(self)@ }),
    {
        self.coldstart = false;
    }

    pub fn set_last_pid_out(&mut self, last_pid_out: i32)
        ensures
            final(self)@ == (StateView { last_pid_out: last_pid_out as int, ..old(self)@ }),
    {
        self.last_pid_out = last_pid_out;
    }

    pub fn last_pid_out(&self) -> (r: i32)
        ensures
            r == self@.last_pid_out,
    {
        self.last_pid_out
    }

    pub fn set_watchdog_reset(&mut self, watchdog_reset: bool)
        ensures
            final(self)@ == (StateView { watchdog_reset, ..old(self)@ }),
    {
        self.watchdog_reset = watchdog_reset;
    }

    pub fn watchdog_reset(&self) -> (r: bool)
        ensures
            r == self@.watchdog_reset,
    {
        self.watchdog_reset
    }
}

} // verus!
