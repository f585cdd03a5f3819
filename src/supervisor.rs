//! The control supervisor: the cold-start / warm gain schedule, the safe-off
//! reaction to sensor faults, and the two periodic jobs that measure the
//! boiler and drive the heater.
use vstd::prelude::*;
use crate::boiler::{Boiler, valid_reading};
use crate::heater::{Heater, HeaterConfig, HeaterModel, MAX_WINDOW_MS};
use crate::pid::Proportional;
use crate::state::{State, StateView};

verus! {

/// Build-time settings of the supervisor. Temperatures and gains are
/// fixed-point numbers with three decimal places.
#[derive(Clone, Copy, Debug)]
pub struct SupervisorConfig {
    pub target_temp: i32,
    pub start_kp: i32,
    pub start_ki: i32,
    pub start_kd: i32,
    pub warm_kp: i32,
    pub warm_ki: i32,
    pub warm_kd: i32,
    pub cold_enabled: bool,
    pub window_ms: u32,
}

impl SupervisorConfig {
    /// Settings that the supervisor accepts: gains that are not negative and
    /// a window of 1 to `MAX_WINDOW_MS` milliseconds.
    pub open spec fn valid(self) -> bool {
        &&& self.start_kp >= 0
        &&& self.start_ki >= 0
        &&& self.start_kd >= 0
        &&& self.warm_kp >= 0
        &&& self.warm_ki >= 0
        &&& self.warm_kd >= 0
        &&& 0 < self.window_ms <= MAX_WINDOW_MS
    }

    /// The actuator settings: the target and the start gains over the window.
    pub open spec fn heater_config(self) -> HeaterConfig {
        HeaterConfig {
            kp: self.start_kp,
            ki: self.start_ki,
            kd: self.start_kd,
            setpoint: self.target_temp,
            window_size: self.window_ms,
        }
    }
}

/// Phase of the gain schedule.
#[derive(Clone, Copy, Debug, PartialEq, Eq, Structural)]
pub enum Phase {
    /// Warming up from cold with the start gains.
    ColdStart,
    /// At temperature, with the warm gains on proportional-on-error.
    Warm,
}

/// The supervisor's state as mathematical values.
pub struct SupervisorModel {
    pub config: SupervisorConfig,
    pub phase: Phase,
    /// Whether the latest sensor acquisition gave a usable temperature.
    pub reading_ok: bool,
    pub boiler: Option<i32>,
    pub heater: HeaterModel,
    pub state: StateView,
}

impl SupervisorModel {
    /// The invariant of a supervisor. Beyond the parts' own invariants: the
    /// snapshot shows the heater pin's level, the gains of the phase and the
    /// target; and the pin is low whenever the latest acquisition failed.
    pub open spec fn wf(self) -> bool {
        &&& self.config.valid()
        &&& self.heater.wf()
        &&& self.state.heater_on == self.heater.pin_high
        &&& !self.reading_ok ==> !self.heater.pin_high
        &&& self.state.target_boiler_temp == self.config.target_temp
        &&& self.heater.pid.setpoint == self.config.target_temp
        &&& self.state.coldstart == (self.phase == Phase::ColdStart)
        &&& self.phase == Phase::Warm ==> self.heater.pid.pon == Proportional::OnError
        &&& self.phase == Phase::Warm ==> self.heater.pid.kp == self.config.warm_kp
            && self.heater.pid.ki == self.config.warm_ki && self.heater.pid.kd
            == self.config.warm_kd
        &&& self.phase == Phase::Warm ==> self.state.kp == self.config.warm_kp && self.state.ki
            == self.config.warm_ki && self.state.kd == self.config.warm_kd
        &&& self.phase == Phase::ColdStart ==> self.state.kp == self.config.start_kp
            && self.state.ki == self.config.start_ki && self.state.kd == self.config.start_kd
        &&& self.phase == Phase::ColdStart ==> self.heater.pid.pon == Proportional::OnMeasurement
            && self.heater.pid.kp == self.config.start_kp && self.heater.pid.ki
            == self.config.start_ki && self.heater.pid.kd == self.config.start_kd
        &&& self.phase == Phase::ColdStart ==> self.config.cold_enabled
        &&& self.reading_ok ==> self.boiler == Some(self.state.current_boiler_temp as i32)
        &&& i32::MIN <= self.state.current_boiler_temp <= i32::MAX
    }

    /// The measuring job on one sensor outcome. A usable temperature goes
    /// into the snapshot, and in the cold-start phase a temperature above the
    /// target switches to the warm gains. A fault drives the heater pin low
    /// and shows it off; the phase stays.
    pub open spec fn measure(self, reading: Option<i32>) -> SupervisorModel {
        if valid_reading(reading) {
            let t = reading->Some_0 as int;
            let s = SupervisorModel {
                reading_ok: true,
                boiler: reading,
                state: StateView { current_boiler_temp: t, ..self.state },
                ..self
            };
            if self.phase == Phase::ColdStart && t > self.config.target_temp {
                SupervisorModel {
                    phase: Phase::Warm,
                    heater: s.heater.with_tunings(
                        self.config.warm_kp as int,
                        self.config.warm_ki as int,
                        self.config.warm_kd as int,
                        Proportional::OnError,
                    ),
                    state: StateView {
                        coldstart: false,
                        kp: self.config.warm_kp as int,
                        ki: self.config.warm_ki as int,
                        kd: self.config.warm_kd as int,
                        ..s.state
                    },
                    ..s
                }
            } else {
                s
            }
        } else {
            SupervisorModel {
                reading_ok: false,
                heater: self.heater.off(),
                state: StateView { heater_on: false, ..self.state },
                ..self
            }
        }
    }

    /// The heater job: after a usable reading one actuator tick on the
    /// snapshot's temperature; otherwise the pin is held low. The snapshot
    /// takes the pin level and the PID command.
    pub open spec fn drive(self) -> SupervisorModel {
        let h = if self.reading_ok {
            self.heater.tick(self.state.current_boiler_temp)
        } else {
            self.heater.off()
        };
        SupervisorModel {
            heater: h,
            state: StateView { heater_on: h.pin_high, last_pid_out: h.last_output, ..self.state },
            ..self
        }
    }
}

/// The supervisor with the parts it owns.
pub struct Supervisor {
    config: SupervisorConfig,
    phase: Phase,
    reading_ok: bool,
    boiler: Boiler,
    heater: Heater,
    state: State,
}

impl View for Supervisor {
    type V = SupervisorModel;

    closed spec fn view(&self) -> SupervisorModel {
        SupervisorModel {
            config: self.config,
            phase: self.phase,
            reading_ok: self.reading_ok,
            boiler: self.boiler@,
            heater: self.heater@,
            state: self.state@,
        }
    }
}

impl Supervisor {
    /// A supervisor with the heater off, before the first reading. With cold
    /// start enabled it begins in the cold-start phase on the start gains;
    /// otherwise in the warm phase on the warm gains.
    pub fn new(config: SupervisorConfig) -> (r: Supervisor)
        requires
            config.valid(),
        ensures
            r@.wf(),
            r@.config == config,
            r@.phase == (if config.cold_enabled {
                Phase::ColdStart
            } else {
                Phase::Warm
            }),
            !r@.reading_ok,
            r@.boiler == None::<i32>,
            r@.heater == (HeaterModel {
                pid: if config.cold_enabled {
                    HeaterModel::initial_pid(config.heater_config())
                } else {
                    HeaterModel::initial_pid(config.heater_config()).tuned(
                        config.warm_kp as int,
                        config.warm_ki as int,
                        config.warm_kd as int,
                        Proportional::OnError,
                    )
                },
                window_size: config.window_ms as int,
                isr_counter: 0,
                last_output: 0,
                pin_high: false,
            }),
            r@.state == (StateView {
                current_boiler_temp: 0,
                target_boiler_temp: config.target_temp as int,
                heater_on: false,
                kp: (if config.cold_enabled {
                    config.start_kp
                } else {
                    config.warm_kp
                }) as int,
                ki: (if config.cold_enabled {
                    config.start_ki
                } else {
                    config.warm_ki
                }) as int,
                kd: (if config.cold_enabled {
                    config.start_kd
                } else {
                    config.warm_kd
                }) as int,
                coldstart: config.cold_enabled,
                last_pid_out: 0,
                watchdog_reset: false,
            }),
    {
        let heater_config = HeaterConfig::new(
            config.target_temp,
            config.start_kp,
            config.start_ki,
            config.start_kd,
            config.window_ms,
        );
        let mut heater = Heater::new(heater_config);
        heater.turn_heater_off();
        let phase;
        let state;
        if config.cold_enabled {
            phase = Phase::ColdStart;
            state = State::new(
                config.target_temp,
                heater.is_on(),
                config.start_kp,
                config.start_ki,
                config.start_kd,
                true,
                false,
            );
        } else {
            phase = Phase::Warm;
            heater.update_pid(config.warm_kp, config.warm_ki, config.warm_kd, Proportional::OnError);
            state = State::new(
                config.target_temp,
                heater.is_on(),
                config.warm_kp,
                config.warm_ki,
                config.warm_kd,
                false,
                false,
            );
        }
        Supervisor { config, phase, reading_ok: false, boiler: Boiler::new(), heater, state }
    }

    /// The measuring job on the outcome of one sensor acquisition (a
    /// temperature in thousandths of a degree, or `None` when the driver
    /// failed).
    pub fn measure_temperature(&mut self, reading: Option<i32>)
        requires
            old(self)@.wf(),
        ensures
            final(self)@.wf(),
            final(self)@ == old(self)@.measure(reading),
            !valid_reading(reading) ==> !final(self)@.state.heater_on,
            !valid_reading(reading) ==> !final(self)@.heater.pin_high,
    {
        match self.boiler.read_temperature(reading) {
            Ok(t) => {
                self.reading_ok = true;
                self.state.set_current_boiler_temp(t);
                if t > self.state.target_boiler_temp() && self.state.in_coldstart() {
                    self.phase = Phase::Warm;
                    self.state.disable_coldstart();
                    self.heater.update_pid(
                        self.config.warm_kp,
                        self.config.warm_ki,
                        self.config.warm_kd,
                        Proportional::OnError,
                    );
                    self.state.set_kp(self.config.warm_kp);
                    self.state.set_ki(self.config.warm_ki);
                    self.state.set_kd(self.config.warm_kd);
                }
            },
            Err(_) => {
                self.reading_ok = false;
                self.heater.turn_heater_off();
                self.state.set_heater_on(false);
            },
        }
    }

    /// The heater job, run every 20 ms. Returns the level the heater pin is
    /// driven to.
    pub fn drive_heater(&mut self) -> (r: bool)
        requires
            old(self)@.wf(),
        ensures
            final(self)@.wf(),
            final(self)@ == old(self)@.drive(),
            r == final(self)@.heater.pin_high,
            r == final(self)@.state.heater_on,
            !old(self)@.reading_ok ==> !r,
    {
        let on = if self.reading_ok {
            self.heater.control(self.state.current_boiler_temp())
        } else {
            self.heater.turn_heater_off();
            false
        };
        self.state.set_heater_on(on);
        self.state.set_last_pid_out(self.heater.last_output());
        on
    }

    /// Records the reset cause found at boot: after a reset by the watchdog
    /// the snapshot shows it. Returns whether the cause must be cleared in
    /// the hardware register.
    pub fn record_reset_cause(&mut self, watchdog_detected: bool) -> (r: bool)
        requires
            old(self)@.wf(),
        ensures
            final(self)@.wf(),
            r == watchdog_detected,
            final(self)@ == (SupervisorModel {
                state: StateView {
                    watchdog_reset: old(self)@.state.watchdog_reset || watchdog_detected,
                    ..old(self)@.state
                },
                ..old(self)@
            }),
    {
        if watchdog_detected {
            self.state.set_watchdog_reset(true);
        }
        watchdog_detected
    }

    /// The snapshot.
    pub fn state(&self) -> (r: &State)
        ensures
            r@ == self@.state,
    {
        &self.state
    }

    /// The heater actuator.
    pub fn heater(&self) -> (r: &Heater)
        ensures
            r@ == self@.heater,
    {
        &self.heater
    }

    /// The boiler sensor adapter.
    pub fn boiler(&self) -> (r: &Boiler)
        ensures
            r@ == self@.boiler,
    {
        &self.boiler
    }

    /// The phase of the gain schedule.
    pub fn phase(&self) -> (r: Phase)
        ensures
            r == self@.phase,
    {
        self.phase
    }
}

/// `n` runs of the heater job in a row.
pub open spec fn drives(s: SupervisorModel, n: nat) -> SupervisorModel
    decreases n,
{
    if n == 0 {
        s
    } else {
        drives(s, (n - 1) as nat).drive()
    }
}

/// After a sensor fault the snapshot shows the heater off at once, and for
/// any number of heater ticks that follow before the next reading, the pin
/// stays low and the snapshot keeps showing the heater off.
pub proof fn lemma_fault_safe_off(s: SupervisorModel, reading: Option<i32>, n: nat)
    requires
        s.wf(),
        !valid_reading(reading),
    ensures
        !s.measure(reading).state.heater_on,
        !s.measure(reading).heater.pin_high,
        !drives(s.measure(reading), n).state.heater_on,
        !drives(s.measure(reading), n).heater.pin_high,
        !drives(s.measure(reading), n).reading_ok,
    decreases n,
{
    if n > 0 {
        lemma_fault_safe_off(s, reading, (n - 1) as nat);
    }
}

} // verus!
