//! Boiler sensor adapter: validates each reading and keeps the last good one.
use vstd::prelude::*;

verus! {

/// Lowest temperature the sensor measures: -50 °C.
pub const SENSOR_MIN: i32 = -50_000;

/// Highest temperature the sensor measures: 150 °C.
pub const SENSOR_MAX: i32 = 150_000;

/// Why no temperature could be had.
#[derive(Clone, Copy, Debug, PartialEq, Eq, Structural)]
pub enum BoilerError {
    /// The sensor did not answer, answered garbled, or reported a value
    /// outside its measuring range.
    TempReadFailed,
}

/// Whether a sensor outcome is a usable temperature.
pub open spec fn valid_reading(reading: Option<i32>) -> bool {
    match reading {
        Some(t) => SENSOR_MIN <= t <= SENSOR_MAX,
        None => false,
    }
}

/// The boiler's temperature as last read.
#[derive(Clone, Copy, Debug)]
pub struct Boiler {
    last_temp: Option<i32>,
}

impl View for Boiler {
    type V = Option<i32>;

    closed spec fn view(&self) -> Option<i32> {
        self.last_temp
    }
}

impl Boiler {
    /// An adapter that has not read yet.
    pub fn new() -> (r: Boiler)
        ensures
            r@ == None::<i32>,
    {
        Boiler { last_temp: None }
    }

    /// Takes the outcome of one sensor acquisition, a temperature in
    /// thousandths of a degree Celsius or `None` when the driver failed. A
    /// temperature within the measuring range is kept and returned; anything
    /// else is a `TempReadFailed` and leaves the kept value alone.
    pub fn read_temperature(&mut self, reading: Option<i32>) -> (r: Result<i32, BoilerError>)
        ensures
            valid_reading(reading) ==> r == Ok::<i32, BoilerError>(reading->Some_0) && final(self)@
                == reading,
            !valid_reading(reading) ==> r == Err::<i32, BoilerError>(BoilerError::TempReadFailed)
                && final(self)@ == old(self)@,
    {
        match reading {
            Some(t) => {
                if SENSOR_MIN <= t && t <= SENSOR_MAX {
                    self.last_temp = Some(t);
                    Ok(t)
                } else {
                    Err(BoilerError::TempReadFailed)
                }
            },
            None => Err(BoilerError::TempReadFailed),
        }
    }

    /// The last good temperature, or `None` before the first one.
    pub fn current_temperature(&self) -> (r: Option<i32>)
        ensures
            r == self@,
    {
        self.last_temp
    }
}

} // verus!
