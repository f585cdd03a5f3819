//! Control core of a single-group espresso machine: a discrete PID controller,
//! a time-proportional heater actuator, the boiler sensor cache, the control
//! supervisor with its cold-start / warm gain schedule and safe-off discipline,
//! the shared telemetry snapshot, and the text and byte layouts that the
//! display and the wireless attribute table present.
//!
//! Real quantities (temperatures, gains, PID outputs) are fixed-point integers
//! with three decimal places: `95_100` stands for 95.1.
pub mod fixed;
pub mod pid;
pub mod heater;
pub mod state;
pub mod boiler;
pub mod supervisor;
pub mod text;
pub mod display;
pub mod bluetooth;
pub mod panel;
