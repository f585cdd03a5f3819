//! The status screen: the text that each redraw shows, laid out from the
//! snapshot.
use vstd::prelude::*;
use vstd::string::StringExecFns;
use crate::state::{State, StateView};
use crate::text::{fixed_text, int_text, push_fixed, push_int, round_fixed, round_fx};

verus! {

/// The text of one screen, line by line from the top.
pub struct Frame {
    /// Current boiler temperature, whole degrees.
    pub current: String,
    /// Target temperature, whole degrees.
    pub target: String,
    /// Whether the heater is on.
    pub heater: String,
    /// The last PID command, whole milliseconds.
    pub output: String,
    /// The live gains.
    pub tunings: String,
    /// The glyph that alternates on every redraw.
    pub alive: String,
}

/// First line: the current temperature in whole degrees.
pub open spec fn current_line(s: StateView) -> Seq<char> {
    "Current: "@ + int_text(round_fx(s.current_boiler_temp)) + "°C"@
}

/// The target temperature in whole degrees.
pub open spec fn target_line(s: StateView) -> Seq<char> {
    "Target:  "@ + int_text(round_fx(s.target_boiler_temp)) + "°C"@
}

/// Whether the heater is on.
pub open spec fn heater_line(s: StateView) -> Seq<char> {
    if s.heater_on {
        "Heater:  On"@
    } else {
        "Heater:  Off"@
    }
}

/// The last PID command in whole milliseconds.
pub open spec fn output_line(s: StateView) -> Seq<char> {
    "PID Output: "@ + int_text(round_fx(s.last_pid_out))
}

/// The live gains.
pub open spec fn tunings_line(s: StateView) -> Seq<char> {
    "P: "@ + fixed_text(s.kp) + " I: "@ + fixed_text(s.ki) + " D: "@ + fixed_text(s.kd)
}

/// The glyph of a redraw, by the screen's alive flag before it.
pub open spec fn alive_glyph(alive_pixel: bool) -> Seq<char> {
    if alive_pixel {
        "<>"@
    } else {
        "><"@
    }
}

/// The screen's own state: which alive glyph comes next.
pub struct Display {
    alive_pixel: bool,
}

impl View for Display {
    type V = bool;

    closed spec fn view(&self) -> bool {
        self.alive_pixel
    }
}

impl Display {
    pub fn new() -> (r: Display)
        ensures
            !r@,
    {
        Display { alive_pixel: false }
    }

    /// The text of the next redraw of `state`; the alive glyph alternates
    /// from one redraw to the next.
    pub fn draw_screen(&mut self, state: &State) -> (r: Frame)
        ensures
            r.current@ == current_line(state@),
            r.target@ == target_line(state@),
            r.heater@ == heater_line(state@),
            r.output@ == output_line(state@),
            r.tunings@ == tunings_line(state@),
            r.alive@ == alive_glyph(old(self)@),
            final(self)@ == !old(self)@,
    {
        let mut current = String::from_str("Current: ");
        push_int(&mut current, round_fixed(state.current_boiler_temp()));
        current.append("°C");

        let mut target = String::from_str("Target:  ");
        push_int(&mut target, round_fixed(state.target_boiler_temp()));
        target.append("°C");

        let heater = if state.heater_on() {
            String::from_str("Heater:  On")
        } else {
            String::from_str("Heater:  Off")
        };

        let mut output = String::from_str("PID Output: ");
        push_int(&mut output, round_fixed(state.last_pid_out()));

        let mut tunings = String::from_str("P: ");
        push_fixed(&mut tunings, state.kp());
        tunings.append(" I: ");
        push_fixed(&mut tunings, state.ki());
        tunings.append(" D: ");
        push_fixed(&mut tunings, state.kd());

        let alive = if self.alive_pixel {
            self.alive_pixel = false;
            String::from_str("<>")
        } else {
            self.alive_pixel = true;
            String::from_str("><")
        };
        Frame { current, target, heater, output, tunings, alive }
    }
}

} // verus!
