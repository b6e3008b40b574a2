//! What the driver asks of the expander and of the clock.
//!
//! The driver never touches the two-wire bus. It names one action at a time;
//! the caller performs it and reports how it went.

use vstd::prelude::*;

verus! {

/// Direction of an expander pin.
#[derive(Clone, Copy, Debug, PartialEq, Eq, Structural)]
pub enum PinMode {
    Output,
    Input,
}

/// One thing for the caller to do: a call on the expander, which may fail
/// with a bus error, or a pause, which cannot.
#[derive(Clone, Copy, Debug, PartialEq, Eq, Structural)]
pub enum Action {
    /// Set the direction of a pin.
    ConfigurePin { pin: u8, mode: PinMode },
    /// Switch the pull-up resistor of an input pin on or off.
    EnablePullUp { pin: u8, enabled: bool },
    /// Drive an output pin high (`true`) or low.
    DigitalWrite { pin: u8, level: bool },
    /// Read the level of a pin.
    DigitalRead { pin: u8 },
    /// Wait at least this many microseconds.
    DelayMicros { micros: u64 },
    /// Wait at least this many milliseconds.
    DelayMillis { millis: u64 },
}

/// One step of an operation of the driver: an action for the caller, or a
/// note of the driver to itself, taken once every action before it has gone
/// through.
#[derive(Clone, Copy, Debug, PartialEq, Eq, Structural)]
pub enum Step {
    Do(Action),
    /// The controller has accepted a new address: remember the position.
    StoreCursor { row: u8, column: u8 },
}

/// The steps that ask for `actions`, one after the other.
pub open spec fn doing(actions: Seq<Action>) -> Seq<Step> {
    Seq::new(actions.len(), |i: int| Step::Do(actions[i]))
}

} // verus!
