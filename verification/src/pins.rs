//! Wiring of the display board: which expander pin carries which signal.

use vstd::prelude::*;

verus! {

/// Signals of the display that the expander drives. All are outputs.
#[allow(non_camel_case_types)]
#[derive(Clone, Copy, Debug, PartialEq, Eq, Structural)]
pub enum LcdPins {
    /// Register select: low for a command, high for character data.
    RESET,
    /// Enable strobe: the controller samples the data lines when it falls.
    ENABLE,
    D4,
    D5,
    D6,
    D7,
    RED,
    GREEN,
    BLUE,
    RW,
}

/// Buttons of the board. All are inputs with the pull-up switched on.
#[allow(non_camel_case_types)]
#[derive(Clone, Copy, Debug, PartialEq, Eq, Structural)]
pub enum BoardPins {
    LEFT_BUTTON,
    RIGHT_BUTTON,
    UP_BUTTON,
    DOWN_BUTTON,
    SELECT_BUTTON,
}

impl LcdPins {
    /// Expander pins of all display signals, in the order in which they are
    /// configured.
    pub const PINS: [u8; 10] = [15, 13, 12, 11, 10, 9, 6, 7, 8, 14];

    /// The expander pin wired to this signal.
    pub open spec fn pin(&self) -> u8 {
        match *self {
            LcdPins::RESET => 15,
            LcdPins::ENABLE => 13,
            LcdPins::D4 => 12,
            LcdPins::D5 => 11,
            LcdPins::D6 => 10,
            LcdPins::D7 => 9,
            LcdPins::RED => 6,
            LcdPins::GREEN => 7,
            LcdPins::BLUE => 8,
            LcdPins::RW => 14,
        }
    }

    /// The expander pin wired to this signal.
    #[verifier::when_used_as_spec(pin)]
    pub fn mcp_pin(&self) -> (p: u8)
        ensures
            p == self.pin(),
    {
        match *self {
            LcdPins::RESET => 15,
            LcdPins::ENABLE => 13,
            LcdPins::D4 => 12,
            LcdPins::D5 => 11,
            LcdPins::D6 => 10,
            LcdPins::D7 => 9,
            LcdPins::RED => 6,
            LcdPins::GREEN => 7,
            LcdPins::BLUE => 8,
            LcdPins::RW => 14,
        }
    }
}

impl BoardPins {
    /// Expander pins of all buttons, in the order in which they are
    /// configured.
    pub const PINS: [u8; 5] = [4, 1, 3, 2, 0];

    /// The expander pin wired to this button.
    pub open spec fn pin(&self) -> u8 {
        match *self {
            BoardPins::LEFT_BUTTON => 4,
            BoardPins::RIGHT_BUTTON => 1,
            BoardPins::UP_BUTTON => 3,
            BoardPins::DOWN_BUTTON => 2,
            BoardPins::SELECT_BUTTON => 0,
        }
    }

    /// The expander pin wired to this button.
    #[verifier::when_used_as_spec(pin)]
    pub fn mcp_pin(&self) -> (p: u8)
        ensures
            p == self.pin(),
    {
        match *self {
            BoardPins::LEFT_BUTTON => 4,
            BoardPins::RIGHT_BUTTON => 1,
            BoardPins::UP_BUTTON => 3,
            BoardPins::DOWN_BUTTON => 2,
            BoardPins::SELECT_BUTTON => 0,
        }
    }
}

/// No expander pin serves both the display and a button, no two signals share
/// a pin, and every pin is one of the expander's sixteen.
pub proof fn lemma_pins_distinct(a: LcdPins, b: LcdPins, x: BoardPins, y: BoardPins)
    ensures
        a.pin() != x.pin(),
        a.pin() == b.pin() ==> a == b,
        x.pin() == y.pin() ==> x == y,
        a.pin() < 16,
        x.pin() < 16,
{
}

/// Each pin list holds the pins of its signals, one entry for each, in the
/// order of declaration.
pub proof fn lemma_pin_lists()
    ensures
        LcdPins::PINS@ == seq![
            LcdPins::RESET.pin(),
            LcdPins::ENABLE.pin(),
            LcdPins::D4.pin(),
            LcdPins::D5.pin(),
            LcdPins::D6.pin(),
            LcdPins::D7.pin(),
            LcdPins::RED.pin(),
            LcdPins::GREEN.pin(),
            LcdPins::BLUE.pin(),
            LcdPins::RW.pin(),
        ],
        BoardPins::PINS@ == seq![
            BoardPins::LEFT_BUTTON.pin(),
            BoardPins::RIGHT_BUTTON.pin(),
            BoardPins::UP_BUTTON.pin(),
            BoardPins::DOWN_BUTTON.pin(),
            BoardPins::SELECT_BUTTON.pin(),
        ],
{
}

} // verus!
