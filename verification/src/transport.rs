//! Nibble transport: one byte goes to the controller over four data lines, in
//! two halves, each taken over by a pulse on the enable line.

use vstd::prelude::*;
use crate::bus::Action;
use crate::pins::LcdPins;

verus! {

/// The write that puts `level` on the line of `signal`.
pub open spec fn drive(signal: LcdPins, level: bool) -> Action {
    Action::DigitalWrite { pin: signal.pin(), level }
}

/// Bit `n` of `value`, bit 0 being the lowest.
pub open spec fn bit(value: u8, n: u8) -> bool {
    (value >> n) & 1 == 1
}

/// One pulse on the enable line: low, high, low, each level held for a
/// microsecond. The controller samples the data lines on the falling edge.
pub open spec fn pulse_actions() -> Seq<Action> {
    seq![
        drive(LcdPins::ENABLE, false),
        Action::DelayMicros { micros: 1 },
        drive(LcdPins::ENABLE, true),
        Action::DelayMicros { micros: 1 },
        drive(LcdPins::ENABLE, false),
        Action::DelayMicros { micros: 1 },
    ]
}

/// The four writes that put one half of a byte on the data lines.
pub open spec fn data_actions(d4: bool, d5: bool, d6: bool, d7: bool) -> Seq<Action> {
    seq![
        drive(LcdPins::D4, d4),
        drive(LcdPins::D5, d5),
        drive(LcdPins::D6, d6),
        drive(LcdPins::D7, d7),
    ]
}

/// Transfer of `value`: bits 4 to 7 on the data lines and a pulse, then bits
/// 0 to 3 and a pulse.
pub open spec fn byte_actions(value: u8) -> Seq<Action> {
    data_actions(bit(value, 4), bit(value, 5), bit(value, 6), bit(value, 7)) + pulse_actions()
        + data_actions(bit(value, 0), bit(value, 1), bit(value, 2), bit(value, 3))
        + pulse_actions()
}

/// Transfer of `value` as character data: register select high, then the
/// byte.
pub open spec fn char_actions(value: u8) -> Seq<Action> {
    seq![drive(LcdPins::RESET, true)] + byte_actions(value)
}

/// Transfer of `value` as a command: register select low, then the byte.
pub open spec fn ctrl_actions(value: u8) -> Seq<Action> {
    seq![drive(LcdPins::RESET, false)] + byte_actions(value)
}

/// Pulses the enable line once.
pub fn pulse_enable() -> (actions: Vec<Action>)
    ensures
        actions@ == pulse_actions(),
{
    let mut actions: Vec<Action> = Vec::new();
    actions.push(Action::DigitalWrite { pin: LcdPins::ENABLE.mcp_pin(), level: false });
    actions.push(Action::DelayMicros { micros: 1 });
    actions.push(Action::DigitalWrite { pin: LcdPins::ENABLE.mcp_pin(), level: true });
    actions.push(Action::DelayMicros { micros: 1 });
    actions.push(Action::DigitalWrite { pin: LcdPins::ENABLE.mcp_pin(), level: false });
    actions.push(Action::DelayMicros { micros: 1 });
    actions
}

/// Writes an arbitrary byte to the display, upper half first.
pub fn write_byte(value: u8) -> (actions: Vec<Action>)
    ensures
        actions@ == byte_actions(value),
{
    let mut actions: Vec<Action> = Vec::new();

    // Four upper bits
    actions.push(Action::DigitalWrite { pin: LcdPins::D4.mcp_pin(), level: (value >> 4) & 1 == 1 });
    actions.push(Action::DigitalWrite { pin: LcdPins::D5.mcp_pin(), level: (value >> 5) & 1 == 1 });
    actions.push(Action::DigitalWrite { pin: LcdPins::D6.mcp_pin(), level: (value >> 6) & 1 == 1 });
    actions.push(Action::DigitalWrite { pin: LcdPins::D7.mcp_pin(), level: (value >> 7) & 1 == 1 });
    let mut pulse = pulse_enable();
    actions.append(&mut pulse);

    // Four lower bits
    actions.push(Action::DigitalWrite { pin: LcdPins::D4.mcp_pin(), level: (value >> 0) & 1 == 1 });
    actions.push(Action::DigitalWrite { pin: LcdPins::D5.mcp_pin(), level: (value >> 1) & 1 == 1 });
    actions.push(Action::DigitalWrite { pin: LcdPins::D6.mcp_pin(), level: (value >> 2) & 1 == 1 });
    actions.push(Action::DigitalWrite { pin: LcdPins::D7.mcp_pin(), level: (value >> 3) & 1 == 1 });
    let mut pulse = pulse_enable();
    actions.append(&mut pulse);

    actions
}

/// Writes `value` to the display as character data.
pub fn write_char(value: u8) -> (actions: Vec<Action>)
    ensures
        actions@ == char_actions(value),
{
    let mut actions: Vec<Action> = Vec::new();
    actions.push(Action::DigitalWrite { pin: LcdPins::RESET.mcp_pin(), level: true });
    let mut byte = write_byte(value);
    actions.append(&mut byte);
    actions
}

/// Writes `value` to the display as a command.
pub fn write_ctrl(value: u8) -> (actions: Vec<Action>)
    ensures
        actions@ == ctrl_actions(value),
{
    let mut actions: Vec<Action> = Vec::new();
    actions.push(Action::DigitalWrite { pin: LcdPins::RESET.mcp_pin(), level: false });
    let mut byte = write_byte(value);
    actions.append(&mut byte);
    actions
}

/// Levels of the lines between the expander and the controller.
pub struct Wires {
    pub rs: bool,
    pub enable: bool,
    pub d4: bool,
    pub d5: bool,
    pub d6: bool,
    pub d7: bool,
}

/// What the controller takes over at one falling edge of the enable line:
/// the register select level and the four data lines.
pub struct Latch {
    pub rs: bool,
    pub d4: bool,
    pub d5: bool,
    pub d6: bool,
    pub d7: bool,
}

impl Latch {
    /// The half byte on the data lines, D4 being its lowest bit.
    pub open spec fn nibble(self) -> u8 {
        ((if self.d4 { 1int } else { 0 }) + (if self.d5 { 2int } else { 0 })
            + (if self.d6 { 4int } else { 0 }) + (if self.d7 { 8int } else { 0 })) as u8
    }
}

impl Wires {
    /// The levels once `action` has been performed.
    pub open spec fn after(self, action: Action) -> Wires {
        match action {
            Action::DigitalWrite { pin, level } => {
                if pin == LcdPins::RESET.pin() {
                    Wires { rs: level, ..self }
                } else if pin == LcdPins::ENABLE.pin() {
                    Wires { enable: level, ..self }
                } else if pin == LcdPins::D4.pin() {
                    Wires { d4: level, ..self }
                } else if pin == LcdPins::D5.pin() {
                    Wires { d5: level, ..self }
                } else if pin == LcdPins::D6.pin() {
                    Wires { d6: level, ..self }
                } else if pin == LcdPins::D7.pin() {
                    Wires { d7: level, ..self }
                } else {
                    self
                }
            },
            _ => self,
        }
    }

    /// The levels once all of `actions` have been performed, in order.
    pub open spec fn after_all(self, actions: Seq<Action>) -> Wires
        decreases actions.len(),
    {
        if actions.len() == 0 {
            self
        } else {
            self.after(actions[0]).after_all(actions.drop_first())
        }
    }

    /// Whether `action` makes the enable line fall.
    pub open spec fn falls_at(self, action: Action) -> bool {
        self.enable && action == drive(LcdPins::ENABLE, false)
    }

    /// What a falling edge takes over from these levels.
    pub open spec fn latch(self) -> Latch {
        Latch { rs: self.rs, d4: self.d4, d5: self.d5, d6: self.d6, d7: self.d7 }
    }

    /// Everything the controller takes over while `actions` are performed
    /// from these levels on: one latch for each falling edge of the enable
    /// line, in order.
    pub open spec fn latched(self, actions: Seq<Action>) -> Seq<Latch>
        decreases actions.len(),
    {
        if actions.len() == 0 {
            Seq::empty()
        } else {
            let rest = self.after(actions[0]).latched(actions.drop_first());
            if self.falls_at(actions[0]) {
                seq![self.latch()] + rest
            } else {
                rest
            }
        }
    }
}

/// What the controller takes over when a byte arrives in two halves, upper
/// half first, with register select at `rs`.
pub open spec fn byte_latches(rs: bool, value: u8) -> Seq<Latch> {
    seq![
        Latch { rs, d4: bit(value, 4), d5: bit(value, 5), d6: bit(value, 6), d7: bit(value, 7) },
        Latch { rs, d4: bit(value, 0), d5: bit(value, 1), d6: bit(value, 2), d7: bit(value, 3) },
    ]
}

/// Performing one run of actions after another yields the latches of the
/// first followed by those of the second, taken from where the first left the
/// lines.
pub proof fn lemma_latched_concat(wires: Wires, first: Seq<Action>, second: Seq<Action>)
    ensures
        wires.latched(first + second) == wires.latched(first) + wires.after_all(first).latched(
            second,
        ),
        wires.after_all(first + second) == wires.after_all(first).after_all(second),
    decreases first.len(),
{
    if first.len() > 0 {
        assert((first + second).drop_first() =~= first.drop_first() + second);
        lemma_latched_concat(wires.after(first[0]), first.drop_first(), second);
    }
}

/// Putting half a byte on the data lines moves no other line and makes the
/// controller take over nothing.
pub proof fn lemma_data_lines_set(wires: Wires, d4: bool, d5: bool, d6: bool, d7: bool)
    ensures
        wires.latched(data_actions(d4, d5, d6, d7)) == Seq::<Latch>::empty(),
        wires.after_all(data_actions(d4, d5, d6, d7)) == (Wires { d4, d5, d6, d7, ..wires }),
{
    reveal_with_fuel(Wires::latched, 5);
    reveal_with_fuel(Wires::after_all, 5);
}

/// A pulse on a resting enable line makes the controller take over the lines
/// once, as they stand, and leaves every line as it was.
pub proof fn lemma_pulse_latches_once(wires: Wires)
    requires
        !wires.enable,
    ensures
        wires.latched(pulse_actions()) == seq![wires.latch()],
        wires.after_all(pulse_actions()) == wires,
{
    reveal_with_fuel(Wires::latched, 7);
    reveal_with_fuel(Wires::after_all, 7);
}

/// A byte reaches the controller in exactly two pulses: at the first the data
/// lines carry bits 4 to 7 of the byte, at the second bits 0 to 3. Register
/// select is not touched, and the enable line rests low again afterwards.
pub proof fn lemma_byte_transfer(wires: Wires, value: u8)
    requires
        !wires.enable,
    ensures
        wires.latched(byte_actions(value)) == byte_latches(wires.rs, value),
        wires.after_all(byte_actions(value)) == (Wires {
            d4: bit(value, 0),
            d5: bit(value, 1),
            d6: bit(value, 2),
            d7: bit(value, 3),
            ..wires
        }),
{
    let high = data_actions(bit(value, 4), bit(value, 5), bit(value, 6), bit(value, 7));
    let low = data_actions(bit(value, 0), bit(value, 1), bit(value, 2), bit(value, 3));
    let pulse = pulse_actions();
    let w1 = wires.after_all(high);
    let w2 = w1.after_all(low);
    lemma_data_lines_set(wires, bit(value, 4), bit(value, 5), bit(value, 6), bit(value, 7));
    lemma_pulse_latches_once(w1);
    lemma_data_lines_set(w1, bit(value, 0), bit(value, 1), bit(value, 2), bit(value, 3));
    lemma_pulse_latches_once(w2);
    lemma_latched_concat(wires, high, pulse);
    lemma_latched_concat(wires, high + pulse, low);
    lemma_latched_concat(wires, high + pulse + low, pulse);
    assert(wires.latched(byte_actions(value)) =~= byte_latches(wires.rs, value));
}

/// `weight` where bit `n` of `value` is set, else nothing.
pub open spec fn weighted(value: u8, n: u8, weight: u8) -> u8 {
    if bit(value, n) {
        weight
    } else {
        0
    }
}

/// The two halves that the controller takes over make up the byte again.
pub proof fn lemma_nibbles_make_byte(rs: bool, value: u8)
    ensures
        byte_latches(rs, value)[0].nibble() == value / 16,
        byte_latches(rs, value)[1].nibble() == value % 16,
        byte_latches(rs, value)[0].nibble() * 16 + byte_latches(rs, value)[1].nibble() == value,
{
    assert(weighted(value, 4, 1) + weighted(value, 5, 2) + weighted(value, 6, 4) + weighted(
        value,
        7,
        8,
    ) == value / 16) by (bit_vector);
    assert(weighted(value, 0, 1) + weighted(value, 1, 2) + weighted(value, 2, 4) + weighted(
        value,
        3,
        8,
    ) == value % 16) by (bit_vector);
}

/// A command reaches the controller as one byte with register select low, a
/// character as one byte with register select high, whatever the line
/// carried before. The enable line rests low again afterwards.
pub proof fn lemma_register_select(wires: Wires, value: u8)
    requires
        !wires.enable,
    ensures
        wires.latched(ctrl_actions(value)) == byte_latches(false, value),
        wires.latched(char_actions(value)) == byte_latches(true, value),
        !wires.after_all(ctrl_actions(value)).enable,
        !wires.after_all(char_actions(value)).enable,
{
    reveal_with_fuel(Wires::latched, 2);
    reveal_with_fuel(Wires::after_all, 2);
    let command = seq![drive(LcdPins::RESET, false)];
    let character = seq![drive(LcdPins::RESET, true)];
    lemma_latched_concat(wires, command, byte_actions(value));
    lemma_latched_concat(wires, character, byte_actions(value));
    lemma_byte_transfer(Wires { rs: false, ..wires }, value);
    lemma_byte_transfer(Wires { rs: true, ..wires }, value);
}

} // verus!
