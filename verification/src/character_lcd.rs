//! The display driver: what it remembers of the controller, and the steps of
//! each of its operations.
//!
//! An operation only lines up its steps. The caller then asks for the pending
//! action, performs it on the expander, and acknowledges the outcome, until
//! nothing is pending or an action has failed:
//!
//! ```text
//! lcd.clear();
//! while let Some(action) = lcd.pending_action() {
//!     lcd.acknowledge(perform(action))?;
//! }
//! ```

use std::collections::VecDeque;
use vstd::prelude::*;
use crate::bus::{doing, Action, PinMode, Step};
use crate::commands::{
    ddram_address, has_flag, valid_geometry, with_flag, LCD_1LINE, LCD_2LINE, LCD_4BITMODE,
    LCD_5X8DOTS, LCD_BLINKOFF, LCD_BLINKON, LCD_CLEARDISPLAY, LCD_CURSOROFF, LCD_CURSORON,
    LCD_CURSORSHIFT, LCD_DISPLAYMOVE, LCD_MOVELEFT, LCD_MOVERIGHT,
    LCD_DISPLAYCONTROL, LCD_DISPLAYON, LCD_ENTRYLEFT, LCD_ENTRYMODESET,
    LCD_ENTRYSHIFTDECREMENT, LCD_FORCE_4BIT_FIRST, LCD_FORCE_4BIT_SECOND, LCD_FUNCTIONSET,
    LCD_RETURNHOME, LCD_ROW_OFFSETS, LCD_SETDDRAMADDR, LCD_SETTLE_MILLIS,
};
use crate::pins::{BoardPins, LcdPins};
use crate::render::{clamp, glyph_steps, move_steps, row_after};
use crate::state::{
    clear_actions, home_actions, initialise_actions, input_actions, output_actions,
    setup_actions, steps_fit, LcdState,
};
use crate::transport::{write_char, write_ctrl};

verus! {

/// Bus address of the expander where the caller names none.
pub const DEFAULT_ADDRESS: u8 = 0x20;

/// Direction in which the controller moves on after each character.
#[derive(Clone, Copy, Debug, PartialEq, Eq, Structural)]
pub enum TextDirection {
    LeftToRight,
    RightToLeft,
}

/// Driver of one character display with an RGB backlight.
pub struct CharacterLcdRgb {
    text: String,
    columns: u8,
    lines: u8,
    display_control: u8,
    display_function: u8,
    display_mode: u8,
    row: u8,
    column: u8,
    column_align: bool,
    text_direction: TextDirection,
    colour: [u8; 3],
    address: u8,
    pending: VecDeque<Step>,
}

impl View for CharacterLcdRgb {
    type V = LcdState;

    closed spec fn view(&self) -> LcdState {
        LcdState {
            text: self.text@,
            columns: self.columns,
            lines: self.lines,
            display_control: self.display_control,
            display_function: self.display_function,
            display_mode: self.display_mode,
            row: self.row,
            column: self.column,
            column_align: self.column_align,
            text_direction: self.text_direction,
            colour: self.colour,
            address: self.address,
            pending: self.pending@,
        }
    }
}

/// Lines `actions` up behind `queue`.
fn enqueue(queue: &mut VecDeque<Step>, actions: Vec<Action>)
    ensures
        final(queue)@ == old(queue)@ + doing(actions@),
{
    let mut i: usize = 0;
    while i < actions.len()
        invariant
            i <= actions.len(),
            queue@ == old(queue)@ + doing(actions@.take(i as int)),
        decreases actions.len() - i,
    {
        queue.push_back(Step::Do(actions[i]));
        i = i + 1;
    }
}

impl CharacterLcdRgb {
    #[verifier::type_invariant]
    spec fn inv(self) -> bool {
        self@.wf()
    }

    /// Configures the pins of the expander: display signals as outputs,
    /// buttons as inputs with pull-ups.
    fn setup_pins() -> (actions: Vec<Action>)
        ensures
            actions@ == setup_actions(),
    {
        let mut actions: Vec<Action> = Vec::new();
        let mut i: usize = 0;
        while i < LcdPins::PINS.len()
            invariant
                i <= LcdPins::PINS@.len(),
                actions@ == output_actions(LcdPins::PINS@.take(i as int)),
            decreases LcdPins::PINS@.len() - i,
        {
            actions.push(Action::ConfigurePin { pin: LcdPins::PINS[i], mode: PinMode::Output });
            i = i + 1;
        }
        let mut j: usize = 0;
        while j < BoardPins::PINS.len()
            invariant
                j <= BoardPins::PINS@.len(),
                actions@ == output_actions(LcdPins::PINS@) + input_actions(
                    BoardPins::PINS@.take(j as int),
                ),
            decreases BoardPins::PINS@.len() - j,
        {
            actions.push(Action::ConfigurePin { pin: BoardPins::PINS[j], mode: PinMode::Input });
            actions.push(Action::EnablePullUp { pin: BoardPins::PINS[j], enabled: true });
            j = j + 1;
            assert(BoardPins::PINS@.take(j as int).drop_last() =~= BoardPins::PINS@.take(j - 1));
        }
        assert(BoardPins::PINS@.take(j as int) =~= BoardPins::PINS@);
        actions
    }

    /// The power-on sequence for the given register contents.
    fn initialise(control: u8, function: u8, mode: u8) -> (actions: Vec<Action>)
        ensures
            actions@ == initialise_actions(control, function, mode),
    {
        // Into 4-bit mode
        let mut actions = write_ctrl(LCD_FORCE_4BIT_FIRST);
        let mut next = write_ctrl(LCD_FORCE_4BIT_SECOND);
        actions.append(&mut next);

        let mut next = write_ctrl(LCD_DISPLAYCONTROL | control);
        actions.append(&mut next);

        let mut next = write_ctrl(LCD_FUNCTIONSET | function);
        actions.append(&mut next);

        let mut next = write_ctrl(LCD_ENTRYMODESET | mode);
        actions.append(&mut next);

        let mut next = Self::clear_display();
        actions.append(&mut next);
        actions
    }

    /// The clear command and its settle time.
    fn clear_display() -> (actions: Vec<Action>)
        ensures
            actions@ == clear_actions(),
    {
        let mut actions = write_ctrl(LCD_CLEARDISPLAY);
        actions.push(Action::DelayMillis { millis: LCD_SETTLE_MILLIS });
        actions
    }

    /// A driver for a display of `columns` by `lines` cells behind the
    /// expander at `address`, or at the default address. Configuration of the
    /// expander and the power-on sequence of the controller are pending: the
    /// display is ready once they have gone through.
    pub fn new(columns: u8, lines: u8, address: Option<u8>) -> (lcd: Self)
        requires
            valid_geometry(columns, lines),
        ensures
            lcd@ == LcdState::power_on(columns, lines, address),
            lcd@.wf(),
    {
        let display_control: u8 = LCD_DISPLAYON | LCD_CURSOROFF | LCD_BLINKOFF;
        let display_function: u8 = LCD_4BITMODE | LCD_1LINE | LCD_2LINE | LCD_5X8DOTS;
        let display_mode: u8 = LCD_ENTRYLEFT | LCD_ENTRYSHIFTDECREMENT;

        let mut actions = Self::setup_pins();
        let mut next = Self::initialise(display_control, display_function, display_mode);
        actions.append(&mut next);
        let mut pending: VecDeque<Step> = VecDeque::new();
        enqueue(&mut pending, actions);

        Self {
            text: String::new(),
            columns,
            lines,
            display_control,
            display_function,
            display_mode,
            row: 0,
            column: 0,
            column_align: false,
            text_direction: TextDirection::LeftToRight,
            colour: [128, 128, 128],
            address: match address {
                Some(addr) => addr,
                None => DEFAULT_ADDRESS,
            },
            pending,
        }
    }

    /// The action to perform next, or `None` where no operation is in
    /// progress.
    pub fn pending_action(&self) -> (action: Option<Action>)
        ensures
            action == self@.next_action(),
            action is None <==> self@.pending.len() == 0,
    {
        proof {
            use_type_invariant(self);
        }
        if self.pending.len() > 0 {
            match self.pending[0] {
                Step::Do(action) => Some(action),
                Step::StoreCursor { .. } => None,
            }
        } else {
            None
        }
    }

    /// Takes note of how the pending action went, and hands the outcome
    /// back as it came. After a success the operation moves on to its next
    /// action. After a failure the operation is given up: nothing is pending
    /// any more, and no later action of it is ever asked for.
    pub fn acknowledge<E>(&mut self, outcome: Result<(), E>) -> (reported: Result<(), E>)
        ensures
            reported == outcome,
            outcome is Ok ==> final(self)@ == old(self)@.completed(),
            outcome is Err ==> final(self)@ == old(self)@.aborted(),
            final(self)@.wf(),
    {
        proof {
            use_type_invariant(&*self);
        }
        let mut pending: VecDeque<Step> = VecDeque::new();
        std::mem::swap(&mut pending, &mut self.pending);
        if outcome.is_ok() && pending.len() > 0 {
            let ghost start = old(self)@;
            let mut row: u8 = self.row;
            let mut column: u8 = self.column;
            let _ = pending.pop_front();
            loop
                invariant_except_break
                    (LcdState { row, column, pending: pending@, ..start }).settled()
                        == start.completed(),
                invariant
                    row < start.lines,
                    column < start.columns,
                    steps_fit(pending@, start.columns, start.lines),
                ensures
                    (LcdState { row, column, pending: pending@, ..start }) == start.completed(),
                    pending@.len() > 0 ==> pending@[0] is Do,
                decreases pending.len(),
            {
                if pending.len() == 0 {
                    break ;
                }
                match pending[0] {
                    Step::StoreCursor { row: r, column: c } => {
                        row = r;
                        column = c;
                        let _ = pending.pop_front();
                    },
                    Step::Do(_) => {
                        break ;
                    },
                }
            }
            self.row = row;
            self.column = column;
            self.pending = pending;
        } else {
            assert(outcome is Ok ==> old(self)@.pending =~= Seq::<Step>::empty());
        }
        outcome
    }

    /// Lines up the move of the write position to `column` of `row`.
    fn move_cursor(steps: &mut VecDeque<Step>, column: u8, row: u8)
        requires
            row < 4,
            LCD_ROW_OFFSETS[row as int] + column <= u8::MAX,
        ensures
            final(steps)@ == old(steps)@ + move_steps(column, row),
    {
        enqueue(steps, write_ctrl(LCD_SETDDRAMADDR | ddram_address(column, row)));
        steps.push_back(Step::StoreCursor { row, column });
    }

    /// Lines `actions` up in place of what was pending.
    fn line_up(&mut self, actions: Vec<Action>)
        ensures
            final(self)@ == old(self)@.begin(doing(actions@)),
            final(self)@.wf(),
    {
        proof {
            use_type_invariant(&*self);
        }
        let mut steps: VecDeque<Step> = VecDeque::new();
        enqueue(&mut steps, actions);
        assert(steps@ =~= doing(actions@));
        self.pending = steps;
        proof {
            use_type_invariant(&*self);
        }
    }

    /// Lines up the one command `value`.
    fn send_command(&mut self, value: u8)
        ensures
            final(self)@ == old(self)@.command(value),
            final(self)@.wf(),
    {
        self.line_up(write_ctrl(value));
    }

    /// Clears the contents of the display.
    pub fn clear(&mut self)
        ensures
            final(self)@ == old(self)@.begin(doing(clear_actions())),
            final(self)@.wf(),
    {
        self.line_up(Self::clear_display());
    }

    /// Sets the cursor to the home position.
    pub fn cursor_home(&mut self)
        ensures
            final(self)@ == old(self)@.begin(doing(home_actions())),
            final(self)@.wf(),
    {
        let mut actions = write_ctrl(LCD_RETURNHOME);
        actions.push(Action::DelayMillis { millis: LCD_SETTLE_MILLIS });
        assert(actions@ =~= home_actions());
        self.line_up(actions);
    }

    /// Sets the cursor to the cell at `column` of `row`, or to the nearest
    /// cell of the display where that lies outside. The driver remembers the
    /// new position once the controller has the command.
    pub fn set_cursor_position(&mut self, column: u8, row: u8)
        ensures
            final(self)@ == old(self)@.begin(
                move_steps(clamp(column, old(self)@.columns), clamp(row, old(self)@.lines)),
            ),
            final(self)@.wf(),
    {
        proof {
            use_type_invariant(&*self);
        }
        let row: u8 = if row < self.lines {
            row
        } else {
            self.lines - 1
        };
        let column: u8 = if column < self.columns {
            column
        } else {
            self.columns - 1
        };
        let mut steps: VecDeque<Step> = VecDeque::new();
        Self::move_cursor(&mut steps, column, row);
        self.pending = steps;
        proof {
            use_type_invariant(&*self);
        }
    }

    /// Activates or deactivates the display.
    pub fn set_activity(&mut self, active: bool)
        ensures
            final(self)@ == (LcdState {
                display_control: with_flag(old(self)@.display_control, LCD_DISPLAYON, active),
                ..old(self)@
            }).command(
                LCD_DISPLAYCONTROL | with_flag(old(self)@.display_control, LCD_DISPLAYON, active),
            ),
            final(self)@.wf(),
    {
        proof {
            use_type_invariant(&*self);
        }
        if active {
            self.display_control = self.display_control | LCD_DISPLAYON;
        } else {
            self.display_control = self.display_control & !LCD_DISPLAYON;
        }
        self.send_command(LCD_DISPLAYCONTROL | self.display_control);
    }

    /// Whether or not the display is currently active.
    pub fn get_activity(&self) -> (active: bool)
        ensures
            active == has_flag(self@.display_control, LCD_DISPLAYON),
    {
        self.display_control & LCD_DISPLAYON == LCD_DISPLAYON
    }

    /// Whether or not the display's cursor is currently blinking.
    pub fn get_blink(&self) -> (blink: bool)
        ensures
            blink == has_flag(self@.display_control, LCD_BLINKON),
    {
        self.display_control & LCD_BLINKON == LCD_BLINKON
    }

    /// Activates or deactivates cursor blinking.
    pub fn set_blink(&mut self, blink: bool)
        ensures
            final(self)@ == (LcdState {
                display_control: with_flag(old(self)@.display_control, LCD_BLINKON, blink),
                ..old(self)@
            }).command(
                LCD_DISPLAYCONTROL | with_flag(old(self)@.display_control, LCD_BLINKON, blink),
            ),
            final(self)@.wf(),
    {
        proof {
            use_type_invariant(&*self);
        }
        if blink {
            self.display_control = self.display_control | LCD_BLINKON;
        } else {
            self.display_control = self.display_control & !LCD_BLINKON;
        }
        self.send_command(LCD_DISPLAYCONTROL | self.display_control);
    }

    /// Makes the cursor visible or invisible.
    pub fn set_cursor_visible(&mut self, show: bool)
        ensures
            final(self)@ == (LcdState {
                display_control: with_flag(old(self)@.display_control, LCD_CURSORON, show),
                ..old(self)@
            }).command(
                LCD_DISPLAYCONTROL | with_flag(old(self)@.display_control, LCD_CURSORON, show),
            ),
            final(self)@.wf(),
    {
        proof {
            use_type_invariant(&*self);
        }
        if show {
            self.display_control = self.display_control | LCD_CURSORON;
        } else {
            self.display_control = self.display_control & !LCD_CURSORON;
        }
        self.send_command(LCD_DISPLAYCONTROL | self.display_control);
    }

    /// Whether the cursor is currently visible.
    pub fn get_cursor_visible(&self) -> (visible: bool)
        ensures
            visible == has_flag(self@.display_control, LCD_CURSORON),
    {
        self.display_control & LCD_CURSORON == LCD_CURSORON
    }

    /// Moves the contents of the display left one column.
    pub fn move_left(&mut self)
        ensures
            final(self)@ == old(self)@.command(LCD_CURSORSHIFT | LCD_DISPLAYMOVE | LCD_MOVELEFT),
            final(self)@.wf(),
    {
        self.send_command(LCD_CURSORSHIFT | LCD_DISPLAYMOVE | LCD_MOVELEFT);
    }

    /// Moves the contents of the display right one column.
    pub fn move_right(&mut self)
        ensures
            final(self)@ == old(self)@.command(LCD_CURSORSHIFT | LCD_DISPLAYMOVE | LCD_MOVERIGHT),
            final(self)@.wf(),
    {
        self.send_command(LCD_CURSORSHIFT | LCD_DISPLAYMOVE | LCD_MOVERIGHT);
    }

    /// Sets the direction of the text displayed.
    pub fn set_direction(&mut self, direction: TextDirection)
        ensures
            final(self)@ == (LcdState {
                text_direction: direction,
                display_mode: with_flag(
                    old(self)@.display_mode,
                    LCD_ENTRYLEFT,
                    direction == TextDirection::LeftToRight,
                ),
                ..old(self)@
            }).command(
                LCD_ENTRYMODESET | with_flag(
                    old(self)@.display_mode,
                    LCD_ENTRYLEFT,
                    direction == TextDirection::LeftToRight,
                ),
            ),
            final(self)@.wf(),
    {
        proof {
            use_type_invariant(&*self);
        }
        self.text_direction = direction;
        match self.text_direction {
            TextDirection::LeftToRight => {
                self.display_mode = self.display_mode | LCD_ENTRYLEFT;
                self.send_command(LCD_ENTRYMODESET | self.display_mode);
            },
            TextDirection::RightToLeft => {
                self.display_mode = self.display_mode & !LCD_ENTRYLEFT;
                self.send_command(LCD_ENTRYMODESET | self.display_mode);
            },
        }
    }

    /// The direction of the displayed text.
    pub fn get_direction(&self) -> (direction: TextDirection)
        ensures
            direction == self@.text_direction,
    {
        self.text_direction
    }

    /// Sets the text message displayed: keeps it, and renders it character by
    /// character from the cursor on. The driver's cursor is back at the top
    /// left once the last character has gone through.
    pub fn set_text(&mut self, text: String)
        ensures
            final(self)@ == (LcdState { text: text@, ..old(self)@ }).begin(
                old(self)@.text_steps(text@),
            ),
            final(self)@.wf(),
    {
        proof {
            use_type_invariant(&*self);
        }
        broadcast use vstd::string::axiom_spec_iter;
        let ghost state = self@;
        let lines: u8 = self.lines;
        let columns: u8 = self.columns;
        let mut line: u8 = self.row;

        // Initial cursor position
        let start: u8 = if self.text_direction == TextDirection::LeftToRight {
            self.column
        } else {
            self.columns - 1 - self.column
        };
        let mut steps: VecDeque<Step> = VecDeque::new();
        Self::move_cursor(&mut steps, start, line);

        for c in chars: text.as_str().chars()
            invariant
                chars.seq() == text@,
                state == self@,
                state.wf(),
                lines == state.lines,
                columns == state.columns,
                start == state.start_column(),
                start < columns,
                line < lines,
                line == row_after(text@.take(chars.index()), state.row, lines),
                steps@ == move_steps(start, state.row) + glyph_steps(
                    text@.take(chars.index()),
                    state.row,
                    state.resume_column(),
                    lines,
                ),
                steps_fit(steps@, columns, lines),
                steps@.len() > 0,
                steps@[0] is Do,
        {
            proof {
                assert(text@.take(chars.index() + 1).drop_last() =~= text@.take(chars.index()));
            }
            if c == '\n' {
                line = if line + 1 < lines {
                    line + 1
                } else {
                    lines - 1
                };
                let col: u8 = match (self.text_direction, self.column_align) {
                    (TextDirection::LeftToRight, true) => start,
                    (TextDirection::LeftToRight, false) => 0,
                    (TextDirection::RightToLeft, true) => start,
                    (TextDirection::RightToLeft, false) => columns - 1,
                };
                Self::move_cursor(&mut steps, col, line);
            } else {
                let code: u32 = c as u32;
                assert(code & 0xff <= 0xff) by (bit_vector);
                enqueue(&mut steps, write_char((code & 0xff) as u8));
            }
        }
        assert(text@.take(text@.len() as int) =~= text@);
        steps.push_back(Step::StoreCursor { row: 0, column: 0 });
        assert(steps@ =~= state.text_steps(text@));

        self.text = text;
        self.pending = steps;
        proof {
            use_type_invariant(&*self);
        }
    }

    /// The read that tells whether `button` is pressed. The level that the
    /// expander hands back is the answer: high while the button is idle, low
    /// while it is pressed.
    pub fn read_button(&self, button: BoardPins) -> (action: Action)
        ensures
            action == (Action::DigitalRead { pin: button.pin() }),
    {
        Action::DigitalRead { pin: button.mcp_pin() }
    }

    /// Whether a new line starts at the column where the text started.
    pub fn get_column_align(&self) -> (align: bool)
        ensures
            align == self@.column_align,
    {
        self.column_align
    }

    /// Makes new lines start at the column where the text started, or at the
    /// edge of the display. Nothing is sent to the controller.
    pub fn set_column_align(&mut self, align: bool)
        ensures
            final(self)@ == (LcdState { column_align: align, ..old(self)@ }),
            final(self)@.wf(),
    {
        proof {
            use_type_invariant(&*self);
        }
        self.column_align = align;
    }

    /// The cursor as the driver remembers it: column, then row.
    pub fn get_cursor_position(&self) -> (position: (u8, u8))
        ensures
            position == (self@.column, self@.row),
            position.0 < self@.columns,
            position.1 < self@.lines,
    {
        proof {
            use_type_invariant(self);
        }
        (self.column, self.row)
    }

    /// The geometry of the display: columns, then lines.
    pub fn get_geometry(&self) -> (geometry: (u8, u8))
        ensures
            geometry == (self@.columns, self@.lines),
            valid_geometry(geometry.0, geometry.1),
    {
        proof {
            use_type_invariant(self);
        }
        (self.columns, self.lines)
    }

    /// The text last handed to the driver.
    pub fn get_text(&self) -> (text: &String)
        ensures
            text@ == self@.text,
    {
        &self.text
    }

    /// The backlight colour: red, green, blue.
    pub fn get_colour(&self) -> (colour: [u8; 3])
        ensures
            colour == self@.colour,
    {
        self.colour
    }

    /// The bus address of the expander.
    pub fn get_address(&self) -> (address: u8)
        ensures
            address == self@.address,
    {
        self.address
    }
}

} // verus!
