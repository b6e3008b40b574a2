//! The driver as plain values: what it remembers, the steps of the operation
//! in progress, and how both change as actions go through or fail.

use vstd::prelude::*;
use crate::bus::{doing, Action, PinMode, Step};
use crate::character_lcd::{TextDirection, DEFAULT_ADDRESS};
use crate::commands::{
    cell_address, valid_geometry, LCD_1LINE, LCD_2LINE, LCD_4BITMODE, LCD_5X8DOTS,
    LCD_BLINKOFF, LCD_CLEARDISPLAY, LCD_CURSOROFF, LCD_DISPLAYCONTROL, LCD_DISPLAYON,
    LCD_ENTRYLEFT, LCD_ENTRYMODESET, LCD_ENTRYSHIFTDECREMENT, LCD_FORCE_4BIT_FIRST,
    LCD_FORCE_4BIT_SECOND, LCD_FUNCTIONSET, LCD_RETURNHOME, LCD_SETDDRAMADDR,
    LCD_SETTLE_MILLIS,
};
use crate::pins::{BoardPins, LcdPins};
use crate::render::{clamp, glyph_steps, move_steps};
use crate::transport::ctrl_actions;

verus! {

/// What a driver holds, as plain values.
pub struct LcdState {
    /// The text last handed to the driver.
    pub text: Seq<char>,
    pub columns: u8,
    pub lines: u8,
    /// Display on, cursor visible, cursor blinking.
    pub display_control: u8,
    /// Bus width, line count, font.
    pub display_function: u8,
    /// Entry direction, display shift.
    pub display_mode: u8,
    pub row: u8,
    pub column: u8,
    /// Whether a new line starts at the column where the text started.
    pub column_align: bool,
    pub text_direction: TextDirection,
    /// Backlight intensities: red, green, blue.
    pub colour: [u8; 3],
    /// Bus address of the expander.
    pub address: u8,
    /// Steps of the operation in progress that are still to come.
    pub pending: Seq<Step>,
}

/// Whether every position that `steps` store lies on the display.
pub open spec fn steps_fit(steps: Seq<Step>, columns: u8, lines: u8) -> bool {
    forall|i: int|
        0 <= i < steps.len() ==> (#[trigger] steps[i] matches Step::StoreCursor { row, column }
            ==> row < lines && column < columns)
}

/// Making each of `pins` an output, in order.
pub open spec fn output_actions(pins: Seq<u8>) -> Seq<Action> {
    Seq::new(pins.len(), |i: int| Action::ConfigurePin { pin: pins[i], mode: PinMode::Output })
}

/// Making each of `pins` an input and switching its pull-up on, pin after
/// pin.
pub open spec fn input_actions(pins: Seq<u8>) -> Seq<Action>
    decreases pins.len(),
{
    if pins.len() == 0 {
        Seq::empty()
    } else {
        input_actions(pins.drop_last()) + seq![
            Action::ConfigurePin { pin: pins.last(), mode: PinMode::Input },
            Action::EnablePullUp { pin: pins.last(), enabled: true },
        ]
    }
}

/// Configuration of the expander: every display signal an output, every
/// button an input with its pull-up on.
pub open spec fn setup_actions() -> Seq<Action> {
    output_actions(LcdPins::PINS@) + input_actions(BoardPins::PINS@)
}

/// Clearing the display: the command, then the time that the controller
/// needs for it.
pub open spec fn clear_actions() -> Seq<Action> {
    ctrl_actions(LCD_CLEARDISPLAY) + seq![Action::DelayMillis { millis: LCD_SETTLE_MILLIS }]
}

/// Returning home: the command, which also undoes any shift of the display,
/// then the time that the controller needs for it.
pub open spec fn home_actions() -> Seq<Action> {
    ctrl_actions(LCD_RETURNHOME) + seq![Action::DelayMillis { millis: LCD_SETTLE_MILLIS }]
}

/// Power-on sequence of the controller: into 4-bit mode, the three registers,
/// then a clear.
pub open spec fn initialise_actions(control: u8, function: u8, mode: u8) -> Seq<Action> {
    ctrl_actions(LCD_FORCE_4BIT_FIRST) + ctrl_actions(LCD_FORCE_4BIT_SECOND) + ctrl_actions(
        LCD_DISPLAYCONTROL | control,
    ) + ctrl_actions(LCD_FUNCTIONSET | function) + ctrl_actions(LCD_ENTRYMODESET | mode)
        + clear_actions()
}

/// The actions that `steps` ask for, in order.
pub open spec fn actions_in(steps: Seq<Step>) -> Seq<Action>
    decreases steps.len(),
{
    if steps.len() == 0 {
        Seq::empty()
    } else {
        match steps[0] {
            Step::Do(action) => seq![action] + actions_in(steps.drop_first()),
            Step::StoreCursor { .. } => actions_in(steps.drop_first()),
        }
    }
}

impl LcdState {
    /// What holds of every driver: the geometry is addressable, the cursor is
    /// on the display and stays there, and what is pending starts with an
    /// action.
    pub open spec fn wf(self) -> bool {
        &&& self.on_display()
        &&& (self.pending.len() > 0 ==> self.pending[0] is Do)
    }

    /// The geometry is addressable, and the cursor is on the display and
    /// stays there.
    pub open spec fn on_display(self) -> bool {
        &&& valid_geometry(self.columns, self.lines)
        &&& self.row < self.lines
        &&& self.column < self.columns
        &&& steps_fit(self.pending, self.columns, self.lines)
    }

    /// A new driver: display on without cursor or blink, 4-bit bus, two-line
    /// mode, left to right, cursor at the top left, backlight at half
    /// intensity; configuration and power-on sequence pending.
    pub open spec fn power_on(columns: u8, lines: u8, address: Option<u8>) -> LcdState {
        LcdState {
            text: Seq::empty(),
            columns,
            lines,
            display_control: LCD_DISPLAYON | LCD_CURSOROFF | LCD_BLINKOFF,
            display_function: LCD_4BITMODE | LCD_1LINE | LCD_2LINE | LCD_5X8DOTS,
            display_mode: LCD_ENTRYLEFT | LCD_ENTRYSHIFTDECREMENT,
            row: 0,
            column: 0,
            column_align: false,
            text_direction: TextDirection::LeftToRight,
            colour: [128u8, 128u8, 128u8],
            address: match address {
                Some(a) => a,
                None => DEFAULT_ADDRESS,
            },
            pending: doing(
                setup_actions() + initialise_actions(
                    LCD_DISPLAYON | LCD_CURSOROFF | LCD_BLINKOFF,
                    LCD_4BITMODE | LCD_1LINE | LCD_2LINE | LCD_5X8DOTS,
                    LCD_ENTRYLEFT | LCD_ENTRYSHIFTDECREMENT,
                ),
            ),
        }
    }

    /// The driver with `steps` lined up in place of what was pending.
    pub open spec fn begin(self, steps: Seq<Step>) -> LcdState {
        LcdState { pending: steps, ..self }
    }

    /// The driver with the one command `value` lined up.
    pub open spec fn command(self, value: u8) -> LcdState {
        self.begin(doing(ctrl_actions(value)))
    }

    /// The column in which text starts: the cursor's column, counted from
    /// the left edge when writing left to right and from the right edge when
    /// writing right to left.
    pub open spec fn start_column(self) -> u8 {
        match self.text_direction {
            TextDirection::LeftToRight => self.column,
            TextDirection::RightToLeft => (self.columns - 1 - self.column) as u8,
        }
    }

    /// The column in which text goes on after a line break: the column in
    /// which it started where lines are aligned, else the edge that the
    /// direction starts from.
    pub open spec fn resume_column(self) -> u8 {
        match (self.text_direction, self.column_align) {
            (TextDirection::LeftToRight, true) => self.start_column(),
            (TextDirection::LeftToRight, false) => 0,
            (TextDirection::RightToLeft, true) => self.start_column(),
            (TextDirection::RightToLeft, false) => (self.columns - 1) as u8,
        }
    }

    /// Steps that render `text` from the cursor on: the write position is
    /// set, the characters follow, and at the end the cursor is reset to the
    /// top left.
    pub open spec fn text_steps(self, text: Seq<char>) -> Seq<Step> {
        move_steps(self.start_column(), self.row) + glyph_steps(
            text,
            self.row,
            self.resume_column(),
            self.lines,
        ) + seq![Step::StoreCursor { row: 0, column: 0 }]
    }

    /// The action that the caller is to perform next, if any.
    pub open spec fn next_action(self) -> Option<Action> {
        if self.pending.len() > 0 {
            match self.pending[0] {
                Step::Do(action) => Some(action),
                Step::StoreCursor { .. } => None,
            }
        } else {
            None
        }
    }

    /// The driver once it has taken the notes at the head of what is
    /// pending.
    pub open spec fn settled(self) -> LcdState
        decreases self.pending.len(),
    {
        if self.pending.len() > 0 {
            match self.pending[0] {
                Step::StoreCursor { row, column } => (LcdState {
                    row,
                    column,
                    pending: self.pending.drop_first(),
                    ..self
                }).settled(),
                Step::Do(_) => self,
            }
        } else {
            self
        }
    }

    /// The driver once the pending action has gone through.
    pub open spec fn completed(self) -> LcdState {
        if self.pending.len() > 0 {
            (LcdState { pending: self.pending.drop_first(), ..self }).settled()
        } else {
            self
        }
    }

    /// The driver once the pending action has failed: the operation is
    /// given up, and what the driver remembers stays as it is.
    pub open spec fn aborted(self) -> LcdState {
        LcdState { pending: Seq::empty(), ..self }
    }

    /// The actions that the caller gets to perform while it acknowledges
    /// `outcomes`, one for each action and in order: `true` for an action that
    /// went through, `false` for one that failed.
    pub open spec fn asked(self, outcomes: Seq<bool>) -> Seq<Action>
        decreases outcomes.len(),
    {
        if outcomes.len() == 0 {
            Seq::empty()
        } else {
            match self.next_action() {
                Some(action) => {
                    let then = if outcomes[0] {
                        self.completed()
                    } else {
                        self.aborted()
                    };
                    seq![action] + then.asked(outcomes.drop_first())
                },
                None => Seq::empty(),
            }
        }
    }

    /// The driver once everything pending has gone through.
    pub open spec fn finished(self) -> LcdState
        decreases self.pending.len(),
    {
        if self.pending.len() > 0 {
            let rest = LcdState { pending: self.pending.drop_first(), ..self };
            match self.pending[0] {
                Step::StoreCursor { row, column } => (LcdState { row, column, ..rest }).finished(),
                Step::Do(_) => rest.finished(),
            }
        } else {
            self
        }
    }
}

/// Steps that only ask for actions store no position, so they fit every
/// display.
pub proof fn lemma_doing_fits(actions: Seq<Action>, columns: u8, lines: u8)
    ensures
        steps_fit(doing(actions), columns, lines),
        doing(actions).len() == actions.len(),
{
}

/// Going through one run of steps and then another ends where going through
/// both in one ends.
pub proof fn lemma_finished_concat(state: LcdState, first: Seq<Step>, second: Seq<Step>)
    ensures
        state.begin(first + second).finished() == state.begin(first).finished().begin(
            second,
        ).finished(),
    decreases first.len(),
{
    if first.len() > 0 {
        assert((first + second).drop_first() =~= first.drop_first() + second);
        match first[0] {
            Step::StoreCursor { row, column } => {
                lemma_finished_concat(
                    LcdState { row, column, ..state },
                    first.drop_first(),
                    second,
                );
            },
            Step::Do(_) => {
                lemma_finished_concat(state, first.drop_first(), second);
            },
        }
    }
}

/// Actions change nothing of what the driver remembers: once they have all
/// gone through, only the pending steps are gone.
pub proof fn lemma_finished_doing(state: LcdState, actions: Seq<Action>)
    ensures
        state.begin(doing(actions)).finished() == state.begin(Seq::empty()),
    decreases actions.len(),
{
    if actions.len() > 0 {
        assert(doing(actions).drop_first() =~= doing(actions.drop_first()));
        lemma_finished_doing(state, actions.drop_first());
    } else {
        assert(doing(actions) =~= Seq::<Step>::empty());
    }
}

/// A request for any cell ends with the cursor on the display, at the cell
/// asked for or, where that lies outside, at the last row and the last column:
/// each coordinate is the smaller of the one asked for and the largest there
/// is. Until the address command has gone through, the cursor stays where it
/// was.
pub proof fn lemma_cursor_clamped(state: LcdState, column: u8, row: u8)
    requires
        state.wf(),
    ensures
        ({
            let begun = state.begin(
                move_steps(clamp(column, state.columns), clamp(row, state.lines)),
            );
            &&& begun.wf()
            &&& begun.row == state.row && begun.column == state.column
            &&& begun.finished() == (LcdState {
                row: clamp(row, state.lines),
                column: clamp(column, state.columns),
                pending: Seq::empty(),
                ..state
            })
            &&& begun.finished().row == vstd::math::min(row as int, state.lines - 1)
            &&& begun.finished().column == vstd::math::min(column as int, state.columns - 1)
            &&& 0 <= begun.finished().row < state.lines
            &&& 0 <= begun.finished().column < state.columns
        }),
{
    let c = clamp(column, state.columns);
    let r = clamp(row, state.lines);
    let command = doing(ctrl_actions(LCD_SETDDRAMADDR | cell_address(c, r)));
    let note = seq![Step::StoreCursor { row: r, column: c }];
    lemma_finished_concat(state, command, note);
    lemma_finished_doing(state, ctrl_actions(LCD_SETDDRAMADDR | cell_address(c, r)));
    let idle = state.begin(Seq::empty());
    assert(note.drop_first() =~= Seq::<Step>::empty());
    assert(idle.begin(note).finished() == (LcdState { row: r, column: c, ..idle }).begin(
        note.drop_first(),
    ).finished());
}

/// Going through what is pending changes nothing but the cursor, keeps it on
/// the display, and leaves nothing pending.
pub proof fn lemma_finished_frame(state: LcdState)
    ensures
        state.finished() == (LcdState {
            row: state.finished().row,
            column: state.finished().column,
            pending: Seq::empty(),
            ..state
        }),
        state.on_display() ==> state.finished().wf(),
    decreases state.pending.len(),
{
    if state.pending.len() > 0 {
        let rest = LcdState { pending: state.pending.drop_first(), ..state };
        lemma_rest_fits(state);
        match state.pending[0] {
            Step::StoreCursor { row, column } => {
                lemma_finished_frame(LcdState { row, column, ..rest });
            },
            Step::Do(_) => {
                lemma_finished_frame(rest);
            },
        }
    } else {
        assert(state.pending =~= Seq::<Step>::empty());
    }
}

/// What follows the first pending step stores no other positions than the
/// pending steps do.
proof fn lemma_rest_fits(state: LcdState)
    requires
        state.pending.len() > 0,
    ensures
        steps_fit(state.pending, state.columns, state.lines) ==> steps_fit(
            state.pending.drop_first(),
            state.columns,
            state.lines,
        ),
{
}

/// Rendering a text ends with the text kept and the cursor at the top left,
/// wherever the text ended on the display.
pub proof fn lemma_text_ends_top_left(state: LcdState, text: Seq<char>)
    requires
        state.wf(),
    ensures
        (LcdState { text, ..state }).begin(state.text_steps(text)).finished() == (LcdState {
            text,
            row: 0,
            column: 0,
            pending: Seq::empty(),
            ..state
        }),
{
    let kept = LcdState { text, ..state };
    let body = move_steps(state.start_column(), state.row) + glyph_steps(
        text,
        state.row,
        state.resume_column(),
        state.lines,
    );
    let note = seq![Step::StoreCursor { row: 0, column: 0 }];
    lemma_finished_concat(kept, body, note);
    let shown = kept.begin(body).finished();
    lemma_finished_frame(kept.begin(body));
    assert(note.drop_first() =~= Seq::<Step>::empty());
    assert(shown.begin(note).finished() == (LcdState { row: 0, column: 0, ..shown }).begin(
        note.drop_first(),
    ).finished());
}

/// Taking the notes at the head of what is pending skips no action, ends
/// where going through everything ends, and leaves an action at the head.
pub proof fn lemma_settled(state: LcdState)
    requires
        state.on_display(),
    ensures
        state.settled().wf(),
        state.settled().pending.len() <= state.pending.len(),
        state.settled().finished() == state.finished(),
        actions_in(state.settled().pending) == actions_in(state.pending),
        state.settled() == (LcdState {
            row: state.settled().row,
            column: state.settled().column,
            pending: state.settled().pending,
            ..state
        }),
    decreases state.pending.len(),
{
    if state.pending.len() > 0 {
        match state.pending[0] {
            Step::StoreCursor { row, column } => {
                lemma_rest_fits(state);
                lemma_settled(
                    LcdState { row, column, pending: state.pending.drop_first(), ..state },
                );
            },
            Step::Do(_) => {},
        }
    }
}

/// An action that goes through brings the operation forward: the driver
/// stays well formed, less is pending, the actions still to come are those
/// that were to come after it, and the operation ends where it would have
/// ended.
pub proof fn lemma_completed(state: LcdState)
    requires
        state.wf(),
        state.pending.len() > 0,
    ensures
        state.completed().wf(),
        state.completed().pending.len() < state.pending.len(),
        state.completed().finished() == state.finished(),
        actions_in(state.pending) == seq![state.next_action()->0] + actions_in(
            state.completed().pending,
        ),
{
    lemma_rest_fits(state);
    lemma_settled(LcdState { pending: state.pending.drop_first(), ..state });
}

/// A failed action ends the operation: the driver stays well formed and
/// remembers what it did, nothing is pending, and acknowledging anything
/// further changes nothing.
pub proof fn lemma_aborted(state: LcdState)
    requires
        state.wf(),
    ensures
        state.aborted().wf(),
        state.aborted().next_action() is None,
        state.aborted().completed() == state.aborted(),
        state.aborted().aborted() == state.aborted(),
        state.aborted().row == state.row && state.aborted().column == state.column,
{
}

/// Whatever the outcomes, the caller is asked for the pending actions in
/// their order, none left out and none made up, and for none after one that
/// failed.
pub proof fn lemma_nothing_after_failure(state: LcdState, outcomes: Seq<bool>, failed: int)
    requires
        state.wf(),
        0 <= failed < outcomes.len(),
        !outcomes[failed],
    ensures
        state.asked(outcomes).is_prefix_of(actions_in(state.pending)),
        state.asked(outcomes).len() <= failed + 1,
    decreases outcomes.len(),
{
    lemma_asked_in_order(state, outcomes);
    if state.pending.len() > 0 {
        if outcomes[0] {
            lemma_completed(state);
            lemma_nothing_after_failure(state.completed(), outcomes.drop_first(), failed - 1);
        } else {
            lemma_aborted(state);
            lemma_idle_asks_nothing(state.aborted(), outcomes.drop_first());
        }
    }
}

/// Whatever the outcomes, the caller is asked for the pending actions in
/// their order, none left out and none made up.
pub proof fn lemma_asked_in_order(state: LcdState, outcomes: Seq<bool>)
    requires
        state.wf(),
    ensures
        state.asked(outcomes).is_prefix_of(actions_in(state.pending)),
        state.asked(outcomes).len() <= outcomes.len(),
    decreases outcomes.len(),
{
    if outcomes.len() > 0 && state.pending.len() > 0 {
        let then = if outcomes[0] {
            state.completed()
        } else {
            state.aborted()
        };
        lemma_completed(state);
        lemma_aborted(state);
        lemma_asked_in_order(then, outcomes.drop_first());
        if !outcomes[0] {
            lemma_idle_asks_nothing(then, outcomes.drop_first());
        }
    }
}

/// A driver with nothing pending asks for nothing.
pub proof fn lemma_idle_asks_nothing(state: LcdState, outcomes: Seq<bool>)
    requires
        state.pending.len() == 0,
    ensures
        state.asked(outcomes) == Seq::<Action>::empty(),
{
}

/// The steps that ask for `actions` ask for exactly these.
pub proof fn lemma_actions_in_doing(actions: Seq<Action>)
    ensures
        actions_in(doing(actions)) == actions,
    decreases actions.len(),
{
    if actions.len() > 0 {
        assert(doing(actions).drop_first() =~= doing(actions.drop_first()));
        lemma_actions_in_doing(actions.drop_first());
    }
}

/// A failure while the display is being brought up ends the bring-up: the
/// caller is asked for the configuration of the expander and the power-on
/// sequence in their order, and for nothing after the action that failed.
pub proof fn lemma_initialisation_stops_at_failure(
    columns: u8,
    lines: u8,
    address: Option<u8>,
    outcomes: Seq<bool>,
    failed: int,
)
    requires
        valid_geometry(columns, lines),
        0 <= failed < outcomes.len(),
        !outcomes[failed],
    ensures
        ({
            let state = LcdState::power_on(columns, lines, address);
            &&& state.asked(outcomes).is_prefix_of(
                setup_actions() + initialise_actions(
                    state.display_control,
                    state.display_function,
                    state.display_mode,
                ),
            )
            &&& state.asked(outcomes).len() <= failed + 1
        }),
{
    let state = LcdState::power_on(columns, lines, address);
    let actions = setup_actions() + initialise_actions(
        state.display_control,
        state.display_function,
        state.display_mode,
    );
    lemma_doing_fits(actions, columns, lines);
    lemma_actions_in_doing(actions);
    lemma_nothing_after_failure(state, outcomes, failed);
}

} // verus!
