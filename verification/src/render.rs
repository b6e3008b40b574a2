//! Layout of text on the display: where a run of characters puts the write
//! position, and the steps that bring it onto the controller.

use vstd::prelude::*;
use crate::bus::{doing, Step};
use crate::commands::{cell_address, LCD_SETDDRAMADDR};
use crate::transport::{char_actions, ctrl_actions};

verus! {

/// `value`, or the last index below `limit` where `value` lies beyond it.
pub open spec fn clamp(value: u8, limit: u8) -> u8 {
    if value < limit {
        value
    } else {
        (limit - 1) as u8
    }
}

/// The row below `row`, or the last row where there is none below.
pub open spec fn next_row(row: u8, lines: u8) -> u8 {
    if row + 1 < lines {
        (row + 1) as u8
    } else {
        (lines - 1) as u8
    }
}

/// The byte sent for a character: the low eight bits of its code point.
pub open spec fn glyph_code(c: char) -> u8 {
    (c as u32 & 0xff) as u8
}

/// Moving the write position: the address command for the cell, then the
/// note of the new position.
pub open spec fn move_steps(column: u8, row: u8) -> Seq<Step> {
    doing(ctrl_actions(LCD_SETDDRAMADDR | cell_address(column, row))) + seq![
        Step::StoreCursor { row, column },
    ]
}

/// How many line breaks `chars` hold.
pub open spec fn line_breaks(chars: Seq<char>) -> nat
    decreases chars.len(),
{
    if chars.len() == 0 {
        0
    } else {
        line_breaks(chars.drop_last()) + if chars.last() == '\n' {
            1nat
        } else {
            0nat
        }
    }
}

/// The row of the write position after `chars`, having started in `row`:
/// one row down for each line break, but never below the last row.
pub open spec fn row_after(chars: Seq<char>, row: u8, lines: u8) -> u8 {
    if row + line_breaks(chars) < lines {
        (row + line_breaks(chars)) as u8
    } else {
        (lines - 1) as u8
    }
}

/// Steps for one character met in `row`: a line break moves the write
/// position to column `resume` of the next row; any other character is sent
/// to the controller, which puts it at its write position and moves on.
pub open spec fn char_steps(c: char, row: u8, resume: u8, lines: u8) -> Seq<Step> {
    if c == '\n' {
        move_steps(resume, next_row(row, lines))
    } else {
        doing(char_actions(glyph_code(c)))
    }
}

/// Steps for a run of characters that starts in `row`.
pub open spec fn glyph_steps(chars: Seq<char>, row: u8, resume: u8, lines: u8) -> Seq<Step>
    decreases chars.len(),
{
    if chars.len() == 0 {
        Seq::empty()
    } else {
        glyph_steps(chars.drop_last(), row, resume, lines) + char_steps(
            chars.last(),
            row_after(chars.drop_last(), row, lines),
            resume,
            lines,
        )
    }
}

/// Character by character, a line break moves the write position to the
/// next row, or leaves it on the last row, and any other character leaves it
/// in its row. The write position never leaves the display.
pub proof fn lemma_row_after_step(chars: Seq<char>, c: char, row: u8, lines: u8)
    requires
        row < lines,
    ensures
        row_after(Seq::<char>::empty(), row, lines) == row,
        row_after(chars.push(c), row, lines) == if c == '\n' {
            next_row(row_after(chars, row, lines), lines)
        } else {
            row_after(chars, row, lines)
        },
        row_after(chars, row, lines) < lines,
{
    assert(chars.push(c).drop_last() =~= chars);
}

} // verus!
