//! Command set of the HD44780 controller: command bytes, the flags of its
//! three registers, and where each display row lies in its memory.

use vstd::prelude::*;

verus! {

// Commands
pub const LCD_CLEARDISPLAY: u8 = 0x01;
pub const LCD_RETURNHOME: u8 = 0x02;
pub const LCD_ENTRYMODESET: u8 = 0x04;
pub const LCD_DISPLAYCONTROL: u8 = 0x08;
pub const LCD_CURSORSHIFT: u8 = 0x10;
pub const LCD_FUNCTIONSET: u8 = 0x20;
pub const LCD_SETCGRAMADDR: u8 = 0x40;
pub const LCD_SETDDRAMADDR: u8 = 0x80;

// Entry mode flags
pub const LCD_ENTRYLEFT: u8 = 0x02;
pub const LCD_ENTRYSHIFTDECREMENT: u8 = 0x00;

// Display control flags
pub const LCD_DISPLAYON: u8 = 0x04;
pub const LCD_CURSORON: u8 = 0x02;
pub const LCD_CURSOROFF: u8 = 0x00;
pub const LCD_BLINKON: u8 = 0x01;
pub const LCD_BLINKOFF: u8 = 0x00;

// Shift flags
pub const LCD_DISPLAYMOVE: u8 = 0x08;
pub const LCD_MOVERIGHT: u8 = 0x04;
pub const LCD_MOVELEFT: u8 = 0x00;

// Function set flags
pub const LCD_4BITMODE: u8 = 0x00;
pub const LCD_2LINE: u8 = 0x08;
pub const LCD_1LINE: u8 = 0x00;
pub const LCD_5X8DOTS: u8 = 0x00;

/// The two bytes that bring the controller into 4-bit mode from whatever mode
/// it woke up in.
pub const LCD_FORCE_4BIT_FIRST: u8 = 0x33;
pub const LCD_FORCE_4BIT_SECOND: u8 = 0x32;

/// Milliseconds that the controller needs after a clear or a return home.
pub const LCD_SETTLE_MILLIS: u64 = 3;

/// Address of the first cell of each display row in the controller's memory.
pub const LCD_ROW_OFFSETS: [u8; 4] = [0x00, 0x40, 0x14, 0x54];

/// `register` with `flag` set or cleared.
pub open spec fn with_flag(register: u8, flag: u8, on: bool) -> u8 {
    if on {
        register | flag
    } else {
        register & !flag
    }
}

/// Whether `flag` is set in `register`.
pub open spec fn has_flag(register: u8, flag: u8) -> bool {
    register & flag == flag
}

/// Whether `flag` is one bit of a register.
pub open spec fn single_bit(flag: u8) -> bool {
    flag == 0x01 || flag == 0x02 || flag == 0x04 || flag == 0x08 || flag == 0x10 || flag == 0x20
        || flag == 0x40 || flag == 0x80
}

/// A geometry that the driver can address: one to four lines, at least one
/// column, and every cell's address within a byte.
pub open spec fn valid_geometry(columns: u8, lines: u8) -> bool {
    &&& 1 <= columns
    &&& 1 <= lines <= 4
    &&& forall|row: int|
        0 <= row < lines ==> #[trigger] LCD_ROW_OFFSETS[row] + (columns - 1) <= u8::MAX
}

/// Address of the cell at `column` in `row`.
pub open spec fn cell_address(column: u8, row: u8) -> u8 {
    (LCD_ROW_OFFSETS[row as int] + column) as u8
}

/// Whether the driver can address a display of this geometry.
pub fn geometry_is_valid(columns: u8, lines: u8) -> (valid: bool)
    ensures
        valid == valid_geometry(columns, lines),
{
    if columns < 1 || lines < 1 || lines > 4 {
        return false;
    }
    let mut row: u8 = 0;
    while row < lines
        invariant
            1 <= columns,
            1 <= lines <= 4,
            row <= lines,
            forall|r: int|
                0 <= r < row ==> #[trigger] LCD_ROW_OFFSETS[r] + (columns - 1) <= u8::MAX,
        decreases lines - row,
    {
        if LCD_ROW_OFFSETS[row as usize] > u8::MAX - (columns - 1) {
            return false;
        }
        row = row + 1;
    }
    true
}

/// Address of the cell at `column` in `row`: the row's offset plus the
/// column.
pub fn ddram_address(column: u8, row: u8) -> (address: u8)
    requires
        row < 4,
        LCD_ROW_OFFSETS[row as int] + column <= u8::MAX,
    ensures
        address == LCD_ROW_OFFSETS[row as int] + column,
        address == cell_address(column, row),
{
    column + LCD_ROW_OFFSETS[row as usize]
}

/// The offsets of the four rows.
pub proof fn lemma_row_offsets()
    ensures
        LCD_ROW_OFFSETS[0] == 0x00,
        LCD_ROW_OFFSETS[1] == 0x40,
        LCD_ROW_OFFSETS[2] == 0x14,
        LCD_ROW_OFFSETS[3] == 0x54,
{
}

/// Every cell of a valid geometry has its row's offset plus its column for an
/// address, without overflow.
pub proof fn lemma_cell_address(columns: u8, lines: u8, column: u8, row: u8)
    requires
        valid_geometry(columns, lines),
        column < columns,
        row < lines,
    ensures
        cell_address(column, row) == LCD_ROW_OFFSETS[row as int] + column,
{
}

/// Each flag that the driver sets or clears is one bit of its register.
pub proof fn lemma_flags_are_single_bits()
    ensures
        single_bit(LCD_DISPLAYON),
        single_bit(LCD_CURSORON),
        single_bit(LCD_BLINKON),
        single_bit(LCD_ENTRYLEFT),
{
}

/// Setting or clearing one flag touches that bit of the register and no other:
/// the flag then reads as asked, the register changes by exactly that bit
/// where the flag changes and not at all where it does not, and putting the
/// flag back restores the register.
pub proof fn lemma_flag_toggle(register: u8, flag: u8, on: bool)
    requires
        single_bit(flag),
    ensures
        has_flag(with_flag(register, flag, on), flag) == on,
        with_flag(register, flag, on) & !flag == register & !flag,
        has_flag(register, flag) != on ==> with_flag(register, flag, on) ^ register == flag,
        has_flag(register, flag) == on ==> with_flag(register, flag, on) == register,
        with_flag(
            with_flag(register, flag, !has_flag(register, flag)),
            flag,
            has_flag(register, flag),
        ) == register,
{
    assert((register | flag) & flag == flag) by (bit_vector);
    assert(single_bit(flag) ==> (register & !flag) & flag != flag) by (bit_vector);
    assert((register & !flag) & !flag == register & !flag) by (bit_vector);
    assert(single_bit(flag) && register & flag != flag ==> (register | flag) ^ register == flag)
        by (bit_vector);
    assert(register & flag == flag ==> (register & !flag) ^ register == flag) by (bit_vector);
    assert(register & flag == flag ==> register | flag == register) by (bit_vector);
    assert(single_bit(flag) && register & flag != flag ==> register & !flag == register)
        by (bit_vector);
    assert(single_bit(flag) && register & flag != flag ==> (register | flag) & !flag == register)
        by (bit_vector);
    assert(register & flag == flag ==> (register & !flag) | flag == register) by (bit_vector);
}

} // verus!
