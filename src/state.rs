//! The software mirror of the controller: its configuration, its address counter and the
//! position of the display window, with the controller's wrap-around rules.
//!
//! The display RAM holds 80 cells in both line modes: one line of 80 columns, or two lines
//! of 40. A position is `(column, row)`; its cell index is `row * capacity + column`, and
//! every movement of the address counter is arithmetic on that index modulo 80.

use vstd::prelude::*;
use crate::command::{DataWidth, Font, LineMode, MoveDirection, RAMType, ShiftType, State};

verus! {

/// Number of cells of display RAM, in either line mode.
pub const CELL_COUNT: u8 = 80;

/// Columns per line.
pub open spec fn capacity(line: LineMode) -> int {
    match line {
        LineMode::OneLine => 80,
        LineMode::TwoLine => 40,
    }
}

/// Number of lines.
pub open spec fn rows(line: LineMode) -> int {
    match line {
        LineMode::OneLine => 1,
        LineMode::TwoLine => 2,
    }
}

/// A position lies on the display RAM.
pub open spec fn pos_valid(line: LineMode, pos: (u8, u8)) -> bool {
    pos.0 < capacity(line) && pos.1 < rows(line)
}

/// The cell index of a position.
pub open spec fn cell_index(line: LineMode, pos: (u8, u8)) -> int {
    pos.1 * capacity(line) + pos.0
}

/// The position of a cell index in `[0, 80)`.
pub open spec fn pos_at(line: LineMode, k: int) -> (u8, u8) {
    ((k % capacity(line)) as u8, (k / capacity(line)) as u8)
}

/// The position `n` cells away from `pos` in direction `dir`, wrapping around the 80 cells.
pub open spec fn advance(line: LineMode, dir: MoveDirection, pos: (u8, u8), n: int) -> (u8, u8) {
    let k = match dir {
        MoveDirection::LeftToRight => cell_index(line, pos) + n,
        MoveDirection::RightToLeft => cell_index(line, pos) - n,
    };
    pos_at(line, k % (CELL_COUNT as int))
}

/// Where the address counter goes after one data transfer (or one cursor shift) at `pos`:
/// the next cell in direction `dir`, from the end of a line to the start of the other one.
pub open spec fn step(line: LineMode, dir: MoveDirection, pos: (u8, u8)) -> (u8, u8) {
    advance(line, dir, pos, 1)
}

/// A relative offset `(columns, rows)` that `calculate_pos_by_offset` accepts: less than
/// one line of columns, and at most one row (none in one-line mode).
pub open spec fn offset_allowed(line: LineMode, offset: (i8, i8)) -> bool {
    &&& -capacity(line) < offset.0 < capacity(line)
    &&& -1 <= offset.1 <= 1
    &&& line == LineMode::OneLine ==> offset.1 == 0
}

/// The position reached from `pos` by a relative offset: a two-digit addition in base
/// `capacity` whose column carry moves to the other row, modulo the 80 cells.
pub open spec fn pos_by_offset(line: LineMode, pos: (u8, u8), offset: (i8, i8)) -> (u8, u8) {
    pos_at(
        line,
        (cell_index(line, pos) + offset.1 * capacity(line) + offset.0) % (CELL_COUNT as int),
    )
}

/// The opposite of an offset.
pub open spec fn negated(offset: (i8, i8)) -> (i8, i8) {
    ((-offset.0) as i8, (-offset.1) as i8)
}

/// The display window moved by one column in direction `dir`, modulo the line capacity.
pub open spec fn shifted_offset(line: LineMode, dir: MoveDirection, offset: u8) -> u8 {
    match dir {
        MoveDirection::LeftToRight => ((offset + 1) % capacity(line)) as u8,
        MoveDirection::RightToLeft => ((offset - 1 + capacity(line)) % capacity(line)) as u8,
    }
}

/// The controller has no 5x11 font in two-line mode.
pub open spec fn compatible(line: LineMode, font: Font) -> bool {
    !(line == LineMode::TwoLine && font == Font::Font5x11)
}

/// Whether a font can be used with a line mode.
pub fn line_font_compatible(line: LineMode, font: Font) -> (r: bool)
    ensures
        r == compatible(line, font),
{
    !(line == LineMode::TwoLine && font == Font::Font5x11)
}

/// Columns per line: 80 in one-line mode, 40 in two-line mode.
pub fn line_capacity(line: LineMode) -> (r: u8)
    ensures
        r == capacity(line),
{
    match line {
        LineMode::OneLine => 80,
        LineMode::TwoLine => 40,
    }
}

/// Whether a position lies on the display RAM in a line mode.
pub fn pos_in_bounds(line: LineMode, pos: (u8, u8)) -> (r: bool)
    ensures
        r == pos_valid(line, pos),
{
    match line {
        LineMode::OneLine => pos.0 < 80 && pos.1 < 1,
        LineMode::TwoLine => pos.0 < 40 && pos.1 < 2,
    }
}

/// Whether `calculate_pos_by_offset` accepts an offset in a line mode.
pub fn offset_in_range(line: LineMode, offset: (i8, i8)) -> (r: bool)
    ensures
        r == offset_allowed(line, offset),
{
    match line {
        LineMode::OneLine => -80 < offset.0 && offset.0 < 80 && offset.1 == 0,
        LineMode::TwoLine => -40 < offset.0 && offset.0 < 40 && -1 <= offset.1 && offset.1 <= 1,
    }
}

/// Every valid position is the position of its own cell index.
pub proof fn lemma_cell_index(line: LineMode, pos: (u8, u8))
    requires
        pos_valid(line, pos),
    ensures
        0 <= cell_index(line, pos) < CELL_COUNT,
        pos_at(line, cell_index(line, pos)) == pos,
{
    let c = capacity(line);
    let k = cell_index(line, pos);
    assert(k == pos.1 * c + pos.0);
    if line == LineMode::OneLine {
        assert(pos.1 == 0);
    } else {
        assert(pos.1 == 0 || pos.1 == 1);
    }
    vstd::arithmetic::div_mod::lemma_fundamental_div_mod_converse(k, c, pos.1 as int, pos.0 as int);
}

/// The position of every cell index is valid and has that index.
pub proof fn lemma_pos_at(line: LineMode, k: int)
    requires
        0 <= k < CELL_COUNT,
    ensures
        pos_valid(line, pos_at(line, k)),
        cell_index(line, pos_at(line, k)) == k,
{
    let c = capacity(line);
    vstd::arithmetic::div_mod::lemma_fundamental_div_mod(k, c);
    vstd::arithmetic::div_mod::lemma_mod_bound(k, c);
    if line == LineMode::OneLine {
        assert(k / 80 == 0);
    } else {
        assert(k / 40 < 2);
    }
}

/// Moving by an offset leads to a valid position.
pub proof fn lemma_pos_by_offset_valid(line: LineMode, pos: (u8, u8), offset: (i8, i8))
    ensures
        pos_valid(line, pos_by_offset(line, pos, offset)),
{
    let k = (cell_index(line, pos) + offset.1 * capacity(line) + offset.0) % (CELL_COUNT as int);
    lemma_pos_at(line, k);
}

/// A zero offset leaves every valid position where it is.
pub proof fn lemma_zero_offset(line: LineMode, pos: (u8, u8))
    requires
        pos_valid(line, pos),
    ensures
        pos_by_offset(line, pos, (0i8, 0i8)) == pos,
{
    lemma_cell_index(line, pos);
    let k = cell_index(line, pos);
    vstd::arithmetic::div_mod::lemma_small_mod(k as nat, CELL_COUNT as nat);
}

/// Moving by an offset and then by its opposite returns to the starting position.
pub proof fn lemma_offset_round_trip(line: LineMode, pos: (u8, u8), offset: (i8, i8))
    requires
        pos_valid(line, pos),
        offset_allowed(line, offset),
    ensures
        offset_allowed(line, negated(offset)),
        pos_by_offset(line, pos_by_offset(line, pos, offset), negated(offset)) == pos,
{
    let c = capacity(line);
    let n = CELL_COUNT as int;
    let k = cell_index(line, pos);
    let d = offset.1 * c + offset.0;
    lemma_cell_index(line, pos);
    let k1 = (k + d) % n;
    lemma_pos_at(line, k1);
    let mid = pos_by_offset(line, pos, offset);
    assert(cell_index(line, mid) == k1);
    let back = negated(offset);
    assert(back.1 * c + back.0 == -d);
    vstd::arithmetic::div_mod::lemma_add_mod_noop(k + d, -d, n);
    vstd::arithmetic::div_mod::lemma_mod_self_0(n);
    vstd::arithmetic::div_mod::lemma_mod_twice(k + d, n);
    vstd::arithmetic::div_mod::lemma_small_mod(k as nat, n as nat);
    assert((k1 + (-d)) % n == ((k + d) % n + (-d) % n) % n) by {
        vstd::arithmetic::div_mod::lemma_add_mod_noop(k + d, -d, n);
        vstd::arithmetic::div_mod::lemma_add_mod_noop(k1, -d, n);
    }
    assert((k + d + (-d)) % n == k);
}

/// One more cell in the same direction is one step from where `n` cells led.
pub proof fn lemma_advance_step(line: LineMode, dir: MoveDirection, pos: (u8, u8), n: int)
    requires
        pos_valid(line, pos),
    ensures
        step(line, dir, advance(line, dir, pos, n)) == advance(line, dir, pos, n + 1),
        pos_valid(line, advance(line, dir, pos, n)),
        advance(line, dir, pos, 0) == pos,
{
    let m = CELL_COUNT as int;
    let k = cell_index(line, pos);
    lemma_cell_index(line, pos);
    vstd::arithmetic::div_mod::lemma_small_mod(k as nat, m as nat);
    let j = match dir {
        MoveDirection::LeftToRight => k + n,
        MoveDirection::RightToLeft => k - n,
    };
    vstd::arithmetic::div_mod::lemma_mod_bound(j, m);
    let q = advance(line, dir, pos, n);
    lemma_pos_at(line, j % m);
    assert(cell_index(line, q) == j % m);
    match dir {
        MoveDirection::LeftToRight => {
            vstd::arithmetic::div_mod::lemma_add_mod_noop(j, 1, m);
            vstd::arithmetic::div_mod::lemma_mod_twice(j, m);
            vstd::arithmetic::div_mod::lemma_add_mod_noop(j % m, 1, m);
        },
        MoveDirection::RightToLeft => {
            vstd::arithmetic::div_mod::lemma_sub_mod_noop(j, 1, m);
            vstd::arithmetic::div_mod::lemma_mod_twice(j, m);
            vstd::arithmetic::div_mod::lemma_sub_mod_noop(j % m, 1, m);
        },
    }
}

/// The position after one data transfer at `pos`, moving in direction `dir`.
pub fn step_pos(line: LineMode, dir: MoveDirection, pos: (u8, u8)) -> (r: (u8, u8))
    requires
        pos_valid(line, pos),
    ensures
        r == step(line, dir, pos),
        pos_valid(line, r),
{
    proof {
        lemma_cell_index(line, pos);
        lemma_pos_at(line, (cell_index(line, pos) + 1) % 80);
        lemma_pos_at(line, (cell_index(line, pos) - 1) % 80);
    }
    let r = match dir {
        MoveDirection::RightToLeft => match line {
            LineMode::OneLine => {
                if pos.0 == 0 {
                    (79u8, 0u8)
                } else {
                    (pos.0 - 1, 0u8)
                }
            },
            LineMode::TwoLine => {
                if pos.0 == 0 {
                    if pos.1 == 1 {
                        (39u8, 0u8)
                    } else {
                        (39u8, 1u8)
                    }
                } else {
                    (pos.0 - 1, pos.1)
                }
            },
        },
        MoveDirection::LeftToRight => match line {
            LineMode::OneLine => {
                if pos.0 == 79 {
                    (0u8, 0u8)
                } else {
                    (pos.0 + 1, 0u8)
                }
            },
            LineMode::TwoLine => {
                if pos.0 == 39 {
                    if pos.1 == 0 {
                        (0u8, 1u8)
                    } else {
                        (0u8, 0u8)
                    }
                } else {
                    (pos.0 + 1, pos.1)
                }
            },
        },
    };
    proof {
        lemma_cell_index(line, r);
    }
    r
}

/// The position `n` cells away from `pos` in direction `dir`.
pub fn advance_pos(line: LineMode, dir: MoveDirection, pos: (u8, u8), n: usize) -> (r: (u8, u8))
    requires
        pos_valid(line, pos),
    ensures
        r == advance(line, dir, pos, n as int),
        pos_valid(line, r),
{
    let cap: u8 = match line {
        LineMode::OneLine => 80,
        LineMode::TwoLine => 40,
    };
    proof {
        lemma_cell_index(line, pos);
    }
    let k: u8 = pos.1 * cap + pos.0;
    let m: u8 = (n % 80) as u8;
    let j: u8 = match dir {
        MoveDirection::LeftToRight => (k + m) % CELL_COUNT,
        MoveDirection::RightToLeft => (k + (CELL_COUNT - m)) % CELL_COUNT,
    };
    proof {
        let c = CELL_COUNT as int;
        match dir {
            MoveDirection::LeftToRight => {
                vstd::arithmetic::div_mod::lemma_add_mod_noop(k as int, n as int, c);
                vstd::arithmetic::div_mod::lemma_small_mod(k as nat, c as nat);
                vstd::arithmetic::div_mod::lemma_add_mod_noop(k as int, m as int, c);
                vstd::arithmetic::div_mod::lemma_mod_twice(n as int, c);
            },
            MoveDirection::RightToLeft => {
                vstd::arithmetic::div_mod::lemma_sub_mod_noop(k as int, n as int, c);
                vstd::arithmetic::div_mod::lemma_small_mod(k as nat, c as nat);
                vstd::arithmetic::div_mod::lemma_add_mod_noop(k as int, c - m, c);
                vstd::arithmetic::div_mod::lemma_sub_mod_noop(c, m as int, c);
                vstd::arithmetic::div_mod::lemma_mod_self_0(c);
                vstd::arithmetic::div_mod::lemma_mod_twice(n as int, c);
                vstd::arithmetic::div_mod::lemma_sub_mod_noop(0, n as int, c);
                vstd::arithmetic::div_mod::lemma_add_mod_noop(k as int, -(n as int), c);
                vstd::arithmetic::div_mod::lemma_add_mod_noop(k as int, (c - m) % c, c);
                vstd::arithmetic::div_mod::lemma_add_mod_noop(k as int, (0 - n) % c, c);
            },
        }
        lemma_pos_at(line, j as int);
    }
    (j % cap, j / cap)
}

/// The software mirror of what the controller currently holds.
#[derive(Clone, Copy, Debug)]
pub struct LcdState {
    /// Width of the data bus; fixed by the wiring.
    pub data_width: DataWidth,
    /// One or two lines.
    pub line: LineMode,
    /// Character font.
    pub font: Font,
    /// Display switch.
    pub display_on: State,
    /// Cursor switch.
    pub cursor_on: State,
    /// Cursor blink switch.
    pub cursor_blink: State,
    /// Auto-step direction of the address counter after a data transfer.
    pub direction: MoveDirection,
    /// Whether the display follows the cursor.
    pub shift_type: ShiftType,
    /// Cursor position `(column, row)`; meaningful while `ram_type` is DDRAM.
    pub cursor_pos: (u8, u8),
    /// Column shown at the left edge of the display window.
    pub display_offset: u8,
    /// The RAM that the address counter points into.
    pub ram_type: RAMType,
    /// Backlight switch, for transports that have one.
    pub backlight: State,
}

impl LcdState {
    /// The mirror describes a state the controller can be in: the cursor and the window lie
    /// on the display RAM, and the font exists in the line mode.
    pub open spec fn wf(&self) -> bool {
        &&& pos_valid(self.line, self.cursor_pos)
        &&& self.display_offset < capacity(self.line)
        &&& compatible(self.line, self.font)
    }

    /// The state of a controller after power-on: 4-bit bus, two lines, 5x8 font, display,
    /// cursor and blink on, left to right, cursor-only shifts, at `(0, 0)` in DDRAM,
    /// backlight on.
    pub open spec fn spec_default() -> LcdState {
        LcdState {
            data_width: DataWidth::Bit4,
            line: LineMode::TwoLine,
            font: Font::Font5x8,
            display_on: State::On,
            cursor_on: State::On,
            cursor_blink: State::On,
            direction: MoveDirection::LeftToRight,
            shift_type: ShiftType::CursorOnly,
            cursor_pos: (0, 0),
            display_offset: 0,
            ram_type: RAMType::DDRam,
            backlight: State::On,
        }
    }

    /// Whether the mirror describes a state the controller can be in.
    pub fn is_valid(&self) -> (r: bool)
        ensures
            r == self.wf(),
    {
        pos_in_bounds(self.line, self.cursor_pos) && self.display_offset < self.get_line_capacity()
            && line_font_compatible(self.line, self.font)
    }

    #[allow(missing_docs)]
    pub fn get_backlight(&self) -> (r: State)
        ensures
            r == self.backlight,
    {
        self.backlight
    }

    #[allow(missing_docs)]
    pub fn set_backlight(&mut self, backlight: State)
        ensures
            *final(self) == (LcdState { backlight, ..*old(self) }),
    {
        self.backlight = backlight;
    }

    #[allow(missing_docs)]
    pub fn get_data_width(&self) -> (r: DataWidth)
        ensures
            r == self.data_width,
    {
        self.data_width
    }

    #[allow(missing_docs)]
    pub fn set_data_width(&mut self, data_width: DataWidth)
        ensures
            *final(self) == (LcdState { data_width, ..*old(self) }),
    {
        self.data_width = data_width;
    }

    #[allow(missing_docs)]
    pub fn get_line_mode(&self) -> (r: LineMode)
        ensures
            r == self.line,
    {
        self.line
    }

    #[allow(missing_docs)]
    pub fn set_line_mode(&mut self, line: LineMode)
        ensures
            *final(self) == (LcdState { line, ..*old(self) }),
    {
        self.line = line;
    }

    /// Columns per line: 80 in one-line mode, 40 in two-line mode.
    pub fn get_line_capacity(&self) -> (r: u8)
        ensures
            r == capacity(self.line),
    {
        line_capacity(self.line)
    }

    #[allow(missing_docs)]
    pub fn get_font(&self) -> (r: Font)
        ensures
            r == self.font,
    {
        self.font
    }

    #[allow(missing_docs)]
    pub fn set_font(&mut self, font: Font)
        ensures
            *final(self) == (LcdState { font, ..*old(self) }),
    {
        self.font = font;
    }

    #[allow(missing_docs)]
    pub fn get_display_state(&self) -> (r: State)
        ensures
            r == self.display_on,
    {
        self.display_on
    }

    #[allow(missing_docs)]
    pub fn set_display_state(&mut self, display: State)
        ensures
            *final(self) == (LcdState { display_on: display, ..*old(self) }),
    {
        self.display_on = display;
    }

    #[allow(missing_docs)]
    pub fn get_cursor_state(&self) -> (r: State)
        ensures
            r == self.cursor_on,
    {
        self.cursor_on
    }

    #[allow(missing_docs)]
    pub fn set_cursor_state(&mut self, cursor: State)
        ensures
            *final(self) == (LcdState { cursor_on: cursor, ..*old(self) }),
    {
        self.cursor_on = cursor;
    }

    #[allow(missing_docs)]
    pub fn get_cursor_blink(&self) -> (r: State)
        ensures
            r == self.cursor_blink,
    {
        self.cursor_blink
    }

    #[allow(missing_docs)]
    pub fn set_cursor_blink(&mut self, blink: State)
        ensures
            *final(self) == (LcdState { cursor_blink: blink, ..*old(self) }),
    {
        self.cursor_blink = blink;
    }

    #[allow(missing_docs)]
    pub fn get_direction(&self) -> (r: MoveDirection)
        ensures
            r == self.direction,
    {
        self.direction
    }

    #[allow(missing_docs)]
    pub fn set_direction(&mut self, dir: MoveDirection)
        ensures
            *final(self) == (LcdState { direction: dir, ..*old(self) }),
    {
        self.direction = dir;
    }

    #[allow(missing_docs)]
    pub fn get_shift_type(&self) -> (r: ShiftType)
        ensures
            r == self.shift_type,
    {
        self.shift_type
    }

    #[allow(missing_docs)]
    pub fn set_shift_type(&mut self, shift: ShiftType)
        ensures
            *final(self) == (LcdState { shift_type: shift, ..*old(self) }),
    {
        self.shift_type = shift;
    }

    #[allow(missing_docs)]
    pub fn get_cursor_pos(&self) -> (r: (u8, u8))
        ensures
            r == self.cursor_pos,
    {
        self.cursor_pos
    }

    #[allow(missing_docs)]
    pub fn set_cursor_pos(&mut self, pos: (u8, u8))
        ensures
            *final(self) == (LcdState { cursor_pos: pos, ..*old(self) }),
    {
        self.cursor_pos = pos;
    }

    #[allow(missing_docs)]
    pub fn get_display_offset(&self) -> (r: u8)
        ensures
            r == self.display_offset,
    {
        self.display_offset
    }

    #[allow(missing_docs)]
    pub fn set_display_offset(&mut self, offset: u8)
        ensures
            *final(self) == (LcdState { display_offset: offset, ..*old(self) }),
    {
        self.display_offset = offset;
    }

    #[allow(missing_docs)]
    pub fn get_ram_type(&self) -> (r: RAMType)
        ensures
            r == self.ram_type,
    {
        self.ram_type
    }

    #[allow(missing_docs)]
    pub fn set_ram_type(&mut self, ram_type: RAMType)
        ensures
            *final(self) == (LcdState { ram_type, ..*old(self) }),
    {
        self.ram_type = ram_type;
    }

    /// Follow an explicit shift instruction: a cursor-only shift moves the cursor one cell
    /// (as a data transfer would); a shift of cursor and display moves the window one column,
    /// modulo the line capacity.
    pub fn shift_cursor_or_display(&mut self, st: ShiftType, dir: MoveDirection)
        requires
            old(self).wf(),
        ensures
            final(self).wf(),
            *final(self) == match st {
                ShiftType::CursorOnly => LcdState {
                    cursor_pos: step(old(self).line, dir, old(self).cursor_pos),
                    ..*old(self)
                },
                ShiftType::CursorAndDisplay => LcdState {
                    display_offset: shifted_offset(old(self).line, dir, old(self).display_offset),
                    ..*old(self)
                },
            },
    {
        let cur_display_offset = self.display_offset;
        let line_capacity = self.get_line_capacity();
        match st {
            ShiftType::CursorOnly => {
                let next = step_pos(self.line, dir, self.cursor_pos);
                self.cursor_pos = next;
            },
            ShiftType::CursorAndDisplay => match dir {
                MoveDirection::LeftToRight => {
                    if cur_display_offset == line_capacity - 1 {
                        self.display_offset = 0;
                    } else {
                        self.display_offset = cur_display_offset + 1;
                    }
                },
                MoveDirection::RightToLeft => {
                    if cur_display_offset == 0 {
                        self.display_offset = line_capacity - 1;
                    } else {
                        self.display_offset = cur_display_offset - 1;
                    }
                },
            },
        }
    }

    /// The position reached from `original_pos` by a relative `(columns, rows)` offset, in
    /// the current line mode.
    pub fn calculate_pos_by_offset(&self, original_pos: (u8, u8), offset: (i8, i8)) -> (r: (u8, u8))
        requires
            pos_valid(self.line, original_pos),
            offset_allowed(self.line, offset),
        ensures
            r == pos_by_offset(self.line, original_pos, offset),
            pos_valid(self.line, r),
    {
        let line_capacity = self.get_line_capacity() as i16;
        let r = match self.line {
            LineMode::OneLine => {
                let mut raw_x_pos: i16 = original_pos.0 as i16 + offset.0 as i16;
                if raw_x_pos < 0 {
                    raw_x_pos = raw_x_pos + line_capacity;
                } else if raw_x_pos >= line_capacity {
                    raw_x_pos = raw_x_pos - line_capacity;
                }
                (raw_x_pos as u8, 0u8)
            },
            LineMode::TwoLine => {
                // a two-digit adder: the column carries into the row
                let mut x_carry: i16 = 0;
                let mut raw_x_pos: i16 = original_pos.0 as i16 + offset.0 as i16;
                if raw_x_pos < 0 {
                    raw_x_pos = raw_x_pos + line_capacity;
                    x_carry = -1;
                } else if raw_x_pos >= line_capacity {
                    raw_x_pos = raw_x_pos - line_capacity;
                    x_carry = 1;
                }
                let mut raw_y_pos: i16 = original_pos.1 as i16 + offset.1 as i16 + x_carry;
                if raw_y_pos < 0 {
                    raw_y_pos = raw_y_pos + 2;
                } else if raw_y_pos >= 2 {
                    raw_y_pos = raw_y_pos - 2;
                }
                (raw_x_pos as u8, raw_y_pos as u8)
            },
        };
        proof {
            let k = cell_index(self.line, original_pos) + offset.1 * capacity(self.line)
                + offset.0;
            lemma_cell_index(self.line, r);
            lemma_pos_by_offset_valid(self.line, original_pos, offset);
            lemma_pos_at(self.line, k % 80);
            vstd::arithmetic::div_mod::lemma_fundamental_div_mod(k, 80);
            vstd::arithmetic::div_mod::lemma_mod_bound(k, 80);
            assert(cell_index(self.line, r) == k % 80);
            lemma_cell_index(self.line, pos_by_offset(self.line, original_pos, offset));
        }
        r
    }
}

} // verus!
