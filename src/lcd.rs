//! The driver: every operation updates the mirror of the controller and queues the bus
//! actions that make the controller follow it.
//!
//! The queue is drained with [`Lcd::take_actions`] by whatever owns the bus; it performs
//! the actions in order (see [`Action`]).

use vstd::prelude::*;
use crate::command::{CommandSet, DataWidth, Font, LineMode, MoveDirection, RAMType, ShiftType, State};
use crate::config::Config;
use crate::state::{
    LcdState, advance, capacity, compatible, lemma_advance_step, offset_allowed, pos_by_offset,
    pos_valid, shifted_offset, step, step_pos,
};

verus! {

/// One thing for the bus to do.
#[derive(Clone, Copy, Debug, PartialEq, Eq, Structural)]
pub enum Action {
    /// Sleep the given number of microseconds, then send the instruction.
    DelayThenSend(CommandSet, u32),
    /// Poll the busy flag, sleeping the given number of microseconds between polls, until the
    /// controller is idle; then send the instruction.
    WaitThenSend(CommandSet, u32),
    /// Sleep the given number of microseconds.
    DelayUs(u32),
    /// Sleep the given number of milliseconds.
    DelayMs(u32),
    /// Switch the backlight, where the transport has one.
    SetBacklight(State),
}

/// The DDRAM address of a position: the second line starts at 0x40.
pub open spec fn ddram_address(pos: (u8, u8)) -> u8 {
    (pos.1 * 0x40 + pos.0) as u8
}

/// The byte the controller shows for a character: printable ASCII from 0x20 to 0x7D is its
/// own code, anything else the solid block 0xFF.
pub open spec fn char_byte(c: char) -> u8 {
    if 0x20 <= c as u32 <= 0x7D {
        (c as u32) as u8
    } else {
        0xFF
    }
}

/// The instruction that sets display, cursor and blink as a state holds them.
pub open spec fn display_control(s: LcdState) -> CommandSet {
    CommandSet::DisplayOnOff { display: s.display_on, cursor: s.cursor_on, cursor_blink: s.cursor_blink }
}

/// The mirror after a data transfer: in DDRAM the cursor takes one step.
pub open spec fn after_transfer(s: LcdState) -> LcdState {
    if s.ram_type == RAMType::DDRam {
        LcdState { cursor_pos: step(s.line, s.direction, s.cursor_pos), ..s }
    } else {
        s
    }
}

/// The mirror after a clear or a return home: cursor at `(0, 0)` in DDRAM, window unshifted.
pub open spec fn homed(s: LcdState) -> LcdState {
    LcdState { cursor_pos: (0, 0), display_offset: 0, ram_type: RAMType::DDRam, ..s }
}

/// The start-up sequence for a configuration.
///
/// A 4-bit bus first gets the single-nibble function set after 40 ms of power-on settle,
/// then the full function set twice, 40 µs apart; an 8-bit bus gets the full function set
/// after 40 ms and again after 40 µs. Display control, clear and entry mode follow, each
/// once the controller is idle, then the backlight.
pub open spec fn init_actions(s: LcdState, poll: u32) -> Seq<Action> {
    let function_set = CommandSet::FunctionSet(s.data_width, s.line, s.font);
    let head = match s.data_width {
        DataWidth::Bit4 => seq![
            Action::DelayThenSend(CommandSet::HalfFunctionSet, 40_000),
            Action::DelayThenSend(function_set, 40),
            Action::DelayThenSend(function_set, 40),
        ],
        DataWidth::Bit8 => seq![
            Action::DelayThenSend(function_set, 40_000),
            Action::DelayThenSend(function_set, 40),
        ],
    };
    head + seq![
        Action::WaitThenSend(display_control(s), poll),
        Action::WaitThenSend(CommandSet::ClearDisplay, poll),
        Action::WaitThenSend(CommandSet::EntryModeSet(s.direction, s.shift_type), poll),
        Action::SetBacklight(s.backlight),
    ]
}

/// The writes of a string's characters, one data transfer each.
pub open spec fn char_writes(cs: Seq<char>, poll: u32) -> Seq<Action>
    decreases cs.len(),
{
    if cs.len() == 0 {
        seq![]
    } else {
        char_writes(cs.drop_last(), poll) + seq![
            Action::WaitThenSend(CommandSet::WriteDataToRAM(char_byte(cs.last())), poll),
        ]
    }
}

/// A run of `n` reads from RAM.
pub open spec fn reads(n: nat, poll: u32) -> Seq<Action>
    decreases n,
{
    if n == 0 {
        seq![]
    } else {
        reads((n - 1) as nat, poll) + seq![Action::WaitThenSend(CommandSet::ReadDataFromRAM, poll)]
    }
}

/// The writes of a glyph's rows, in order.
pub open spec fn row_writes(rows: Seq<u8>, poll: u32) -> Seq<Action>
    decreases rows.len(),
{
    if rows.len() == 0 {
        seq![]
    } else {
        row_writes(rows.drop_last(), poll) + seq![
            Action::WaitThenSend(CommandSet::WriteDataToRAM(rows.last()), poll),
        ]
    }
}

/// The programming of glyph `index` of CGRAM with `rows`, from a state `s`: when `s` steps
/// right to left, the direction is switched to left to right around the rows.
pub open spec fn graph_actions(s: LcdState, index: u8, rows: Seq<u8>, poll: u32) -> Seq<Action> {
    let flip = s.direction == MoveDirection::RightToLeft;
    let to_ltr = Action::WaitThenSend(CommandSet::EntryModeSet(MoveDirection::LeftToRight, s.shift_type), poll);
    let to_rtl = Action::WaitThenSend(CommandSet::EntryModeSet(MoveDirection::RightToLeft, s.shift_type), poll);
    (if flip { seq![to_ltr] } else { seq![] })
        + seq![Action::WaitThenSend(CommandSet::SetCGRAM((index * 8) as u8), poll)]
        + row_writes(rows, poll)
        + (if flip { seq![to_rtl] } else { seq![] })
}

/// The characters of a string, in order.
pub fn chars_of(s: &str) -> (r: Vec<char>)
    ensures
        r@ == s@,
{
    broadcast use vstd::string::axiom_spec_iter;

    let mut out: Vec<char> = Vec::new();
    for c in it: s.chars()
        invariant
            it.seq() == s@,
            out@ == it.seq().take(it.index() as int),
    {
        out.push(c);
        proof {
            assert(out@ =~= it.seq().take(it.index() as int + 1));
        }
    }
    assert(out@ =~= s@);
    out
}

/// The driver of one display: the mirror of its controller, the poll interval of the busy
/// flag, and the actions queued for the bus.
pub struct Lcd {
    state: LcdState,
    poll_interval_us: u32,
    actions: Vec<Action>,
}

impl Lcd {
    /// The mirror of the controller.
    pub closed spec fn mirror(&self) -> LcdState {
        self.state
    }

    /// The busy-flag poll interval, in microseconds.
    pub closed spec fn poll(&self) -> u32 {
        self.poll_interval_us
    }

    /// The actions queued and not yet taken.
    pub closed spec fn queued(&self) -> Seq<Action> {
        self.actions@
    }

    /// The mirror describes a state the controller can be in.
    pub open spec fn wf(&self) -> bool {
        self.mirror().wf()
    }

    /// A driver for a display with the given configuration, with the start-up sequence
    /// queued. The sequence ends with a clear, so the cursor starts at `(0, 0)` in DDRAM with
    /// the window unshifted.
    pub fn new(config: Config, poll_interval_us: u32) -> (r: Lcd)
        requires
            config@.wf(),
        ensures
            r.wf(),
            r.mirror() == homed(config@),
            r.poll() == poll_interval_us,
            r.queued() == init_actions(config@, poll_interval_us),
    {
        let state = config.state();
        let mut actions: Vec<Action> = Vec::new();
        let function_set = CommandSet::FunctionSet(state.data_width, state.line, state.font);
        match state.data_width {
            DataWidth::Bit4 => {
                actions.push(Action::DelayThenSend(CommandSet::HalfFunctionSet, 40_000));
                actions.push(Action::DelayThenSend(function_set, 40));
                actions.push(Action::DelayThenSend(function_set, 40));
            },
            DataWidth::Bit8 => {
                actions.push(Action::DelayThenSend(function_set, 40_000));
                actions.push(Action::DelayThenSend(function_set, 40));
            },
        }
        actions.push(
            Action::WaitThenSend(
                CommandSet::DisplayOnOff {
                    display: state.display_on,
                    cursor: state.cursor_on,
                    cursor_blink: state.cursor_blink,
                },
                poll_interval_us,
            ),
        );
        actions.push(Action::WaitThenSend(CommandSet::ClearDisplay, poll_interval_us));
        actions.push(
            Action::WaitThenSend(
                CommandSet::EntryModeSet(state.direction, state.shift_type),
                poll_interval_us,
            ),
        );
        actions.push(Action::SetBacklight(state.backlight));
        let lcd = Lcd {
            state: LcdState { cursor_pos: (0, 0), display_offset: 0, ram_type: RAMType::DDRam, ..state },
            poll_interval_us,
            actions,
        };
        assert(lcd.queued() =~= init_actions(config@, poll_interval_us));
        lcd
    }

    /// Hand over the queued actions, oldest first, and empty the queue.
    pub fn take_actions(&mut self) -> (r: Vec<Action>)
        ensures
            r@ == old(self).queued(),
            final(self).queued() == Seq::<Action>::empty(),
            final(self).mirror() == old(self).mirror(),
            final(self).poll() == old(self).poll(),
    {
        let mut taken: Vec<Action> = Vec::new();
        std::mem::swap(&mut taken, &mut self.actions);
        taken
    }

    fn send(&mut self, command: CommandSet)
        ensures
            final(self).queued() == old(self).queued().push(
                Action::WaitThenSend(command, old(self).poll()),
            ),
            final(self).mirror() == old(self).mirror(),
            final(self).poll() == old(self).poll(),
    {
        let poll = self.poll_interval_us;
        self.actions.push(Action::WaitThenSend(command, poll));
    }

    fn push(&mut self, action: Action)
        ensures
            final(self).queued() == old(self).queued().push(action),
            final(self).mirror() == old(self).mirror(),
            final(self).poll() == old(self).poll(),
    {
        self.actions.push(action);
    }

    /// Switch the backlight, where the transport has one.
    pub fn set_backlight(&mut self, backlight: State)
        requires
            old(self).wf(),
        ensures
            final(self).wf(),
            final(self).mirror() == (LcdState { backlight, ..old(self).mirror() }),
            final(self).poll() == old(self).poll(),
            final(self).queued() == old(self).queued().push(Action::SetBacklight(backlight)),
    {
        self.push(Action::SetBacklight(backlight));
        self.state.backlight = backlight;
    }

    #[allow(missing_docs)]
    pub fn get_backlight(&self) -> (r: State)
        ensures
            r == self.mirror().backlight,
    {
        self.state.backlight
    }

    /// Queue a read of the byte at the address counter (the bus hands the byte back); in
    /// DDRAM the cursor then takes one step.
    pub fn read_u8_from_cur(&mut self)
        requires
            old(self).wf(),
        ensures
            final(self).wf(),
            final(self).mirror() == after_transfer(old(self).mirror()),
            final(self).poll() == old(self).poll(),
            final(self).queued() == old(self).queued().push(
                Action::WaitThenSend(CommandSet::ReadDataFromRAM, old(self).poll()),
            ),
    {
        self.send(CommandSet::ReadDataFromRAM);
        if self.state.ram_type == RAMType::DDRam {
            let next = step_pos(self.state.line, self.state.direction, self.state.cursor_pos);
            self.state.cursor_pos = next;
        }
    }

    /// Write one byte at the cursor, which then takes one step in the configured direction,
    /// from the end of a line to the start of the other one.
    pub fn write_u8_to_cur(&mut self, byte: u8)
        requires
            old(self).wf(),
            old(self).mirror().ram_type == RAMType::DDRam,
        ensures
            final(self).wf(),
            final(self).mirror() == after_transfer(old(self).mirror()),
            final(self).mirror().ram_type == RAMType::DDRam,
            final(self).poll() == old(self).poll(),
            final(self).queued() == old(self).queued().push(
                Action::WaitThenSend(CommandSet::WriteDataToRAM(byte), old(self).poll()),
            ),
    {
        self.send(CommandSet::WriteDataToRAM(byte));
        let next = step_pos(self.state.line, self.state.direction, self.state.cursor_pos);
        self.state.cursor_pos = next;
    }

    /// Program glyph `index` of CGRAM with eight rows, top to bottom.
    ///
    /// CGRAM is written top to bottom whatever the configured direction: while the direction
    /// is right to left it is switched to left to right for the rows and switched back after.
    pub fn write_graph_to_cgram(&mut self, index: u8, graph_data: &[u8; 8])
        requires
            old(self).wf(),
            index < 8,
            forall|i: int| 0 <= i < 8 ==> #[trigger] graph_data@[i] < 32,
        ensures
            final(self).wf(),
            final(self).mirror() == (LcdState { ram_type: RAMType::CGRam, ..old(self).mirror() }),
            final(self).poll() == old(self).poll(),
            final(self).queued() == old(self).queued() + graph_actions(
                old(self).mirror(),
                index,
                graph_data@,
                old(self).poll(),
            ),
    {
        let ghost q0 = self.queued();
        let ghost s0 = self.mirror();
        let ghost poll = self.poll();
        let mut direction_flipped = false;
        if self.state.direction == MoveDirection::RightToLeft {
            self.set_direction(MoveDirection::LeftToRight);
            direction_flipped = true;
        }
        self.set_cgram_addr(index * 8);
        let ghost q2 = self.queued();
        let mut i: usize = 0;
        while i < 8
            invariant
                0 <= i <= 8,
                self.poll() == poll,
                direction_flipped == (s0.direction == MoveDirection::RightToLeft),
                self.mirror() == (LcdState {
                    ram_type: RAMType::CGRam,
                    direction: if direction_flipped {
                        MoveDirection::LeftToRight
                    } else {
                        s0.direction
                    },
                    ..s0
                }),
                self.mirror().wf(),
                self.queued() == q2 + row_writes(graph_data@.take(i as int), poll),
            decreases 8 - i,
        {
            let row = graph_data[i];
            self.send(CommandSet::WriteDataToRAM(row));
            proof {
                assert(graph_data@.take(i as int + 1).drop_last() =~= graph_data@.take(i as int));
            }
            i = i + 1;
        }
        assert(graph_data@.take(8) =~= graph_data@);
        if direction_flipped {
            self.set_direction(MoveDirection::RightToLeft);
        }
        assert(self.queued() =~= q0 + graph_actions(s0, index, graph_data@, poll));
    }

    /// Write glyph `index` of CGRAM at the cursor.
    pub fn write_graph_to_cur(&mut self, index: u8)
        requires
            old(self).wf(),
            old(self).mirror().ram_type == RAMType::DDRam,
            index < 8,
        ensures
            final(self).wf(),
            final(self).mirror() == after_transfer(old(self).mirror()),
            final(self).poll() == old(self).poll(),
            final(self).queued() == old(self).queued().push(
                Action::WaitThenSend(CommandSet::WriteDataToRAM(index), old(self).poll()),
            ),
    {
        self.write_u8_to_cur(index);
    }

    /// Clear the display; the cursor returns to `(0, 0)` and the window is unshifted.
    pub fn clean_display(&mut self)
        requires
            old(self).wf(),
        ensures
            final(self).wf(),
            final(self).mirror() == homed(old(self).mirror()),
            final(self).poll() == old(self).poll(),
            final(self).queued() == old(self).queued().push(
                Action::WaitThenSend(CommandSet::ClearDisplay, old(self).poll()),
            ),
    {
        self.send(CommandSet::ClearDisplay);
        self.state.cursor_pos = (0, 0);
        self.state.display_offset = 0;
        self.state.ram_type = RAMType::DDRam;
    }

    /// Return the cursor to `(0, 0)` and unshift the window; the text stays.
    pub fn return_home(&mut self)
        requires
            old(self).wf(),
        ensures
            final(self).wf(),
            final(self).mirror() == homed(old(self).mirror()),
            final(self).poll() == old(self).poll(),
            final(self).queued() == old(self).queued().push(
                Action::WaitThenSend(CommandSet::ReturnHome, old(self).poll()),
            ),
    {
        self.send(CommandSet::ReturnHome);
        self.state.cursor_pos = (0, 0);
        self.state.display_offset = 0;
        self.state.ram_type = RAMType::DDRam;
    }

    /// Change the line mode. The font must exist in the new mode, and the cursor and the
    /// window must lie on the display RAM in it.
    pub fn set_line_mode(&mut self, line: LineMode)
        requires
            old(self).wf(),
            compatible(line, old(self).mirror().font),
            pos_valid(line, old(self).mirror().cursor_pos),
            old(self).mirror().display_offset < capacity(line),
        ensures
            final(self).wf(),
            final(self).mirror() == (LcdState { line, ..old(self).mirror() }),
            final(self).poll() == old(self).poll(),
            final(self).queued() == old(self).queued().push(
                Action::WaitThenSend(
                    CommandSet::FunctionSet(old(self).mirror().data_width, line, old(self).mirror().font),
                    old(self).poll(),
                ),
            ),
    {
        self.state.line = line;
        let command = CommandSet::FunctionSet(self.state.data_width, line, self.state.font);
        self.send(command);
    }

    #[allow(missing_docs)]
    pub fn get_line_mode(&self) -> (r: LineMode)
        ensures
            r == self.mirror().line,
    {
        self.state.line
    }

    /// Change the font; the 5x11 font exists in one-line mode only.
    pub fn set_font(&mut self, font: Font)
        requires
            old(self).wf(),
            compatible(old(self).mirror().line, font),
        ensures
            final(self).wf(),
            final(self).mirror() == (LcdState { font, ..old(self).mirror() }),
            final(self).poll() == old(self).poll(),
            final(self).queued() == old(self).queued().push(
                Action::WaitThenSend(
                    CommandSet::FunctionSet(old(self).mirror().data_width, old(self).mirror().line, font),
                    old(self).poll(),
                ),
            ),
    {
        self.state.font = font;
        let command = CommandSet::FunctionSet(self.state.data_width, self.state.line, font);
        self.send(command);
    }

    #[allow(missing_docs)]
    pub fn get_font(&self) -> (r: Font)
        ensures
            r == self.mirror().font,
    {
        self.state.font
    }

    fn send_display_control(&mut self)
        ensures
            final(self).queued() == old(self).queued().push(
                Action::WaitThenSend(display_control(old(self).mirror()), old(self).poll()),
            ),
            final(self).mirror() == old(self).mirror(),
            final(self).poll() == old(self).poll(),
    {
        let command = CommandSet::DisplayOnOff {
            display: self.state.display_on,
            cursor: self.state.cursor_on,
            cursor_blink: self.state.cursor_blink,
        };
        self.send(command);
    }

    /// Switch the display.
    pub fn set_display_state(&mut self, display: State)
        requires
            old(self).wf(),
        ensures
            final(self).wf(),
            final(self).mirror() == (LcdState { display_on: display, ..old(self).mirror() }),
            final(self).poll() == old(self).poll(),
            final(self).queued() == old(self).queued().push(
                Action::WaitThenSend(display_control(final(self).mirror()), old(self).poll()),
            ),
    {
        self.state.display_on = display;
        self.send_display_control();
    }

    #[allow(missing_docs)]
    pub fn get_display_state(&self) -> (r: State)
        ensures
            r == self.mirror().display_on,
    {
        self.state.display_on
    }

    /// Switch the cursor.
    pub fn set_cursor_state(&mut self, cursor: State)
        requires
            old(self).wf(),
        ensures
            final(self).wf(),
            final(self).mirror() == (LcdState { cursor_on: cursor, ..old(self).mirror() }),
            final(self).poll() == old(self).poll(),
            final(self).queued() == old(self).queued().push(
                Action::WaitThenSend(display_control(final(self).mirror()), old(self).poll()),
            ),
    {
        self.state.cursor_on = cursor;
        self.send_display_control();
    }

    #[allow(missing_docs)]
    pub fn get_cursor_state(&self) -> (r: State)
        ensures
            r == self.mirror().cursor_on,
    {
        self.state.cursor_on
    }

    #[allow(missing_docs)]
    pub fn get_ram_type(&self) -> (r: RAMType)
        ensures
            r == self.mirror().ram_type,
    {
        self.state.ram_type
    }

    /// Switch cursor blinking.
    pub fn set_cursor_blink_state(&mut self, blink: State)
        requires
            old(self).wf(),
        ensures
            final(self).wf(),
            final(self).mirror() == (LcdState { cursor_blink: blink, ..old(self).mirror() }),
            final(self).poll() == old(self).poll(),
            final(self).queued() == old(self).queued().push(
                Action::WaitThenSend(display_control(final(self).mirror()), old(self).poll()),
            ),
    {
        self.state.cursor_blink = blink;
        self.send_display_control();
    }

    #[allow(missing_docs)]
    pub fn get_cursor_blink_state(&self) -> (r: State)
        ensures
            r == self.mirror().cursor_blink,
    {
        self.state.cursor_blink
    }

    /// Change the auto-step direction.
    pub fn set_direction(&mut self, dir: MoveDirection)
        requires
            old(self).wf(),
        ensures
            final(self).wf(),
            final(self).mirror() == (LcdState { direction: dir, ..old(self).mirror() }),
            final(self).poll() == old(self).poll(),
            final(self).queued() == old(self).queued().push(
                Action::WaitThenSend(
                    CommandSet::EntryModeSet(dir, old(self).mirror().shift_type),
                    old(self).poll(),
                ),
            ),
    {
        self.state.direction = dir;
        let command = CommandSet::EntryModeSet(dir, self.state.shift_type);
        self.send(command);
    }

    #[allow(missing_docs)]
    pub fn get_direction(&self) -> (r: MoveDirection)
        ensures
            r == self.mirror().direction,
    {
        self.state.direction
    }

    /// Change whether the display follows the cursor.
    pub fn set_shift_type(&mut self, shift: ShiftType)
        requires
            old(self).wf(),
        ensures
            final(self).wf(),
            final(self).mirror() == (LcdState { shift_type: shift, ..old(self).mirror() }),
            final(self).poll() == old(self).poll(),
            final(self).queued() == old(self).queued().push(
                Action::WaitThenSend(
                    CommandSet::EntryModeSet(old(self).mirror().direction, shift),
                    old(self).poll(),
                ),
            ),
    {
        self.state.shift_type = shift;
        let command = CommandSet::EntryModeSet(self.state.direction, shift);
        self.send(command);
    }

    #[allow(missing_docs)]
    pub fn get_shift_type(&self) -> (r: ShiftType)
        ensures
            r == self.mirror().shift_type,
    {
        self.state.shift_type
    }

    /// Move the cursor to a position of DDRAM.
    pub fn set_cursor_pos(&mut self, pos: (u8, u8))
        requires
            old(self).wf(),
            pos_valid(old(self).mirror().line, pos),
        ensures
            final(self).wf(),
            final(self).mirror() == (LcdState {
                cursor_pos: pos,
                ram_type: RAMType::DDRam,
                ..old(self).mirror()
            }),
            final(self).poll() == old(self).poll(),
            final(self).queued() == old(self).queued().push(
                Action::WaitThenSend(CommandSet::SetDDRAM(ddram_address(pos)), old(self).poll()),
            ),
            ddram_address(pos) < 128,
    {
        self.state.ram_type = RAMType::DDRam;
        self.state.cursor_pos = pos;
        // the second line starts at 0x40
        let raw_pos: u8 = pos.1 * 0x40 + pos.0;
        self.send(CommandSet::SetDDRAM(raw_pos));
    }

    /// Point the address counter into CGRAM.
    pub fn set_cgram_addr(&mut self, addr: u8)
        requires
            old(self).wf(),
            addr < 64,
        ensures
            final(self).wf(),
            final(self).mirror() == (LcdState { ram_type: RAMType::CGRam, ..old(self).mirror() }),
            final(self).poll() == old(self).poll(),
            final(self).queued() == old(self).queued().push(
                Action::WaitThenSend(CommandSet::SetCGRAM(addr), old(self).poll()),
            ),
    {
        self.state.ram_type = RAMType::CGRam;
        self.send(CommandSet::SetCGRAM(addr));
    }

    #[allow(missing_docs)]
    pub fn get_cursor_pos(&self) -> (r: (u8, u8))
        ensures
            r == self.mirror().cursor_pos,
    {
        self.state.cursor_pos
    }

    /// Shift the cursor one cell, or the window one column, in direction `dir`.
    pub fn shift_cursor_or_display(&mut self, shift_type: ShiftType, dir: MoveDirection)
        requires
            old(self).wf(),
        ensures
            final(self).wf(),
            final(self).mirror() == match shift_type {
                ShiftType::CursorOnly => LcdState {
                    cursor_pos: step(old(self).mirror().line, dir, old(self).mirror().cursor_pos),
                    ..old(self).mirror()
                },
                ShiftType::CursorAndDisplay => LcdState {
                    display_offset: shifted_offset(
                        old(self).mirror().line,
                        dir,
                        old(self).mirror().display_offset,
                    ),
                    ..old(self).mirror()
                },
            },
            final(self).poll() == old(self).poll(),
            final(self).queued() == old(self).queued().push(
                Action::WaitThenSend(CommandSet::CursorOrDisplayShift(shift_type, dir), old(self).poll()),
            ),
    {
        self.state.shift_cursor_or_display(shift_type, dir);
        self.send(CommandSet::CursorOrDisplayShift(shift_type, dir));
    }

    #[allow(missing_docs)]
    pub fn get_display_offset(&self) -> (r: u8)
        ensures
            r == self.mirror().display_offset,
    {
        self.state.display_offset
    }

    /// Change the busy-flag poll interval of later actions.
    pub fn set_poll_interval(&mut self, interval_us: u32)
        ensures
            final(self).mirror() == old(self).mirror(),
            final(self).poll() == interval_us,
            final(self).queued() == old(self).queued(),
    {
        self.poll_interval_us = interval_us;
    }

    #[allow(missing_docs)]
    pub fn get_poll_interval_us(&self) -> (r: u32)
        ensures
            r == self.poll(),
    {
        self.poll_interval_us
    }

    /// Columns per line: 80 in one-line mode, 40 in two-line mode.
    pub fn get_line_capacity(&self) -> (r: u8)
        ensures
            r == capacity(self.mirror().line),
    {
        self.state.get_line_capacity()
    }

    /// The position reached from `start` by a relative `(columns, rows)` offset.
    pub fn calculate_pos_by_offset(&self, start: (u8, u8), offset: (i8, i8)) -> (r: (u8, u8))
        requires
            pos_valid(self.mirror().line, start),
            offset_allowed(self.mirror().line, offset),
        ensures
            r == pos_by_offset(self.mirror().line, start, offset),
            pos_valid(self.mirror().line, r),
    {
        self.state.calculate_pos_by_offset(start, offset)
    }

    /// Queue a sleep of `ms` milliseconds.
    pub fn delay_ms(&mut self, ms: u32)
        ensures
            final(self).mirror() == old(self).mirror(),
            final(self).poll() == old(self).poll(),
            final(self).queued() == old(self).queued().push(Action::DelayMs(ms)),
    {
        self.push(Action::DelayMs(ms));
    }

    /// Queue a sleep of `us` microseconds.
    pub fn delay_us(&mut self, us: u32)
        ensures
            final(self).mirror() == old(self).mirror(),
            final(self).poll() == old(self).poll(),
            final(self).queued() == old(self).queued().push(Action::DelayUs(us)),
    {
        self.push(Action::DelayUs(us));
    }
}


/// The state `s` switched the other way.
pub open spec fn toggled(s: State) -> State {
    match s {
        State::On => State::Off,
        State::Off => State::On,
    }
}

/// The byte the controller shows for a character (see [`char_byte`]).
pub fn byte_of_char(c: char) -> (r: u8)
    ensures
        r == char_byte(c),
{
    let code = c as u32;
    if 0x20 <= code && code <= 0x7D {
        code as u8
    } else {
        0xFF
    }
}

impl Lcd {
    /// Switch the whole display the other way (the backlight stays).
    pub fn toggle_display(&mut self)
        requires
            old(self).wf(),
        ensures
            final(self).wf(),
            final(self).mirror() == (LcdState {
                display_on: toggled(old(self).mirror().display_on),
                ..old(self).mirror()
            }),
            final(self).poll() == old(self).poll(),
            final(self).queued() == old(self).queued().push(
                Action::WaitThenSend(display_control(final(self).mirror()), old(self).poll()),
            ),
    {
        match self.state.display_on {
            State::Off => self.set_display_state(State::On),
            State::On => self.set_display_state(State::Off),
        }
    }

    /// Write a character at the cursor: printable ASCII 0x20 to 0x7D as itself, anything
    /// else as the solid block 0xFF.
    pub fn write_char_to_cur(&mut self, c: char)
        requires
            old(self).wf(),
            old(self).mirror().ram_type == RAMType::DDRam,
        ensures
            final(self).wf(),
            final(self).mirror() == after_transfer(old(self).mirror()),
            final(self).mirror().ram_type == RAMType::DDRam,
            final(self).poll() == old(self).poll(),
            final(self).queued() == old(self).queued().push(
                Action::WaitThenSend(CommandSet::WriteDataToRAM(char_byte(c)), old(self).poll()),
            ),
    {
        let byte = byte_of_char(c);
        self.write_u8_to_cur(byte);
    }

    /// Write a string from the cursor on, one cell per character; the cursor ends one cell
    /// past the last.
    pub fn write_str_to_cur(&mut self, s: &str)
        requires
            old(self).wf(),
            old(self).mirror().ram_type == RAMType::DDRam,
        ensures
            final(self).wf(),
            final(self).mirror() == (LcdState {
                cursor_pos: advance(
                    old(self).mirror().line,
                    old(self).mirror().direction,
                    old(self).mirror().cursor_pos,
                    s@.len() as int,
                ),
                ..old(self).mirror()
            }),
            final(self).poll() == old(self).poll(),
            final(self).queued() == old(self).queued() + char_writes(s@, old(self).poll()),
    {
        let chars = chars_of(s);
        let ghost s0 = self.mirror();
        let ghost q0 = self.queued();
        let mut i: usize = 0;
        proof {
            lemma_advance_step(s0.line, s0.direction, s0.cursor_pos, 0);
            assert(chars@.take(0) =~= Seq::<char>::empty());
        }
        while i < chars.len()
            invariant
                0 <= i <= chars.len(),
                chars@ == s@,
                s0.wf(),
                self.wf(),
                self.poll() == old(self).poll(),
                self.mirror() == (LcdState {
                    cursor_pos: advance(s0.line, s0.direction, s0.cursor_pos, i as int),
                    ..s0
                }),
                self.mirror().ram_type == RAMType::DDRam,
                self.queued() == q0 + char_writes(chars@.take(i as int), old(self).poll()),
            decreases chars.len() - i,
        {
            proof {
                lemma_advance_step(s0.line, s0.direction, s0.cursor_pos, i as int);
                assert(chars@.take(i as int + 1).drop_last() =~= chars@.take(i as int));
            }
            self.write_char_to_cur(chars[i]);
            i = i + 1;
        }
        assert(chars@.take(i as int) =~= s@);
    }

    /// Write a byte at a position; the cursor ends one cell past it.
    pub fn write_byte_to_pos(&mut self, byte: u8, pos: (u8, u8))
        requires
            old(self).wf(),
            pos_valid(old(self).mirror().line, pos),
        ensures
            final(self).wf(),
            final(self).mirror() == (LcdState {
                cursor_pos: step(old(self).mirror().line, old(self).mirror().direction, pos),
                ram_type: RAMType::DDRam,
                ..old(self).mirror()
            }),
            final(self).poll() == old(self).poll(),
            final(self).queued() == old(self).queued() + seq![
                Action::WaitThenSend(CommandSet::SetDDRAM(ddram_address(pos)), old(self).poll()),
                Action::WaitThenSend(CommandSet::WriteDataToRAM(byte), old(self).poll()),
            ],
    {
        self.set_cursor_pos(pos);
        self.write_u8_to_cur(byte);
        assert(self.queued() =~= old(self).queued() + seq![
            Action::WaitThenSend(CommandSet::SetDDRAM(ddram_address(pos)), old(self).poll()),
            Action::WaitThenSend(CommandSet::WriteDataToRAM(byte), old(self).poll()),
        ]);
    }

    /// Queue a read of the byte at a position (the bus hands the byte back); the cursor is
    /// put back where it was.
    pub fn read_byte_from_pos(&mut self, pos: (u8, u8))
        requires
            old(self).wf(),
            pos_valid(old(self).mirror().line, pos),
        ensures
            final(self).wf(),
            final(self).mirror() == (LcdState { ram_type: RAMType::DDRam, ..old(self).mirror() }),
            final(self).poll() == old(self).poll(),
            final(self).queued() == old(self).queued() + seq![
                Action::WaitThenSend(CommandSet::SetDDRAM(ddram_address(pos)), old(self).poll()),
                Action::WaitThenSend(CommandSet::ReadDataFromRAM, old(self).poll()),
                Action::WaitThenSend(
                    CommandSet::SetDDRAM(ddram_address(old(self).mirror().cursor_pos)),
                    old(self).poll(),
                ),
            ],
    {
        let original_pos = self.get_cursor_pos();
        self.set_cursor_pos(pos);
        self.read_u8_from_cur();
        self.set_cursor_pos(original_pos);
        assert(self.queued() =~= old(self).queued() + seq![
            Action::WaitThenSend(CommandSet::SetDDRAM(ddram_address(pos)), old(self).poll()),
            Action::WaitThenSend(CommandSet::ReadDataFromRAM, old(self).poll()),
            Action::WaitThenSend(
                CommandSet::SetDDRAM(ddram_address(old(self).mirror().cursor_pos)),
                old(self).poll(),
            ),
        ]);
    }

    /// Write a character at a position; the cursor ends one cell past it.
    pub fn write_char_to_pos(&mut self, c: char, pos: (u8, u8))
        requires
            old(self).wf(),
            pos_valid(old(self).mirror().line, pos),
        ensures
            final(self).wf(),
            final(self).mirror() == (LcdState {
                cursor_pos: step(old(self).mirror().line, old(self).mirror().direction, pos),
                ram_type: RAMType::DDRam,
                ..old(self).mirror()
            }),
            final(self).poll() == old(self).poll(),
            final(self).queued() == old(self).queued() + seq![
                Action::WaitThenSend(CommandSet::SetDDRAM(ddram_address(pos)), old(self).poll()),
                Action::WaitThenSend(CommandSet::WriteDataToRAM(char_byte(c)), old(self).poll()),
            ],
    {
        self.set_cursor_pos(pos);
        self.write_char_to_cur(c);
        assert(self.queued() =~= old(self).queued() + seq![
            Action::WaitThenSend(CommandSet::SetDDRAM(ddram_address(pos)), old(self).poll()),
            Action::WaitThenSend(CommandSet::WriteDataToRAM(char_byte(c)), old(self).poll()),
        ]);
    }

    /// Write a string from a position on; the cursor ends one cell past the last character.
    pub fn write_str_to_pos(&mut self, s: &str, pos: (u8, u8))
        requires
            old(self).wf(),
            pos_valid(old(self).mirror().line, pos),
        ensures
            final(self).wf(),
            final(self).mirror() == (LcdState {
                cursor_pos: advance(
                    old(self).mirror().line,
                    old(self).mirror().direction,
                    pos,
                    s@.len() as int,
                ),
                ram_type: RAMType::DDRam,
                ..old(self).mirror()
            }),
            final(self).poll() == old(self).poll(),
            final(self).queued() == old(self).queued() + seq![
                Action::WaitThenSend(CommandSet::SetDDRAM(ddram_address(pos)), old(self).poll()),
            ] + char_writes(s@, old(self).poll()),
    {
        self.set_cursor_pos(pos);
        self.write_str_to_cur(s);
    }

    /// Write glyph `index` of CGRAM at a position; the cursor ends one cell past it.
    pub fn write_graph_to_pos(&mut self, index: u8, pos: (u8, u8))
        requires
            old(self).wf(),
            pos_valid(old(self).mirror().line, pos),
            index < 8,
        ensures
            final(self).wf(),
            final(self).mirror() == (LcdState {
                cursor_pos: step(old(self).mirror().line, old(self).mirror().direction, pos),
                ram_type: RAMType::DDRam,
                ..old(self).mirror()
            }),
            final(self).poll() == old(self).poll(),
            final(self).queued() == old(self).queued() + seq![
                Action::WaitThenSend(CommandSet::SetDDRAM(ddram_address(pos)), old(self).poll()),
                Action::WaitThenSend(CommandSet::WriteDataToRAM(index), old(self).poll()),
            ],
    {
        self.write_byte_to_pos(index, pos);
    }

    /// Queue the reads of the eight rows of glyph `index` of CGRAM, top to bottom (the bus
    /// hands the rows back).
    pub fn read_graph_from_cgram(&mut self, index: u8)
        requires
            old(self).wf(),
            index < 8,
        ensures
            final(self).wf(),
            final(self).mirror() == (LcdState { ram_type: RAMType::CGRam, ..old(self).mirror() }),
            final(self).poll() == old(self).poll(),
            final(self).queued() == old(self).queued() + seq![
                Action::WaitThenSend(CommandSet::SetCGRAM((index * 8) as u8), old(self).poll()),
            ] + reads(8, old(self).poll()),
    {
        self.set_cgram_addr(index * 8);
        let ghost q1 = self.queued();
        let mut i: usize = 0;
        while i < 8
            invariant
                0 <= i <= 8,
                self.wf(),
                self.poll() == old(self).poll(),
                self.mirror() == (LcdState { ram_type: RAMType::CGRam, ..old(self).mirror() }),
                self.queued() == q1 + reads(i as nat, old(self).poll()),
            decreases 8 - i,
        {
            self.read_u8_from_cur();
            i = i + 1;
        }
    }

    /// Move the cursor by a relative `(columns, rows)` offset.
    pub fn offset_cursor_pos(&mut self, offset: (i8, i8))
        requires
            old(self).wf(),
            offset_allowed(old(self).mirror().line, offset),
        ensures
            final(self).wf(),
            final(self).mirror() == (LcdState {
                cursor_pos: pos_by_offset(
                    old(self).mirror().line,
                    old(self).mirror().cursor_pos,
                    offset,
                ),
                ram_type: RAMType::DDRam,
                ..old(self).mirror()
            }),
            final(self).poll() == old(self).poll(),
            final(self).queued() == old(self).queued().push(
                Action::WaitThenSend(
                    CommandSet::SetDDRAM(
                        ddram_address(
                            pos_by_offset(old(self).mirror().line, old(self).mirror().cursor_pos, offset),
                        ),
                    ),
                    old(self).poll(),
                ),
            ),
    {
        let target = self.calculate_pos_by_offset(self.get_cursor_pos(), offset);
        self.set_cursor_pos(target);
    }
}

} // verus!
