//! The controller's instruction set and its wire encoding.

use vstd::prelude::*;

verus! {

/// Direction in which the address counter, the cursor or the display window moves.
#[derive(Clone, Copy, Debug, PartialEq, Eq, Structural, Default)]
pub enum MoveDirection {
    /// Towards lower columns.
    RightToLeft,
    /// Towards higher columns.
    #[default]
    LeftToRight,
}

/// Whether a shift moves the cursor only, or the cursor and the display window.
#[derive(Clone, Copy, Debug, PartialEq, Eq, Structural, Default)]
pub enum ShiftType {
    /// Only the cursor moves.
    #[default]
    CursorOnly,
    /// The cursor and the display window move together.
    CursorAndDisplay,
}

/// An On/Off state.
#[derive(Clone, Copy, Debug, PartialEq, Eq, Structural, Default)]
pub enum State {
    /// Off.
    Off,
    /// On.
    #[default]
    On,
}

/// Width of the data bus between the host and the controller.
#[derive(Clone, Copy, Debug, PartialEq, Eq, Structural, Default)]
pub enum DataWidth {
    /// Four data lines; every byte travels as two nibbles.
    #[default]
    Bit4,
    /// Eight data lines.
    Bit8,
}

/// Number of display lines.
#[derive(Clone, Copy, Debug, PartialEq, Eq, Structural, Default)]
pub enum LineMode {
    /// One line of 80 columns.
    OneLine,
    /// Two lines of 40 columns.
    #[default]
    TwoLine,
}

/// Character font.
#[derive(Clone, Copy, Debug, PartialEq, Eq, Structural, Default)]
pub enum Font {
    /// 5x8 dots.
    #[default]
    Font5x8,
    /// 5x11 dots (one-line mode only).
    Font5x11,
}

/// The memory that the address counter points into.
#[derive(Clone, Copy, Debug, PartialEq, Eq, Structural, Default)]
pub enum RAMType {
    /// Display Data RAM: the character cells.
    #[default]
    DDRam,
    /// Character Generator RAM: the user-defined glyphs.
    CGRam,
}

/// The register that a transfer addresses (the "RS" line).
#[derive(Clone, Copy, Debug, PartialEq, Eq, Structural)]
pub enum RegisterSelection {
    /// The instruction register.
    Command,
    /// The data register.
    Data,
}

/// Direction of a transfer (the "RW" line).
#[derive(Clone, Copy, Debug, PartialEq, Eq, Structural)]
pub enum ReadWriteOp {
    /// Host to controller.
    Write,
    /// Controller to host.
    Read,
}

/// The payload of a transfer, with its width.
///
/// Nearly every payload is 8 bits wide; only the very first transfer in 4-bit mode
/// carries a single nibble.
#[derive(Clone, Copy, Debug, PartialEq, Eq, Structural)]
pub enum Bits {
    /// A 4-bit payload.
    Bit4(u8),
    /// An 8-bit payload.
    Bit8(u8),
}

/// The logical instructions of the controller.
#[derive(Clone, Copy, Debug, PartialEq, Eq, Structural)]
pub enum CommandSet {
    /// Clear the display and return the address counter to 0.
    ClearDisplay,
    /// Return the address counter to 0 and unshift the display.
    ReturnHome,
    /// Auto-step direction and whether the display follows the cursor.
    EntryModeSet(MoveDirection, ShiftType),
    /// Display, cursor and blink switches.
    DisplayOnOff { display: State, cursor: State, cursor_blink: State },
    /// Shift the cursor, or the cursor and the display, by one column.
    CursorOrDisplayShift(ShiftType, MoveDirection),
    /// The first, single-nibble transfer that puts a 4-bit bus in 4-bit mode.
    HalfFunctionSet,
    /// Bus width, line count and font.
    FunctionSet(DataWidth, LineMode, Font),
    /// Point the address counter into CGRAM (address below 64).
    SetCGRAM(u8),
    /// Point the address counter into DDRAM (address below 128).
    SetDDRAM(u8),
    /// Read the busy flag and the address counter.
    ReadBusyFlagAndAddress,
    /// Write a byte to the RAM that the address counter points into.
    WriteDataToRAM(u8),
    /// Read a byte from the RAM that the address counter points into.
    ReadDataFromRAM,
}

/// A transfer on the bus: register, direction and payload.
#[derive(Clone, Copy, Debug, PartialEq, Eq, Structural)]
pub struct Command {
    /// Register selected.
    pub rs: RegisterSelection,
    /// Read or write.
    pub rw: ReadWriteOp,
    /// Payload of a write; a read has none.
    pub data: Option<Bits>,
}

/// 1 for left-to-right, 0 otherwise.
pub open spec fn direction_bit(d: MoveDirection) -> int {
    match d {
        MoveDirection::LeftToRight => 1,
        MoveDirection::RightToLeft => 0,
    }
}

/// 1 for a shift of cursor and display, 0 otherwise.
pub open spec fn shift_bit(s: ShiftType) -> int {
    match s {
        ShiftType::CursorAndDisplay => 1,
        ShiftType::CursorOnly => 0,
    }
}

/// 1 for On, 0 for Off.
pub open spec fn state_bit(s: State) -> int {
    match s {
        State::On => 1,
        State::Off => 0,
    }
}

/// 1 for an 8-bit bus, 0 otherwise.
pub open spec fn width_bit(w: DataWidth) -> int {
    match w {
        DataWidth::Bit8 => 1,
        DataWidth::Bit4 => 0,
    }
}

/// 1 for two lines, 0 otherwise.
pub open spec fn line_bit(l: LineMode) -> int {
    match l {
        LineMode::TwoLine => 1,
        LineMode::OneLine => 0,
    }
}

/// 1 for the 5x11 font, 0 otherwise.
pub open spec fn font_bit(f: Font) -> int {
    match f {
        Font::Font5x11 => 1,
        Font::Font5x8 => 0,
    }
}

/// A write of an 8-bit instruction byte.
pub open spec fn instruction(byte: int) -> Command {
    Command {
        rs: RegisterSelection::Command,
        rw: ReadWriteOp::Write,
        data: Some(Bits::Bit8(byte as u8)),
    }
}

impl CommandSet {
    /// The addresses are in range: CGRAM below 64, DDRAM below 128.
    pub open spec fn wf(self) -> bool {
        match self {
            CommandSet::SetCGRAM(addr) => addr < 64,
            CommandSet::SetDDRAM(addr) => addr < 128,
            _ => true,
        }
    }

    /// The transfer that realises an instruction, as the controller's instruction table gives it.
    pub open spec fn encoding(self) -> Command {
        match self {
            CommandSet::ClearDisplay => instruction(0b0000_0001),
            CommandSet::ReturnHome => instruction(0b0000_0010),
            CommandSet::EntryModeSet(dir, st) => instruction(
                0b0000_0100 + 2 * direction_bit(dir) + shift_bit(st),
            ),
            CommandSet::DisplayOnOff { display, cursor, cursor_blink } => instruction(
                0b0000_1000 + 4 * state_bit(display) + 2 * state_bit(cursor) + state_bit(
                    cursor_blink,
                ),
            ),
            CommandSet::CursorOrDisplayShift(st, dir) => instruction(
                0b0001_0000 + 8 * shift_bit(st) + 4 * direction_bit(dir),
            ),
            CommandSet::HalfFunctionSet => Command {
                rs: RegisterSelection::Command,
                rw: ReadWriteOp::Write,
                data: Some(Bits::Bit4(0b0010)),
            },
            CommandSet::FunctionSet(width, line, font) => instruction(
                0b0010_0000 + 16 * width_bit(width) + 8 * line_bit(line) + 4 * font_bit(font),
            ),
            CommandSet::SetCGRAM(addr) => instruction(0b0100_0000 + addr),
            CommandSet::SetDDRAM(addr) => instruction(0b1000_0000 + addr),
            CommandSet::ReadBusyFlagAndAddress => Command {
                rs: RegisterSelection::Command,
                rw: ReadWriteOp::Read,
                data: None,
            },
            CommandSet::WriteDataToRAM(byte) => Command {
                rs: RegisterSelection::Data,
                rw: ReadWriteOp::Write,
                data: Some(Bits::Bit8(byte)),
            },
            CommandSet::ReadDataFromRAM => Command {
                rs: RegisterSelection::Data,
                rw: ReadWriteOp::Read,
                data: None,
            },
        }
    }

    /// Whether the addresses are in range.
    pub fn is_valid(&self) -> (r: bool)
        ensures
            r == self.wf(),
    {
        match *self {
            CommandSet::SetCGRAM(addr) => addr < 64,
            CommandSet::SetDDRAM(addr) => addr < 128,
            _ => true,
        }
    }
}

fn direction_flag(d: MoveDirection) -> (r: u8)
    ensures
        r == direction_bit(d),
{
    match d {
        MoveDirection::LeftToRight => 1,
        MoveDirection::RightToLeft => 0,
    }
}

fn shift_flag(s: ShiftType) -> (r: u8)
    ensures
        r == shift_bit(s),
{
    match s {
        ShiftType::CursorAndDisplay => 1,
        ShiftType::CursorOnly => 0,
    }
}

fn state_flag(s: State) -> (r: u8)
    ensures
        r == state_bit(s),
{
    match s {
        State::On => 1,
        State::Off => 0,
    }
}

fn width_flag(w: DataWidth) -> (r: u8)
    ensures
        r == width_bit(w),
{
    match w {
        DataWidth::Bit8 => 1,
        DataWidth::Bit4 => 0,
    }
}

fn line_flag(l: LineMode) -> (r: u8)
    ensures
        r == line_bit(l),
{
    match l {
        LineMode::TwoLine => 1,
        LineMode::OneLine => 0,
    }
}

fn font_flag(f: Font) -> (r: u8)
    ensures
        r == font_bit(f),
{
    match f {
        Font::Font5x11 => 1,
        Font::Font5x8 => 0,
    }
}

impl Command {
    /// A transfer; a write must carry a payload.
    pub fn new(rs: RegisterSelection, rw: ReadWriteOp, data: Option<Bits>) -> (r: Command)
        requires
            rw == ReadWriteOp::Write ==> data.is_some(),
        ensures
            r == (Command { rs, rw, data }),
    {
        Command { rs, rw, data }
    }

    /// The register selected.
    pub fn get_register_selection(&self) -> (r: RegisterSelection)
        ensures
            r == self.rs,
    {
        self.rs
    }

    /// Select another register.
    pub fn set_register_selection(&mut self, rs: RegisterSelection)
        ensures
            *final(self) == (Command { rs, ..*old(self) }),
    {
        self.rs = rs;
    }

    /// Read or write.
    pub fn get_read_write_op(&self) -> (r: ReadWriteOp)
        ensures
            r == self.rw,
    {
        self.rw
    }

    /// Change the direction of the transfer.
    pub fn set_read_write_op(&mut self, rw: ReadWriteOp)
        ensures
            *final(self) == (Command { rw, ..*old(self) }),
    {
        self.rw = rw;
    }

    /// The payload.
    pub fn get_data(&self) -> (r: Option<Bits>)
        ensures
            r == self.data,
    {
        self.data
    }

    /// Replace the payload.
    pub fn set_data(&mut self, data: Option<Bits>)
        ensures
            *final(self) == (Command { data, ..*old(self) }),
    {
        self.data = data;
    }

    /// Encode an instruction as the transfer that the controller expects.
    pub fn from(command: CommandSet) -> (r: Command)
        requires
            command.wf(),
        ensures
            r == command.encoding(),
    {
        match command {
            CommandSet::ClearDisplay => Command::new(
                RegisterSelection::Command,
                ReadWriteOp::Write,
                Some(Bits::Bit8(0b0000_0001)),
            ),
            CommandSet::ReturnHome => Command::new(
                RegisterSelection::Command,
                ReadWriteOp::Write,
                Some(Bits::Bit8(0b0000_0010)),
            ),
            CommandSet::EntryModeSet(dir, st) => {
                let raw_bits: u8 = 0b0000_0100 + 2 * direction_flag(dir) + shift_flag(st);
                Command::new(
                    RegisterSelection::Command,
                    ReadWriteOp::Write,
                    Some(Bits::Bit8(raw_bits)),
                )
            },
            CommandSet::DisplayOnOff { display, cursor, cursor_blink } => {
                let raw_bits: u8 = 0b0000_1000 + 4 * state_flag(display) + 2 * state_flag(cursor)
                    + state_flag(cursor_blink);
                Command::new(
                    RegisterSelection::Command,
                    ReadWriteOp::Write,
                    Some(Bits::Bit8(raw_bits)),
                )
            },
            CommandSet::CursorOrDisplayShift(st, dir) => {
                let raw_bits: u8 = 0b0001_0000 + 8 * shift_flag(st) + 4 * direction_flag(dir);
                Command::new(
                    RegisterSelection::Command,
                    ReadWriteOp::Write,
                    Some(Bits::Bit8(raw_bits)),
                )
            },
            CommandSet::HalfFunctionSet => Command::new(
                RegisterSelection::Command,
                ReadWriteOp::Write,
                Some(Bits::Bit4(0b0010)),
            ),
            CommandSet::FunctionSet(width, line, font) => {
                let raw_bits: u8 = 0b0010_0000 + 16 * width_flag(width) + 8 * line_flag(line) + 4
                    * font_flag(font);
                Command::new(
                    RegisterSelection::Command,
                    ReadWriteOp::Write,
                    Some(Bits::Bit8(raw_bits)),
                )
            },
            CommandSet::SetCGRAM(addr) => Command::new(
                RegisterSelection::Command,
                ReadWriteOp::Write,
                Some(Bits::Bit8(0b0100_0000 + addr)),
            ),
            CommandSet::SetDDRAM(addr) => Command::new(
                RegisterSelection::Command,
                ReadWriteOp::Write,
                Some(Bits::Bit8(0b1000_0000 + addr)),
            ),
            CommandSet::ReadBusyFlagAndAddress => Command::new(
                RegisterSelection::Command,
                ReadWriteOp::Read,
                None,
            ),
            CommandSet::WriteDataToRAM(data) => Command::new(
                RegisterSelection::Data,
                ReadWriteOp::Write,
                Some(Bits::Bit8(data)),
            ),
            CommandSet::ReadDataFromRAM => Command::new(
                RegisterSelection::Data,
                ReadWriteOp::Read,
                None,
            ),
        }
    }
}

} // verus!
