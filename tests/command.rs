use lcd1602_driver::command::{
    Bits, Command, CommandSet, DataWidth, Font, LineMode, MoveDirection, ReadWriteOp,
    RegisterSelection, ShiftType, State,
};

fn instruction(byte: u8) -> Command {
    Command::new(RegisterSelection::Command, ReadWriteOp::Write, Some(Bits::Bit8(byte)))
}

#[test]
fn entry_mode_left_to_right_with_display_encodes_to_7() {
    let c = Command::from(CommandSet::EntryModeSet(
        MoveDirection::LeftToRight,
        ShiftType::CursorAndDisplay,
    ));
    assert_eq!(c, instruction(0b0000_0111));
}

#[test]
fn function_set_4bit_two_line_5x8_encodes_to_0x28() {
    let c = Command::from(CommandSet::FunctionSet(DataWidth::Bit4, LineMode::TwoLine, Font::Font5x8));
    assert_eq!(c, instruction(0b0010_1000));
}

#[test]
fn every_instruction_encodes_per_table() {
    assert_eq!(Command::from(CommandSet::ClearDisplay), instruction(0b0000_0001));
    assert_eq!(Command::from(CommandSet::ReturnHome), instruction(0b0000_0010));
    assert_eq!(
        Command::from(CommandSet::EntryModeSet(MoveDirection::RightToLeft, ShiftType::CursorOnly)),
        instruction(0b0000_0100)
    );
    assert_eq!(
        Command::from(CommandSet::DisplayOnOff {
            display: State::On,
            cursor: State::Off,
            cursor_blink: State::On
        }),
        instruction(0b0000_1101)
    );
    assert_eq!(
        Command::from(CommandSet::CursorOrDisplayShift(
            ShiftType::CursorAndDisplay,
            MoveDirection::LeftToRight
        )),
        instruction(0b0001_1100)
    );
    assert_eq!(
        Command::from(CommandSet::CursorOrDisplayShift(ShiftType::CursorOnly, MoveDirection::RightToLeft)),
        instruction(0b0001_0000)
    );
    assert_eq!(
        Command::from(CommandSet::HalfFunctionSet),
        Command::new(RegisterSelection::Command, ReadWriteOp::Write, Some(Bits::Bit4(0b0010)))
    );
    assert_eq!(
        Command::from(CommandSet::FunctionSet(DataWidth::Bit8, LineMode::OneLine, Font::Font5x11)),
        instruction(0b0011_0100)
    );
    assert_eq!(Command::from(CommandSet::SetCGRAM(0x3F)), instruction(0b0111_1111));
    assert_eq!(Command::from(CommandSet::SetDDRAM(0x40)), instruction(0b1100_0000));
    assert_eq!(
        Command::from(CommandSet::ReadBusyFlagAndAddress),
        Command::new(RegisterSelection::Command, ReadWriteOp::Read, None)
    );
    assert_eq!(
        Command::from(CommandSet::WriteDataToRAM(0x41)),
        Command::new(RegisterSelection::Data, ReadWriteOp::Write, Some(Bits::Bit8(0x41)))
    );
    assert_eq!(
        Command::from(CommandSet::ReadDataFromRAM),
        Command::new(RegisterSelection::Data, ReadWriteOp::Read, None)
    );
}

#[test]
fn address_ranges_are_checked() {
    assert!(CommandSet::SetCGRAM(63).is_valid());
    assert!(!CommandSet::SetCGRAM(64).is_valid());
    assert!(CommandSet::SetDDRAM(127).is_valid());
    assert!(!CommandSet::SetDDRAM(128).is_valid());
    assert!(CommandSet::ClearDisplay.is_valid());
}

#[test]
fn command_accessors() {
    let mut c = Command::new(RegisterSelection::Command, ReadWriteOp::Read, None);
    assert_eq!(c.get_register_selection(), RegisterSelection::Command);
    assert_eq!(c.get_read_write_op(), ReadWriteOp::Read);
    assert_eq!(c.get_data(), None);
    c.set_register_selection(RegisterSelection::Data);
    c.set_read_write_op(ReadWriteOp::Write);
    c.set_data(Some(Bits::Bit8(7)));
    assert_eq!(c, Command::new(RegisterSelection::Data, ReadWriteOp::Write, Some(Bits::Bit8(7))));
}
