use lcd1602_driver::command::{Bits, Command, CommandSet, ReadWriteOp, RegisterSelection, State};
use lcd1602_driver::sender::{
    backlight_of_latch, is_busy, join_bridge_read, join_nibbles, parallel_can_send,
    parallel_steps, pin_count, pin_levels, value_from_levels, I2cBridge, I2cTransfer, PinCount,
    PinOp,
};

#[test]
fn busy_flag_is_bit_7() {
    assert!(is_busy(0x80));
    assert!(is_busy(0xFF));
    assert!(!is_busy(0x7F));
}

#[test]
fn pin_counts() {
    assert_eq!(pin_count(4), Some(PinCount::Four));
    assert_eq!(pin_count(8), Some(PinCount::Eight));
    assert_eq!(pin_count(6), None);
}

#[test]
fn parallel_write_four_lines_splits_nibbles() {
    let c = Command::from(CommandSet::WriteDataToRAM(0xA5));
    assert_eq!(
        parallel_steps(&c, PinCount::Four),
        vec![
            PinOp::SetEn(false),
            PinOp::SetRs(true),
            PinOp::SetRw(false),
            PinOp::Push(0x0A),
            PinOp::SetEn(true),
            PinOp::SetEn(false),
            PinOp::Push(0x05),
            PinOp::SetEn(true),
            PinOp::SetEn(false),
        ]
    );
}

#[test]
fn parallel_write_eight_lines_and_bootstrap() {
    let c = Command::from(CommandSet::ClearDisplay);
    assert_eq!(
        parallel_steps(&c, PinCount::Eight),
        vec![
            PinOp::SetEn(false),
            PinOp::SetRs(false),
            PinOp::SetRw(false),
            PinOp::Push(0x01),
            PinOp::SetEn(true),
            PinOp::SetEn(false),
        ]
    );
    let half = Command::from(CommandSet::HalfFunctionSet);
    assert!(parallel_can_send(&half, PinCount::Four));
    assert!(!parallel_can_send(&half, PinCount::Eight));
    assert_eq!(parallel_steps(&half, PinCount::Four)[3], PinOp::Push(0b0010));
    let no_data = Command::new(RegisterSelection::Data, ReadWriteOp::Read, None);
    let mut broken = no_data;
    broken.set_read_write_op(ReadWriteOp::Write);
    assert!(!parallel_can_send(&broken, PinCount::Eight));
}

#[test]
fn parallel_reads() {
    let c = Command::from(CommandSet::ReadBusyFlagAndAddress);
    assert_eq!(
        parallel_steps(&c, PinCount::Four),
        vec![
            PinOp::SetEn(false),
            PinOp::SetRs(false),
            PinOp::SetRw(true),
            PinOp::SetEn(true),
            PinOp::Fetch,
            PinOp::SetEn(false),
            PinOp::SetEn(true),
            PinOp::Fetch,
            PinOp::SetEn(false),
        ]
    );
    assert_eq!(parallel_steps(&c, PinCount::Eight).len(), 6);
    assert_eq!(join_nibbles(0x0B, 0x03), 0xB3);
}

#[test]
fn levels_round_trip() {
    assert_eq!(pin_levels(0b1010, PinCount::Four), vec![false, true, false, true]);
    assert_eq!(pin_levels(0x81, PinCount::Eight), vec![true, false, false, false, false, false, false, true]);
    assert_eq!(value_from_levels(&vec![false, true, false, true]), 0b1010);
    assert_eq!(value_from_levels(&pin_levels(0xC6, PinCount::Eight)), 0xC6);
    assert_eq!(value_from_levels(&vec![]), 0);
}

#[test]
fn bridge_first_command_is_bootstrap() {
    let mut bridge = I2cBridge::new();
    let clear = Command::from(CommandSet::ClearDisplay);
    let half = Command::from(CommandSet::HalfFunctionSet);
    assert!(!bridge.can_send(&clear));
    assert!(bridge.can_send(&half));
    match bridge.frames(&half) {
        I2cTransfer::Write(frames) => assert_eq!(frames, vec![0b0010_1000, 0b0010_1100, 0b0010_1000]),
        other => panic!("unexpected {:?}", other),
    }
    assert!(!bridge.first_command);
    assert!(!bridge.can_send(&half));
    assert!(bridge.can_send(&clear));
}

#[test]
fn bridge_refuses_eight_bit_mode() {
    let mut bridge = I2cBridge::new();
    bridge.frames(&Command::from(CommandSet::HalfFunctionSet));
    let eight = Command::from(CommandSet::FunctionSet(
        lcd1602_driver::command::DataWidth::Bit8,
        lcd1602_driver::command::LineMode::TwoLine,
        lcd1602_driver::command::Font::Font5x8,
    ));
    assert!(!bridge.can_send(&eight));
    let data_0x3x = Command::from(CommandSet::WriteDataToRAM(0x31));
    assert!(bridge.can_send(&data_0x3x));
}

#[test]
fn bridge_write_and_read_frames() {
    let mut bridge = I2cBridge::new();
    bridge.frames(&Command::from(CommandSet::HalfFunctionSet));
    match bridge.frames(&Command::from(CommandSet::WriteDataToRAM(0x41))) {
        I2cTransfer::Write(frames) => assert_eq!(
            frames,
            vec![0b0100_1001, 0b0100_1101, 0b0100_1001, 0b0001_1001, 0b0001_1101, 0b0001_1001]
        ),
        other => panic!("unexpected {:?}", other),
    }
    bridge.set_backlight(State::Off);
    match bridge.frames(&Command::from(CommandSet::ReadBusyFlagAndAddress)) {
        I2cTransfer::Read { high_probe, low_probe, finish } => {
            assert_eq!(high_probe, vec![0b1111_0010, 0b1111_0110]);
            assert_eq!(low_probe, vec![0b1111_0010, 0b1111_0010, 0b1111_0110]);
            assert_eq!(finish, vec![0b1111_0010]);
        }
        other => panic!("unexpected {:?}", other),
    }
    assert_eq!(join_bridge_read(0xA7, 0x3F), 0xA3);
}

#[test]
fn bridge_backlight() {
    let mut bridge = I2cBridge::new();
    assert_eq!(bridge.set_backlight(State::On), vec![0b1111_1010, 0b1111_1110, 0b1111_1010]);
    assert_eq!(bridge.set_backlight(State::Off), vec![0b1111_0010, 0b1111_0110, 0b1111_0010]);
    assert_eq!(bridge.backlight, State::Off);
    assert_eq!(backlight_of_latch(0b0000_1000), State::On);
    assert_eq!(backlight_of_latch(0b1111_0111), State::Off);
    let _ = Bits::Bit8(0);
}
