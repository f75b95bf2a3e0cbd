use lcd1602_driver::command::{
    CommandSet, DataWidth, Font, LineMode, MoveDirection, RAMType, ShiftType, State,
};
use lcd1602_driver::config::Config;
use lcd1602_driver::lcd::{byte_of_char, chars_of, Action, Lcd};

const POLL: u32 = 10;

fn ready(config: Config) -> Lcd {
    let mut lcd = Lcd::new(config, POLL);
    lcd.take_actions();
    lcd
}

fn send(c: CommandSet) -> Action {
    Action::WaitThenSend(c, POLL)
}

#[test]
fn init_sequence_four_bit() {
    let mut lcd = Lcd::new(Config::default(), POLL);
    let fs = CommandSet::FunctionSet(DataWidth::Bit4, LineMode::TwoLine, Font::Font5x8);
    assert_eq!(
        lcd.take_actions(),
        vec![
            Action::DelayThenSend(CommandSet::HalfFunctionSet, 40_000),
            Action::DelayThenSend(fs, 40),
            Action::DelayThenSend(fs, 40),
            send(CommandSet::DisplayOnOff { display: State::On, cursor: State::On, cursor_blink: State::On }),
            send(CommandSet::ClearDisplay),
            send(CommandSet::EntryModeSet(MoveDirection::LeftToRight, ShiftType::CursorOnly)),
            Action::SetBacklight(State::On),
        ]
    );
    assert!(lcd.take_actions().is_empty());
    assert_eq!(lcd.get_cursor_pos(), (0, 0));
    assert_eq!(lcd.get_poll_interval_us(), POLL);
}

#[test]
fn init_sequence_eight_bit_one_line() {
    let config = Config::default()
        .set_data_width(DataWidth::Bit8)
        .set_line_mode(LineMode::OneLine)
        .set_font(Font::Font5x11)
        .set_cursor_state(State::Off)
        .set_direction(MoveDirection::RightToLeft)
        .set_backlight(State::Off);
    let mut lcd = Lcd::new(config, POLL);
    let fs = CommandSet::FunctionSet(DataWidth::Bit8, LineMode::OneLine, Font::Font5x11);
    assert_eq!(
        lcd.take_actions(),
        vec![
            Action::DelayThenSend(fs, 40_000),
            Action::DelayThenSend(fs, 40),
            send(CommandSet::DisplayOnOff { display: State::On, cursor: State::Off, cursor_blink: State::On }),
            send(CommandSet::ClearDisplay),
            send(CommandSet::EntryModeSet(MoveDirection::RightToLeft, ShiftType::CursorOnly)),
            Action::SetBacklight(State::Off),
        ]
    );
    assert_eq!(lcd.get_line_capacity(), 80);
}

#[test]
fn write_steps_and_wraps_two_line() {
    let mut lcd = ready(Config::default());
    lcd.set_cursor_pos((39, 0));
    lcd.write_u8_to_cur(b'x');
    assert_eq!(lcd.get_cursor_pos(), (0, 1));
    lcd.set_cursor_pos((39, 1));
    lcd.write_u8_to_cur(b'y');
    assert_eq!(lcd.get_cursor_pos(), (0, 0));
    assert_eq!(
        lcd.take_actions(),
        vec![
            send(CommandSet::SetDDRAM(39)),
            send(CommandSet::WriteDataToRAM(b'x')),
            send(CommandSet::SetDDRAM(0x40 + 39)),
            send(CommandSet::WriteDataToRAM(b'y')),
        ]
    );
}

#[test]
fn write_steps_and_wraps_right_to_left() {
    let mut lcd = ready(Config::default().set_direction(MoveDirection::RightToLeft));
    lcd.set_cursor_pos((0, 0));
    lcd.write_u8_to_cur(1);
    assert_eq!(lcd.get_cursor_pos(), (39, 1));
    lcd.set_cursor_pos((0, 1));
    lcd.write_u8_to_cur(2);
    assert_eq!(lcd.get_cursor_pos(), (39, 0));
}

#[test]
fn characters_map_to_bytes() {
    assert_eq!(byte_of_char('A'), 0x41);
    assert_eq!(byte_of_char(' '), 0x20);
    assert_eq!(byte_of_char('}'), 0x7D);
    assert_eq!(byte_of_char('~'), 0xFF);
    assert_eq!(byte_of_char('\n'), 0xFF);
    assert_eq!(byte_of_char('é'), 0xFF);
    assert_eq!(chars_of("añb"), vec!['a', 'ñ', 'b']);
}

#[test]
fn write_str_and_char() {
    let mut lcd = ready(Config::default());
    lcd.write_str_to_pos("hi~", (38, 0));
    assert_eq!(lcd.get_cursor_pos(), (1, 1));
    lcd.write_char_to_pos('Z', (3, 1));
    assert_eq!(lcd.get_cursor_pos(), (4, 1));
    assert_eq!(
        lcd.take_actions(),
        vec![
            send(CommandSet::SetDDRAM(38)),
            send(CommandSet::WriteDataToRAM(b'h')),
            send(CommandSet::WriteDataToRAM(b'i')),
            send(CommandSet::WriteDataToRAM(0xFF)),
            send(CommandSet::SetDDRAM(0x43)),
            send(CommandSet::WriteDataToRAM(b'Z')),
        ]
    );
    lcd.write_str_to_cur("");
    assert!(lcd.take_actions().is_empty());
}

#[test]
fn graph_to_cgram_right_to_left_restores_direction() {
    let heart: [u8; 8] = [0b00000, 0b00000, 0b01010, 0b11111, 0b01110, 0b00100, 0b00000, 0b00000];
    let mut lcd = ready(Config::default().set_direction(MoveDirection::RightToLeft));
    lcd.write_graph_to_cgram(1, &heart);
    assert_eq!(lcd.get_direction(), MoveDirection::RightToLeft);
    assert_eq!(lcd.get_ram_type(), RAMType::CGRam);
    let mut expected = vec![
        send(CommandSet::EntryModeSet(MoveDirection::LeftToRight, ShiftType::CursorOnly)),
        send(CommandSet::SetCGRAM(8)),
    ];
    for row in heart {
        expected.push(send(CommandSet::WriteDataToRAM(row)));
    }
    expected.push(send(CommandSet::EntryModeSet(MoveDirection::RightToLeft, ShiftType::CursorOnly)));
    assert_eq!(lcd.take_actions(), expected);
}

#[test]
fn graph_to_cgram_left_to_right_needs_no_flip() {
    let rows: [u8; 8] = [1, 2, 3, 4, 5, 6, 7, 31];
    let mut lcd = ready(Config::default());
    lcd.write_graph_to_cgram(7, &rows);
    let actions = lcd.take_actions();
    assert_eq!(actions.len(), 9);
    assert_eq!(actions[0], send(CommandSet::SetCGRAM(56)));
    assert_eq!(actions[8], send(CommandSet::WriteDataToRAM(31)));
    assert_eq!(lcd.get_direction(), MoveDirection::LeftToRight);
}

#[test]
fn read_graph_and_read_byte() {
    let mut lcd = ready(Config::default());
    lcd.set_cursor_pos((5, 1));
    lcd.take_actions();
    lcd.read_byte_from_pos((2, 0));
    assert_eq!(lcd.get_cursor_pos(), (5, 1));
    assert_eq!(
        lcd.take_actions(),
        vec![
            send(CommandSet::SetDDRAM(2)),
            send(CommandSet::ReadDataFromRAM),
            send(CommandSet::SetDDRAM(0x45)),
        ]
    );
    lcd.read_graph_from_cgram(2);
    let actions = lcd.take_actions();
    assert_eq!(actions.len(), 9);
    assert_eq!(actions[0], send(CommandSet::SetCGRAM(16)));
    assert!(actions[1..].iter().all(|a| *a == send(CommandSet::ReadDataFromRAM)));
    assert_eq!(lcd.get_ram_type(), RAMType::CGRam);
}

#[test]
fn read_at_cursor_steps_in_ddram() {
    let mut lcd = ready(Config::default());
    lcd.set_cursor_pos((39, 0));
    lcd.read_u8_from_cur();
    assert_eq!(lcd.get_cursor_pos(), (0, 1));
}

#[test]
fn font_and_line_rules() {
    let mut lcd = ready(Config::default().set_line_mode(LineMode::OneLine));
    lcd.set_font(Font::Font5x11);
    assert_eq!(lcd.get_font(), Font::Font5x11);
    assert_eq!(
        lcd.take_actions(),
        vec![send(CommandSet::FunctionSet(DataWidth::Bit4, LineMode::OneLine, Font::Font5x11))]
    );
    let mut lcd = ready(Config::default());
    lcd.set_line_mode(LineMode::TwoLine);
    assert_eq!(lcd.get_line_mode(), LineMode::TwoLine);
    assert!(!lcd1602_driver::state::line_font_compatible(lcd.get_line_mode(), Font::Font5x11));
}

#[test]
fn switches_send_display_control_and_entry_mode() {
    let mut lcd = ready(Config::default());
    lcd.set_cursor_state(State::Off);
    lcd.set_cursor_blink_state(State::Off);
    lcd.set_display_state(State::Off);
    lcd.toggle_display();
    lcd.set_shift_type(ShiftType::CursorAndDisplay);
    lcd.set_backlight(State::Off);
    assert_eq!(lcd.get_display_state(), State::On);
    assert_eq!(lcd.get_cursor_state(), State::Off);
    assert_eq!(lcd.get_cursor_blink_state(), State::Off);
    assert_eq!(lcd.get_shift_type(), ShiftType::CursorAndDisplay);
    assert_eq!(lcd.get_backlight(), State::Off);
    assert_eq!(
        lcd.take_actions(),
        vec![
            send(CommandSet::DisplayOnOff { display: State::On, cursor: State::Off, cursor_blink: State::On }),
            send(CommandSet::DisplayOnOff { display: State::On, cursor: State::Off, cursor_blink: State::Off }),
            send(CommandSet::DisplayOnOff { display: State::Off, cursor: State::Off, cursor_blink: State::Off }),
            send(CommandSet::DisplayOnOff { display: State::On, cursor: State::Off, cursor_blink: State::Off }),
            send(CommandSet::EntryModeSet(MoveDirection::LeftToRight, ShiftType::CursorAndDisplay)),
            Action::SetBacklight(State::Off),
        ]
    );
}

#[test]
fn clear_home_shift_and_offsets() {
    let mut lcd = ready(Config::default());
    lcd.set_cursor_pos((10, 1));
    lcd.shift_cursor_or_display(ShiftType::CursorAndDisplay, MoveDirection::RightToLeft);
    assert_eq!(lcd.get_display_offset(), 39);
    lcd.shift_cursor_or_display(ShiftType::CursorOnly, MoveDirection::RightToLeft);
    assert_eq!(lcd.get_cursor_pos(), (9, 1));
    lcd.offset_cursor_pos((31, 0));
    assert_eq!(lcd.get_cursor_pos(), (0, 0));
    assert_eq!(lcd.calculate_pos_by_offset((0, 0), (-1, 0)), (39, 1));
    lcd.return_home();
    assert_eq!(lcd.get_display_offset(), 0);
    lcd.set_cgram_addr(3);
    assert_eq!(lcd.get_ram_type(), RAMType::CGRam);
    lcd.clean_display();
    assert_eq!(lcd.get_ram_type(), RAMType::DDRam);
    assert_eq!(lcd.get_cursor_pos(), (0, 0));
    lcd.write_graph_to_pos(3, (1, 0));
    lcd.write_graph_to_cur(4);
    lcd.write_byte_to_pos(0x30, (0, 1));
    lcd.delay_ms(5);
    lcd.delay_us(7);
    lcd.set_poll_interval(3);
    lcd.write_char_to_cur('!');
    let actions = lcd.take_actions();
    let tail = &actions[actions.len() - 10..];
    assert_eq!(
        tail,
        &[
            send(CommandSet::SetCGRAM(3)),
            send(CommandSet::ClearDisplay),
            send(CommandSet::SetDDRAM(1)),
            send(CommandSet::WriteDataToRAM(3)),
            send(CommandSet::WriteDataToRAM(4)),
            send(CommandSet::SetDDRAM(0x40)),
            send(CommandSet::WriteDataToRAM(0x30)),
            Action::DelayMs(5),
            Action::DelayUs(7),
            Action::WaitThenSend(CommandSet::WriteDataToRAM(b'!'), 3),
        ]
    );
}

#[test]
fn two_line_rejects_5x11_but_one_line_accepts_it() {
    let four_bit_two_line = Config::default().set_data_width(DataWidth::Bit4).set_line_mode(LineMode::TwoLine);
    assert!(four_bit_two_line.is_valid());
    assert!(!four_bit_two_line.set_font(Font::Font5x11).is_valid());
    let lcd = ready(four_bit_two_line);
    assert!(!lcd1602_driver::state::line_font_compatible(lcd.get_line_mode(), Font::Font5x11));
    let mut lcd = ready(Config::default().set_line_mode(LineMode::OneLine));
    assert!(lcd1602_driver::state::line_font_compatible(lcd.get_line_mode(), Font::Font5x11));
    lcd.set_font(Font::Font5x11);
    assert_eq!(lcd.get_font(), Font::Font5x11);
}
