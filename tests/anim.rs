use lcd1602_driver::anim::{is_flappable, plan_window_shift, FlipStyle, MoveStyle};
use lcd1602_driver::command::{CommandSet, MoveDirection, ShiftType, State};
use lcd1602_driver::config::Config;
use lcd1602_driver::lcd::{Action, Lcd};

const POLL: u32 = 10;

fn ready(config: Config) -> Lcd {
    let mut lcd = Lcd::new(config, POLL);
    lcd.take_actions();
    lcd
}

fn send(c: CommandSet) -> Action {
    Action::WaitThenSend(c, POLL)
}

/// Plays the actions on a model of the display RAM: the address counter steps left to right.
fn ddram_after(actions: &[Action]) -> Vec<u8> {
    let mut ram = vec![b' '; 128];
    let mut addr: usize = 0;
    for a in actions {
        if let Action::WaitThenSend(c, _) = a {
            match *c {
                CommandSet::SetDDRAM(x) => addr = x as usize,
                CommandSet::WriteDataToRAM(b) => {
                    ram[addr] = b;
                    addr += 1;
                }
                _ => {}
            }
        }
    }
    ram
}

#[test]
fn shortest_shift_from_0_to_39_is_one_step_right_to_left() {
    assert_eq!(plan_window_shift(MoveStyle::Shortest, 0, 39, 40), (1, MoveDirection::RightToLeft));
}

#[test]
fn shortest_shift_tie_goes_left_to_right() {
    assert_eq!(plan_window_shift(MoveStyle::Shortest, 0, 20, 40), (20, MoveDirection::LeftToRight));
    assert_eq!(plan_window_shift(MoveStyle::Shortest, 20, 0, 40), (20, MoveDirection::RightToLeft));
}

#[test]
fn other_shift_styles() {
    assert_eq!(plan_window_shift(MoveStyle::ForceMoveLeft, 5, 7, 40), (38, MoveDirection::RightToLeft));
    assert_eq!(plan_window_shift(MoveStyle::ForceMoveLeft, 7, 5, 40), (2, MoveDirection::RightToLeft));
    assert_eq!(plan_window_shift(MoveStyle::ForceMoveRight, 7, 5, 40), (38, MoveDirection::LeftToRight));
    assert_eq!(plan_window_shift(MoveStyle::ForceMoveRight, 5, 7, 40), (2, MoveDirection::LeftToRight));
    assert_eq!(plan_window_shift(MoveStyle::NoCrossBoundary, 0, 39, 40), (39, MoveDirection::LeftToRight));
    assert_eq!(plan_window_shift(MoveStyle::NoCrossBoundary, 39, 0, 40), (39, MoveDirection::RightToLeft));
    assert_eq!(plan_window_shift(MoveStyle::Shortest, 0, 79, 80), (1, MoveDirection::RightToLeft));
}

#[test]
fn shift_display_to_pos_shortest_wraps() {
    let mut lcd = ready(Config::default());
    lcd.shift_display_to_pos(39, MoveStyle::Shortest, State::Off, 100);
    assert_eq!(lcd.get_display_offset(), 39);
    assert_eq!(lcd.get_display_state(), State::On);
    assert_eq!(
        lcd.take_actions(),
        vec![
            send(CommandSet::DisplayOnOff { display: State::Off, cursor: State::On, cursor_blink: State::On }),
            Action::DelayUs(100),
            send(CommandSet::CursorOrDisplayShift(ShiftType::CursorAndDisplay, MoveDirection::RightToLeft)),
            send(CommandSet::DisplayOnOff { display: State::On, cursor: State::On, cursor_blink: State::On }),
        ]
    );
    lcd.shift_display_to_pos(39, MoveStyle::ForceMoveLeft, State::Off, 100);
    assert!(lcd.take_actions().is_empty());
}

#[test]
fn shift_display_to_pos_reaches_target_every_style() {
    for style in [MoveStyle::ForceMoveLeft, MoveStyle::ForceMoveRight, MoveStyle::NoCrossBoundary, MoveStyle::Shortest] {
        let mut lcd = ready(Config::default());
        lcd.shift_display_to_pos(20, style, State::On, 0);
        assert_eq!(lcd.get_display_offset(), 20);
        let shifts = lcd
            .take_actions()
            .iter()
            .filter(|a| matches!(a, Action::WaitThenSend(CommandSet::CursorOrDisplayShift(..), _)))
            .count();
        assert_eq!(shifts, 20);
    }
}

#[test]
fn simultaneous_split_flap_on_ab() {
    let mut lcd = ready(Config::default());
    lcd.set_cursor_pos((0, 0));
    lcd.take_actions();
    lcd.split_flap_write("AB", FlipStyle::Simultaneous, None, 5, None);
    let actions = lcd.take_actions();
    // the cursor is hidden first and shown again last
    assert_eq!(
        actions[0],
        send(CommandSet::DisplayOnOff { display: State::On, cursor: State::Off, cursor_blink: State::On })
    );
    assert_eq!(
        *actions.last().unwrap(),
        send(CommandSet::DisplayOnOff { display: State::On, cursor: State::On, cursor_blink: State::On })
    );
    // the shared scan starts at the space
    assert_eq!(actions[1], Action::DelayUs(5));
    assert_eq!(actions[2], send(CommandSet::SetDDRAM(0)));
    assert_eq!(actions[3], send(CommandSet::WriteDataToRAM(0x20)));
    let ram = ddram_after(&actions);
    assert_eq!(ram[0], 0x41);
    assert_eq!(ram[1], 0x42);
    // one round per byte from 0x20 to 0x42
    let rounds = actions.iter().filter(|a| **a == Action::DelayUs(5)).count();
    assert_eq!(rounds, 0x42 - 0x20 + 1);
    // 'A' stops at 0x41: no byte beyond its target reaches cell 0
    let writes = actions.iter().filter(|a| matches!(a, Action::WaitThenSend(CommandSet::WriteDataToRAM(_), _))).count();
    assert_eq!(writes, (0x41 - 0x20 + 1) + (0x42 - 0x20 + 1));
    assert_eq!(actions[actions.len() - 2], send(CommandSet::SetDDRAM(2)));
    assert_eq!(lcd.get_cursor_pos(), (2, 0));
    assert_eq!(lcd.get_cursor_state(), State::On);
}

#[test]
fn simultaneous_split_flap_right_to_left_with_limit() {
    let mut lcd = ready(Config::default().set_direction(MoveDirection::RightToLeft).set_cursor_state(State::Off));
    lcd.set_cursor_pos((1, 0));
    lcd.take_actions();
    lcd.split_flap_write("ab", FlipStyle::Simultaneous, Some(3), 0, None);
    let actions = lcd.take_actions();
    // cursor already hidden: no display control around the effect
    assert_eq!(actions[0], Action::DelayUs(0));
    // scan from 'b' - 3 = '_' (0x5F) to 'b'
    assert_eq!(actions[2], send(CommandSet::WriteDataToRAM(0x5F)));
    let rounds = actions.iter().filter(|a| **a == Action::DelayUs(0)).count();
    assert_eq!(rounds, 4);
    // cells at (1,0) and (0,0); the end is (39,1)
    assert_eq!(lcd.get_cursor_pos(), (39, 1));
    assert_eq!(*actions.last().unwrap(), send(CommandSet::SetDDRAM(0x40 + 39)));
}

#[test]
fn sequential_split_flap() {
    let mut lcd = ready(Config::default());
    lcd.set_cursor_pos((3, 0));
    lcd.take_actions();
    lcd.split_flap_write("#!", FlipStyle::Sequential, Some(2), 7, Some(9));
    let actions = lcd.take_actions();
    let hidden = send(CommandSet::DisplayOnOff { display: State::On, cursor: State::Off, cursor_blink: State::On });
    let shown = send(CommandSet::DisplayOnOff { display: State::On, cursor: State::On, cursor_blink: State::On });
    assert_eq!(
        actions,
        vec![
            hidden,
            Action::DelayUs(9),
            Action::DelayUs(7),
            send(CommandSet::SetDDRAM(3)),
            send(CommandSet::WriteDataToRAM(0x21)),
            Action::DelayUs(7),
            send(CommandSet::SetDDRAM(3)),
            send(CommandSet::WriteDataToRAM(0x22)),
            Action::DelayUs(7),
            send(CommandSet::SetDDRAM(3)),
            send(CommandSet::WriteDataToRAM(0x23)),
            Action::DelayUs(9),
            Action::DelayUs(7),
            send(CommandSet::SetDDRAM(4)),
            send(CommandSet::WriteDataToRAM(0x20)),
            Action::DelayUs(7),
            send(CommandSet::SetDDRAM(4)),
            send(CommandSet::WriteDataToRAM(0x21)),
            shown,
        ]
    );
    assert_eq!(lcd.get_cursor_pos(), (5, 0));
}

#[test]
fn flappable_characters() {
    assert!(is_flappable(' '));
    assert!(is_flappable('}'));
    assert!(!is_flappable('~'));
    assert!(!is_flappable('\t'));
}

#[test]
fn typewriter_and_blink() {
    let mut lcd = ready(Config::default());
    lcd.typewriter_write("ok", 250);
    assert_eq!(
        lcd.take_actions(),
        vec![
            Action::DelayUs(250),
            send(CommandSet::WriteDataToRAM(b'o')),
            Action::DelayUs(250),
            send(CommandSet::WriteDataToRAM(b'k')),
        ]
    );
    assert_eq!(lcd.get_cursor_pos(), (2, 0));
    lcd.full_display_blink(1, 40);
    let off = send(CommandSet::DisplayOnOff { display: State::Off, cursor: State::On, cursor_blink: State::On });
    let on = send(CommandSet::DisplayOnOff { display: State::On, cursor: State::On, cursor_blink: State::On });
    assert_eq!(lcd.take_actions(), vec![Action::DelayUs(40), off, Action::DelayUs(40), on]);
    assert_eq!(lcd.get_display_state(), State::On);
}

#[test]
fn empty_split_flap_only_repositions() {
    let mut lcd = ready(Config::default().set_cursor_state(State::Off));
    lcd.set_cursor_pos((4, 1));
    lcd.take_actions();
    lcd.split_flap_write("", FlipStyle::Simultaneous, Some(1), 5, None);
    assert_eq!(lcd.take_actions(), vec![send(CommandSet::SetDDRAM(0x44))]);
    lcd.split_flap_write("", FlipStyle::Sequential, None, 5, Some(1));
    assert!(lcd.take_actions().is_empty());
    assert_eq!(lcd.get_cursor_pos(), (4, 1));
}

#[test]
fn blink_three_times_ends_as_it_began() {
    let mut lcd = ready(Config::default().set_display_state(State::Off));
    lcd.full_display_blink(3, 1);
    let toggles: Vec<Action> = lcd
        .take_actions()
        .into_iter()
        .filter(|a| *a != Action::DelayUs(1))
        .collect();
    assert_eq!(toggles.len(), 6);
    let on = send(CommandSet::DisplayOnOff { display: State::On, cursor: State::On, cursor_blink: State::On });
    let off = send(CommandSet::DisplayOnOff { display: State::Off, cursor: State::On, cursor_blink: State::On });
    assert_eq!(toggles, vec![on, off, on, off, on, off]);
    assert_eq!(lcd.get_display_state(), State::Off);
}
