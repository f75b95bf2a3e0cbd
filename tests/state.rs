use lcd1602_driver::command::{Font, LineMode, MoveDirection, ShiftType};
use lcd1602_driver::config::Config;
use lcd1602_driver::state::{
    advance_pos, line_font_compatible, offset_in_range, pos_in_bounds, step_pos,
};

fn state_with(line: LineMode) -> lcd1602_driver::state::LcdState {
    Config::default().set_line_mode(line).state()
}

#[test]
fn auto_step_two_line_left_to_right_wraps_to_other_row() {
    assert_eq!(step_pos(LineMode::TwoLine, MoveDirection::LeftToRight, (39, 0)), (0, 1));
    assert_eq!(step_pos(LineMode::TwoLine, MoveDirection::LeftToRight, (39, 1)), (0, 0));
    assert_eq!(step_pos(LineMode::TwoLine, MoveDirection::LeftToRight, (5, 1)), (6, 1));
}

#[test]
fn auto_step_two_line_right_to_left_wraps_to_other_row() {
    assert_eq!(step_pos(LineMode::TwoLine, MoveDirection::RightToLeft, (0, 0)), (39, 1));
    assert_eq!(step_pos(LineMode::TwoLine, MoveDirection::RightToLeft, (0, 1)), (39, 0));
    assert_eq!(step_pos(LineMode::TwoLine, MoveDirection::RightToLeft, (5, 1)), (4, 1));
}

#[test]
fn auto_step_one_line_wraps_within_the_row() {
    assert_eq!(step_pos(LineMode::OneLine, MoveDirection::LeftToRight, (79, 0)), (0, 0));
    assert_eq!(step_pos(LineMode::OneLine, MoveDirection::RightToLeft, (0, 0)), (79, 0));
}

#[test]
fn advance_many_cells() {
    assert_eq!(advance_pos(LineMode::TwoLine, MoveDirection::LeftToRight, (38, 0), 3), (1, 1));
    assert_eq!(advance_pos(LineMode::TwoLine, MoveDirection::RightToLeft, (1, 0), 3), (38, 1));
    assert_eq!(advance_pos(LineMode::TwoLine, MoveDirection::LeftToRight, (7, 1), 80), (7, 1));
    assert_eq!(advance_pos(LineMode::OneLine, MoveDirection::LeftToRight, (70, 0), 15), (5, 0));
}

#[test]
fn zero_offset_keeps_position() {
    let s = state_with(LineMode::TwoLine);
    for pos in [(0u8, 0u8), (39, 0), (17, 1), (39, 1)] {
        assert_eq!(s.calculate_pos_by_offset(pos, (0, 0)), pos);
    }
    let s = state_with(LineMode::OneLine);
    for pos in [(0u8, 0u8), (79, 0), (40, 0)] {
        assert_eq!(s.calculate_pos_by_offset(pos, (0, 0)), pos);
    }
}

#[test]
fn offset_then_negated_offset_returns() {
    let s = state_with(LineMode::TwoLine);
    for (pos, off) in [((38u8, 0u8), (5i8, 0i8)), ((1, 1), (-3, 1)), ((20, 0), (-39, -1)), ((39, 1), (39, 1))] {
        let mid = s.calculate_pos_by_offset(pos, off);
        assert_eq!(s.calculate_pos_by_offset(mid, (-off.0, -off.1)), pos);
    }
    let s = state_with(LineMode::OneLine);
    for (pos, off) in [((78u8, 0u8), (5i8, 0i8)), ((2, 0), (-79, 0))] {
        let mid = s.calculate_pos_by_offset(pos, off);
        assert_eq!(s.calculate_pos_by_offset(mid, (-off.0, -off.1)), pos);
    }
}

#[test]
fn offset_carries_into_the_row() {
    let s = state_with(LineMode::TwoLine);
    assert_eq!(s.calculate_pos_by_offset((38, 0), (5, 0)), (3, 1));
    assert_eq!(s.calculate_pos_by_offset((38, 1), (5, 0)), (3, 0));
    assert_eq!(s.calculate_pos_by_offset((2, 0), (-5, 0)), (37, 1));
    assert_eq!(s.calculate_pos_by_offset((2, 1), (0, 1)), (2, 0));
    assert_eq!(s.calculate_pos_by_offset((2, 0), (0, -1)), (2, 1));
    let s = state_with(LineMode::OneLine);
    assert_eq!(s.calculate_pos_by_offset((78, 0), (5, 0)), (3, 0));
    assert_eq!(s.calculate_pos_by_offset((2, 0), (-5, 0)), (77, 0));
}

#[test]
fn state_shift_moves_cursor_or_window() {
    let mut s = state_with(LineMode::TwoLine);
    s.set_cursor_pos((39, 0));
    s.shift_cursor_or_display(ShiftType::CursorOnly, MoveDirection::LeftToRight);
    assert_eq!(s.get_cursor_pos(), (0, 1));
    s.shift_cursor_or_display(ShiftType::CursorAndDisplay, MoveDirection::RightToLeft);
    assert_eq!(s.get_display_offset(), 39);
    assert_eq!(s.get_cursor_pos(), (0, 1));
    s.shift_cursor_or_display(ShiftType::CursorAndDisplay, MoveDirection::LeftToRight);
    assert_eq!(s.get_display_offset(), 0);
}

#[test]
fn bounds_and_font_rules() {
    assert!(!line_font_compatible(LineMode::TwoLine, Font::Font5x11));
    assert!(line_font_compatible(LineMode::OneLine, Font::Font5x11));
    assert!(line_font_compatible(LineMode::TwoLine, Font::Font5x8));
    assert!(pos_in_bounds(LineMode::TwoLine, (39, 1)));
    assert!(!pos_in_bounds(LineMode::TwoLine, (40, 0)));
    assert!(!pos_in_bounds(LineMode::OneLine, (0, 1)));
    assert!(pos_in_bounds(LineMode::OneLine, (79, 0)));
    assert!(offset_in_range(LineMode::TwoLine, (-39, 1)));
    assert!(!offset_in_range(LineMode::TwoLine, (40, 0)));
    assert!(!offset_in_range(LineMode::TwoLine, (0, 2)));
    assert!(!offset_in_range(LineMode::OneLine, (0, 1)));
    assert!(offset_in_range(LineMode::OneLine, (79, 0)));
}

#[test]
fn config_defaults_and_setters() {
    let c = Config::default();
    assert_eq!(c.get_line_mode(), LineMode::TwoLine);
    assert_eq!(c.get_line_capacity(), 40);
    assert_eq!(c.get_font(), Font::Font5x8);
    assert!(c.is_valid());
    let c = c.set_font(Font::Font5x11);
    assert!(!c.is_valid());
    let c = c.set_line_mode(LineMode::OneLine);
    assert!(c.is_valid());
    assert_eq!(c.get_line_capacity(), 80);
    let c = c.set_cursor_pos((60, 0)).set_display_offset(70);
    assert!(c.is_valid());
    let c = c.set_line_mode(LineMode::TwoLine).set_font(Font::Font5x8);
    assert!(!c.is_valid());
}
