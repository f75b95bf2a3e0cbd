//! The configuration a display is brought up with.

use vstd::prelude::*;
use crate::command::{DataWidth, Font, LineMode, MoveDirection, RAMType, ShiftType, State};
use crate::state::{LcdState, capacity};

verus! {

/// The initial configuration of a display: a plain record with defaults, checked once, when
/// the driver is made (see [`Config::is_valid`]).
#[derive(Clone, Copy, Debug)]
pub struct Config {
    state: LcdState,
}

impl View for Config {
    type V = LcdState;

    closed spec fn view(&self) -> LcdState {
        self.state
    }
}

impl Default for Config {
    /// The state of a controller after power-on.
    fn default() -> (r: Config)
        ensures
            r@ == LcdState::spec_default(),
    {
        Config {
            state: LcdState {
                data_width: DataWidth::Bit4,
                line: LineMode::TwoLine,
                font: Font::Font5x8,
                display_on: State::On,
                cursor_on: State::On,
                cursor_blink: State::On,
                direction: MoveDirection::LeftToRight,
                shift_type: ShiftType::CursorOnly,
                cursor_pos: (0, 0),
                display_offset: 0,
                ram_type: RAMType::DDRam,
                backlight: State::On,
            },
        }
    }
}

impl Config {
    /// The configured state.
    pub fn state(&self) -> (r: LcdState)
        ensures
            r == self@,
    {
        self.state
    }

    /// Whether the configuration describes a state the controller can be in: the cursor and
    /// the window lie on the display RAM, and the font exists in the line mode.
    pub fn is_valid(&self) -> (r: bool)
        ensures
            r == self@.wf(),
    {
        self.state.is_valid()
    }

    #[allow(missing_docs)]
    pub fn get_backlight(&self) -> (r: State)
        ensures
            r == self@.backlight,
    {
        self.state.backlight
    }

    #[allow(missing_docs)]
    pub fn set_backlight(self, backlight: State) -> (r: Config)
        ensures
            r@ == (LcdState { backlight, ..self@ }),
    {
        let mut config = self;
        config.state.backlight = backlight;
        config
    }

    #[allow(missing_docs)]
    pub fn get_data_width(&self) -> (r: DataWidth)
        ensures
            r == self@.data_width,
    {
        self.state.data_width
    }

    #[allow(missing_docs)]
    pub fn set_data_width(self, data_width: DataWidth) -> (r: Config)
        ensures
            r@ == (LcdState { data_width, ..self@ }),
    {
        let mut config = self;
        config.state.data_width = data_width;
        config
    }

    #[allow(missing_docs)]
    pub fn get_line_mode(&self) -> (r: LineMode)
        ensures
            r == self@.line,
    {
        self.state.line
    }

    #[allow(missing_docs)]
    pub fn set_line_mode(self, line: LineMode) -> (r: Config)
        ensures
            r@ == (LcdState { line, ..self@ }),
    {
        let mut config = self;
        config.state.line = line;
        config
    }

    /// Columns per line: 80 in one-line mode, 40 in two-line mode.
    pub fn get_line_capacity(&self) -> (r: u8)
        ensures
            r == capacity(self@.line),
    {
        self.state.get_line_capacity()
    }

    #[allow(missing_docs)]
    pub fn get_font(&self) -> (r: Font)
        ensures
            r == self@.font,
    {
        self.state.font
    }

    #[allow(missing_docs)]
    pub fn set_font(self, font: Font) -> (r: Config)
        ensures
            r@ == (LcdState { font, ..self@ }),
    {
        let mut config = self;
        config.state.font = font;
        config
    }

    #[allow(missing_docs)]
    pub fn get_display_state(&self) -> (r: State)
        ensures
            r == self@.display_on,
    {
        self.state.display_on
    }

    #[allow(missing_docs)]
    pub fn set_display_state(self, display: State) -> (r: Config)
        ensures
            r@ == (LcdState { display_on: display, ..self@ }),
    {
        let mut config = self;
        config.state.display_on = display;
        config
    }

    #[allow(missing_docs)]
    pub fn get_cursor_state(&self) -> (r: State)
        ensures
            r == self@.cursor_on,
    {
        self.state.cursor_on
    }

    #[allow(missing_docs)]
    pub fn set_cursor_state(self, cursor: State) -> (r: Config)
        ensures
            r@ == (LcdState { cursor_on: cursor, ..self@ }),
    {
        let mut config = self;
        config.state.cursor_on = cursor;
        config
    }

    #[allow(missing_docs)]
    pub fn get_cursor_blink(&self) -> (r: State)
        ensures
            r == self@.cursor_blink,
    {
        self.state.cursor_blink
    }

    #[allow(missing_docs)]
    pub fn set_cursor_blink(self, blink: State) -> (r: Config)
        ensures
            r@ == (LcdState { cursor_blink: blink, ..self@ }),
    {
        let mut config = self;
        config.state.cursor_blink = blink;
        config
    }

    #[allow(missing_docs)]
    pub fn get_direction(&self) -> (r: MoveDirection)
        ensures
            r == self@.direction,
    {
        self.state.direction
    }

    #[allow(missing_docs)]
    pub fn set_direction(self, dir: MoveDirection) -> (r: Config)
        ensures
            r@ == (LcdState { direction: dir, ..self@ }),
    {
        let mut config = self;
        config.state.direction = dir;
        config
    }

    #[allow(missing_docs)]
    pub fn get_shift_type(&self) -> (r: ShiftType)
        ensures
            r == self@.shift_type,
    {
        self.state.shift_type
    }

    #[allow(missing_docs)]
    pub fn set_shift_type(self, shift: ShiftType) -> (r: Config)
        ensures
            r@ == (LcdState { shift_type: shift, ..self@ }),
    {
        let mut config = self;
        config.state.shift_type = shift;
        config
    }

    #[allow(missing_docs)]
    pub fn get_cursor_pos(&self) -> (r: (u8, u8))
        ensures
            r == self@.cursor_pos,
    {
        self.state.cursor_pos
    }

    #[allow(missing_docs)]
    pub fn set_cursor_pos(self, pos: (u8, u8)) -> (r: Config)
        ensures
            r@ == (LcdState { cursor_pos: pos, ..self@ }),
    {
        let mut config = self;
        config.state.cursor_pos = pos;
        config
    }

    #[allow(missing_docs)]
    pub fn get_display_offset(&self) -> (r: u8)
        ensures
            r == self@.display_offset,
    {
        self.state.display_offset
    }

    #[allow(missing_docs)]
    pub fn set_display_offset(self, offset: u8) -> (r: Config)
        ensures
            r@ == (LcdState { display_offset: offset, ..self@ }),
    {
        let mut config = self;
        config.state.display_offset = offset;
        config
    }

    #[allow(missing_docs)]
    pub fn get_ram_type(&self) -> (r: RAMType)
        ensures
            r == self@.ram_type,
    {
        self.state.ram_type
    }

    #[allow(missing_docs)]
    pub fn set_ram_type(self, ram_type: RAMType) -> (r: Config)
        ensures
            r@ == (LcdState { ram_type, ..self@ }),
    {
        let mut config = self;
        config.state.ram_type = ram_type;
        config
    }
}

} // verus!
