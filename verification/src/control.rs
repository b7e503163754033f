use crate::state::Button;
use vstd::prelude::*;

verus! {

/// The key that toggles button 1.
pub const KEY_BUTTON_1: u8 = 0x31;

/// The key that toggles button 2.
pub const KEY_BUTTON_2: u8 = 0x32;

/// The key that toggles button 3.
pub const KEY_BUTTON_3: u8 = 0x33;

/// The key that moves left.
pub const KEY_LEFT: u8 = 0x61;

/// The key that moves right.
pub const KEY_RIGHT: u8 = 0x64;

/// The key that moves up.
pub const KEY_UP: u8 = 0x77;

/// The key that moves down.
pub const KEY_DOWN: u8 = 0x73;

/// The key that turns the wheel up.
pub const KEY_WHEEL_UP: u8 = 0x72;

/// The key that turns the wheel down.
pub const KEY_WHEEL_DOWN: u8 = 0x66;

/// The key that asks to quit.
pub const KEY_QUIT: u8 = 0x71;

/// The units that one motion key moves the pointer.
pub const MOTION_STEP: i8 = 20;

/// The units that one wheel key turns the wheel.
pub const WHEEL_STEP: i8 = 1;

/// What the operator asks for with one character.
#[derive(Clone, Copy, Debug, PartialEq, Eq, Structural)]
pub enum Command {
    /// Toggle a button.
    Toggle(Button),
    /// Move the pointer or turn the wheel, once.
    Motion { dx: i8, dy: i8, wheel: i8 },
    /// Quit.
    Quit,
    /// No command; it carries the character.
    Invalid(u8),
}

impl Command {
    /// The command that the character `unit` stands for: `1`, `2`, `3` toggle the buttons;
    /// `a`, `d` move left and right, `w`, `s` up and down, by `MOTION_STEP`; `r`, `f` turn
    /// the wheel up and down by `WHEEL_STEP`; `q` quits; any other character is invalid.
    pub open spec fn spec_parse(unit: u8) -> Command {
        if unit == KEY_BUTTON_1 {
            Command::Toggle(Button::Left)
        } else if unit == KEY_BUTTON_2 {
            Command::Toggle(Button::Right)
        } else if unit == KEY_BUTTON_3 {
            Command::Toggle(Button::Middle)
        } else if unit == KEY_LEFT {
            Command::Motion { dx: (-MOTION_STEP) as i8, dy: 0, wheel: 0 }
        } else if unit == KEY_RIGHT {
            Command::Motion { dx: MOTION_STEP, dy: 0, wheel: 0 }
        } else if unit == KEY_UP {
            Command::Motion { dx: 0, dy: (-MOTION_STEP) as i8, wheel: 0 }
        } else if unit == KEY_DOWN {
            Command::Motion { dx: 0, dy: MOTION_STEP, wheel: 0 }
        } else if unit == KEY_WHEEL_UP {
            Command::Motion { dx: 0, dy: 0, wheel: WHEEL_STEP }
        } else if unit == KEY_WHEEL_DOWN {
            Command::Motion { dx: 0, dy: 0, wheel: (-WHEEL_STEP) as i8 }
        } else if unit == KEY_QUIT {
            Command::Quit
        } else {
            Command::Invalid(unit)
        }
    }

    /// Reads one character of the operator.
    pub fn parse(unit: u8) -> (command: Command)
        ensures
            command == Self::spec_parse(unit),
    {
        if unit == KEY_BUTTON_1 {
            Command::Toggle(Button::Left)
        } else if unit == KEY_BUTTON_2 {
            Command::Toggle(Button::Right)
        } else if unit == KEY_BUTTON_3 {
            Command::Toggle(Button::Middle)
        } else if unit == KEY_LEFT {
            Command::Motion { dx: -MOTION_STEP, dy: 0, wheel: 0 }
        } else if unit == KEY_RIGHT {
            Command::Motion { dx: MOTION_STEP, dy: 0, wheel: 0 }
        } else if unit == KEY_UP {
            Command::Motion { dx: 0, dy: -MOTION_STEP, wheel: 0 }
        } else if unit == KEY_DOWN {
            Command::Motion { dx: 0, dy: MOTION_STEP, wheel: 0 }
        } else if unit == KEY_WHEEL_UP {
            Command::Motion { dx: 0, dy: 0, wheel: WHEEL_STEP }
        } else if unit == KEY_WHEEL_DOWN {
            Command::Motion { dx: 0, dy: 0, wheel: -WHEEL_STEP }
        } else if unit == KEY_QUIT {
            Command::Quit
        } else {
            Command::Invalid(unit)
        }
    }
}

} // verus!
