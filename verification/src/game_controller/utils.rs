//! From what the window reports to what the game understands.

use crate::algebra_basics::Coordinates;
use crate::game_controller::game_managers::UserInput;
use vstd::prelude::*;

verus! {

/// A button of the mouse or a key of the keyboard, as far as the game tells
/// them apart.
#[derive(Clone, Copy, Debug, PartialEq, Eq, Structural)]
pub enum PressedButton {
    MouseLeft,
    MouseRight,
    KeyD,
    KeyC,
    /// Any other button or key.
    Other,
}

/// What one event of the window carries: where the cursor went, if it
/// moved, and what was pressed, if anything was.
#[derive(Clone, Copy, Debug, PartialEq, Eq, Structural)]
pub struct WindowEvent {
    pub cursor: Option<Coordinates>,
    pub press: Option<PressedButton>,
}

/// Turns the events of the window into inputs of the game; it remembers
/// where the cursor is.
#[derive(Clone, Copy, Debug, PartialEq, Eq, Structural)]
pub struct PistonEventTranslator {
    pub current_cursor_pos: Coordinates,
}

impl PistonEventTranslator {
    /// Where the cursor is after the event.
    pub open spec fn cursor_after(self, e: WindowEvent) -> Coordinates {
        match e.cursor {
            Some(position) => position,
            None => self.current_cursor_pos,
        }
    }

    /// The input that the event stands for, with the cursor at `cursor`.
    pub open spec fn input_of(e: WindowEvent, cursor: Coordinates) -> UserInput {
        match e.press {
            Some(PressedButton::MouseLeft) => UserInput::LeftMouse(cursor),
            Some(PressedButton::MouseRight) => UserInput::RightMouse(cursor),
            Some(PressedButton::KeyD) => UserInput::D,
            Some(PressedButton::KeyC) => UserInput::C,
            _ => UserInput::NoInputCursorPos(cursor),
        }
    }

    /// Takes note of where the cursor went and says what the event means to
    /// the game.
    pub fn piston_event_to_internal_user_input(&mut self, e: &WindowEvent) -> (r: UserInput)
        ensures
            final(self).current_cursor_pos == old(self).cursor_after(*e),
            r == PistonEventTranslator::input_of(*e, old(self).cursor_after(*e)),
    {
        if let Some(cursor_pos) = e.cursor {
            self.current_cursor_pos = cursor_pos;
        }
        if let Some(button) = e.press {
            match button {
                PressedButton::MouseLeft => {
                    return UserInput::LeftMouse(self.current_cursor_pos);
                },
                PressedButton::MouseRight => {
                    return UserInput::RightMouse(self.current_cursor_pos);
                },
                PressedButton::KeyD => {
                    return UserInput::D;
                },
                PressedButton::KeyC => {
                    return UserInput::C;
                },
                PressedButton::Other => {},
            }
        }
        UserInput::NoInputCursorPos(self.current_cursor_pos)
    }
}

} // verus!
