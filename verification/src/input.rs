//! One frame of keyboard input, as the game sees it.

use vstd::prelude::*;

verus! {

/// What a key is doing during the current frame.
#[derive(Clone, Copy, Debug, PartialEq, Eq, Structural)]
pub enum ButtonState {
    /// The key went down during this frame.
    Pressed,
    /// The key is down, and went down in an earlier frame.
    Held,
    /// The key came up during this frame.
    Released,
    /// The key is up, and came up in an earlier frame.
    NotPressed,
}

impl ButtonState {
    /// Whether the key went down during this frame. A key that is kept down
    /// counts once, in the frame in which it went down.
    pub open spec fn just_pressed(self) -> bool {
        self == ButtonState::Pressed
    }

    /// Whether the key went down during this frame.
    pub fn is_just_pressed(self) -> (pressed: bool)
        ensures
            pressed == self.just_pressed(),
    {
        match self {
            ButtonState::Pressed => true,
            _ => false,
        }
    }
}

/// The keys the game listens to, each with its state in the current frame.
#[derive(Clone, Copy, Debug, PartialEq, Eq, Structural)]
pub struct Keys {
    pub left: ButtonState,
    pub right: ButtonState,
    pub up: ButtonState,
    pub down: ButtonState,
    pub escape: ButtonState,
    pub y: ButtonState,
    pub n: ButtonState,
}

/// What the host has to do once a frame of input has been handled.
#[derive(Clone, Copy, Debug, PartialEq, Eq, Structural)]
pub enum Action {
    /// Keep running.
    Continue,
    /// Close the window and end the program.
    Quit,
}

} // verus!
