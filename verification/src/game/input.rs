//! The controller state that the simulation reads.

use vstd::prelude::*;

verus! {

/// One digital button: whether it was held when the frame ended.
#[derive(Debug, PartialEq, Eq, Clone, Copy, Structural)]
pub struct Button {
    pub ended_down: bool,
}

impl Default for Button {
    fn default() -> (button: Self)
        ensures
            !button.ended_down,
    {
        Button { ended_down: false }
    }
}

/// The digital buttons of one controller.
#[derive(Debug, PartialEq, Eq, Clone, Copy, Structural)]
pub struct Buttons {
    pub up: Button,
    pub down: Button,
    pub left: Button,
    pub right: Button,
    pub left_shoulder: Button,
    pub right_shoulder: Button,
}

impl Buttons {
    /// No button is held.
    pub open spec fn released() -> Buttons {
        let up = Button { ended_down: false };
        Buttons {
            up,
            down: up,
            left: up,
            right: up,
            left_shoulder: up,
            right_shoulder: up,
        }
    }
}

impl Default for Buttons {
    fn default() -> (buttons: Self)
        ensures
            buttons == Buttons::released(),
    {
        let up = Button { ended_down: false };
        Buttons { up, down: up, left: up, right: up, left_shoulder: up, right_shoulder: up }
    }
}

/// What the simulation sees of one controller.
#[derive(Debug, PartialEq, Eq, Clone, Copy, Structural)]
pub struct Controller {
    pub buttons: Buttons,
}

impl Default for Controller {
    fn default() -> (controller: Self)
        ensures
            controller.buttons == Buttons::released(),
    {
        Controller { buttons: Buttons::default() }
    }
}

} // verus!
