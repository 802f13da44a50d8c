//! Keyboard keys as controller buttons.

use crate::game::input::Button;
use crate::game::input::Buttons;
use crate::game::input::Controller;
use vstd::prelude::*;

verus! {

/// The virtual-key code of the left arrow key.
pub const VK_LEFT: u32 = 0x25;

/// The virtual-key code of the up arrow key.
pub const VK_UP: u32 = 0x26;

/// The virtual-key code of the right arrow key.
pub const VK_RIGHT: u32 = 0x27;

/// The virtual-key code of the down arrow key.
pub const VK_DOWN: u32 = 0x28;

/// Something that takes key transitions.
pub trait AcceptKeyboardKey {
    /// Takes note that the key with virtual-key code `key` went down or up.
    fn accept_keyboard_key(&mut self, key: u32);
}

/// The button in the other position.
pub open spec fn flipped(button: Button) -> Button {
    Button { ended_down: !button.ended_down }
}

/// The controller after the key `key` changed: an arrow key flips the button
/// of its direction, any other key changes nothing.
pub open spec fn toggled(controller: Controller, key: u32) -> Controller {
    let buttons = controller.buttons;
    if key == VK_DOWN {
        Controller { buttons: Buttons { down: flipped(buttons.down), ..buttons } }
    } else if key == VK_LEFT {
        Controller { buttons: Buttons { left: flipped(buttons.left), ..buttons } }
    } else if key == VK_RIGHT {
        Controller { buttons: Buttons { right: flipped(buttons.right), ..buttons } }
    } else if key == VK_UP {
        Controller { buttons: Buttons { up: flipped(buttons.up), ..buttons } }
    } else {
        controller
    }
}

impl AcceptKeyboardKey for Controller {
    fn accept_keyboard_key(&mut self, key: u32)
        ensures
            *final(self) == toggled(*old(self), key),
    {
        if key == VK_DOWN {
            self.buttons.down.ended_down = !self.buttons.down.ended_down;
        } else if key == VK_LEFT {
            self.buttons.left.ended_down = !self.buttons.left.ended_down;
        } else if key == VK_RIGHT {
            self.buttons.right.ended_down = !self.buttons.right.ended_down;
        } else if key == VK_UP {
            self.buttons.up.ended_down = !self.buttons.up.ended_down;
        }
    }
}

} // verus!
