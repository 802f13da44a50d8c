//! What to do with the messages a window receives.

use vstd::prelude::*;

verus! {

/// The window is being destroyed.
pub const WM_DESTROY: u32 = 0x0002;

/// The window's size has changed; the new size is in the message's `lParam`.
pub const WM_SIZE: u32 = 0x0005;

/// The user asked to close the window.
pub const WM_CLOSE: u32 = 0x0010;

/// The application was asked to quit.
pub const WM_QUIT: u32 = 0x0012;

/// A key went down.
pub const WM_KEYDOWN: u32 = 0x0100;

/// A key went up.
pub const WM_KEYUP: u32 = 0x0101;

/// A key went down while Alt was held.
pub const WM_SYSKEYDOWN: u32 = 0x0104;

/// A key went up while Alt was held.
pub const WM_SYSKEYUP: u32 = 0x0105;

/// The user has finished moving or resizing the window.
pub const WM_EXITSIZEMOVE: u32 = 0x0232;

/// The size of a window's client area in pixels.
#[derive(Debug, PartialEq, Eq, Clone, Copy, Structural)]
pub struct Dimensions {
    pub width: u32,
    pub height: u32,
}

/// What one poll of the message queue means for the game.
#[derive(Debug, PartialEq, Eq, Clone, Copy, Structural)]
pub enum Action {
    Quit,
    Resize(u32, u32),
    Keyboard(u32),
    /// No message that concerns the game.
    Nothing,
}

/// What the message loop does with a message it has taken from the queue.
#[derive(Debug, PartialEq, Eq, Clone, Copy, Structural)]
pub enum Disposal {
    /// Stop polling and report this action.
    Report(Action),
    /// Translate the message, dispatch it to the window procedure, and take
    /// the next one.
    Dispatch,
}

/// What the window procedure does with a message.
#[derive(Debug, PartialEq, Eq, Clone, Copy, Structural)]
pub enum Reply {
    /// Post the quit message.
    PostQuit,
    /// Nothing more; the message is dealt with.
    Done,
    /// Post a size message with this `lParam` to the window's queue.
    PostSize(isize),
    /// Leave the message to the default window procedure.
    Default,
}

/// The low 32 bits of a message's `lParam`.
pub open spec fn low_bits(l_param: isize) -> u32 {
    l_param as u32
}

/// The size that the `lParam` of a size message carries: the width in its
/// bits 0 to 15, the height in its bits 16 to 31.
pub open spec fn size_in(l_param: isize) -> Dimensions {
    Dimensions { width: low_bits(l_param) & 0xFFFF, height: low_bits(l_param) >> 16 }
}

/// Bit 30 of a key message's `lParam`: the key was down before the message.
pub open spec fn was_down(l_param: isize) -> bool {
    low_bits(l_param) & 0x4000_0000 != 0
}

/// Bit 31 of a key message's `lParam` is clear: the key is down now.
pub open spec fn is_down(l_param: isize) -> bool {
    low_bits(l_param) & 0x8000_0000 == 0
}

/// The message is one of the four key messages.
pub open spec fn is_key_message(message: u32) -> bool {
    message == WM_SYSKEYDOWN || message == WM_SYSKEYUP || message == WM_KEYDOWN || message
        == WM_KEYUP
}

/// Quit, size and key messages are reported: a key message as its key, or as
/// nothing where the key only repeats. Every other message is dispatched.
pub open spec fn disposal_of(message: u32, w_param: usize, l_param: isize) -> Disposal {
    if message == WM_QUIT {
        Disposal::Report(Action::Quit)
    } else if message == WM_SIZE {
        Disposal::Report(Action::Resize(size_in(l_param).width, size_in(l_param).height))
    } else if is_key_message(message) {
        if was_down(l_param) == is_down(l_param) {
            Disposal::Report(Action::Nothing)
        } else {
            Disposal::Report(Action::Keyboard(w_param as u32))
        }
    } else {
        Disposal::Dispatch
    }
}

/// Reads the new size out of the `lParam` of a size message.
pub fn size_from_l_param(l_param: isize) -> (size: Dimensions)
    ensures
        size == size_in(l_param),
{
    let new_size = #[verifier::truncate]
    (l_param as u32);
    Dimensions { width: new_size & 0xFFFF, height: new_size >> 16 }
}

/// Decides what the message loop does with one message from the queue.
pub fn process_message(message: u32, w_param: usize, l_param: isize) -> (disposal: Disposal)
    ensures
        disposal == disposal_of(message, w_param, l_param),
{
    if message == WM_QUIT {
        Disposal::Report(Action::Quit)
    } else if message == WM_SIZE {
        let size = size_from_l_param(l_param);
        Disposal::Report(Action::Resize(size.width, size.height))
    } else if message == WM_SYSKEYDOWN || message == WM_SYSKEYUP || message == WM_KEYDOWN
        || message == WM_KEYUP {
        let bits = #[verifier::truncate]
        (l_param as u32);
        let was_down = (bits & 0x4000_0000) != 0;
        let is_down = (bits & 0x8000_0000) == 0;
        if was_down == is_down {
            Disposal::Report(Action::Nothing)
        } else {
            Disposal::Report(
                Action::Keyboard(
                    #[verifier::truncate]
                    (w_param as u32),
                ),
            )
        }
    } else {
        Disposal::Dispatch
    }
}

/// Decides what the window procedure does with one message. Size messages
/// do not reach the queue by themselves: the `lParam` of the latest one is
/// kept in `last_size_l_param`, and posted once the user has finished
/// resizing.
pub fn window_proc(last_size_l_param: &mut isize, message: u32, l_param: isize) -> (reply: Reply)
    ensures
        *final(last_size_l_param) == (if message == WM_SIZE {
            l_param
        } else {
            *old(last_size_l_param)
        }),
        reply == (if message == WM_CLOSE || message == WM_DESTROY {
            Reply::PostQuit
        } else if message == WM_SIZE {
            Reply::Done
        } else if message == WM_EXITSIZEMOVE {
            Reply::PostSize(*old(last_size_l_param))
        } else {
            Reply::Default
        }),
{
    if message == WM_CLOSE || message == WM_DESTROY {
        Reply::PostQuit
    } else if message == WM_SIZE {
        *last_size_l_param = l_param;
        Reply::Done
    } else if message == WM_EXITSIZEMOVE {
        Reply::PostSize(*last_size_l_param)
    } else {
        Reply::Default
    }
}

} // verus!
