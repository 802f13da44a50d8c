//! The platform layer's data and decisions: what the frame loop does with
//! each thing the window and the audio device report.

use crate::game;
use crate::Error;
use input::AcceptKeyboardKey;
use vstd::prelude::*;

pub mod graphics;
pub mod input;
pub mod sound;
pub mod window;

verus! {

/// The width in pixels at which the game renders, whatever the window's size.
pub const INTERNAL_WIDTH: u32 = 1280;

/// The height in pixels at which the game renders.
pub const INTERNAL_HEIGHT: u32 = 720;

/// Whether the frame loop goes on.
#[derive(Debug, PartialEq, Eq, Clone, Copy, Structural)]
pub enum LoopState {
    Running,
    Stopped,
}

/// Applies what one poll of the message queue reported: a quit stops the
/// loop, a key toggles its button, anything else changes nothing.
pub fn handle_action(input: &mut game::input::Controller, action: window::Action) -> (state:
    LoopState)
    ensures
        state == (if action == window::Action::Quit {
            LoopState::Stopped
        } else {
            LoopState::Running
        }),
        *final(input) == (match action {
            window::Action::Keyboard(key) => self::input::toggled(*old(input), key),
            _ => *old(input),
        }),
{
    match action {
        window::Action::Quit => LoopState::Stopped,
        window::Action::Resize(_, _) => LoopState::Running,
        window::Action::Keyboard(key) => {
            input.accept_keyboard_key(key);
            LoopState::Running
        },
        window::Action::Nothing => LoopState::Running,
    }
}

/// The game's part of one frame, given what the audio device answered when
/// asked for its position. With a position the window for this frame is
/// opened, and the tone to fill it with is handed back; without one any open
/// window is closed, the write cursor stays, and the failure is handed back.
/// Either way the state advances and the picture is drawn.
pub fn update_frame(
    state: &mut game::State,
    graphics_buffer: &mut graphics::Buffer,
    sound_buffer: &mut sound::Buffer,
    input: &game::input::Controller,
    position: Result<sound::Position, Error>,
) -> (request: Result<game::sound::Tone, Error>)
    requires
        game::graphics::well_formed(old(graphics_buffer)),
        old(sound_buffer).wf(),
    ensures
        *final(state) == old(state).simulated(*input),
        game::graphics::Buffer::width(final(graphics_buffer)) == game::graphics::Buffer::width(
            old(graphics_buffer),
        ),
        game::graphics::Buffer::height(final(graphics_buffer)) == game::graphics::Buffer::height(
            old(graphics_buffer),
        ),
        game::graphics::Buffer::pixels(final(graphics_buffer)) == game::graphics::gradient(
            game::graphics::Buffer::width(old(graphics_buffer)),
            game::graphics::Buffer::height(old(graphics_buffer)),
            final(state).blue_offset,
            final(state).green_offset,
        ),
        final(graphics_buffer).bitmap() == old(graphics_buffer).bitmap(),
        game::graphics::well_formed(final(graphics_buffer)),
        final(sound_buffer).wf(),
        final(sound_buffer)@ == (sound::BufferView {
            window: match position {
                Ok(at) => Some(
                    sound::window_of(
                        at.play,
                        old(sound_buffer)@.current_byte,
                        old(sound_buffer)@.info,
                    ),
                ),
                Err(_) => None,
            },
            ..old(sound_buffer)@
        }),
        request == (match position {
            Ok(_) => game::sound::tone_of(final(sound_buffer), *final(state)),
            Err(error) => Err(error),
        }),
{
    match position {
        Ok(at) => {
            sound_buffer.begin_write(at);
        },
        Err(error) => {
            let _ = sound_buffer.play_new_samples(Err(error));
        },
    }
    let ghost staged = *sound_buffer;
    let request = game::update_and_render(state, graphics_buffer, sound_buffer, input);
    proof {
        sound::lemma_kept_with_same_samples(sound_buffer, &staged);
    }
    match position {
        Ok(_) => request,
        Err(error) => Err(error),
    }
}

} // verus!
