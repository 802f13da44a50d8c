//! The platform-independent game: state, rendering and tone parameters.

use crate::Error;
use vstd::prelude::*;

pub mod graphics;
pub mod input;
pub mod sound;

verus! {

/// The simulation state. The offsets wrap within eight signed bits.
#[derive(Debug, Clone, Copy, PartialEq, Eq, Structural)]
pub struct State {
    pub speed: i8,
    pub green_offset: i8,
    pub blue_offset: i8,
    pub tone_hz: u32,
    pub volume: u32,
}

/// The value of a pair of opposed buttons: 1, 0 or -1.
pub open spec fn axis(positive: bool, negative: bool) -> int {
    (if positive {
        1int
    } else {
        0int
    }) - (if negative {
        1int
    } else {
        0int
    })
}

/// The signed eight-bit value congruent to `v` modulo 256.
pub open spec fn wrap_i8(v: int) -> i8 {
    let low = v % 256;
    if low >= 128 {
        (low - 256) as i8
    } else {
        low as i8
    }
}

/// `offset + speed * direction`, wrapped to eight signed bits.
fn advance(offset: i8, speed: i8, positive: bool, negative: bool) -> (moved: i8)
    ensures
        moved == wrap_i8(offset + speed * axis(positive, negative)),
{
    let step: i32 = if positive && !negative {
        speed as i32
    } else if negative && !positive {
        -(speed as i32)
    } else {
        0
    };
    assert(step == speed * axis(positive, negative)) by (nonlinear_arith)
        requires
            step == (if axis(positive, negative) == 1 {
                speed as int
            } else if axis(positive, negative) == -1 {
                -(speed as int)
            } else {
                0
            }),
            -1 <= axis(positive, negative) <= 1,
    ;
    let shifted: u32 = (offset as i32 + step + 512) as u32;
    let low: u32 = shifted % 256;
    if low >= 128 {
        (low as i32 - 256) as i8
    } else {
        low as i8
    }
}

impl State {
    /// The state one frame later, under the given input.
    pub open spec fn simulated(self, input: input::Controller) -> State {
        let vertical = axis(input.buttons.down.ended_down, input.buttons.up.ended_down);
        let horizontal = axis(input.buttons.right.ended_down, input.buttons.left.ended_down);
        State {
            speed: self.speed,
            green_offset: wrap_i8(self.green_offset + self.speed * vertical),
            blue_offset: wrap_i8(self.blue_offset + self.speed * horizontal),
            tone_hz: (256 + horizontal * 100) as u32,
            volume: (2000 + vertical * 1000) as u32,
        }
    }

    /// Moves the offsets by `speed` along the held directions and sets tone
    /// and volume from them.
    pub fn simulate(&mut self, input: &input::Controller)
        ensures
            *final(self) == old(self).simulated(*input),
    {
        let up = input.buttons.up.ended_down;
        let down = input.buttons.down.ended_down;
        let left = input.buttons.left.ended_down;
        let right = input.buttons.right.ended_down;
        self.green_offset = advance(self.green_offset, self.speed, down, up);
        self.blue_offset = advance(self.blue_offset, self.speed, right, left);
        self.tone_hz = if right && !left {
            356
        } else if left && !right {
            156
        } else {
            256
        };
        self.volume = if down && !up {
            3000
        } else if up && !down {
            1000
        } else {
            2000
        };
    }
}

impl Default for State {
    fn default() -> (state: Self)
        ensures
            state == (State {
                speed: 10,
                green_offset: 0,
                blue_offset: 0,
                tone_hz: 256,
                volume: 2000,
            }),
    {
        State { speed: 10, green_offset: 0, blue_offset: 0, tone_hz: 256, volume: 2000 }
    }
}

/// One frame of the game: moves the state by the input, draws the gradient at
/// the new offsets, and says what the oscillator must generate for the window
/// that the sound buffer has staged; the sound buffer stays as it is. The
/// picture is drawn whether or not there is a window.
pub fn update_and_render<G: graphics::Buffer, S: sound::Buffer>(
    state: &mut State,
    graphics_buffer: &mut G,
    sound_buffer: &mut S,
    input: &input::Controller,
) -> (request: Result<sound::Tone, Error>)
    requires
        graphics::well_formed(old(graphics_buffer)),
        old(sound_buffer).wf(),
    ensures
        *final(state) == old(state).simulated(*input),
        final(graphics_buffer).width() == old(graphics_buffer).width(),
        final(graphics_buffer).height() == old(graphics_buffer).height(),
        final(graphics_buffer).pixels() == graphics::gradient(
            old(graphics_buffer).width(),
            old(graphics_buffer).height(),
            final(state).blue_offset,
            final(state).green_offset,
        ),
        final(graphics_buffer).kept(old(graphics_buffer)),
        graphics::well_formed(final(graphics_buffer)),
        request == sound::tone_of(old(sound_buffer), *final(state)),
        sound::unchanged(final(sound_buffer), old(sound_buffer)),
{
    state.simulate(input);
    graphics::render_weird_gradient(graphics_buffer, state.blue_offset, state.green_offset);
    sound::tone(sound_buffer, state)
}

} // verus!
