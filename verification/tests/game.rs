use handmade_rust::game::graphics::render_weird_gradient;
use handmade_rust::game::graphics::Buffer as _;
use handmade_rust::game::input::Button;
use handmade_rust::game::input::Buttons;
use handmade_rust::game::input::Controller;
use handmade_rust::game::sound::clamp_tone_hz;
use handmade_rust::game::sound::play_sinewave;
use handmade_rust::game::sound::tone;
use handmade_rust::game::sound::wave_period;
use handmade_rust::game::sound::Buffer as _;
use handmade_rust::game::sound::Tone;
use handmade_rust::game::update_and_render;
use handmade_rust::game::State;
use handmade_rust::win32::graphics;
use handmade_rust::win32::sound;
use handmade_rust::win32::sound::Position;
use handmade_rust::Error;

fn held(up: bool, down: bool, left: bool, right: bool) -> Controller {
    let mut controller = Controller::default();
    controller.buttons.up.ended_down = up;
    controller.buttons.down.ended_down = down;
    controller.buttons.left.ended_down = left;
    controller.buttons.right.ended_down = right;
    controller
}

fn staged(bytes_ahead: u32) -> sound::Buffer {
    let mut buffer = sound::Buffer::new();
    buffer.begin_write(Position { play: (bytes_ahead + 192000 - 12800) % 192000, write: 0 });
    buffer
}

#[test]
fn default_state() {
    assert_eq!(
        State::default(),
        State { speed: 10, green_offset: 0, blue_offset: 0, tone_hz: 256, volume: 2000 }
    );
}

#[test]
fn default_controller_holds_nothing() {
    let released = Button { ended_down: false };
    assert_eq!(Button::default(), released);
    assert_eq!(
        Buttons::default(),
        Buttons {
            up: released,
            down: released,
            left: released,
            right: released,
            left_shoulder: released,
            right_shoulder: released,
        }
    );
    assert_eq!(Controller::default().buttons, Buttons::default());
}

#[test]
fn down_moves_green_by_the_speed() {
    let mut state = State::default();
    state.simulate(&held(false, true, false, false));
    assert_eq!(state.green_offset, 10);
    assert_eq!(state.blue_offset, 0);
    assert_eq!(state.speed, 10);
}

#[test]
fn up_moves_green_back() {
    let mut state = State::default();
    state.simulate(&held(true, false, false, false));
    assert_eq!(state.green_offset, -10);
    assert_eq!(state.blue_offset, 0);
}

#[test]
fn right_and_left_move_blue() {
    let mut state = State::default();
    state.simulate(&held(false, false, false, true));
    assert_eq!((state.green_offset, state.blue_offset), (0, 10));
    state.simulate(&held(false, false, true, false));
    state.simulate(&held(false, false, true, false));
    assert_eq!((state.green_offset, state.blue_offset), (0, -10));
}

#[test]
fn opposed_buttons_cancel() {
    let mut state = State::default();
    state.simulate(&held(true, true, true, true));
    assert_eq!(state, State::default());
}

#[test]
fn no_button_leaves_the_offsets() {
    let mut state = State { speed: 10, green_offset: 33, blue_offset: -4, tone_hz: 1, volume: 2 };
    state.simulate(&Controller::default());
    assert_eq!(
        state,
        State { speed: 10, green_offset: 33, blue_offset: -4, tone_hz: 256, volume: 2000 }
    );
}

#[test]
fn offsets_wrap_at_eight_bits() {
    let mut state = State { green_offset: 120, blue_offset: -125, ..State::default() };
    state.simulate(&held(false, true, true, false));
    assert_eq!(state.green_offset, -126);
    assert_eq!(state.blue_offset, 121);
    let mut around = State::default();
    for _ in 0..128 {
        around.simulate(&held(false, true, false, false));
    }
    assert_eq!(around.green_offset, 0);
}

#[test]
fn extreme_speeds_wrap_too() {
    let mut state = State { speed: -128, green_offset: -1, ..State::default() };
    state.simulate(&held(true, false, false, false));
    assert_eq!(state.green_offset, 127);
    state.simulate(&held(false, true, false, false));
    assert_eq!(state.green_offset, -1);
}

#[test]
fn directions_set_tone_and_volume() {
    let mut state = State::default();
    state.simulate(&held(false, true, false, true));
    assert_eq!((state.tone_hz, state.volume), (356, 3000));
    state.simulate(&held(true, false, true, false));
    assert_eq!((state.tone_hz, state.volume), (156, 1000));
    state.simulate(&held(false, false, false, false));
    assert_eq!((state.tone_hz, state.volume), (256, 2000));
}

#[test]
fn gradient_of_four_by_two() {
    let mut buffer = graphics::Buffer::new(4, 2);
    render_weird_gradient(&mut buffer, 0, 0);
    assert_eq!(buffer.get_pixels()[1 * 4 + 3], 0x0103);
    assert_eq!(
        buffer.get_pixels(),
        [0x0000, 0x0001, 0x0002, 0x0003, 0x0100, 0x0101, 0x0102, 0x0103]
    );
    assert_eq!(buffer.get_width(), 4);
    assert_eq!(buffer.get_height(), 2);
}

#[test]
fn gradient_shifts_with_the_offsets() {
    let mut buffer = graphics::Buffer::new(3, 2);
    render_weird_gradient(&mut buffer, 10, -1);
    assert_eq!(
        buffer.get_pixels(),
        [0xff0a, 0xff0b, 0xff0c, 0x000a, 0x000b, 0x000c]
    );
}

#[test]
fn gradient_wraps_at_256() {
    let mut buffer = graphics::Buffer::new(300, 258);
    render_weird_gradient(&mut buffer, -2, 127);
    let pixels = buffer.get_pixels();
    assert_eq!(pixels[0], (127 << 8) | 254);
    assert_eq!(pixels[2], 127 << 8);
    assert_eq!(pixels[258], (127 << 8) | 0);
    assert_eq!(pixels[129 * 300 + 259], (0 << 8) | 1);
    assert_eq!(pixels[257 * 300 + 299], (128 << 8) | 41);
    for (i, pixel) in pixels.iter().enumerate() {
        let x = (i % 300) as i64;
        let y = (i / 300) as i64;
        let blue = (x - 2).rem_euclid(256) as u32;
        let green = (y + 127).rem_euclid(256) as u32;
        assert_eq!(*pixel, (green << 8) | blue);
        assert_eq!(*pixel >> 16, 0);
    }
}

#[test]
fn gradient_of_nothing() {
    let mut flat = graphics::Buffer::new(0, 5);
    render_weird_gradient(&mut flat, 1, 2);
    assert!(flat.get_pixels().is_empty());
    let mut thin = graphics::Buffer::new(5, 0);
    render_weird_gradient(&mut thin, 1, 2);
    assert!(thin.get_pixels().is_empty());
}

#[test]
fn rendering_again_gives_the_same_picture() {
    let mut buffer = graphics::Buffer::new(7, 5);
    render_weird_gradient(&mut buffer, 3, 4);
    let first = buffer.get_pixels().to_vec();
    buffer.get_mut_pixels()[0] = 0xdead_beef;
    render_weird_gradient(&mut buffer, 3, 4);
    assert_eq!(buffer.get_pixels(), first);
}

#[test]
fn wave_period_is_the_rate_over_the_tone() {
    assert_eq!(wave_period(48000, 256), Ok(187));
    assert_eq!(wave_period(48000, 48000), Ok(1));
    assert_eq!(wave_period(48000, 48001), Ok(0));
    assert_eq!(wave_period(0, 1), Ok(0));
}

#[test]
fn wave_period_of_zero_hertz_is_an_error() {
    assert_eq!(wave_period(48000, 0), Err(Error::DivisionByZero));
}

#[test]
fn tone_is_clamped_to_one_hertz() {
    assert_eq!(clamp_tone_hz(0), 1);
    assert_eq!(clamp_tone_hz(1), 1);
    assert_eq!(clamp_tone_hz(256), 256);
    assert_eq!(clamp_tone_hz(u32::MAX), u32::MAX);
}

#[test]
fn tone_for_the_staged_window() {
    let mut buffer = staged(12800);
    let state = State::default();
    assert_eq!(
        tone(&mut buffer, &state),
        Ok(Tone { wave_period: 187, volume: 2000, frames: 3200 })
    );
    let silent = State { tone_hz: 0, volume: 5, ..State::default() };
    assert_eq!(
        tone(&mut buffer, &silent),
        Ok(Tone { wave_period: 48000, volume: 5, frames: 3200 })
    );
    assert_eq!(buffer.get_new_samples_mut().unwrap().len(), 6400);
}

#[test]
fn tone_without_a_window_is_a_device_error() {
    let mut buffer = sound::Buffer::new();
    assert_eq!(tone(&mut buffer, &State::default()), Err(Error::Device));
}

#[test]
fn sinewave_goes_to_both_channels() {
    let mut buffer = staged(16);
    assert_eq!(buffer.get_new_samples_mut().unwrap().len(), 8);
    assert_eq!(play_sinewave(&mut buffer, &[1, -2, 3, -4]), Ok(()));
    assert_eq!(buffer.get_new_samples_mut().unwrap(), [1, 1, -2, -2, 3, 3, -4, -4]);
}

#[test]
fn sinewave_leaves_an_unpaired_sample() {
    let mut buffer = staged(10);
    {
        let staged = buffer.get_new_samples_mut().unwrap();
        assert_eq!(staged.len(), 5);
        staged[4] = 99;
    }
    assert_eq!(play_sinewave(&mut buffer, &[7, 8]), Ok(()));
    assert_eq!(buffer.get_new_samples_mut().unwrap(), [7, 7, 8, 8, 99]);
}

#[test]
fn sinewave_without_a_window_is_a_device_error() {
    let mut buffer = sound::Buffer::new();
    assert_eq!(play_sinewave(&mut buffer, &[1, 2, 3]), Err(Error::Device));
    assert_eq!(buffer.window(), None);
    assert_eq!(buffer.current_byte(), 0);
}

#[test]
fn sinewave_in_two_parts_is_the_sinewave_at_once() {
    let mono: Vec<i16> = (0..40).map(|i| (i * i - 300) as i16).collect();
    let mut whole = staged(160);
    assert_eq!(play_sinewave(&mut whole, &mono), Ok(()));
    let whole = whole.get_new_samples_mut().unwrap().to_vec();
    for cut in 0..=mono.len() {
        let mut first = staged((4 * cut) as u32);
        let mut second = staged((4 * (mono.len() - cut)) as u32);
        let mut joined: Vec<i16> = Vec::new();
        if cut > 0 {
            assert_eq!(play_sinewave(&mut first, &mono[..cut]), Ok(()));
            joined.extend_from_slice(first.get_new_samples_mut().unwrap());
        }
        if cut < mono.len() {
            assert_eq!(play_sinewave(&mut second, &mono[cut..]), Ok(()));
            joined.extend_from_slice(second.get_new_samples_mut().unwrap());
        }
        assert_eq!(joined, whole);
    }
}

#[test]
fn frame_updates_state_picture_and_tone() {
    let mut state = State::default();
    let mut picture = graphics::Buffer::new(4, 2);
    let mut audio = staged(12800);
    let request = update_and_render(
        &mut state,
        &mut picture,
        &mut audio,
        &held(false, true, false, true),
    );
    assert_eq!(request, Ok(Tone { wave_period: 48000 / 356, volume: 3000, frames: 3200 }));
    assert_eq!(state.green_offset, 10);
    assert_eq!(state.blue_offset, 10);
    assert_eq!(picture.get_pixels()[7], (11 << 8) | 13);
    assert_eq!(audio.current_byte(), 0);
    assert_eq!(audio.get_new_samples_mut().unwrap().len(), 6400);
}

#[test]
fn frame_without_a_window_still_draws() {
    let mut state = State::default();
    let mut picture = graphics::Buffer::new(4, 2);
    let mut audio = sound::Buffer::new();
    let request = update_and_render(
        &mut state,
        &mut picture,
        &mut audio,
        &held(true, false, false, false),
    );
    assert_eq!(request, Err(Error::Device));
    assert_eq!(state.green_offset, -10);
    assert_eq!(picture.get_pixels()[0], 246 << 8);
}
