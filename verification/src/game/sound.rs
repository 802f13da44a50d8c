//! The tone the game plays: its parameters, and how one channel of generated
//! samples becomes stereo frames in the platform's staging buffer.

use crate::game::State;
use crate::Error;
use vstd::prelude::*;

verus! {

/// Where the samples of the current frame are staged before they are played.
pub trait Buffer: Sized {
    /// The buffer is in a state that its methods accept.
    spec fn wf(&self) -> bool;

    /// The samples staged for this frame, channels interleaved, or `None`
    /// while the platform has opened no window to fill.
    spec fn new_samples(&self) -> Option<Seq<i16>>;

    spec fn samples_per_second_per_channel(&self) -> u32;

    /// Whatever there is to the buffer besides the staged samples is as it
    /// is in `before`.
    spec fn kept(&self, before: &Self) -> bool;

    /// Lends out the staged samples for writing. What is written is what is
    /// staged afterwards, given that the slice comes back as long as it went
    /// out, which every slice does.
    fn get_new_samples_mut(&mut self) -> (samples: Result<&mut [i16], Error>)
        requires
            old(self).wf(),
        ensures
            match samples {
                Ok(staged) => {
                    &&& old(self).new_samples() == Some(staged@)
                    &&& final(staged)@.len() == staged@.len() ==> {
                        &&& final(self).wf()
                        &&& final(self).new_samples() == Some(final(staged)@)
                        &&& final(self).samples_per_second_per_channel() == old(
                            self,
                        ).samples_per_second_per_channel()
                        &&& final(self).kept(old(self))
                    }
                },
                Err(error) => {
                    &&& error == Error::Device
                    &&& old(self).new_samples() is None
                    &&& *final(self) == *old(self)
                    &&& final(self).kept(old(self))
                },
            },
    ;

    fn get_samples_per_second_per_channel(&self) -> (rate: u32)
        ensures
            rate == self.samples_per_second_per_channel(),
    ;
}

/// Nothing about the buffer differs from `before`.
pub open spec fn unchanged<B: Buffer>(buffer: &B, before: &B) -> bool {
    &&& buffer.wf() == before.wf()
    &&& buffer.new_samples() == before.new_samples()
    &&& buffer.samples_per_second_per_channel() == before.samples_per_second_per_channel()
    &&& buffer.kept(before)
}

/// What the oscillator has to produce for one frame.
#[derive(Clone, Copy, Debug, PartialEq, Eq, Structural)]
pub struct Tone {
    /// Samples per cycle of the wave.
    pub wave_period: u32,
    /// Peak amplitude.
    pub volume: u32,
    /// How many samples to generate: one for each stereo frame.
    pub frames: usize,
}

/// The frequency used for generation: at least one hertz.
pub open spec fn audible(tone_hz: u32) -> u32 {
    if tone_hz == 0 {
        1
    } else {
        tone_hz
    }
}

/// Raises a frequency of zero to one hertz.
pub fn clamp_tone_hz(tone_hz: u32) -> (clamped: u32)
    ensures
        clamped == audible(tone_hz),
{
    if tone_hz == 0 {
        1
    } else {
        tone_hz
    }
}

/// Samples per cycle at `tone_hz`, rounded down. There is none at zero hertz.
pub fn wave_period(samples_per_second_per_channel: u32, tone_hz: u32) -> (period: Result<
    u32,
    Error,
>)
    ensures
        tone_hz == 0 ==> period == Err::<u32, Error>(Error::DivisionByZero),
        tone_hz != 0 ==> period == Ok::<u32, Error>(samples_per_second_per_channel / tone_hz),
{
    if tone_hz == 0 {
        Err(Error::DivisionByZero)
    } else {
        Ok(samples_per_second_per_channel / tone_hz)
    }
}

/// The tone for this frame: the state's volume, the period of its clamped
/// frequency, and one sample for each pair of staged samples. Without a
/// staged window there is nothing to fill.
pub open spec fn tone_of<B: Buffer>(buffer: &B, state: State) -> Result<Tone, Error> {
    match buffer.new_samples() {
        Some(staged) => Ok(
            Tone {
                wave_period: buffer.samples_per_second_per_channel() / audible(state.tone_hz),
                volume: state.volume,
                frames: (staged.len() / 2) as usize,
            },
        ),
        None => Err(Error::Device),
    }
}

/// Works out what the oscillator must generate to fill the staged window.
pub fn tone<B: Buffer>(buffer: &mut B, state: &State) -> (request: Result<Tone, Error>)
    requires
        old(buffer).wf(),
    ensures
        request == tone_of(old(buffer), *state),
        unchanged(final(buffer), old(buffer)),
{
    let rate = buffer.get_samples_per_second_per_channel();
    let period = rate / clamp_tone_hz(state.tone_hz);
    match buffer.get_new_samples_mut() {
        Ok(staged) => Ok(
            Tone { wave_period: period, volume: state.volume, frames: staged.len() / 2 },
        ),
        Err(error) => Err(error),
    }
}

/// Each sample of one channel, twice in a row: the left and the right sample
/// of a stereo frame.
pub open spec fn stereo(mono: Seq<i16>) -> Seq<i16> {
    Seq::new(2 * mono.len(), |i: int| mono[i / 2])
}

/// The staged samples after the frames of `mono` were written over their
/// beginning: the stereo frames, then what was staged beyond them.
pub open spec fn filled(staged: Seq<i16>, mono: Seq<i16>) -> Seq<i16> {
    stereo(mono) + staged.skip((2 * mono.len()) as int)
}

/// Duplicating a stream that was generated in two parts gives the two
/// duplicated parts one after the other.
pub proof fn lemma_stereo_of_parts(first: Seq<i16>, second: Seq<i16>)
    ensures
        stereo(first + second) == stereo(first) + stereo(second),
{
    assert(stereo(first + second) =~= stereo(first) + stereo(second));
}

/// Writes each generated sample to both channels of its frame in the staged
/// window. A last staged sample without a partner keeps its value.
pub fn play_sinewave<B: Buffer>(buffer: &mut B, mono: &[i16]) -> (played: Result<(), Error>)
    requires
        old(buffer).wf(),
        old(buffer).new_samples() matches Some(staged) ==> mono@.len() == staged.len() / 2,
    ensures
        final(buffer).wf(),
        final(buffer).samples_per_second_per_channel() == old(
            buffer,
        ).samples_per_second_per_channel(),
        final(buffer).kept(old(buffer)),
        match old(buffer).new_samples() {
            Some(staged) => {
                &&& played is Ok
                &&& final(buffer).new_samples() == Some(filled(staged, mono@))
            },
            None => {
                &&& played == Err::<(), Error>(Error::Device)
                &&& *final(buffer) == *old(buffer)
            },
        },
{
    let staged = match buffer.get_new_samples_mut() {
        Ok(staged) => staged,
        Err(error) => {
            return Err(error);
        },
    };
    let ghost before = staged@;
    let total = staged.len();
    let frames = mono.len();
    let mut frame: usize = 0;
    while frame < frames
        invariant
            staged@.len() == total,
            before.len() == total,
            frames == mono@.len(),
            frames == total / 2,
            frame <= frames,
            forall|i: int| 0 <= i < 2 * frame ==> staged@[i] == mono@[i / 2],
            forall|i: int| 2 * frame <= i < total ==> staged@[i] == before[i],
        decreases frames - frame,
    {
        let value = mono[frame];
        staged[2 * frame] = value;
        staged[2 * frame + 1] = value;
        frame += 1;
    }
    assert(staged@ =~= filled(before, mono@));
    Ok(())
}

} // verus!
