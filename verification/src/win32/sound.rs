//! Keeps generated audio a fixed latency ahead of the hardware play cursor in
//! a ring buffer.

use crate::game;
use crate::Error;
use crate::Warning;
use vstd::prelude::*;

verus! {

/// The fixed sample format and the sizes derived from it.
#[derive(Clone, Copy, Debug, PartialEq, Eq, Structural)]
pub struct Info {
    pub n_channels: u32,
    pub samples_per_second_per_channel: u32,
    pub sample_size_bytes_per_channel: u32,
    pub sample_size_bytes_all_channels: u32,
    pub buffer_size_seconds: u32,
    pub buffer_size_samples_per_channel: u32,
    pub buffer_size_bytes_all_channels: u32,
    pub latency_size_samples_per_channel: u32,
    pub latency_size_bytes_all_channels: u32,
}

impl Info {
    /// The derived sizes are the products of the base parameters.
    pub open spec fn wf(&self) -> bool {
        &&& self.sample_size_bytes_all_channels == self.sample_size_bytes_per_channel
            * self.n_channels
        &&& self.buffer_size_samples_per_channel == self.buffer_size_seconds
            * self.samples_per_second_per_channel
        &&& self.buffer_size_bytes_all_channels == self.buffer_size_seconds
            * self.samples_per_second_per_channel * self.sample_size_bytes_per_channel
            * self.n_channels
        &&& self.latency_size_bytes_all_channels == self.latency_size_samples_per_channel
            * self.sample_size_bytes_per_channel * self.n_channels
    }

    /// The ring has room and samples have a size, so offsets can be reduced
    /// modulo the buffer and bytes converted to samples.
    pub open spec fn is_ring(&self) -> bool {
        &&& self.buffer_size_bytes_all_channels > 0
        &&& self.sample_size_bytes_per_channel > 0
    }

    /// Every size derived from the parameters fits in 32 bits.
    pub open spec fn fits(
        n_channels: u32,
        samples_per_second_per_channel: u32,
        sample_size_bytes_per_channel: u32,
        buffer_size_seconds: u32,
        latency_size_samples_per_channel: u32,
    ) -> bool {
        &&& sample_size_bytes_per_channel * n_channels <= u32::MAX
        &&& buffer_size_seconds * samples_per_second_per_channel <= u32::MAX
        &&& buffer_size_seconds * samples_per_second_per_channel * sample_size_bytes_per_channel
            <= u32::MAX
        &&& buffer_size_seconds * samples_per_second_per_channel * sample_size_bytes_per_channel
            * n_channels <= u32::MAX
        &&& latency_size_samples_per_channel * sample_size_bytes_per_channel <= u32::MAX
        &&& latency_size_samples_per_channel * sample_size_bytes_per_channel * n_channels
            <= u32::MAX
    }

    pub fn new(
        n_channels: u32,
        samples_per_second_per_channel: u32,
        sample_size_bytes_per_channel: u32,
        buffer_size_seconds: u32,
        latency_size_samples_per_channel: u32,
    ) -> (info: Self)
        requires
            Self::fits(
                n_channels,
                samples_per_second_per_channel,
                sample_size_bytes_per_channel,
                buffer_size_seconds,
                latency_size_samples_per_channel,
            ),
        ensures
            info.n_channels == n_channels,
            info.samples_per_second_per_channel == samples_per_second_per_channel,
            info.sample_size_bytes_per_channel == sample_size_bytes_per_channel,
            info.buffer_size_seconds == buffer_size_seconds,
            info.latency_size_samples_per_channel == latency_size_samples_per_channel,
            info.wf(),
    {
        Self {
            n_channels,
            samples_per_second_per_channel,
            sample_size_bytes_per_channel,
            sample_size_bytes_all_channels: sample_size_bytes_per_channel * n_channels,
            buffer_size_seconds,
            buffer_size_samples_per_channel: buffer_size_seconds * samples_per_second_per_channel,
            buffer_size_bytes_all_channels: buffer_size_seconds * samples_per_second_per_channel
                * sample_size_bytes_per_channel * n_channels,
            latency_size_samples_per_channel,
            latency_size_bytes_all_channels: latency_size_samples_per_channel
                * sample_size_bytes_per_channel * n_channels,
        }
    }
}

/// The window to fill this frame: where it ends, how long it is, and how many
/// samples (counting every channel) it holds.
#[derive(Clone, Copy, Debug, PartialEq, Eq, Structural)]
pub struct NewSamplesInfo {
    pub target: u32,
    pub size_bytes: u32,
    pub size_samples_all_channels: u32,
    pub warning: Option<Warning>,
}

/// Bytes from ring offset `b` forward to ring offset `a`. Equal offsets are a
/// full lap apart, not zero.
pub open spec fn ring_distance(a: int, b: int, size: int) -> int {
    if a > b {
        a - b
    } else {
        size - b + a
    }
}

/// The offset up to which fresh data should be buffered: the play cursor
/// advanced by the latency, wrapped into the ring.
pub open spec fn target_byte(play: u32, info: Info) -> int {
    (play + info.latency_size_bytes_all_channels) % (info.buffer_size_bytes_all_channels as int)
}

/// The window from `last_write` to the target. A write cursor beyond the ring
/// by more than the target gives no distance; the window is then one full
/// buffer and carries a warning.
pub open spec fn window_of(play: u32, last_write: u32, info: Info) -> NewSamplesInfo {
    let size = info.buffer_size_bytes_all_channels as int;
    let target = target_byte(play, info);
    let distance = ring_distance(target, last_write as int, size);
    let overrun = distance < 0 || distance > size;
    let bytes = if overrun {
        size
    } else {
        distance
    };
    NewSamplesInfo {
        target: target as u32,
        size_bytes: bytes as u32,
        size_samples_all_channels: (bytes / (info.sample_size_bytes_per_channel as int)) as u32,
        warning: if overrun {
            Some(Warning::BufferOverrun)
        } else {
            None
        },
    }
}

/// Like `a - b`, for two byte positions in a ring of `size` bytes.
pub fn bytes_between(a: u32, b: u32, size: u32) -> (n: u32)
    requires
        ring_distance(a as int, b as int, size as int) >= 0,
    ensures
        n == ring_distance(a as int, b as int, size as int),
{
    if a > b {
        a - b
    } else {
        size - (b - a)
    }
}

/// Decides how many bytes to write this frame and where the write ends.
pub fn compute_window(
    hardware_play_cursor_byte: u32,
    last_write_byte: u32,
    info: &Info,
) -> (window: NewSamplesInfo)
    requires
        info.is_ring(),
    ensures
        window == window_of(hardware_play_cursor_byte, last_write_byte, *info),
{
    let size = info.buffer_size_bytes_all_channels;
    let ahead: u64 = hardware_play_cursor_byte as u64 + info.latency_size_bytes_all_channels as u64;
    let target: u32 = (ahead % (size as u64)) as u32;
    let measurable = target > last_write_byte || last_write_byte - target <= size;
    let size_bytes = if measurable {
        bytes_between(target, last_write_byte, size)
    } else {
        size
    };
    NewSamplesInfo {
        target,
        size_bytes,
        size_samples_all_channels: size_bytes / info.sample_size_bytes_per_channel,
        warning: if measurable {
            None
        } else {
            Some(Warning::BufferOverrun)
        },
    }
}

/// Where the hardware is reading and where it is safe to write, in bytes from
/// the start of the ring.
#[derive(Clone, Copy, Debug, PartialEq, Eq, Structural)]
pub struct Position {
    pub play: u32,
    pub write: u32,
}

/// The span of the ring to lock for writing.
#[derive(Clone, Copy, Debug, PartialEq, Eq, Structural)]
pub struct LockRequest {
    pub first_byte: u32,
    pub bytes_to_write: u32,
}

/// The staging area for generated samples, with the window that says how many
/// of them belong to the current frame.
pub struct NewSamples {
    storage: Vec<i16>,
    info: Option<NewSamplesInfo>,
}

impl NewSamples {
    /// Everything that is stored, staged or not.
    pub closed spec fn storage(&self) -> Seq<i16> {
        self.storage@
    }

    /// The window of the current frame, if one is open.
    pub closed spec fn window(&self) -> Option<NewSamplesInfo> {
        self.info
    }

    /// An open window asks for no more samples than are stored.
    pub open spec fn wf(&self) -> bool {
        self.window() matches Some(window) ==> window.size_samples_all_channels
            <= self.storage().len()
    }

    /// The samples of the open window: the first of the stored ones.
    pub open spec fn samples(&self) -> Option<Seq<i16>> {
        match self.window() {
            Some(window) => Some(
                self.storage().subrange(0, window.size_samples_all_channels as int),
            ),
            None => None,
        }
    }

    /// Room for `size` samples, all silent, and no window.
    pub fn new(size: usize) -> (samples: Self)
        ensures
            samples.storage() == Seq::new(size as nat, |i: int| 0i16),
            samples.window() is None,
            samples.wf(),
    {
        let storage = vec![0i16; size];
        assert(storage@ =~= Seq::new(size as nat, |i: int| 0i16));
        Self { storage, info: None }
    }

    /// Opens `window` as the window of the current frame, in place of any
    /// that was open. It may ask for no more samples than are stored.
    pub fn open(&mut self, window: NewSamplesInfo)
        requires
            window.size_samples_all_channels <= old(self).storage().len(),
        ensures
            final(self).window() == Some(window),
            final(self).storage() == old(self).storage(),
            final(self).wf(),
    {
        self.info = Some(window);
    }

    /// Closes the window of the current frame and hands it out.
    pub fn close(&mut self) -> (window: Option<NewSamplesInfo>)
        ensures
            window == old(self).window(),
            final(self).window() is None,
            final(self).storage() == old(self).storage(),
            final(self).wf(),
    {
        let window = self.info;
        self.info = None;
        window
    }

    /// Lends out the samples of the open window for writing. The window, and
    /// what is stored beyond it, stay as they are.
    pub fn get_mut(&mut self) -> (samples: Option<&mut [i16]>)
        requires
            old(self).wf(),
        ensures
            final(self).window() == old(self).window(),
            match samples {
                Some(staged) => {
                    &&& old(self).samples() == Some(staged@)
                    &&& final(self).storage() == final(staged)@ + old(self).storage().skip(
                        staged@.len() as int,
                    )
                },
                None => {
                    &&& old(self).window() is None
                    &&& *final(self) == *old(self)
                },
            },
    {
        if self.info.is_none() {
            return None;
        }
        let count = self.info.as_ref().unwrap().size_samples_all_channels as usize;
        let (staged, _rest) = self.storage.as_mut_slice().split_at_mut(count);
        assert(_rest@ =~= old(self).storage().skip(count as int));
        Some(staged)
    }
}

/// What a sound buffer is, apart from how it is stored.
pub struct BufferView {
    pub info: Info,
    /// The next unwritten byte of the ring.
    pub current_byte: u32,
    /// The window of the current frame, if one is open.
    pub window: Option<NewSamplesInfo>,
    /// The staging area, of which the open window uses the beginning.
    pub storage: Seq<i16>,
}

/// The synchroniser: the format, the write cursor, and the samples staged for
/// the current frame.
pub struct Buffer {
    info: Info,
    current_byte: u32,
    new_samples: NewSamples,
}

impl View for Buffer {
    type V = BufferView;

    closed spec fn view(&self) -> BufferView {
        BufferView {
            info: self.info,
            current_byte: self.current_byte,
            window: self.new_samples.window(),
            storage: self.new_samples.storage(),
        }
    }
}

/// The configuration of the one buffer the game plays through: two channels
/// of 16-bit samples at 48 kHz, one second of ring, 3200 samples of latency.
pub open spec fn standard_info() -> Info {
    Info {
        n_channels: 2,
        samples_per_second_per_channel: 48000,
        sample_size_bytes_per_channel: 2,
        sample_size_bytes_all_channels: 4,
        buffer_size_seconds: 1,
        buffer_size_samples_per_channel: 48000,
        buffer_size_bytes_all_channels: 192000,
        latency_size_samples_per_channel: 3200,
        latency_size_bytes_all_channels: 12800,
    }
}

impl Buffer {
    /// The sizes of the format agree, the write cursor lies in the ring, the
    /// staging area holds a full ring of samples, and an open window fits in
    /// it and ends in the ring.
    pub open spec fn wf(&self) -> bool {
        &&& self@.info.wf()
        &&& self@.info.is_ring()
        &&& self@.current_byte < self@.info.buffer_size_bytes_all_channels
        &&& self@.storage.len() * self@.info.sample_size_bytes_per_channel
            >= self@.info.buffer_size_bytes_all_channels
        &&& self@.window matches Some(window) ==> {
            &&& window.size_samples_all_channels <= self@.storage.len()
            &&& window.target < self@.info.buffer_size_bytes_all_channels
        }
    }

    /// How many samples the open window holds; none without a window.
    pub open spec fn staged_len(&self) -> int {
        match self@.window {
            Some(window) => window.size_samples_all_channels as int,
            None => 0,
        }
    }

    /// The samples of the open window.
    pub open spec fn samples(&self) -> Option<Seq<i16>> {
        match self@.window {
            Some(window) => Some(
                self@.storage.subrange(0, window.size_samples_all_channels as int),
            ),
            None => None,
        }
    }

    /// A silent buffer in the standard configuration, written up to byte 0,
    /// with no window open.
    pub fn new() -> (buffer: Self)
        ensures
            buffer@ == (BufferView {
                info: standard_info(),
                current_byte: 0,
                window: None,
                storage: Seq::new(96000, |i: int| 0i16),
            }),
            buffer.wf(),
    {
        let info = Info::new(2, 48000, 2, 1, 3200);
        let capacity = info.samples_per_second_per_channel * info.buffer_size_seconds
            * info.n_channels;
        let new_samples = NewSamples::new(capacity as usize);
        Self { info, current_byte: 0, new_samples }
    }

    pub fn info(&self) -> (info: &Info)
        ensures
            *info == self@.info,
    {
        &self.info
    }

    pub fn current_byte(&self) -> (byte: u32)
        ensures
            byte == self@.current_byte,
    {
        self.current_byte
    }

    pub fn window(&self) -> (window: Option<NewSamplesInfo>)
        ensures
            window == self@.window,
    {
        self.new_samples.info
    }

    /// Like `a - b`, for two byte positions in this buffer's ring.
    pub fn get_n_bytes_between(&self, a: u32, b: u32) -> (n: u32)
        requires
            ring_distance(
                a as int,
                b as int,
                self@.info.buffer_size_bytes_all_channels as int,
            ) >= 0,
        ensures
            n == ring_distance(
                a as int,
                b as int,
                self@.info.buffer_size_bytes_all_channels as int,
            ),
    {
        bytes_between(a, b, self.info.buffer_size_bytes_all_channels)
    }

    /// Opens the window for this frame: from the write cursor to the latency
    /// target ahead of the play cursor that the device reported. A window
    /// that was still open is replaced.
    pub fn begin_write(&mut self, position: Position) -> (window: NewSamplesInfo)
        requires
            old(self).wf(),
        ensures
            window == window_of(position.play, old(self)@.current_byte, old(self)@.info),
            window.warning is None,
            final(self)@ == (BufferView { window: Some(window), ..old(self)@ }),
            final(self).wf(),
    {
        let window = compute_window(position.play, self.current_byte, &self.info);
        proof {
            lemma_samples_fit(
                window.size_bytes as int,
                self.info.sample_size_bytes_per_channel as int,
                self@.storage.len() as int,
            );
        }
        self.new_samples.open(window);
        window
    }

    /// The span to lock so that the open window can be written: it starts at
    /// the write cursor. There is nothing to lock without a window, or for a
    /// window of no bytes.
    pub fn lock_request(&self) -> (request: Option<LockRequest>)
        ensures
            request == match self@.window {
                Some(window) => if window.size_bytes > 0 {
                    Some(
                        LockRequest {
                            first_byte: self@.current_byte,
                            bytes_to_write: window.size_bytes,
                        },
                    )
                } else {
                    None
                },
                None => None,
            },
    {
        match self.new_samples.info {
            Some(window) => if window.size_bytes > 0 {
                Some(
                    LockRequest {
                        first_byte: self.current_byte,
                        bytes_to_write: window.size_bytes,
                    },
                )
            } else {
                None
            },
            None => None,
        }
    }

    /// Closes the window once the device has, or has not, taken its samples.
    /// After a successful write the cursor stands at the window's target; after
    /// a failed one it stays, so that the next frame starts from the same
    /// place. The outcome is handed back.
    pub fn play_new_samples(&mut self, written: Result<(), Error>) -> (played: Result<(), Error>)
        requires
            old(self).wf(),
        ensures
            played == written,
            final(self)@ == (BufferView {
                current_byte: match (old(self)@.window, written) {
                    (Some(window), Ok(_)) => window.target,
                    _ => old(self)@.current_byte,
                },
                window: None,
                ..old(self)@
            }),
            final(self).wf(),
    {
        match self.new_samples.close() {
            Some(window) => {
                if written.is_ok() {
                    self.current_byte = window.target;
                }
            },
            None => {},
        }
        written
    }
}

/// A window of `bytes` bytes holds no more samples than a staging area that
/// covers the window's bytes.
proof fn lemma_samples_fit(bytes: int, sample_size: int, capacity: int)
    requires
        0 <= bytes <= capacity * sample_size,
        0 < sample_size,
    ensures
        bytes / sample_size <= capacity,
{
    assert(capacity * sample_size == sample_size * capacity) by (nonlinear_arith);
    vstd::arithmetic::div_mod::lemma_div_is_ordered(bytes, sample_size * capacity, sample_size);
    vstd::arithmetic::div_mod::lemma_div_multiples_vanish(capacity, sample_size);
}

/// Two buffers that differ at most in their staged samples, and stage the
/// same samples, are the same.
pub proof fn lemma_kept_with_same_samples(buffer: &Buffer, before: &Buffer)
    requires
        before.wf(),
        game::sound::Buffer::kept(buffer, before),
        buffer.samples() == before.samples(),
    ensures
        buffer@ == before@,
{
    let count = before.staged_len();
    assert forall|i: int| 0 <= i < before@.storage.len() implies buffer@.storage[i]
        == before@.storage[i] by {
        if i < count {
            assert(buffer@.storage.subrange(0, count)[i] == before@.storage.subrange(0, count)[i]);
        }
    }
    assert(buffer@.storage =~= before@.storage);
}

impl game::sound::Buffer for Buffer {
    open spec fn wf(&self) -> bool {
        Buffer::wf(self)
    }

    open spec fn new_samples(&self) -> Option<Seq<i16>> {
        self.samples()
    }

    open spec fn samples_per_second_per_channel(&self) -> u32 {
        self@.info.samples_per_second_per_channel
    }

    open spec fn kept(&self, before: &Self) -> bool {
        &&& self@.info == before@.info
        &&& self@.current_byte == before@.current_byte
        &&& self@.window == before@.window
        &&& self@.storage.len() == before@.storage.len()
        &&& forall|i: int|
            self.staged_len() <= i < self@.storage.len() ==> self@.storage[i]
                == before@.storage[i]
    }

    /// The format, the write cursor, the window and what is stored beyond the
    /// window stay as they are.
    fn get_new_samples_mut(&mut self) -> (samples: Result<&mut [i16], Error>)
        ensures
            samples matches Ok(staged) ==> final(self)@ == (BufferView {
                storage: final(staged)@ + old(self)@.storage.skip(staged@.len() as int),
                ..old(self)@
            }),
    {
        match self.new_samples.get_mut() {
            Some(staged) => {
                assert(final(staged)@.len() == staged@.len() ==> (final(staged)@ + old(
                    self,
                )@.storage.skip(staged@.len() as int)).subrange(0, staged@.len() as int)
                    =~= final(staged)@);
                Ok(staged)
            },
            None => Err(Error::Device),
        }
    }

    fn get_samples_per_second_per_channel(&self) -> (rate: u32) {
        self.info.samples_per_second_per_channel
    }
}

/// Every pair of offsets in the ring that differ is less than a lap apart,
/// and more than nothing.
pub proof fn lemma_ring_distance_in_range(a: int, b: int, size: int)
    requires
        0 <= a < size,
        0 <= b < size,
        a != b,
    ensures
        0 <= ring_distance(a, b, size) < size,
        ring_distance(a, b, size) == 0 <==> a == b,
{
}

/// An offset is a full lap away from itself.
pub proof fn lemma_ring_distance_full_lap(a: int, size: int)
    ensures
        ring_distance(a, a, size) == size,
{
}

/// Going the distance from `b` forward, around the ring, arrives at `a`.
pub proof fn lemma_ring_distance_arrives(a: int, b: int, size: int)
    requires
        0 <= a < size,
        0 <= b < size,
    ensures
        (b + ring_distance(a, b, size)) % size == a,
{
    if a > b {
        vstd::arithmetic::div_mod::lemma_small_mod(a as nat, size as nat);
    } else {
        vstd::arithmetic::div_mod::lemma_mod_add_multiples_vanish(a, size);
        vstd::arithmetic::div_mod::lemma_small_mod(a as nat, size as nat);
    }
}

/// With the write cursor in the ring, the window ends in the ring, is
/// between one byte and one full buffer long, carries no warning, and leads
/// from the write cursor exactly to its target.
pub proof fn lemma_window_in_ring(play: u32, last_write: u32, info: Info)
    requires
        info.is_ring(),
        last_write < info.buffer_size_bytes_all_channels,
    ensures
        window_of(play, last_write, info).target < info.buffer_size_bytes_all_channels,
        0 < window_of(play, last_write, info).size_bytes <= info.buffer_size_bytes_all_channels,
        window_of(play, last_write, info).warning is None,
        (last_write + window_of(play, last_write, info).size_bytes) % (
        info.buffer_size_bytes_all_channels as int) == window_of(play, last_write, info).target,
        window_of(play, last_write, info).size_bytes == info.buffer_size_bytes_all_channels
            <==> window_of(play, last_write, info).target == last_write,
{
    let size = info.buffer_size_bytes_all_channels as int;
    lemma_ring_distance_arrives(target_byte(play, info), last_write as int, size);
}

/// Windows that are written one after the other leave no gap and no
/// overlap: the bytes of two consecutive windows lead from the write cursor
/// to the second window's target.
pub proof fn lemma_consecutive_windows_tile(
    first_play: u32,
    second_play: u32,
    last_write: u32,
    info: Info,
)
    requires
        info.is_ring(),
        last_write < info.buffer_size_bytes_all_channels,
    ensures
        ({
            let first = window_of(first_play, last_write, info);
            let second = window_of(second_play, first.target, info);
            (last_write + first.size_bytes + second.size_bytes) % (
            info.buffer_size_bytes_all_channels as int) == second.target
        }),
{
    let size = info.buffer_size_bytes_all_channels as int;
    let first = window_of(first_play, last_write, info);
    let second = window_of(second_play, first.target, info);
    lemma_window_in_ring(first_play, last_write, info);
    lemma_window_in_ring(second_play, first.target, info);
    vstd::arithmetic::div_mod::lemma_add_mod_noop_right(
        second.size_bytes as int,
        last_write + first.size_bytes,
        size,
    );
}

/// The part of `samples` that goes to the first locked region.
pub open spec fn first_region(samples: Seq<i16>, region1_len: nat) -> Seq<i16> {
    samples.subrange(0, region1_len as int)
}

/// The part of `samples` that goes to the second locked region: what follows
/// the first part.
pub open spec fn second_region(samples: Seq<i16>, region1_len: nat, region2_len: nat) -> Seq<
    i16,
> {
    samples.subrange(region1_len as int, (region1_len + region2_len) as int)
}

/// Two regions that together are as long as the samples hold, one after the
/// other, exactly the samples: nothing is left out, repeated or reordered.
pub proof fn lemma_regions_make_one_write(samples: Seq<i16>, region1_len: nat, region2_len: nat)
    requires
        region1_len + region2_len == samples.len(),
    ensures
        first_region(samples, region1_len) + second_region(samples, region1_len, region2_len)
            == samples,
{
    assert(first_region(samples, region1_len) + second_region(samples, region1_len, region2_len)
        =~= samples);
}

/// The ring after `samples` were written into it from `start` on, going
/// around at its end.
pub open spec fn ring_written(ring: Seq<i16>, start: int, samples: Seq<i16>) -> Seq<i16> {
    Seq::new(
        ring.len(),
        |i: int|
            if (i - start) % (ring.len() as int) < samples.len() {
                samples[(i - start) % (ring.len() as int)]
            } else {
                ring[i]
            },
    )
}

/// The ring after `region1` was written into it from `start` on and
/// `region2` from its beginning.
pub open spec fn ring_written_in_regions(
    ring: Seq<i16>,
    start: int,
    region1: Seq<i16>,
    region2: Seq<i16>,
) -> Seq<i16> {
    Seq::new(
        ring.len(),
        |i: int|
            if start <= i < start + region1.len() {
                region1[i - start]
            } else if i < region2.len() {
                region2[i]
            } else {
                ring[i]
            },
    )
}

/// Where the first region lies in the ring and ends with the samples or with
/// the ring, and the second region takes what is left, writing the two
/// regions is writing the samples in one piece around the ring.
pub proof fn lemma_regions_write_around_the_ring(
    ring: Seq<i16>,
    start: int,
    samples: Seq<i16>,
    region1_len: nat,
    region2_len: nat,
)
    requires
        0 <= start < ring.len(),
        samples.len() <= ring.len(),
        region1_len + region2_len == samples.len(),
        start + region1_len <= ring.len(),
        region1_len == samples.len() || start + region1_len == ring.len(),
    ensures
        ring_written_in_regions(
            ring,
            start,
            first_region(samples, region1_len),
            second_region(samples, region1_len, region2_len),
        ) == ring_written(ring, start, samples),
{
    let size = ring.len() as int;
    let split = ring_written_in_regions(
        ring,
        start,
        first_region(samples, region1_len),
        second_region(samples, region1_len, region2_len),
    );
    let whole = ring_written(ring, start, samples);
    assert forall|i: int| 0 <= i < size implies split[i] == whole[i] by {
        if i >= start {
            vstd::arithmetic::div_mod::lemma_small_mod((i - start) as nat, size as nat);
            assert((i - start) % size == i - start);
        } else {
            vstd::arithmetic::div_mod::lemma_mod_add_multiples_vanish(i - start, size);
            vstd::arithmetic::div_mod::lemma_small_mod((i - start + size) as nat, size as nat);
            assert((i - start) % size == i - start + size);
        }
    }
    assert(split =~= whole);
}

/// Copies the first samples into `region`, as many as it holds.
pub fn fill_buffer_region(samples: &[i16], region: &mut [i16])
    requires
        old(region)@.len() <= samples@.len(),
    ensures
        final(region)@ == first_region(samples@, old(region)@.len()),
{
    let count = region.len();
    let mut i: usize = 0;
    while i < count
        invariant
            region@.len() == count,
            count <= samples@.len(),
            i <= count,
            forall|k: int| 0 <= k < i ==> region@[k] == samples@[k],
        decreases count - i,
    {
        region[i] = samples[i];
        i += 1;
    }
    assert(region@ =~= first_region(samples@, count as nat));
}

/// Writes the samples into the two regions that a lock of the ring handed
/// out: the first region takes the first samples, the second region the ones
/// that follow.
pub fn fill_buffer(samples: &[i16], region1: &mut [i16], region2: &mut [i16])
    requires
        old(region1)@.len() + old(region2)@.len() <= samples@.len(),
    ensures
        final(region1)@ == first_region(samples@, old(region1)@.len()),
        final(region2)@ == second_region(samples@, old(region1)@.len(), old(region2)@.len()),
{
    let region1_len = region1.len();
    let total = samples.len();
    fill_buffer_region(samples, region1);
    let rest = vstd::slice::slice_subrange(samples, region1_len, total);
    fill_buffer_region(rest, region2);
    assert(region2@ =~= second_region(samples@, region1_len as nat, region2@.len()));
}

/// Silences the two regions that a lock of the whole ring handed out.
pub fn clear_buffer(region1: &mut [u8], region2: &mut [u8])
    ensures
        final(region1)@ == Seq::new(old(region1)@.len(), |i: int| 0u8),
        final(region2)@ == Seq::new(old(region2)@.len(), |i: int| 0u8),
{
    clear_region(region1);
    clear_region(region2);
}

fn clear_region(region: &mut [u8])
    ensures
        final(region)@ == Seq::new(old(region)@.len(), |i: int| 0u8),
{
    let count = region.len();
    let mut i: usize = 0;
    while i < count
        invariant
            region@.len() == count,
            i <= count,
            forall|k: int| 0 <= k < i ==> region@[k] == 0,
        decreases count - i,
    {
        region[i] = 0;
        i += 1;
    }
    assert(region@ =~= Seq::new(count as nat, |i: int| 0u8));
}

/// The format tag of uncompressed pulse-code modulation.
pub const WAVE_FORMAT_PCM: u32 = 1;

/// The fields of a wave format description.
#[derive(Clone, Copy, Debug, PartialEq, Eq, Structural)]
pub struct WaveFormat {
    pub format_tag: u16,
    pub n_channels: u16,
    pub n_samples_per_sec: u32,
    pub n_avg_bytes_per_sec: u32,
    pub n_block_align: u16,
    pub bits_per_sample: u16,
    pub cb_size: u16,
}

/// The PCM format of the given rate, channel count and sample size. A frame
/// is one sample of each channel; the fields of 16 bits hold the low 16 bits
/// of their values.
pub open spec fn wave_format_of(
    samples_per_second_per_channel: u32,
    n_channels: u32,
    bytes_per_sample_per_channel: u32,
) -> WaveFormat {
    WaveFormat {
        format_tag: WAVE_FORMAT_PCM as u16,
        n_channels: n_channels as u16,
        n_samples_per_sec: samples_per_second_per_channel,
        n_avg_bytes_per_sec: (n_channels * bytes_per_sample_per_channel
            * samples_per_second_per_channel) as u32,
        n_block_align: ((n_channels * bytes_per_sample_per_channel) as u32) as u16,
        bits_per_sample: ((bytes_per_sample_per_channel * 8) as u32) as u16,
        cb_size: 0,
    }
}

/// Describes the sample format to the device.
pub fn create_wave_format(
    samples_per_second_per_channel: u32,
    n_channels: u32,
    bytes_per_sample_per_channel: u32,
) -> (format: WaveFormat)
    requires
        n_channels * bytes_per_sample_per_channel * samples_per_second_per_channel <= u32::MAX,
        n_channels * bytes_per_sample_per_channel <= u32::MAX,
        bytes_per_sample_per_channel * 8 <= u32::MAX,
    ensures
        format == wave_format_of(
            samples_per_second_per_channel,
            n_channels,
            bytes_per_sample_per_channel,
        ),
{
    let n_block_align = n_channels * bytes_per_sample_per_channel;
    let n_avg_bytes_per_sec = n_block_align * samples_per_second_per_channel;
    WaveFormat {
        format_tag: WAVE_FORMAT_PCM as u16,
        n_avg_bytes_per_sec,
        n_block_align: #[verifier::truncate]
        (n_block_align as u16),
        n_channels: #[verifier::truncate]
        (n_channels as u16),
        n_samples_per_sec: samples_per_second_per_channel,
        bits_per_sample: #[verifier::truncate]
        ((bytes_per_sample_per_channel * 8) as u16),
        cb_size: 0,
    }
}

} // verus!
