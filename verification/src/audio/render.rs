//! The work of the render callback.
//!
//! The callback runs on a thread that the audio service owns, at a fixed
//! period. It must never wait: it takes from the ring buffer what is
//! there, fills the rest of the device buffer with silence, and counts an
//! underrun if anything was missing. Nothing here allocates: the scratch
//! buffer is sized when the output starts and never grows or shrinks.
//!
//! Three output modes exist. In the 32-bit integer mode the samples go
//! from the ring buffer straight into the device buffer. In the 24-bit
//! integer mode they pass through the scratch buffer and lose their low
//! byte, with dither first if the source is deeper than 24 bits. The
//! floating-point mode shares the first half of that path; the conversion
//! to floating point is done by the caller.

use vstd::prelude::*;
use crate::audio::dither::{tpdf_lsb24, xorshift32, DitherState};
use crate::audio::format::{encoded_bytes, lemma_encoded_bytes_push, pack_sample, AudioFormat, OutputLayout};
use crate::audio::ring_buffer::{delivered_len, queue_after_write, RingBuffer};
use crate::decode::transcode::{interleaved, planar_wf, S16};
use crate::audio::stats::{PlaybackStats, StatsView};
use crate::audio::timing::{ns_to_ticks, ns_to_ticks_exact, saturate_u32, TimebaseInfo};

verus! {

/// Flag of a timestamp whose host time is valid.
pub const TIME_STAMP_HOST_TIME_VALID: u32 = 2;

/// Sample format of the device buffer.
#[derive(Debug, Clone, Copy, PartialEq, Eq, Structural)]
pub enum OutputFormatMode {
    /// 32-bit floating point: the path through a mixer.
    Float32,
    /// 32-bit integer: samples go out as they are.
    Int32,
    /// Packed 24-bit integer.
    Int24,
}

/// Scheduling policy of a realtime thread: all times in clock ticks.
#[derive(Debug, Clone, Copy, PartialEq, Eq, Structural)]
pub struct ThreadTimeConstraintPolicy {
    /// Time between two activations.
    pub period: u32,
    /// Time that one activation computes.
    pub computation: u32,
    /// Time within which the computation must end.
    pub constraint: u32,
    /// Whether the thread may be preempted: 1 or 0.
    pub preemptible: u32,
}

/// The length of a buffer of `buffer_frames` frames at `sample_rate`, in
/// nanoseconds.
pub open spec fn buffer_period_ns(buffer_frames: u32, sample_rate: u32) -> int {
    buffer_frames * 1_000_000_000 / (sample_rate as int)
}

/// The policy for a thread that must serve one buffer of `period_ns`
/// nanoseconds per period: the period is the length of the buffer, the
/// computation is half of it, the constraint is the period, and the thread
/// stays preemptible.
pub open spec fn policy_for_period(timebase: TimebaseInfo, period_ns: int) -> ThreadTimeConstraintPolicy {
    ThreadTimeConstraintPolicy {
        period: saturate_u32(ns_to_ticks_exact(timebase.numer, timebase.denom, period_ns)),
        computation: saturate_u32(ns_to_ticks_exact(timebase.numer, timebase.denom, period_ns / 2)),
        constraint: saturate_u32(ns_to_ticks_exact(timebase.numer, timebase.denom, period_ns)),
        preemptible: 1,
    }
}

/// The time-constraint policy of the render thread.
pub fn realtime_thread_policy(timebase: TimebaseInfo, buffer_frames: u32, sample_rate: u32) -> (policy:
    ThreadTimeConstraintPolicy)
    requires
        timebase.wf(),
        sample_rate > 0,
    ensures
        policy == policy_for_period(timebase, buffer_period_ns(buffer_frames, sample_rate)),
{
    let period_ns: u64 = (buffer_frames as u64) * 1_000_000_000 / (sample_rate as u64);
    let period: u32 = ns_to_ticks(timebase, period_ns);
    let computation: u32 = ns_to_ticks(timebase, period_ns / 2);
    ThreadTimeConstraintPolicy { period, computation, constraint: period, preemptible: 1 }
}

/// The host time of a timestamp, or 0 if its flags do not say that the
/// host time is valid.
#[inline]
pub fn valid_host_time(flags: u32, host_time: u64) -> (r: u64)
    ensures
        r == if flags & TIME_STAMP_HOST_TIME_VALID != 0 {
            host_time
        } else {
            0
        },
{
    if (flags & TIME_STAMP_HOST_TIME_VALID) != 0 {
        host_time
    } else {
        0
    }
}

/// Bytes per sample in a device buffer of the given mode.
pub open spec fn mode_width(mode: OutputFormatMode) -> int {
    match mode {
        OutputFormatMode::Int24 => 3,
        _ => 4,
    }
}

/// How many samples a device buffer of `data_byte_size` bytes asks for:
/// whole frames only.
pub fn samples_for_buffer(mode: OutputFormatMode, channels: u16, data_byte_size: u32) -> (samples: usize)
    requires
        channels > 0,
    ensures
        samples == (data_byte_size as int / (mode_width(mode) * channels)) * channels,
{
    let width: usize = match mode {
        OutputFormatMode::Int24 => 3,
        _ => 4,
    };
    let n: usize = channels as usize;
    let frames: usize = data_byte_size as usize / (width * n);
    assert(frames * n <= data_byte_size) by (nonlinear_arith)
        requires
            frames == data_byte_size as int / (width * n),
            width >= 1,
            n >= 1,
            data_byte_size >= 0,
    ;
    frames * n
}

/// The statistics after a callback that played `played` samples and came
/// up short or not.
pub open spec fn stats_after_render(stats: StatsView, played: int, short: bool) -> StatsView {
    StatsView {
        samples_played: stats.samples_played.wrapping_add(played as u64),
        underrun_count: if short {
            stats.underrun_count.wrapping_add(1)
        } else {
            stats.underrun_count
        },
        ..stats
    }
}

/// `n` samples of silence.
pub open spec fn silence(n: int) -> Seq<i32> {
    Seq::new(n as nat, |i: int| 0i32)
}

/// `n` bytes of silence.
pub open spec fn silent_bytes(n: int) -> Seq<u8> {
    Seq::new(n as nat, |i: int| 0u8)
}

/// The state of xorshift32 after `n` draws.
pub open spec fn xorshift32_iter(state: u32, n: nat) -> u32
    decreases n,
{
    if n == 0 {
        state
    } else {
        xorshift32(xorshift32_iter(state, (n - 1) as nat))
    }
}

/// The sum of two words, clipped to the range of a word.
pub open spec fn saturating_sum(a: i32, b: i32) -> i32 {
    if a + b > i32::MAX {
        i32::MAX
    } else if a + b < i32::MIN {
        i32::MIN
    } else {
        (a + b) as i32
    }
}

/// `samples` with dither for a reduction to 24 bits: sample `i` gets the
/// triangular noise made of draws `2i + 1` and `2i + 2` from `state`, and
/// the sum saturates.
pub open spec fn dithered(samples: Seq<i32>, state: u32) -> Seq<i32> {
    Seq::new(
        samples.len(),
        |i: int|
            saturating_sum(
                samples[i],
                tpdf_lsb24(
                    xorshift32_iter(state, (2 * i + 1) as nat),
                    xorshift32_iter(state, (2 * i + 2) as nat),
                ),
            ),
    )
}

/// What the callback owns while the output runs.
pub struct CallbackContext {
    /// The format that the device runs at.
    pub format: AudioFormat,
    /// The layout of the device buffer.
    pub output_layout: OutputLayout,
    /// Scratch space for one callback, sized for the largest one.
    pub sample_buffer: Vec<i32>,
    /// The noise source.
    pub dither: DitherState,
    /// The sample format of the device buffer.
    pub output_mode: OutputFormatMode,
    /// Bit depth of the source: dither is added only below it.
    pub source_bits: u16,
    /// Frames per device buffer, as negotiated.
    pub buffer_frames: u32,
    /// Whether the output runs. A callback that finds this cleared plays
    /// silence.
    pub running: bool,
    /// Whether the render thread has its scheduling policy.
    pub thread_policy_set: bool,
}

/// What a callback does on entry.
#[derive(Debug, Clone, Copy, PartialEq, Eq, Structural)]
pub enum CallbackEntry {
    /// The output was stopped: fill the buffer with silence and return.
    Silence,
    /// First callback of a running output: install the scheduling policy
    /// of the render thread, then render.
    InstallPolicyAndRender,
    /// Render.
    Render,
}

/// Fills `out` with zeros from index `from` on.
fn zero_samples_from(out: &mut [i32], from: usize)
    requires
        from <= old(out)@.len(),
    ensures
        final(out)@ == old(out)@.take(from as int) + silence(old(out)@.len() - from),
{
    let n: usize = out.len();
    let mut i: usize = from;
    while i < n
        invariant
            from <= i <= n,
            n == out@.len(),
            out@.len() == old(out)@.len(),
            forall|j: int| 0 <= j < from ==> #[trigger] out@[j] == old(out)@[j],
            forall|j: int| from <= j < i ==> #[trigger] out@[j] == 0,
        decreases n - i,
    {
        out[i] = 0;
        i += 1;
    }
    assert(out@ =~= old(out)@.take(from as int) + silence(old(out)@.len() - from));
}

/// Fills `out` with zeros from index `from` on.
fn zero_bytes_from(out: &mut [u8], from: usize)
    requires
        from <= old(out)@.len(),
    ensures
        final(out)@ == old(out)@.take(from as int) + silent_bytes(old(out)@.len() - from),
{
    let n: usize = out.len();
    let mut i: usize = from;
    while i < n
        invariant
            from <= i <= n,
            n == out@.len(),
            out@.len() == old(out)@.len(),
            forall|j: int| 0 <= j < from ==> #[trigger] out@[j] == old(out)@[j],
            forall|j: int| from <= j < i ==> #[trigger] out@[j] == 0,
        decreases n - i,
    {
        out[i] = 0;
        i += 1;
    }
    assert(out@ =~= old(out)@.take(from as int) + silent_bytes(old(out)@.len() - from));
}

/// Fills a device buffer with silence: what a stopped output plays.
pub fn fill_silence(out: &mut [u8])
    ensures
        final(out)@ == silent_bytes(old(out)@.len() as int),
{
    zero_bytes_from(out, 0);
    assert(out@ =~= silent_bytes(old(out)@.len() as int));
}

/// How many samples a callback asks of the ring buffer: what it needs, as
/// far as the buffer that takes them has room.
pub open spec fn wanted_samples(samples_needed: int, room: int) -> int {
    if samples_needed <= room {
        samples_needed
    } else {
        room
    }
}

/// The 32-bit integer mode: samples go from the ring buffer straight into
/// the device buffer `out`, with neither copy in between nor change to any
/// bit. Whatever is missing, and whatever lies beyond the samples needed,
/// is silence; a callback that gets fewer samples than it wanted counts one
/// underrun. Returns the number of samples played.
pub fn render_int32(
    ring_buffer: &mut RingBuffer<i32>,
    stats: &mut PlaybackStats,
    out: &mut [i32],
    samples_needed: usize,
) -> (played: usize)
    requires
        old(ring_buffer).wf(),
    ensures
        final(ring_buffer).wf(),
        final(ring_buffer).spec_capacity() == old(ring_buffer).spec_capacity(),
        played == delivered_len(
            old(ring_buffer)@.len() as int,
            wanted_samples(samples_needed as int, old(out)@.len() as int),
        ),
        final(out)@ == old(ring_buffer)@.take(played as int) + silence(old(out)@.len() - played),
        final(ring_buffer)@ == old(ring_buffer)@.skip(played as int),
        final(stats)@ == stats_after_render(
            old(stats)@,
            played as int,
            played < wanted_samples(samples_needed as int, old(out)@.len() as int),
        ),
{
    let room: usize = out.len();
    let count: usize = if samples_needed <= room { samples_needed } else { room };
    let samples_read: usize = ring_buffer.read_at_most(out, count);
    stats.add_samples_played(samples_read as u64);
    zero_samples_from(out, samples_read);
    if samples_read < count {
        stats.record_underrun();
    }
    assert(out@ =~= old(ring_buffer)@.take(samples_read as int) + silence(
        old(out)@.len() - samples_read,
    ));
    samples_read
}

impl CallbackContext {
    /// A context for an output that is about to start. The scratch buffer
    /// gets `scratch_len` samples of silence.
    pub fn new(
        format: AudioFormat,
        output_layout: OutputLayout,
        scratch_len: usize,
        dither_seed: u32,
        output_mode: OutputFormatMode,
        source_bits: u16,
        buffer_frames: u32,
    ) -> (ctx: Self)
        ensures
            ctx.format == format,
            ctx.output_layout == output_layout,
            ctx.sample_buffer@ == silence(scratch_len as int),
            ctx.dither.wf(),
            ctx.dither@ == DitherState::new_state(dither_seed),
            ctx.output_mode == output_mode,
            ctx.source_bits == source_bits,
            ctx.buffer_frames == buffer_frames,
            ctx.running,
            !ctx.thread_policy_set,
    {
        let sample_buffer: Vec<i32> = vec![0i32; scratch_len];
        assert(sample_buffer@ =~= silence(scratch_len as int));
        CallbackContext {
            format,
            output_layout,
            sample_buffer,
            dither: DitherState::new(dither_seed),
            output_mode,
            source_bits,
            buffer_frames,
            running: true,
            thread_policy_set: false,
        }
    }

    /// What this callback does on entry, and the note that the scheduling
    /// policy is taken care of: it is installed once, by the first callback
    /// of a running output.
    pub fn enter(&mut self) -> (entry: CallbackEntry)
        ensures
            entry == if !old(self).running {
                CallbackEntry::Silence
            } else if !old(self).thread_policy_set {
                CallbackEntry::InstallPolicyAndRender
            } else {
                CallbackEntry::Render
            },
            final(self).thread_policy_set == (old(self).thread_policy_set || old(self).running),
            final(self).running == old(self).running,
            final(self).format == old(self).format,
            final(self).output_layout == old(self).output_layout,
            final(self).sample_buffer == old(self).sample_buffer,
            final(self).dither == old(self).dither,
            final(self).output_mode == old(self).output_mode,
            final(self).source_bits == old(self).source_bits,
            final(self).buffer_frames == old(self).buffer_frames,
    {
        if !self.running {
            CallbackEntry::Silence
        } else if !self.thread_policy_set {
            self.thread_policy_set = true;
            CallbackEntry::InstallPolicyAndRender
        } else {
            CallbackEntry::Render
        }
    }

    /// The time-constraint policy of the render thread of this output.
    pub fn set_realtime_thread_policy(&self, timebase: TimebaseInfo) -> (policy:
        ThreadTimeConstraintPolicy)
        requires
            timebase.wf(),
            self.format.sample_rate > 0,
        ensures
            policy == policy_for_period(
                timebase,
                buffer_period_ns(self.buffer_frames, self.format.sample_rate),
            ),
    {
        realtime_thread_policy(timebase, self.buffer_frames, self.format.sample_rate)
    }

    /// Size of the scratch buffer in bytes: what a caller pins.
    pub fn scratch_bytes(&self) -> (r: Option<usize>)
        ensures
            r is Some <==> self.sample_buffer@.len() * 4 <= usize::MAX,
            r matches Some(n) ==> n == self.sample_buffer@.len() * 4,
    {
        self.sample_buffer.len().checked_mul(4)
    }

    /// First half of the modes that go through the scratch buffer: takes
    /// from the ring buffer what the callback needs, as far as the scratch
    /// buffer has room, fills what is missing with silence and counts an
    /// underrun if anything was. Returns the number of samples that the
    /// scratch buffer now holds for this callback.
    pub fn fill_scratch(
        &mut self,
        ring_buffer: &mut RingBuffer<i32>,
        stats: &mut PlaybackStats,
        samples_needed: usize,
    ) -> (actual: usize)
        requires
            old(ring_buffer).wf(),
        ensures
            final(ring_buffer).wf(),
            final(ring_buffer).spec_capacity() == old(ring_buffer).spec_capacity(),
            actual == wanted_samples(samples_needed as int, old(self).sample_buffer@.len() as int),
            ({
                let played = delivered_len(old(ring_buffer)@.len() as int, actual as int);
                &&& final(self).sample_buffer@ == old(ring_buffer)@.take(played) + silence(
                    actual - played,
                ) + old(self).sample_buffer@.skip(actual as int)
                &&& final(ring_buffer)@ == old(ring_buffer)@.skip(played)
                &&& final(stats)@ == stats_after_render(old(stats)@, played, played < actual)
            }),
            final(self).format == old(self).format,
            final(self).output_layout == old(self).output_layout,
            final(self).dither == old(self).dither,
            final(self).output_mode == old(self).output_mode,
            final(self).source_bits == old(self).source_bits,
            final(self).buffer_frames == old(self).buffer_frames,
            final(self).running == old(self).running,
            final(self).thread_policy_set == old(self).thread_policy_set,
    {
        let room: usize = self.sample_buffer.len();
        let actual: usize = if samples_needed <= room { samples_needed } else { room };
        let samples_read: usize = ring_buffer.read_at_most(self.sample_buffer.as_mut_slice(), actual);
        stats.add_samples_played(samples_read as u64);
        if samples_read < actual {
            stats.record_underrun();
            let mut i: usize = samples_read;
            while i < actual
                invariant
                    samples_read <= i <= actual,
                    actual <= room,
                    room == self.sample_buffer@.len(),
                    self.sample_buffer@.len() == old(self).sample_buffer@.len(),
                    forall|j: int|
                        0 <= j < samples_read ==> #[trigger] self.sample_buffer@[j] == old(
                            ring_buffer,
                        )@[j],
                    forall|j: int| samples_read <= j < i ==> #[trigger] self.sample_buffer@[j] == 0,
                    forall|j: int|
                        i <= j < room ==> #[trigger] self.sample_buffer@[j] == old(self).sample_buffer@[j],
                    self.format == old(self).format,
                    self.output_layout == old(self).output_layout,
                    self.dither == old(self).dither,
                    self.output_mode == old(self).output_mode,
                    self.source_bits == old(self).source_bits,
                    self.buffer_frames == old(self).buffer_frames,
                    self.running == old(self).running,
                    self.thread_policy_set == old(self).thread_policy_set,
                decreases actual - i,
            {
                self.sample_buffer[i] = 0;
                i += 1;
            }
        }
        assert(self.sample_buffer@ =~= old(ring_buffer)@.take(samples_read as int) + silence(
            actual - samples_read,
        ) + old(self).sample_buffer@.skip(actual as int));
        actual
    }

    /// The samples that the 24-bit mode sends for the first `count` samples
    /// of the scratch buffer: those samples, with dither if the source is
    /// deeper than 24 bits.
    pub open spec fn int24_samples(source_bits: u16, scratch: Seq<i32>, count: int, state: u32) -> Seq<
        i32,
    > {
        if source_bits <= 24 {
            scratch.take(count)
        } else {
            dithered(scratch.take(count), state)
        }
    }

    /// Second half of the 24-bit integer mode: packs the first `actual`
    /// samples of the scratch buffer into the device buffer `out`, three
    /// bytes each, as far as they fit whole; the rest of `out` is silence.
    /// The low byte of each sample is dropped. A source of 24 bits or less
    /// goes out untouched; a deeper one gets dither first.
    pub fn pack_int24(&mut self, actual: usize, out: &mut [u8]) -> (count: usize)
        requires
            actual <= old(self).sample_buffer@.len(),
        ensures
            count == wanted_samples(actual as int, old(out)@.len() as int / 3),
            final(out)@ == encoded_bytes(
                24,
                Self::int24_samples(
                    old(self).source_bits,
                    old(self).sample_buffer@,
                    count as int,
                    old(self).dither@,
                ),
            ) + silent_bytes(old(out)@.len() - 3 * count),
            final(self).dither@ == if old(self).source_bits <= 24 {
                old(self).dither@
            } else {
                xorshift32_iter(old(self).dither@, (2 * count) as nat)
            },
            old(self).dither.wf() ==> final(self).dither.wf(),
            final(self).sample_buffer == old(self).sample_buffer,
            final(self).format == old(self).format,
            final(self).output_layout == old(self).output_layout,
            final(self).output_mode == old(self).output_mode,
            final(self).source_bits == old(self).source_bits,
            final(self).buffer_frames == old(self).buffer_frames,
            final(self).running == old(self).running,
            final(self).thread_policy_set == old(self).thread_policy_set,
    {
        let room: usize = out.len() / 3;
        let count: usize = if actual <= room { actual } else { room };
        let with_dither: bool = self.source_bits > 24;
        let ghost state0 = self.dither@;
        let ghost scratch = self.sample_buffer@;
        let ghost sent = Self::int24_samples(self.source_bits, scratch, count as int, state0);
        let mut i: usize = 0;
        assert(encoded_bytes(24, sent.take(0)) =~= Seq::<u8>::empty());
        while i < count
            invariant
                i <= count,
                count <= actual,
                actual <= self.sample_buffer@.len(),
                3 * count <= out@.len(),
                out@.len() == old(out)@.len(),
                out@.len() <= usize::MAX,
                with_dither == (self.source_bits > 24),
                scratch == self.sample_buffer@,
                sent == Self::int24_samples(self.source_bits, scratch, count as int, state0),
                sent.len() == count,
                self.dither@ == if with_dither {
                    xorshift32_iter(state0, (2 * i) as nat)
                } else {
                    state0
                },
                state0 != 0 ==> self.dither.wf(),
                encoded_bytes(24, sent.take(i as int)).len() == 3 * i,
                out@ == encoded_bytes(24, sent.take(i as int)) + old(out)@.skip(3 * i),
                self.sample_buffer == old(self).sample_buffer,
                self.format == old(self).format,
                self.output_layout == old(self).output_layout,
                self.output_mode == old(self).output_mode,
                self.source_bits == old(self).source_bits,
                self.buffer_frames == old(self).buffer_frames,
                self.running == old(self).running,
                self.thread_policy_set == old(self).thread_policy_set,
            decreases count - i,
        {
            let sample: i32 = self.sample_buffer[i];
            let to_send: i32 = if with_dither {
                assert(xorshift32_iter(state0, (2 * i + 1) as nat) == xorshift32(
                    xorshift32_iter(state0, (2 * i) as nat),
                ));
                assert(xorshift32_iter(state0, (2 * i + 2) as nat) == xorshift32(
                    xorshift32_iter(state0, (2 * i + 1) as nat),
                ));
                let noise: i32 = self.dither.next_tpdf_lsb24();
                let wide: i64 = sample as i64 + noise as i64;
                if wide > i32::MAX as i64 {
                    i32::MAX
                } else if wide < i32::MIN as i64 {
                    i32::MIN
                } else {
                    wide as i32
                }
            } else {
                sample
            };
            proof {
                assert(to_send == sent[i as int]);
                lemma_encoded_bytes_push(24, sent.take(i as int), to_send);
                assert(sent.take(i as int).push(to_send) =~= sent.take(i + 1));
            }
            pack_sample(24, to_send, out, 3 * i);
            i += 1;
            assert(out@ =~= encoded_bytes(24, sent.take(i as int)) + old(out)@.skip(3 * i));
        }
        assert(sent.take(count as int) =~= sent);
        zero_bytes_from(out, 3 * count);
        assert(out@ =~= encoded_bytes(24, sent) + silent_bytes(old(out)@.len() - 3 * count));
        count
    }

    /// The 24-bit integer mode, both halves: see
    /// [`fill_scratch`](Self::fill_scratch) and
    /// [`pack_int24`](Self::pack_int24).
    pub fn render_int24(
        &mut self,
        ring_buffer: &mut RingBuffer<i32>,
        stats: &mut PlaybackStats,
        out: &mut [u8],
        samples_needed: usize,
    ) -> (count: usize)
        requires
            old(ring_buffer).wf(),
        ensures
            final(ring_buffer).wf(),
            final(ring_buffer).spec_capacity() == old(ring_buffer).spec_capacity(),
            ({
                let actual = wanted_samples(
                    samples_needed as int,
                    old(self).sample_buffer@.len() as int,
                );
                let played = delivered_len(old(ring_buffer)@.len() as int, actual);
                let scratch = old(ring_buffer)@.take(played) + silence(actual - played) + old(self).sample_buffer@.skip(actual);
                &&& count == wanted_samples(actual, old(out)@.len() as int / 3)
                &&& final(self).sample_buffer@ == scratch
                &&& final(out)@ == encoded_bytes(
                    24,
                    Self::int24_samples(old(self).source_bits, scratch, count as int, old(self).dither@),
                ) + silent_bytes(old(out)@.len() - 3 * count)
                &&& final(ring_buffer)@ == old(ring_buffer)@.skip(played)
                &&& final(stats)@ == stats_after_render(old(stats)@, played, played < actual)
            }),
            old(self).dither.wf() ==> final(self).dither.wf(),
            final(self).source_bits == old(self).source_bits,
            final(self).output_mode == old(self).output_mode,
            final(self).running == old(self).running,
    {
        let actual: usize = self.fill_scratch(ring_buffer, stats, samples_needed);
        self.pack_int24(actual, out)
    }
}

/// A 16-bit source reaches the device bit for bit on the 32-bit integer
/// path: when a packet of 16-bit samples is transcoded, written to an empty
/// ring buffer that has room for it, and played by a callback that needs
/// that many samples, the device buffer holds, for every frame and
/// channel, the source sample times 2^16, and nothing else: no noise, no
/// rounding, no silence.
pub proof fn lemma_int16_path_is_bit_perfect(channels: Seq<&[i16]>, frames: int, capacity: int)
    requires
        frames >= 0,
        channels.len() > 0,
        planar_wf(channels, frames),
        frames * channels.len() <= capacity,
    ensures
        ({
            let samples = interleaved::<i16, S16>(channels, frames);
            let queue = queue_after_write(Seq::<i32>::empty(), capacity, samples);
            let played = delivered_len(
                queue.len() as int,
                wanted_samples(samples.len() as int, samples.len() as int),
            );
            let device = queue.take(played) + silence(samples.len() - played);
            &&& device.len() == frames * channels.len()
            &&& played == device.len()
            &&& forall|f: int, c: int|
                0 <= f < frames && 0 <= c < channels.len() ==> #[trigger] device[f
                    * channels.len() + c] == channels[c]@[f] * 0x1_0000
        }),
{
    let n = channels.len() as int;
    let samples = interleaved::<i16, S16>(channels, frames);
    let queue = queue_after_write(Seq::<i32>::empty(), capacity, samples);
    assert(frames * n >= 0) by (nonlinear_arith)
        requires
            frames >= 0,
            n > 0,
    ;
    assert(queue =~= samples);
    let device = queue.take(samples.len() as int) + silence(0);
    assert(device =~= samples);
    assert forall|f: int, c: int| 0 <= f < frames && 0 <= c < n implies #[trigger] device[f * n
        + c] == channels[c]@[f] * 0x1_0000 by {
        let k = f * n + c;
        assert(0 <= k < frames * n && k / n == f && k % n == c) by (nonlinear_arith)
            requires
                k == f * n + c,
                0 <= c < n,
                0 <= f < frames,
        ;
    }
}

} // verus!
