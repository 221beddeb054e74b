//! The playback engine: lifecycle, prebuffering and the pacing of the
//! decoder worker.
//!
//! The engine ties a decoder, the ring buffer and an output together. A
//! worker decodes into the ring buffer; the render callback plays out of
//! it. The two meet nowhere else.
//!
//! ```text
//! Stopped --play--> Buffering --(filled)--> Playing <--> Paused
//!    ^                                                     |
//!    +------------------------stop------------------------+
//! ```
//!
//! Opening files, starting devices and running threads is the caller's
//! work; the engine tells what state the player is in and what the worker
//! is to do next.

use vstd::prelude::*;
use vstd::std_specs::convert::FromSpecImpl;
use crate::audio::format::{AudioFormat, OutputLayout};
use crate::audio::output::{AudioOutput, OutputConfig, OutputError, OutputState, OutputView};
use crate::audio::render::{policy_for_period, ThreadTimeConstraintPolicy};
use crate::audio::ring_buffer::{accepted_len, is_power_of_two, queue_after_write, RingBuffer};
use crate::audio::stats::{PlaybackStats, StatsView};
use crate::audio::timing::{ns_to_ticks, TimebaseInfo};
use crate::decode::decoder::{AudioInfo, DecodeError};

verus! {

/// Samples per channel that the worker asks of the decoder at most.
pub const READ_CHUNK_FRAMES: usize = 4096;

/// Free samples per channel below which the worker waits.
pub const MIN_FREE_FRAMES: usize = 1024;

/// The shortest period of the worker's scheduling policy, in nanoseconds.
pub const MIN_WORKER_PERIOD_NS: u64 = 1_000_000;

/// The rate assumed for the position while no file is open.
pub const IDLE_SAMPLE_RATE: u32 = 48000;

/// The channel count assumed for the position while no file is open.
pub const IDLE_CHANNELS: u32 = 2;

/// What the player is doing.
#[derive(Debug, Clone, Copy, PartialEq, Eq, Structural)]
pub enum PlaybackState {
    Stopped,
    Playing,
    Paused,
    /// Playback was asked for and the ring buffer is filling.
    Buffering,
}

/// A fraction between 0 and 1.
#[derive(Debug, Clone, Copy, PartialEq, Eq, Structural)]
pub struct Ratio {
    pub numer: u32,
    pub denom: u32,
}

impl Ratio {
    /// A ratio has a denominator and does not exceed 1.
    pub open spec fn wf(&self) -> bool {
        self.denom > 0 && self.numer <= self.denom
    }

    /// The ratio `numer / denom`, if that is a fraction between 0 and 1.
    pub fn new(numer: u32, denom: u32) -> (r: Option<Ratio>)
        ensures
            r is Some <==> denom > 0 && numer <= denom,
            r matches Some(ratio) ==> ratio.numer == numer && ratio.denom == denom,
    {
        if denom > 0 && numer <= denom {
            Some(Ratio { numer, denom })
        } else {
            None
        }
    }

    /// This fraction of `whole`, rounded down.
    pub open spec fn spec_of(self, whole: usize) -> usize {
        (whole * self.numer / (self.denom as int)) as usize
    }

    /// This fraction of `whole`, rounded down.
    pub fn of(&self, whole: usize) -> (part: usize)
        requires
            self.wf(),
        ensures
            part == self.spec_of(whole),
            part <= whole,
    {
        assert(0 <= whole * self.numer <= 0xffff_ffff_ffff_ffff * 0xffff_ffff) by (nonlinear_arith)
            requires
                0 <= whole <= 0xffff_ffff_ffff_ffff,
                0 <= self.numer <= 0xffff_ffff,
        ;
        let wide: u128 = (whole as u128) * (self.numer as u128);
        let q: u128 = wide / (self.denom as u128);
        assert(q <= whole) by (nonlinear_arith)
            requires
                q == (whole * self.numer) / (self.denom as int),
                self.numer <= self.denom,
                self.denom > 0,
                whole >= 0,
        ;
        q as usize
    }
}

/// What a caller asks of an engine.
#[derive(Clone, Copy, Debug)]
pub struct EngineConfig {
    /// What to ask of the output.
    pub output: OutputConfig,
    /// Size of the ring buffer in samples; rounded up to a power of two.
    pub buffer_frames: usize,
    /// How full the ring buffer must be before playback counts as begun.
    pub prebuffer_ratio: Ratio,
}

impl Default for EngineConfig {
    /// Two seconds of stereo at 48 kHz, half of it prebuffered.
    fn default() -> (r: Self)
        ensures
            r.buffer_frames == 48000 * 2 * 2,
            r.prebuffer_ratio == (Ratio { numer: 1, denom: 2 }),
            r.output == (OutputConfig {
                sample_rate: 48000,
                buffer_frames: 512,
                exclusive_mode: true,
                integer_mode: true,
                use_hal: true,
                device_id: None,
            }),
    {
        EngineConfig {
            output: OutputConfig::default(),
            buffer_frames: 48000 * 2 * 2,
            prebuffer_ratio: Ratio { numer: 1, denom: 2 },
        }
    }
}

/// Why the engine failed.
#[derive(Debug)]
pub enum EngineError {
    DecodeError(DecodeError),
    OutputError(OutputError),
    /// The call makes no sense in the state that the player is in.
    InvalidState(&'static str),
}

impl From<DecodeError> for EngineError {
    fn from(e: DecodeError) -> (r: Self) {
        EngineError::DecodeError(e)
    }
}

impl FromSpecImpl<DecodeError> for EngineError {
    open spec fn obeys_from_spec() -> bool {
        true
    }

    open spec fn from_spec(e: DecodeError) -> Self {
        EngineError::DecodeError(e)
    }
}

impl From<OutputError> for EngineError {
    fn from(e: OutputError) -> (r: Self) {
        EngineError::OutputError(e)
    }
}

impl FromSpecImpl<OutputError> for EngineError {
    open spec fn obeys_from_spec() -> bool {
        true
    }

    open spec fn from_spec(e: OutputError) -> Self {
        EngineError::OutputError(e)
    }
}

/// A snapshot of the engine, in whole numbers.
#[derive(Debug, Clone, Copy, PartialEq, Eq, Structural)]
pub struct EngineStats {
    /// Samples in the ring buffer.
    pub buffered_samples: usize,
    /// Capacity of the ring buffer: the fill ratio is the quotient of the
    /// two.
    pub buffer_capacity: usize,
    /// Callbacks that came up short.
    pub underrun_count: u64,
    /// Samples handed to the device.
    pub samples_played: u64,
    /// Frames handed to the device: the position in the file. It is derived
    /// from the samples played, not from a device clock.
    pub frames_played: u64,
    /// Frames per second of the file: the position in seconds is the
    /// quotient of the two.
    pub sample_rate: u32,
}

/// What the control side and the decoder worker tell each other.
#[derive(Debug, Clone, Copy, PartialEq, Eq, Structural)]
pub struct DecoderState {
    /// Whether the worker is to go on.
    pub running: bool,
    /// Whether the worker is to rest.
    pub paused: bool,
    /// Whether the worker has reached the end of the file.
    pub eof_reached: bool,
    /// Samples that the worker has written to the ring buffer.
    pub samples_decoded: u64,
}

/// What the decoder worker is to do next.
#[derive(Debug, Clone, Copy, PartialEq, Eq, Structural)]
pub enum WorkerAction {
    /// Leave the loop.
    Exit,
    /// Park the thread until the control side unparks it.
    Park,
    /// Spin this many times, then look again.
    Spin(u32),
    /// Yield, spin this many times, then look again.
    YieldThenSpin(u32),
    /// Sleep this many microseconds, then look again.
    Sleep(u64),
    /// Ask the decoder for up to this many samples and deliver them.
    Read(usize),
}

/// The numbers that pace the worker of one track.
#[derive(Debug, Clone, Copy, PartialEq, Eq, Structural)]
pub struct WorkerPacing {
    /// Samples asked of the decoder at most: 4096 frames.
    pub read_chunk_size: usize,
    /// Free samples below which the worker waits: 1024 frames.
    pub min_free_threshold: usize,
    /// Nanoseconds that the device takes to play one sample.
    pub ns_per_sample: u64,
}

/// How long the worker waits for `samples_needed` samples of room, in
/// microseconds.
pub open spec fn wait_micros(samples_needed: int, ns_per_sample: u64) -> int {
    samples_needed * ns_per_sample / 1000
}

/// How the worker waits for room: it spins through waits under 50
/// microseconds, yields once for waits under 500, and else sleeps 70
/// percent of the wait, but no less than 100 microseconds and no more than
/// 10 milliseconds.
pub open spec fn wait_action(wait_us: int) -> WorkerAction {
    if wait_us < 50 {
        WorkerAction::Spin(64)
    } else if wait_us < 500 {
        WorkerAction::YieldThenSpin(32)
    } else if wait_us * 7 / 10 > 10_000 {
        WorkerAction::Sleep(10_000)
    } else {
        WorkerAction::Sleep((wait_us * 7 / 10) as u64)
    }
}

/// What the worker does next, given the flags and the room in the ring
/// buffer: it leaves when told to, rests while paused, waits while the
/// ring buffer is nearly full, and else reads as much as there is room
/// for, up to one chunk.
pub open spec fn spec_worker_step(state: DecoderState, free_space: usize, pacing: WorkerPacing) -> WorkerAction {
    if !state.running {
        WorkerAction::Exit
    } else if state.paused {
        WorkerAction::Park
    } else if free_space < pacing.min_free_threshold {
        wait_action(wait_micros(pacing.min_free_threshold - free_space, pacing.ns_per_sample))
    } else if free_space <= pacing.read_chunk_size {
        WorkerAction::Read(free_space)
    } else {
        WorkerAction::Read(pacing.read_chunk_size)
    }
}

impl WorkerPacing {
    /// The pacing for a track of `channels` channels at `sample_rate`.
    /// There is none for a track without channels or without a rate, nor
    /// where 4096 frames exceed a machine word.
    pub fn new(channels: usize, sample_rate: u32) -> (r: Option<WorkerPacing>)
        ensures
            r is Some <==> channels > 0 && sample_rate > 0 && READ_CHUNK_FRAMES * channels
                <= usize::MAX,
            r matches Some(p) ==> {
                &&& p.read_chunk_size == READ_CHUNK_FRAMES * channels
                &&& p.min_free_threshold == MIN_FREE_FRAMES * channels
                &&& p.ns_per_sample == 1_000_000_000int / (sample_rate * channels)
            },
    {
        if channels == 0 || sample_rate == 0 {
            return None;
        }
        match READ_CHUNK_FRAMES.checked_mul(channels) {
            None => None,
            Some(chunk) => {
                assert(0 < sample_rate * channels <= 0xffff_ffff * 0xffff_ffff_ffff_ffff)
                    by (nonlinear_arith)
                    requires
                        0 < sample_rate <= 0xffff_ffff,
                        0 < channels <= 0xffff_ffff_ffff_ffff,
                ;
                let wide: u128 = (sample_rate as u128) * (channels as u128);
                let ns: u128 = 1_000_000_000u128 / wide;
                Some(
                    WorkerPacing {
                        read_chunk_size: chunk,
                        min_free_threshold: MIN_FREE_FRAMES * channels,
                        ns_per_sample: ns as u64,
                    },
                )
            },
        }
    }
}

/// What the worker does next: see [`spec_worker_step`].
pub fn worker_step(state: &DecoderState, free_space: usize, pacing: &WorkerPacing) -> (action:
    WorkerAction)
    ensures
        action == spec_worker_step(*state, free_space, *pacing),
{
    if !state.running {
        WorkerAction::Exit
    } else if state.paused {
        WorkerAction::Park
    } else if free_space < pacing.min_free_threshold {
        let samples_needed: u128 = (pacing.min_free_threshold - free_space) as u128;
        assert(samples_needed * pacing.ns_per_sample <= 0xffff_ffff_ffff_ffff
            * 0xffff_ffff_ffff_ffff) by (nonlinear_arith)
            requires
                0 <= samples_needed <= 0xffff_ffff_ffff_ffff,
                0 <= pacing.ns_per_sample <= 0xffff_ffff_ffff_ffff,
        ;
        let wait_us: u128 = samples_needed * (pacing.ns_per_sample as u128) / 1000;
        if wait_us < 50 {
            WorkerAction::Spin(64)
        } else if wait_us < 500 {
            WorkerAction::YieldThenSpin(32)
        } else {
            let sleep_us: u128 = wait_us * 7 / 10;
            if sleep_us > 10_000 {
                WorkerAction::Sleep(10_000)
            } else {
                WorkerAction::Sleep(sleep_us as u64)
            }
        }
    } else if free_space <= pacing.read_chunk_size {
        WorkerAction::Read(free_space)
    } else {
        WorkerAction::Read(pacing.read_chunk_size)
    }
}

/// The worker never sleeps less than 100 microseconds nor more than 10
/// milliseconds, and never spins through a wait of 50 microseconds or
/// more.
pub proof fn lemma_sleep_is_bounded(wait_us: int)
    requires
        wait_us >= 0,
    ensures
        wait_action(wait_us) matches WorkerAction::Sleep(us) ==> 100 <= us <= 10_000,
        wait_action(wait_us) is Spin <==> wait_us < 50,
        wait_action(wait_us) is Sleep <==> wait_us >= 500,
{
}

/// A paused worker parks and a stopped worker leaves, whatever room there
/// is: the worker never busy-waits on a pause, and decodes nothing during
/// one.
pub proof fn lemma_paused_worker_parks(state: DecoderState, free_space: usize, pacing: WorkerPacing)
    ensures
        state.running && state.paused ==> spec_worker_step(state, free_space, pacing)
            == WorkerAction::Park,
        !state.running ==> spec_worker_step(state, free_space, pacing) == WorkerAction::Exit,
        spec_worker_step(state, free_space, pacing) matches WorkerAction::Read(n) ==> n
            <= free_space && n <= pacing.read_chunk_size && state.running && !state.paused,
{
}

/// The scheduling policy of the decoder worker: that of a thread that
/// serves one device buffer per period, with a period of one millisecond
/// at least.
pub fn worker_thread_policy(timebase: TimebaseInfo, buffer_frames: u32, sample_rate: u32) -> (policy:
    ThreadTimeConstraintPolicy)
    requires
        timebase.wf(),
        sample_rate > 0,
    ensures
        policy == policy_for_period(
            timebase,
            if buffer_frames * 1_000_000_000 / (sample_rate as int) >= MIN_WORKER_PERIOD_NS {
                buffer_frames * 1_000_000_000 / (sample_rate as int)
            } else {
                MIN_WORKER_PERIOD_NS as int
            },
        ),
{
    let callback_period_ns: u64 = (buffer_frames as u64) * 1_000_000_000 / (sample_rate as u64);
    let period_ns: u64 = if callback_period_ns >= MIN_WORKER_PERIOD_NS {
        callback_period_ns
    } else {
        MIN_WORKER_PERIOD_NS
    };
    let period: u32 = ns_to_ticks(timebase, period_ns);
    let computation: u32 = ns_to_ticks(timebase, period_ns / 2);
    ThreadTimeConstraintPolicy { period, computation, constraint: period, preemptible: 1 }
}

/// The playback engine.
pub struct Engine {
    config: EngineConfig,
    state: PlaybackState,
    ring_buffer: RingBuffer<i32>,
    stats: PlaybackStats,
    output: Option<AudioOutput>,
    decoder_state: DecoderState,
    current_info: Option<AudioInfo>,
    current_format: Option<AudioFormat>,
}

/// What is known of an engine, for specifications.
pub struct EngineView {
    pub config: EngineConfig,
    /// The state as the engine last set it: `Buffering` stays until a
    /// pause or a stop, even once the ring buffer has filled.
    pub state: PlaybackState,
    /// The samples in the ring buffer.
    pub queue: Seq<i32>,
    /// The capacity of the ring buffer.
    pub capacity: usize,
    pub stats: StatsView,
    pub output: Option<OutputView>,
    pub decoder_state: DecoderState,
    pub current_info: Option<AudioInfo>,
    pub current_format: Option<AudioFormat>,
}

impl EngineView {
    /// Whether the ring buffer is filled to the prebuffer ratio.
    pub open spec fn prebuffered(self) -> bool {
        self.queue.len() * self.config.prebuffer_ratio.denom >= self.config.prebuffer_ratio.numer
            * self.capacity
    }

    /// The state that the player is in: while buffering, playback counts
    /// as begun as soon as the ring buffer is filled to the prebuffer
    /// ratio, without any call from the control side.
    pub open spec fn playback_state(self) -> PlaybackState {
        if self.state == PlaybackState::Buffering && self.prebuffered() {
            PlaybackState::Playing
        } else {
            self.state
        }
    }

    /// Whether the track is over: the decoder has reached the end of the
    /// file and the callback has drained the ring buffer.
    pub open spec fn track_finished(self) -> bool {
        self.decoder_state.eof_reached && self.queue.len() == 0
    }

    /// The source rate, or 0 while no file is open.
    pub open spec fn source_rate(self) -> u32 {
        match self.current_info {
            Some(info) => info.sample_rate,
            None => 0,
        }
    }
}

/// The format to play a file at: its rate, its channels (cut to 16 bits of
/// count), and its depth, or 24 bits if it tells none.
pub open spec fn spec_source_format(info: AudioInfo) -> AudioFormat {
    AudioFormat {
        sample_rate: info.sample_rate,
        channels: (info.channels % 0x1_0000) as u16,
        bits_per_sample: match info.bit_depth {
            Some(d) => (d % 0x1_0000) as u16,
            None => 24u16,
        },
        layout: OutputLayout::Interleaved,
    }
}

impl View for Engine {
    type V = EngineView;

    closed spec fn view(&self) -> EngineView {
        EngineView {
            config: self.config,
            state: self.state,
            queue: self.ring_buffer@,
            capacity: self.ring_buffer.spec_capacity(),
            stats: self.stats@,
            output: match self.output {
                Some(o) => Some(o@),
                None => None,
            },
            decoder_state: self.decoder_state,
            current_info: self.current_info,
            current_format: self.current_format,
        }
    }
}

impl Engine {
    /// The invariant of the engine.
    pub closed spec fn wf(&self) -> bool {
        &&& self.ring_buffer.wf()
        &&& self.stats.wf()
        &&& self.config.prebuffer_ratio.wf()
    }

    /// What the invariant means for the view.
    pub proof fn lemma_wf(&self)
        requires
            self.wf(),
        ensures
            self@.queue.len() <= self@.capacity,
            is_power_of_two(self@.capacity as u64),
            self@.config.prebuffer_ratio.wf(),
    {
        self.ring_buffer.lemma_wf();
    }

    /// A stopped engine with an empty ring buffer of `config.buffer_frames`
    /// samples, rounded up to a power of two.
    pub fn new(config: EngineConfig) -> (r: Self)
        requires
            config.buffer_frames <= usize::MAX / 2 + 1,
            config.prebuffer_ratio.wf(),
        ensures
            r.wf(),
            r@.config == config,
            r@.state == PlaybackState::Stopped,
            r@.queue == Seq::<i32>::empty(),
            r@.capacity >= config.buffer_frames,
            r@.capacity == 1 || r@.capacity / 2 < config.buffer_frames,
            r@.stats == StatsView::initial(),
            r@.output is None,
            r@.decoder_state == (DecoderState {
                running: false,
                paused: false,
                eof_reached: false,
                samples_decoded: 0,
            }),
            r@.current_info is None,
            r@.current_format is None,
    {
        Engine {
            config,
            state: PlaybackState::Stopped,
            ring_buffer: RingBuffer::with_min_capacity(config.buffer_frames),
            stats: PlaybackStats::new(),
            output: None,
            decoder_state: DecoderState {
                running: false,
                paused: false,
                eof_reached: false,
                samples_decoded: 0,
            },
            current_info: None,
            current_format: None,
        }
    }

    /// Whether a play has to stop the current track first: whenever the
    /// engine is not stopped.
    pub fn needs_stop_before_play(&self) -> (r: bool)
        ensures
            r == (self@.state != PlaybackState::Stopped),
    {
        match self.state {
            PlaybackState::Stopped => false,
            _ => true,
        }
    }

    /// What to ask of the output for a file: what the engine was
    /// configured with, at the rate of the file.
    pub fn output_config_for(&self, info: &AudioInfo) -> (r: OutputConfig)
        ensures
            r == (OutputConfig { sample_rate: info.sample_rate, ..self@.config.output }),
    {
        OutputConfig { sample_rate: info.sample_rate, ..self.config.output }
    }

    /// The format to play a file at: see [`spec_source_format`].
    pub fn source_format(info: &AudioInfo) -> (r: AudioFormat)
        ensures
            r == spec_source_format(*info),
    {
        let bits: u16 = match info.bit_depth {
            Some(d) => (d % 0x1_0000) as u16,
            None => 24,
        };
        AudioFormat::new(info.sample_rate, (info.channels % 0x1_0000) as u16, bits)
    }

    /// Gets the ring buffer and the statistics ready for a new track:
    /// both are emptied. To be called before the output starts.
    pub fn prepare_playback(&mut self)
        requires
            old(self).wf(),
        ensures
            final(self).wf(),
            final(self)@ == (EngineView {
                queue: Seq::<i32>::empty(),
                stats: StatsView::initial(),
                ..old(self)@
            }),
    {
        self.ring_buffer.clear();
        self.stats.reset();
    }

    /// Takes over a file that was opened and an output that was started
    /// for it: the worker may run, and the player is buffering. Only a
    /// stopped engine takes a track; another one is left as it is.
    pub fn begin_playback(&mut self, info: AudioInfo, output: AudioOutput) -> (r: Result<
        (),
        EngineError,
    >)
        requires
            old(self).wf(),
        ensures
            final(self).wf(),
            r is Ok <==> old(self)@.state == PlaybackState::Stopped,
            r is Ok ==> final(self)@ == (EngineView {
                state: PlaybackState::Buffering,
                output: Some(output@),
                decoder_state: DecoderState {
                    running: true,
                    paused: false,
                    eof_reached: false,
                    samples_decoded: 0,
                },
                current_info: Some(info),
                current_format: Some(spec_source_format(info)),
                ..old(self)@
            }),
            r is Err ==> final(self)@ == old(self)@ && (r matches Err(e) && e is InvalidState),
    {
        match self.state {
            PlaybackState::Stopped => {},
            _ => {
                return Err(EngineError::InvalidState("Cannot play before the track is stopped"));
            },
        }
        let format: AudioFormat = Self::source_format(&info);
        self.decoder_state = DecoderState {
            running: true,
            paused: false,
            eof_reached: false,
            samples_decoded: 0,
        };
        self.output = Some(output);
        self.current_info = Some(info);
        self.current_format = Some(format);
        self.state = PlaybackState::Buffering;
        Ok(())
    }

    /// Tells the worker to leave, and not to rest on the way: the first
    /// half of a stop, for a caller that waits for the worker before it
    /// goes on.
    pub fn signal_stop(&mut self)
        ensures
            final(self)@ == (EngineView {
                decoder_state: DecoderState {
                    running: false,
                    paused: false,
                    ..old(self)@.decoder_state
                },
                ..old(self)@
            }),
            old(self).wf() ==> final(self).wf(),
    {
        self.decoder_state.running = false;
        self.decoder_state.paused = false;
    }

    /// Stops playback, from any state: the worker is told to leave, the
    /// ring buffer is emptied and the track forgotten. What is handed back
    /// is the output, for the caller to stop once the worker has left.
    pub fn stop(&mut self) -> (output: Option<AudioOutput>)
        requires
            old(self).wf(),
        ensures
            final(self).wf(),
            final(self)@ == (EngineView {
                state: PlaybackState::Stopped,
                queue: Seq::<i32>::empty(),
                output: None,
                decoder_state: DecoderState {
                    running: false,
                    paused: false,
                    ..old(self)@.decoder_state
                },
                current_info: None,
                current_format: None,
                ..old(self)@
            }),
            match output {
                Some(o) => old(self)@.output == Some(o@),
                None => old(self)@.output is None,
            },
    {
        self.decoder_state.running = false;
        self.decoder_state.paused = false;
        let output: Option<AudioOutput> = self.output.take();
        self.ring_buffer.clear();
        self.state = PlaybackState::Stopped;
        self.current_info = None;
        self.current_format = None;
        output
    }

    /// Which call to the device a toggle of the pause needs first.
    pub fn toggle_needs(&self) -> (call: DeviceCall)
        requires
            self.wf(),
        ensures
            call == spec_toggle_needs(self@),
    {
        match self.state() {
            PlaybackState::Playing => match &self.output {
                Some(o) => if o.wants_pause() {
                    DeviceCall::Halt
                } else {
                    DeviceCall::Nothing
                },
                None => DeviceCall::Nothing,
            },
            PlaybackState::Stopped => DeviceCall::Nothing,
            _ => match &self.output {
                Some(o) => if o.wants_resume() {
                    DeviceCall::Restart
                } else {
                    DeviceCall::Nothing
                },
                None => DeviceCall::Nothing,
            },
        }
    }

    /// Pauses a player that plays, and resumes one that is paused or still
    /// buffering. `device_status` is the status of the call that
    /// [`toggle_needs`](Self::toggle_needs) asked for, or 0 if it asked for
    /// none. A stopped player cannot be paused.
    ///
    /// On a pause the worker is told to rest before the device is halted,
    /// and stays so if the halt fails; on a resume the worker is woken
    /// only once the device has restarted.
    pub fn toggle_pause(&mut self, device_status: i32) -> (r: Result<(), EngineError>)
        requires
            old(self).wf(),
        ensures
            final(self).wf(),
            final(self)@.queue == old(self)@.queue,
            final(self)@.capacity == old(self)@.capacity,
            final(self)@.config == old(self)@.config,
            final(self)@.stats == old(self)@.stats,
            final(self)@.current_info == old(self)@.current_info,
            final(self)@.current_format == old(self)@.current_format,
            final(self)@.output == spec_output_after_toggle(old(self)@, device_status),
            old(self)@.playback_state() == PlaybackState::Stopped ==> (r matches Err(e) && e
                is InvalidState) && final(self)@ == old(self)@,
            old(self)@.playback_state() != PlaybackState::Stopped ==> (r is Ok <==> device_status
                == 0 || spec_toggle_needs(old(self)@) == DeviceCall::Nothing),
            old(self)@.playback_state() == PlaybackState::Playing ==> final(self)@.decoder_state == (DecoderState { paused: true, ..old(self)@.decoder_state }),
            old(self)@.playback_state() == PlaybackState::Playing && r is Ok ==> final(self)@.state
                == PlaybackState::Paused,
            old(self)@.playback_state() == PlaybackState::Playing && r is Err ==> final(self)@.state == PlaybackState::Playing,
            (old(self)@.playback_state() == PlaybackState::Paused || old(self)@.playback_state()
                == PlaybackState::Buffering) && r is Ok ==> final(self)@.state
                == PlaybackState::Playing && final(self)@.decoder_state == (DecoderState {
                paused: false,
                ..old(self)@.decoder_state
            }),
            (old(self)@.playback_state() == PlaybackState::Paused || old(self)@.playback_state()
                == PlaybackState::Buffering) && r is Err ==> final(self)@.state == old(self)@.state && final(self)@.decoder_state == old(self)@.decoder_state,
    {
        let current: PlaybackState = self.state();
        match current {
            PlaybackState::Playing => {
                self.state = PlaybackState::Playing;
                self.decoder_state.paused = true;
                match &mut self.output {
                    Some(o) => {
                        match o.pause(device_status) {
                            Ok(()) => {},
                            Err(e) => {
                                return Err(EngineError::OutputError(e));
                            },
                        }
                    },
                    None => {},
                }
                self.state = PlaybackState::Paused;
                Ok(())
            },
            PlaybackState::Stopped => Err(EngineError::InvalidState("Cannot pause when stopped")),
            _ => {
                match &mut self.output {
                    Some(o) => {
                        match o.resume(device_status) {
                            Ok(()) => {},
                            Err(e) => {
                                return Err(EngineError::OutputError(e));
                            },
                        }
                    },
                    None => {},
                }
                self.decoder_state.paused = false;
                self.state = PlaybackState::Playing;
                Ok(())
            },
        }
    }

    /// The state that the player is in: see
    /// [`EngineView::playback_state`].
    pub fn state(&self) -> (r: PlaybackState)
        requires
            self.wf(),
        ensures
            r == self@.playback_state(),
    {
        match self.state {
            PlaybackState::Buffering => {
                if self.ring_buffer.is_filled_to(
                    self.config.prebuffer_ratio.numer,
                    self.config.prebuffer_ratio.denom,
                ) {
                    PlaybackState::Playing
                } else {
                    PlaybackState::Buffering
                }
            },
            s => s,
        }
    }

    /// A snapshot of the counters, the fill of the ring buffer and the
    /// position. The position is the samples played divided by the
    /// channels of the file (stereo at 48 kHz while no file is open).
    pub fn stats(&self) -> (r: EngineStats)
        requires
            self.wf(),
        ensures
            r.buffered_samples == self@.queue.len(),
            r.buffer_capacity == self@.capacity,
            r.underrun_count == self@.stats.underrun_count,
            r.samples_played == self@.stats.samples_played,
            r.sample_rate == match self@.current_info {
                Some(info) => info.sample_rate,
                None => IDLE_SAMPLE_RATE,
            },
            r.frames_played as int == match self@.current_info {
                Some(info) => if info.channels == 0 {
                    0
                } else {
                    self@.stats.samples_played as int / info.channels as int
                },
                None => self@.stats.samples_played as int / 2,
            },
    {
        let samples_played: u64 = self.stats.samples_played();
        let (sample_rate, frames_played): (u32, u64) = match &self.current_info {
            Some(info) => (info.sample_rate, info.frames_played(samples_played)),
            None => (IDLE_SAMPLE_RATE, samples_played / (IDLE_CHANNELS as u64)),
        };
        EngineStats {
            buffered_samples: self.ring_buffer.available(),
            buffer_capacity: self.ring_buffer.capacity(),
            underrun_count: self.stats.underrun_count(),
            samples_played,
            frames_played,
            sample_rate,
        }
    }

    /// What is known of the file that plays.
    pub fn current_info(&self) -> (r: Option<&AudioInfo>)
        ensures
            match r {
                Some(info) => self@.current_info == Some(*info),
                None => self@.current_info is None,
            },
    {
        self.current_info.as_ref()
    }

    /// Whether the player plays or is about to.
    pub fn is_playing(&self) -> (r: bool)
        requires
            self.wf(),
        ensures
            r == (self@.state == PlaybackState::Playing || self@.state
                == PlaybackState::Buffering),
    {
        match self.state() {
            PlaybackState::Playing => true,
            PlaybackState::Buffering => true,
            _ => false,
        }
    }

    /// Whether the track is over: the decoder has reached the end of the
    /// file and the ring buffer is drained. This is what the caller waits
    /// for to go on to the next track.
    pub fn is_track_finished(&self) -> (r: bool)
        requires
            self.wf(),
        ensures
            r == self@.track_finished(),
    {
        self.decoder_state.eof_reached && self.ring_buffer.available() == 0
    }

    /// Whether the output goes past the mixer, and whether it has
    /// exclusive use of its device; `None` while there is no output.
    pub fn output_mode(&self) -> (r: Option<(bool, bool)>)
        ensures
            r == match self@.output {
                Some(o) => Some((o.backend.spec_is_hal(), o.hog_mode_acquired)),
                None => None,
            },
    {
        match &self.output {
            Some(o) => Some((o.is_hal_output(), o.is_exclusive_mode())),
            None => None,
        }
    }

    /// Whether the bits of the file reach the device unchanged: whether
    /// there is an output and it is bit-perfect for the rate of the file.
    pub fn is_bit_perfect(&self) -> (r: bool)
        ensures
            r == match self@.output {
                Some(o) => o.is_bit_perfect(self@.source_rate()),
                None => false,
            },
    {
        let source_rate: u32 = match &self.current_info {
            Some(info) => info.sample_rate,
            None => 0,
        };
        match &self.output {
            Some(o) => o.is_bit_perfect(source_rate),
            None => false,
        }
    }

    /// The flags that the worker goes by.
    pub fn decoder_state(&self) -> (r: DecoderState)
        ensures
            r == self@.decoder_state,
    {
        self.decoder_state
    }

    /// What the worker does next: see [`spec_worker_step`].
    pub fn worker_step(&self, pacing: &WorkerPacing) -> (action: WorkerAction)
        requires
            self.wf(),
        ensures
            action == spec_worker_step(
                self@.decoder_state,
                (self@.capacity - self@.queue.len()) as usize,
                *pacing,
            ),
    {
        proof {
            self.ring_buffer.lemma_wf();
        }
        worker_step(&self.decoder_state, self.ring_buffer.free_space(), pacing)
    }

    /// Takes in what the worker read: the samples go into the ring buffer
    /// and are counted. An empty read is the end of the file: it is noted,
    /// and the worker leaves. Returns how many samples the ring buffer
    /// took.
    pub fn worker_deliver(&mut self, samples: &[i32]) -> (written: usize)
        requires
            old(self).wf(),
        ensures
            final(self).wf(),
            written == accepted_len(
                old(self)@.queue.len() as int,
                old(self)@.capacity as int,
                samples@.len() as int,
            ),
            final(self)@ == (EngineView {
                queue: queue_after_write(old(self)@.queue, old(self)@.capacity as int, samples@),
                decoder_state: if samples@.len() == 0 {
                    DecoderState { eof_reached: true, ..old(self)@.decoder_state }
                } else {
                    DecoderState {
                        samples_decoded: old(self)@.decoder_state.samples_decoded.wrapping_add(
                            written as u64,
                        ),
                        ..old(self)@.decoder_state
                    }
                },
                ..old(self)@
            }),
    {
        proof {
            self.ring_buffer.lemma_wf();
        }
        if samples.len() == 0 {
            self.decoder_state.eof_reached = true;
            assert(self.ring_buffer@ =~= queue_after_write(
                self.ring_buffer@,
                self.ring_buffer.spec_capacity() as int,
                samples@,
            ));
            0
        } else {
            let written: usize = self.ring_buffer.write(samples);
            self.decoder_state.samples_decoded = self.decoder_state.samples_decoded.wrapping_add(
                written as u64,
            );
            written
        }
    }

    /// The ring buffer and the statistics, for the render callback.
    pub fn render_parts(&mut self) -> (parts: (&mut RingBuffer<i32>, &mut PlaybackStats))
        ensures
            *parts.0 == old(self).spec_ring_buffer(),
            *parts.1 == old(self).spec_stats(),
            final(self).spec_ring_buffer() == *final(parts.0),
            final(self).spec_stats() == *final(parts.1),
            final(self).spec_rest() == old(self).spec_rest(),
    {
        (&mut self.ring_buffer, &mut self.stats)
    }

    /// How the engine and its parts hang together.
    pub proof fn lemma_parts(&self)
        ensures
            self@.queue == self.spec_ring_buffer()@,
            self@.capacity == self.spec_ring_buffer().spec_capacity(),
            self@.stats == self.spec_stats()@,
            self.wf() == (self.spec_ring_buffer().wf() && self.spec_stats().wf()
                && self@.config.prebuffer_ratio.wf()),
            self@.config == self.spec_rest().0,
            self@.state == self.spec_rest().1,
            self@.decoder_state == self.spec_rest().3,
            self@.current_info == self.spec_rest().4,
            self@.current_format == self.spec_rest().5,
    {
    }

    /// The ring buffer, in specifications.
    pub closed spec fn spec_ring_buffer(&self) -> RingBuffer<i32> {
        self.ring_buffer
    }

    /// The statistics, in specifications.
    pub closed spec fn spec_stats(&self) -> PlaybackStats {
        self.stats
    }

    /// All but the ring buffer and the statistics, in specifications.
    pub closed spec fn spec_rest(&self) -> (
        EngineConfig,
        PlaybackState,
        Option<AudioOutput>,
        DecoderState,
        Option<AudioInfo>,
        Option<AudioFormat>,
    ) {
        (
            self.config,
            self.state,
            self.output,
            self.decoder_state,
            self.current_info,
            self.current_format,
        )
    }
}

/// A call to the device that the caller makes on the engine's behalf.
#[derive(Debug, Clone, Copy, PartialEq, Eq, Structural)]
pub enum DeviceCall {
    /// No call.
    Nothing,
    /// Halt the device: the callback stays registered.
    Halt,
    /// Restart the device.
    Restart,
}

/// Which call to the device a toggle of the pause needs first: a halt if
/// the player plays and the output runs, a restart if the player is paused
/// or buffering and the output is paused.
pub open spec fn spec_toggle_needs(v: EngineView) -> DeviceCall {
    match v.playback_state() {
        PlaybackState::Playing => match v.output {
            Some(o) => if o.state == OutputState::Running {
                DeviceCall::Halt
            } else {
                DeviceCall::Nothing
            },
            None => DeviceCall::Nothing,
        },
        PlaybackState::Stopped => DeviceCall::Nothing,
        _ => match v.output {
            Some(o) => if o.state == OutputState::Paused {
                DeviceCall::Restart
            } else {
                DeviceCall::Nothing
            },
            None => DeviceCall::Nothing,
        },
    }
}

/// The output after a toggle of the pause: halted if the player played and
/// the halt went through, restarted if the player was paused or buffering
/// and the restart went through, and else as it was.
pub open spec fn spec_output_after_toggle(v: EngineView, device_status: i32) -> Option<OutputView> {
    match v.output {
        Some(o) => Some(
            match spec_toggle_needs(v) {
                DeviceCall::Halt => if device_status == 0 {
                    OutputView { state: OutputState::Paused, ..o }
                } else {
                    o
                },
                DeviceCall::Restart => if device_status == 0 {
                    OutputView { state: OutputState::Running, ..o }
                } else {
                    o
                },
                DeviceCall::Nothing => o,
            },
        ),
        None => None,
    }
}

/// While the player is buffering, its state reads `Playing` exactly from
/// the moment when the ring buffer is filled to the prebuffer ratio; no
/// call from the control side is needed for that, only writes of the
/// worker.
pub proof fn lemma_prebuffer_then_playing(v: EngineView)
    requires
        v.state == PlaybackState::Buffering,
        v.config.prebuffer_ratio.wf(),
    ensures
        v.playback_state() == PlaybackState::Playing <==> v.prebuffered(),
        v.playback_state() == PlaybackState::Buffering <==> !v.prebuffered(),
        v.queue.len() == v.capacity ==> v.playback_state() == PlaybackState::Playing,
{
    if v.queue.len() == v.capacity {
        assert(v.capacity * v.config.prebuffer_ratio.denom >= v.config.prebuffer_ratio.numer
            * v.capacity) by (nonlinear_arith)
            requires
                v.config.prebuffer_ratio.numer <= v.config.prebuffer_ratio.denom,
                v.capacity >= 0,
        ;
    }
}

/// The track is over only once both have happened: before the decoder has
/// reached the end of the file, and while the ring buffer still holds a
/// sample, it is not.
pub proof fn lemma_track_finished_edge(v: EngineView)
    ensures
        !v.decoder_state.eof_reached ==> !v.track_finished(),
        v.queue.len() > 0 ==> !v.track_finished(),
        v.decoder_state.eof_reached && v.queue.len() == 0 ==> v.track_finished(),
{
}

} // verus!
