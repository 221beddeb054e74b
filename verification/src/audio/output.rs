//! The audio output: which backend to use, how to negotiate a format with
//! the device, and the lifecycle of a running output.
//!
//! Talking to the audio service is the caller's work. This module decides:
//! given what the device answered so far, what to ask it next. A start is
//! a [`Negotiation`]: the caller performs the action that it is handed,
//! reports the device's reply, and is handed the next action, until the
//! output runs or has failed. Settings that only make things better (hog
//! mode, sample rate, buffer size, binding, enabling I/O) never fail a
//! start; what is needed to produce sound at all (registering the callback,
//! initializing and starting the unit) does, with the status of the
//! service.

use vstd::prelude::*;
use crate::audio::device::{optimal_sample_rate, select_optimal_sample_rate, DeviceInfo, FALLBACK_SAMPLE_RATE};
use crate::audio::format::{AudioFormat, OutputLayout};
use crate::audio::render::OutputFormatMode;
use crate::audio::stream_format::{confirms_mode, pcm_description, StreamDescription, FORMAT_FLAG_IS_NON_INTERLEAVED};

verus! {

/// Status of a call that succeeded.
pub const NO_ERR: i32 = 0;

/// Frames assumed per device buffer where the device is not asked.
pub const DEFAULT_DEVICE_BUFFER_FRAMES: u32 = 4096;

/// Frames assumed per device buffer where the device will not tell.
pub const UNKNOWN_DEVICE_BUFFER_FRAMES: u32 = 512;

/// The scratch buffer holds at least this many frames.
pub const MIN_SCRATCH_FRAMES: u32 = 8192;

/// How often a new sample rate is read back before it is taken on trust.
pub const RATE_VERIFY_ATTEMPTS: u32 = 10;

/// Pause before each reading of a new sample rate, in milliseconds.
pub const RATE_VERIFY_DELAY_MS: u64 = 20;

/// What a caller asks of an output.
#[derive(Clone, Copy, Debug, PartialEq, Eq, Structural)]
pub struct OutputConfig {
    /// Requested sample rate.
    pub sample_rate: u32,
    /// Requested frames per device buffer.
    pub buffer_frames: u32,
    /// Whether to try for exclusive (hog) mode.
    pub exclusive_mode: bool,
    /// Whether to try for an integer format.
    pub integer_mode: bool,
    /// Whether to use the device directly rather than through the mixer.
    pub use_hal: bool,
    /// The device to use; `None` for the default device.
    pub device_id: Option<u32>,
}

impl Default for OutputConfig {
    fn default() -> (r: Self)
        ensures
            r == (OutputConfig {
                sample_rate: 48000,
                buffer_frames: 512,
                exclusive_mode: true,
                integer_mode: true,
                use_hal: true,
                device_id: None,
            }),
    {
        OutputConfig {
            sample_rate: 48000,
            buffer_frames: 512,
            exclusive_mode: true,
            integer_mode: true,
            use_hal: true,
            device_id: None,
        }
    }
}

/// Why an output failed.
#[derive(Debug)]
pub enum OutputError {
    NoDefaultDevice,
    GetPropertyFailed(i32),
    SetPropertyFailed(i32),
    AudioUnitFailed(i32),
    SampleRateNotSupported(u32),
    InvalidState(&'static str),
    NoAudioComponent,
}

/// How an output reaches its device.
#[derive(Clone, Copy, Debug, PartialEq, Eq, Structural)]
pub enum OutputBackend {
    /// A callback registered with the device itself: the shortest path.
    HalIoProc,
    /// An output unit bound to the device, past the mixer.
    HalUnit,
    /// The default output unit, through the mixer.
    DefaultUnit,
}

/// What came of an attempt to create a backend.
#[derive(Clone, Copy, Debug, PartialEq, Eq, Structural)]
pub enum BackendAttempt {
    /// The backend exists.
    Created,
    /// The service has no such component.
    ComponentMissing,
    /// The service refused, with this status.
    Failed(i32),
}

/// What to do after an attempt to create a backend.
#[derive(Debug)]
pub enum ConstructionStep {
    /// Use the backend just created.
    Use(OutputBackend),
    /// Try to create this backend next.
    Try(OutputBackend),
    /// Give up.
    Fail(OutputError),
}

/// The backend to try first: the direct path for a wired device, if the
/// configuration allows it; the mixer for a Bluetooth device, on which
/// exclusive and integer formats fail, and whenever the direct path is
/// switched off.
pub open spec fn spec_first_backend(use_hal: bool, is_bluetooth: bool) -> OutputBackend {
    if use_hal && !is_bluetooth {
        OutputBackend::HalIoProc
    } else {
        OutputBackend::DefaultUnit
    }
}

/// What follows an attempt to create `backend`. A backend that was created
/// is used. The direct paths fall back one by one, down to the mixer; when
/// the mixer fails too, the output cannot be built.
pub open spec fn spec_after_backend_attempt(backend: OutputBackend, attempt: BackendAttempt) -> ConstructionStep {
    match attempt {
        BackendAttempt::Created => ConstructionStep::Use(backend),
        BackendAttempt::ComponentMissing => match backend {
            OutputBackend::HalIoProc => ConstructionStep::Try(OutputBackend::HalUnit),
            OutputBackend::HalUnit => ConstructionStep::Try(OutputBackend::DefaultUnit),
            OutputBackend::DefaultUnit => ConstructionStep::Fail(OutputError::NoAudioComponent),
        },
        BackendAttempt::Failed(status) => match backend {
            OutputBackend::HalIoProc => ConstructionStep::Try(OutputBackend::HalUnit),
            OutputBackend::HalUnit => ConstructionStep::Try(OutputBackend::DefaultUnit),
            OutputBackend::DefaultUnit => ConstructionStep::Fail(
                OutputError::AudioUnitFailed(status),
            ),
        },
    }
}

/// What a device tells of its buffers.
#[derive(Clone, Copy, Debug)]
pub struct DeviceCaps {
    /// Smallest and largest buffer in frames, if the device tells.
    pub buffer_range: Option<(u32, u32)>,
    /// Output latency in frames; 0 if the device will not tell.
    pub latency_frames: u32,
    /// Safety offset in frames; 0 if the device will not tell.
    pub safety_offset_frames: u32,
}

/// `frames` moved into the range from `low` to `high`: raised to `low`
/// first, then cut to `high`.
pub open spec fn clamp_frames(frames: u32, low: u32, high: u32) -> u32 {
    let raised = if frames >= low {
        frames
    } else {
        low
    };
    if raised <= high {
        raised
    } else {
        high
    }
}

/// Where an output stands in its life.
#[derive(Clone, Copy, Debug, PartialEq, Eq, Structural)]
pub enum OutputState {
    Constructed,
    Running,
    Paused,
    /// The end: a stopped output is not started again.
    Stopped,
}

/// Reply of the device to an action of a negotiation. A field that an
/// action does not fill stays at its default.
#[derive(Clone, Copy, Debug, PartialEq, Eq, Structural)]
pub struct StartReply {
    /// Status of the call; [`NO_ERR`] for success.
    pub status: i32,
    /// The number asked for, if the device gave one.
    pub value: Option<u32>,
    /// The stream description asked for, if the device gave one.
    pub format: Option<StreamDescription>,
}

/// What a negotiation is waiting for.
#[derive(Clone, Copy, Debug, PartialEq, Eq, Structural)]
pub enum StartPhase {
    /// Nothing was asked yet.
    Begin,
    HogMode,
    SampleRate,
    BufferSize,
    BindDevice,
    EnableIo,
    StreamId,
    PhysicalInt32,
    PhysicalInt24,
    UnitInt32,
    UnitInt24,
    UnitFloat32,
    DeviceBufferSize,
    Layout,
    Register,
    Initialize,
    Launch,
    Unregister,
    /// The output runs.
    Running,
    /// The start failed.
    Failed,
}

/// What the callback of a starting output is to be set up with.
#[derive(Clone, Copy, Debug, PartialEq, Eq, Structural)]
pub struct CallbackPlan {
    /// The format that the device runs at.
    pub format: AudioFormat,
    /// Samples in the scratch buffer.
    pub scratch_len: u64,
    /// Sample format of the device buffer.
    pub mode: OutputFormatMode,
    /// Bit depth of the source.
    pub source_bits: u16,
    /// Frames per device buffer.
    pub buffer_frames: u32,
}

/// What the caller is to do next. Each action names the call to make; the
/// reply to report is the status of that call, with the value or the
/// description read where the action reads one.
#[derive(Debug)]
pub enum StartAction {
    /// Ask for exclusive use of the device.
    AcquireHogMode { device_id: u32 },
    /// Set the nominal sample rate, with verification: see [`RateChange`].
    ApplySampleRate { device_id: u32, rate: u32 },
    /// Set the frames per device buffer.
    SetBufferSize { device_id: u32, frames: u32 },
    /// Make the device the current device of the unit.
    BindDevice { device_id: u32 },
    /// Enable output on the unit.
    EnableIo,
    /// Find the first output stream of the device; reply with its id.
    FindOutputStream { device_id: u32 },
    /// Set the physical format of the stream, then read it back; reply
    /// with the status of the set and the description read.
    SetPhysicalFormat(StreamDescription),
    /// Set the format of the unit's input scope.
    SetUnitFormat(StreamDescription),
    /// Read the frames per device buffer.
    QueryBufferSize { device_id: u32 },
    /// Read the format of the unit's output scope.
    QueryLayout,
    /// Build the callback context, pin its memory and register the
    /// callback.
    RegisterCallback(CallbackPlan),
    /// Initialize the unit.
    InitializeUnit,
    /// Start the unit or the device.
    Launch,
    /// Take the callback back from a device that would not start.
    UnregisterCallback { device_id: u32 },
    /// The output runs: nothing is left to do.
    Finished,
    /// The start failed for good.
    Failed(OutputError),
}

/// A start in progress.
#[derive(Clone, Copy, Debug, PartialEq, Eq, Structural)]
pub struct Negotiation {
    pub phase: StartPhase,
    pub backend: OutputBackend,
    /// The device; 0 for the default output, which names none.
    pub device_id: u32,
    pub exclusive_mode: bool,
    pub integer_mode: bool,
    /// Frames per device buffer to ask for.
    pub buffer_frames: u32,
    /// The format of the source.
    pub source: AudioFormat,
    /// The rate chosen for the device.
    pub device_rate: u32,
    /// Whether exclusive use was granted.
    pub hog_mode_acquired: bool,
    /// The mode settled on; floating point until an integer mode is
    /// confirmed.
    pub mode: OutputFormatMode,
    /// Frames per device buffer, as the device tells.
    pub device_buffer_frames: u32,
    /// Layout of the device buffer.
    pub layout: OutputLayout,
    /// Status of the call that failed the start.
    pub failure: i32,
}

impl OutputBackend {
    /// Whether the backend is an output unit.
    pub open spec fn spec_is_unit(self) -> bool {
        self != OutputBackend::HalIoProc
    }

    /// Whether the backend goes past the mixer.
    pub open spec fn spec_is_hal(self) -> bool {
        self != OutputBackend::DefaultUnit
    }

    /// Whether the backend is an output unit.
    pub fn is_unit(self) -> (r: bool)
        ensures
            r == self.spec_is_unit(),
    {
        match self {
            OutputBackend::HalIoProc => false,
            _ => true,
        }
    }

    /// Whether the backend goes past the mixer.
    pub fn is_hal(self) -> (r: bool)
        ensures
            r == self.spec_is_hal(),
    {
        match self {
            OutputBackend::DefaultUnit => false,
            _ => true,
        }
    }
}

/// The greater of two frame counts.
pub open spec fn max_u32(a: u32, b: u32) -> u32 {
    if a >= b {
        a
    } else {
        b
    }
}

impl Negotiation {
    /// Whether the device runs at another rate than the source, so that
    /// the audio service converts.
    pub open spec fn needs_src(self) -> bool {
        self.source.sample_rate != self.device_rate
    }

    /// The format that the device runs at: the source's channels and depth
    /// at the device's rate and layout.
    pub open spec fn actual_format(self) -> AudioFormat {
        AudioFormat {
            sample_rate: self.device_rate,
            channels: self.source.channels,
            bits_per_sample: self.source.bits_per_sample,
            layout: self.layout,
        }
    }

    /// What the callback is set up with: a scratch buffer for the larger
    /// of the device buffer and 8192 frames.
    pub open spec fn callback_plan(self) -> CallbackPlan {
        CallbackPlan {
            format: self.actual_format(),
            scratch_len: (max_u32(self.device_buffer_frames, MIN_SCRATCH_FRAMES)
                * self.source.channels) as u64,
            mode: self.mode,
            source_bits: self.source.bits_per_sample,
            buffer_frames: self.device_buffer_frames,
        }
    }

    /// Whether the negotiation is over.
    pub open spec fn is_over(self) -> bool {
        self.phase == StartPhase::Running || self.phase == StartPhase::Failed
    }

    /// Last of the questions: the callback is registered next.
    pub open spec fn spec_enter_register(self) -> (Negotiation, StartAction) {
        (
            Negotiation { phase: StartPhase::Register, ..self },
            StartAction::RegisterCallback(self.callback_plan()),
        )
    }

    /// Asks a unit for its layout; a device callback is always interleaved.
    pub open spec fn spec_enter_layout(self) -> (Negotiation, StartAction) {
        if self.backend.spec_is_unit() {
            (Negotiation { phase: StartPhase::Layout, ..self }, StartAction::QueryLayout)
        } else {
            (Negotiation { layout: OutputLayout::Interleaved, ..self }).spec_enter_register()
        }
    }

    /// Asks a named device for its buffer size; the default output is taken
    /// at 4096 frames.
    pub open spec fn spec_enter_device_buffer(self) -> (Negotiation, StartAction) {
        if self.device_id != 0 {
            (
                Negotiation { phase: StartPhase::DeviceBufferSize, ..self },
                StartAction::QueryBufferSize { device_id: self.device_id },
            )
        } else {
            (Negotiation {
                device_buffer_frames: DEFAULT_DEVICE_BUFFER_FRAMES,
                ..self
            }).spec_enter_layout()
        }
    }

    /// Settles the mode and goes on to the buffer size.
    pub open spec fn spec_settle(self, mode: OutputFormatMode) -> (Negotiation, StartAction) {
        (Negotiation { mode, ..self }).spec_enter_device_buffer()
    }

    /// Asks the unit for a format, at the rate of the source: the audio
    /// service converts to the rate of the device.
    pub open spec fn spec_ask_unit(self, phase: StartPhase, mode: OutputFormatMode) -> (
        Negotiation,
        StartAction,
    ) {
        (
            Negotiation { phase, ..self },
            StartAction::SetUnitFormat(
                pcm_description(mode, self.source.sample_rate, self.source.channels),
            ),
        )
    }

    /// Asks the stream for a physical format, at the rate of the device.
    pub open spec fn spec_ask_physical(self, phase: StartPhase, mode: OutputFormatMode) -> (
        Negotiation,
        StartAction,
    ) {
        (
            Negotiation { phase, ..self },
            StartAction::SetPhysicalFormat(
                pcm_description(mode, self.device_rate, self.source.channels),
            ),
        )
    }

    /// What follows when no physical format was to be had: a unit is asked
    /// for an integer format, a device callback settles for floating point.
    pub open spec fn spec_physical_failed(self) -> (Negotiation, StartAction) {
        if self.backend.spec_is_unit() {
            self.spec_ask_unit(StartPhase::UnitInt32, OutputFormatMode::Int32)
        } else {
            self.spec_settle(OutputFormatMode::Float32)
        }
    }

    /// Begins the choice of a format.
    pub open spec fn spec_enter_format(self) -> (Negotiation, StartAction) {
        if !self.backend.spec_is_unit() || (self.integer_mode && self.device_id != 0) {
            if !self.needs_src() {
                (
                    Negotiation { phase: StartPhase::StreamId, ..self },
                    StartAction::FindOutputStream { device_id: self.device_id },
                )
            } else {
                self.spec_physical_failed()
            }
        } else {
            self.spec_ask_unit(StartPhase::UnitFloat32, OutputFormatMode::Float32)
        }
    }

    /// Enables I/O on a unit; a device callback needs none.
    pub open spec fn spec_enter_enable_io(self) -> (Negotiation, StartAction) {
        if self.backend.spec_is_unit() {
            (Negotiation { phase: StartPhase::EnableIo, ..self }, StartAction::EnableIo)
        } else {
            self.spec_enter_format()
        }
    }

    /// Binds a unit to its device; a device callback goes on to the format.
    pub open spec fn spec_enter_bind(self) -> (Negotiation, StartAction) {
        if self.backend.spec_is_unit() {
            (
                Negotiation { phase: StartPhase::BindDevice, ..self },
                StartAction::BindDevice { device_id: self.device_id },
            )
        } else {
            self.spec_enter_format()
        }
    }

    /// Sets the rate of a named device; the default output names none.
    pub open spec fn spec_enter_rate(self) -> (Negotiation, StartAction) {
        if self.device_id != 0 {
            (
                Negotiation { phase: StartPhase::SampleRate, ..self },
                StartAction::ApplySampleRate { device_id: self.device_id, rate: self.device_rate },
            )
        } else {
            self.spec_enter_enable_io()
        }
    }

    /// Ends the start with the status of the call that failed.
    pub open spec fn spec_fail(self, status: i32) -> (Negotiation, StartAction) {
        (
            Negotiation { phase: StartPhase::Failed, failure: status, ..self },
            StartAction::Failed(OutputError::AudioUnitFailed(status)),
        )
    }

    /// The negotiation after `reply`, and the next action.
    ///
    /// In order: exclusive use is asked for if wanted, and a refusal is
    /// put up with. The rate, the buffer size, the binding of the device
    /// and the enabling of I/O are asked for, and their failures passed
    /// over. Then the format: the physical format of the stream is tried
    /// when the rates of source and device agree, 32-bit integer first,
    /// then 24-bit, and it counts only if the device reads back what was
    /// set; else the unit is asked for 32-bit integer, 24-bit integer and
    /// at last floating point, which settles the mode whatever the answer.
    /// Then the callback is registered, and the unit initialized and
    /// started: here a failure ends the start, with the status of the call
    /// that failed.
    pub open spec fn spec_advance(self, reply: StartReply) -> (Negotiation, StartAction) {
        match self.phase {
            StartPhase::Begin => {
                if self.device_id != 0 && self.exclusive_mode {
                    (
                        Negotiation { phase: StartPhase::HogMode, ..self },
                        StartAction::AcquireHogMode { device_id: self.device_id },
                    )
                } else {
                    self.spec_enter_rate()
                }
            },
            StartPhase::HogMode => (Negotiation {
                hog_mode_acquired: reply.status == NO_ERR,
                ..self
            }).spec_enter_rate(),
            StartPhase::SampleRate => (
                Negotiation { phase: StartPhase::BufferSize, ..self },
                StartAction::SetBufferSize { device_id: self.device_id, frames: self.buffer_frames },
            ),
            StartPhase::BufferSize => self.spec_enter_bind(),
            StartPhase::BindDevice => self.spec_enter_enable_io(),
            StartPhase::EnableIo => self.spec_enter_format(),
            StartPhase::StreamId => {
                if reply.status == NO_ERR && reply.value is Some {
                    self.spec_ask_physical(StartPhase::PhysicalInt32, OutputFormatMode::Int32)
                } else {
                    self.spec_physical_failed()
                }
            },
            StartPhase::PhysicalInt32 => {
                if reply.status == NO_ERR && reply.format is Some && confirms_mode(
                    reply.format->0,
                    OutputFormatMode::Int32,
                ) {
                    self.spec_settle(OutputFormatMode::Int32)
                } else {
                    self.spec_ask_physical(StartPhase::PhysicalInt24, OutputFormatMode::Int24)
                }
            },
            StartPhase::PhysicalInt24 => {
                if reply.status == NO_ERR && reply.format is Some && confirms_mode(
                    reply.format->0,
                    OutputFormatMode::Int24,
                ) {
                    self.spec_settle(OutputFormatMode::Int24)
                } else {
                    self.spec_physical_failed()
                }
            },
            StartPhase::UnitInt32 => {
                if reply.status == NO_ERR {
                    self.spec_settle(OutputFormatMode::Int32)
                } else {
                    self.spec_ask_unit(StartPhase::UnitInt24, OutputFormatMode::Int24)
                }
            },
            StartPhase::UnitInt24 => {
                if reply.status == NO_ERR {
                    self.spec_settle(OutputFormatMode::Int24)
                } else {
                    self.spec_ask_unit(StartPhase::UnitFloat32, OutputFormatMode::Float32)
                }
            },
            StartPhase::UnitFloat32 => self.spec_settle(OutputFormatMode::Float32),
            StartPhase::DeviceBufferSize => (Negotiation {
                device_buffer_frames: if reply.status == NO_ERR && reply.value is Some {
                    reply.value->0
                } else {
                    UNKNOWN_DEVICE_BUFFER_FRAMES
                },
                ..self
            }).spec_enter_layout(),
            StartPhase::Layout => (Negotiation {
                layout: if reply.status == NO_ERR && reply.format is Some && reply.format->0.format_flags
                    & FORMAT_FLAG_IS_NON_INTERLEAVED != 0 {
                    OutputLayout::NonInterleaved
                } else {
                    OutputLayout::Interleaved
                },
                ..self
            }).spec_enter_register(),
            StartPhase::Register => {
                if reply.status != NO_ERR {
                    self.spec_fail(reply.status)
                } else if self.backend.spec_is_unit() {
                    (
                        Negotiation { phase: StartPhase::Initialize, ..self },
                        StartAction::InitializeUnit,
                    )
                } else {
                    (Negotiation { phase: StartPhase::Launch, ..self }, StartAction::Launch)
                }
            },
            StartPhase::Initialize => {
                if reply.status != NO_ERR {
                    self.spec_fail(reply.status)
                } else {
                    (Negotiation { phase: StartPhase::Launch, ..self }, StartAction::Launch)
                }
            },
            StartPhase::Launch => {
                if reply.status == NO_ERR {
                    (Negotiation { phase: StartPhase::Running, ..self }, StartAction::Finished)
                } else if self.backend.spec_is_unit() {
                    self.spec_fail(reply.status)
                } else {
                    (
                        Negotiation {
                            phase: StartPhase::Unregister,
                            failure: reply.status,
                            ..self
                        },
                        StartAction::UnregisterCallback { device_id: self.device_id },
                    )
                }
            },
            StartPhase::Unregister => self.spec_fail(self.failure),
            StartPhase::Running => (self, StartAction::Finished),
            StartPhase::Failed => (
                self,
                StartAction::Failed(OutputError::AudioUnitFailed(self.failure)),
            ),
        }
    }

    fn enter_register(self) -> (r: (Negotiation, StartAction))
        ensures
            r == self.spec_enter_register(),
    {
        let frames: u32 = if self.device_buffer_frames >= MIN_SCRATCH_FRAMES {
            self.device_buffer_frames
        } else {
            MIN_SCRATCH_FRAMES
        };
        assert(frames * self.source.channels <= 0xffff_ffff * 0xffff) by (nonlinear_arith)
            requires
                0 <= frames <= 0xffff_ffff,
                0 <= self.source.channels <= 0xffff,
        ;
        let plan = CallbackPlan {
            format: AudioFormat {
                sample_rate: self.device_rate,
                channels: self.source.channels,
                bits_per_sample: self.source.bits_per_sample,
                layout: self.layout,
            },
            scratch_len: (frames as u64) * (self.source.channels as u64),
            mode: self.mode,
            source_bits: self.source.bits_per_sample,
            buffer_frames: self.device_buffer_frames,
        };
        (Negotiation { phase: StartPhase::Register, ..self }, StartAction::RegisterCallback(plan))
    }

    fn enter_layout(self) -> (r: (Negotiation, StartAction))
        ensures
            r == self.spec_enter_layout(),
    {
        if self.backend.is_unit() {
            (Negotiation { phase: StartPhase::Layout, ..self }, StartAction::QueryLayout)
        } else {
            (Negotiation { layout: OutputLayout::Interleaved, ..self }).enter_register()
        }
    }

    fn enter_device_buffer(self) -> (r: (Negotiation, StartAction))
        ensures
            r == self.spec_enter_device_buffer(),
    {
        if self.device_id != 0 {
            (
                Negotiation { phase: StartPhase::DeviceBufferSize, ..self },
                StartAction::QueryBufferSize { device_id: self.device_id },
            )
        } else {
            (Negotiation { device_buffer_frames: DEFAULT_DEVICE_BUFFER_FRAMES, ..self }).enter_layout()
        }
    }

    fn settle(self, mode: OutputFormatMode) -> (r: (Negotiation, StartAction))
        ensures
            r == self.spec_settle(mode),
    {
        (Negotiation { mode, ..self }).enter_device_buffer()
    }

    fn ask_unit(self, phase: StartPhase, mode: OutputFormatMode) -> (r: (Negotiation, StartAction))
        ensures
            r == self.spec_ask_unit(phase, mode),
    {
        (
            Negotiation { phase, ..self },
            StartAction::SetUnitFormat(
                StreamDescription::pcm(mode, self.source.sample_rate, self.source.channels),
            ),
        )
    }

    fn ask_physical(self, phase: StartPhase, mode: OutputFormatMode) -> (r: (
        Negotiation,
        StartAction,
    ))
        ensures
            r == self.spec_ask_physical(phase, mode),
    {
        (
            Negotiation { phase, ..self },
            StartAction::SetPhysicalFormat(
                StreamDescription::pcm(mode, self.device_rate, self.source.channels),
            ),
        )
    }

    fn physical_failed(self) -> (r: (Negotiation, StartAction))
        ensures
            r == self.spec_physical_failed(),
    {
        if self.backend.is_unit() {
            self.ask_unit(StartPhase::UnitInt32, OutputFormatMode::Int32)
        } else {
            self.settle(OutputFormatMode::Float32)
        }
    }

    fn enter_format(self) -> (r: (Negotiation, StartAction))
        ensures
            r == self.spec_enter_format(),
    {
        if !self.backend.is_unit() || (self.integer_mode && self.device_id != 0) {
            if self.source.sample_rate == self.device_rate {
                (
                    Negotiation { phase: StartPhase::StreamId, ..self },
                    StartAction::FindOutputStream { device_id: self.device_id },
                )
            } else {
                self.physical_failed()
            }
        } else {
            self.ask_unit(StartPhase::UnitFloat32, OutputFormatMode::Float32)
        }
    }

    fn enter_enable_io(self) -> (r: (Negotiation, StartAction))
        ensures
            r == self.spec_enter_enable_io(),
    {
        if self.backend.is_unit() {
            (Negotiation { phase: StartPhase::EnableIo, ..self }, StartAction::EnableIo)
        } else {
            self.enter_format()
        }
    }

    fn enter_bind(self) -> (r: (Negotiation, StartAction))
        ensures
            r == self.spec_enter_bind(),
    {
        if self.backend.is_unit() {
            (
                Negotiation { phase: StartPhase::BindDevice, ..self },
                StartAction::BindDevice { device_id: self.device_id },
            )
        } else {
            self.enter_format()
        }
    }

    fn enter_rate(self) -> (r: (Negotiation, StartAction))
        ensures
            r == self.spec_enter_rate(),
    {
        if self.device_id != 0 {
            (
                Negotiation { phase: StartPhase::SampleRate, ..self },
                StartAction::ApplySampleRate { device_id: self.device_id, rate: self.device_rate },
            )
        } else {
            self.enter_enable_io()
        }
    }

    fn fail(self, status: i32) -> (r: (Negotiation, StartAction))
        ensures
            r == self.spec_fail(status),
    {
        (
            Negotiation { phase: StartPhase::Failed, failure: status, ..self },
            StartAction::Failed(OutputError::AudioUnitFailed(status)),
        )
    }

    /// Takes in the reply to the action handed out last (any reply for the
    /// first call) and hands out the next action: see
    /// [`spec_advance`](Self::spec_advance).
    pub fn advance(&mut self, reply: StartReply) -> (action: StartAction)
        ensures
            (*final(self), action) == old(self).spec_advance(reply),
    {
        let n: Negotiation = *self;
        let next: (Negotiation, StartAction) = match n.phase {
            StartPhase::Begin => {
                if n.device_id != 0 && n.exclusive_mode {
                    (
                        Negotiation { phase: StartPhase::HogMode, ..n },
                        StartAction::AcquireHogMode { device_id: n.device_id },
                    )
                } else {
                    n.enter_rate()
                }
            },
            StartPhase::HogMode => (Negotiation {
                hog_mode_acquired: reply.status == NO_ERR,
                ..n
            }).enter_rate(),
            StartPhase::SampleRate => (
                Negotiation { phase: StartPhase::BufferSize, ..n },
                StartAction::SetBufferSize { device_id: n.device_id, frames: n.buffer_frames },
            ),
            StartPhase::BufferSize => n.enter_bind(),
            StartPhase::BindDevice => n.enter_enable_io(),
            StartPhase::EnableIo => n.enter_format(),
            StartPhase::StreamId => {
                if reply.status == NO_ERR && reply.value.is_some() {
                    n.ask_physical(StartPhase::PhysicalInt32, OutputFormatMode::Int32)
                } else {
                    n.physical_failed()
                }
            },
            StartPhase::PhysicalInt32 => {
                let confirmed: bool = match reply.format {
                    Some(actual) => reply.status == NO_ERR && actual.confirms(
                        OutputFormatMode::Int32,
                    ),
                    None => false,
                };
                if confirmed {
                    n.settle(OutputFormatMode::Int32)
                } else {
                    n.ask_physical(StartPhase::PhysicalInt24, OutputFormatMode::Int24)
                }
            },
            StartPhase::PhysicalInt24 => {
                let confirmed: bool = match reply.format {
                    Some(actual) => reply.status == NO_ERR && actual.confirms(
                        OutputFormatMode::Int24,
                    ),
                    None => false,
                };
                if confirmed {
                    n.settle(OutputFormatMode::Int24)
                } else {
                    n.physical_failed()
                }
            },
            StartPhase::UnitInt32 => {
                if reply.status == NO_ERR {
                    n.settle(OutputFormatMode::Int32)
                } else {
                    n.ask_unit(StartPhase::UnitInt24, OutputFormatMode::Int24)
                }
            },
            StartPhase::UnitInt24 => {
                if reply.status == NO_ERR {
                    n.settle(OutputFormatMode::Int24)
                } else {
                    n.ask_unit(StartPhase::UnitFloat32, OutputFormatMode::Float32)
                }
            },
            StartPhase::UnitFloat32 => n.settle(OutputFormatMode::Float32),
            StartPhase::DeviceBufferSize => {
                let frames: u32 = match reply.value {
                    Some(v) => if reply.status == NO_ERR {
                        v
                    } else {
                        UNKNOWN_DEVICE_BUFFER_FRAMES
                    },
                    None => UNKNOWN_DEVICE_BUFFER_FRAMES,
                };
                (Negotiation { device_buffer_frames: frames, ..n }).enter_layout()
            },
            StartPhase::Layout => {
                let layout: OutputLayout = match reply.format {
                    Some(actual) => if reply.status == NO_ERR && actual.is_non_interleaved() {
                        OutputLayout::NonInterleaved
                    } else {
                        OutputLayout::Interleaved
                    },
                    None => OutputLayout::Interleaved,
                };
                (Negotiation { layout, ..n }).enter_register()
            },
            StartPhase::Register => {
                if reply.status != NO_ERR {
                    n.fail(reply.status)
                } else if n.backend.is_unit() {
                    (Negotiation { phase: StartPhase::Initialize, ..n }, StartAction::InitializeUnit)
                } else {
                    (Negotiation { phase: StartPhase::Launch, ..n }, StartAction::Launch)
                }
            },
            StartPhase::Initialize => {
                if reply.status != NO_ERR {
                    n.fail(reply.status)
                } else {
                    (Negotiation { phase: StartPhase::Launch, ..n }, StartAction::Launch)
                }
            },
            StartPhase::Launch => {
                if reply.status == NO_ERR {
                    (Negotiation { phase: StartPhase::Running, ..n }, StartAction::Finished)
                } else if n.backend.is_unit() {
                    n.fail(reply.status)
                } else {
                    (
                        Negotiation { phase: StartPhase::Unregister, failure: reply.status, ..n },
                        StartAction::UnregisterCallback { device_id: n.device_id },
                    )
                }
            },
            StartPhase::Unregister => n.fail(n.failure),
            StartPhase::Running => (n, StartAction::Finished),
            StartPhase::Failed => (n, StartAction::Failed(OutputError::AudioUnitFailed(n.failure))),
        };
        *self = next.0;
        next.1
    }
}

/// How far a negotiation has come: every step moves it on, so a start is
/// over after at most twenty replies.
pub open spec fn phase_rank(phase: StartPhase) -> int {
    match phase {
        StartPhase::Begin => 0,
        StartPhase::HogMode => 1,
        StartPhase::SampleRate => 2,
        StartPhase::BufferSize => 3,
        StartPhase::BindDevice => 4,
        StartPhase::EnableIo => 5,
        StartPhase::StreamId => 6,
        StartPhase::PhysicalInt32 => 7,
        StartPhase::PhysicalInt24 => 8,
        StartPhase::UnitInt32 => 9,
        StartPhase::UnitInt24 => 10,
        StartPhase::UnitFloat32 => 11,
        StartPhase::DeviceBufferSize => 12,
        StartPhase::Layout => 13,
        StartPhase::Register => 14,
        StartPhase::Initialize => 15,
        StartPhase::Launch => 16,
        StartPhase::Unregister => 17,
        StartPhase::Running => 18,
        StartPhase::Failed => 19,
    }
}

/// A negotiation that is not over moves on with every reply, whatever the
/// reply: no device can keep a start going in circles.
pub proof fn lemma_negotiation_progresses(n: Negotiation, reply: StartReply)
    requires
        !n.is_over(),
    ensures
        phase_rank(n.spec_advance(reply).0.phase) > phase_rank(n.phase),
{
}

/// What a negotiation never changes: the backend, the device, the source
/// format, the rate chosen and what was asked for. And what it never
/// undoes: exclusive use, once granted, and the mode, once an integer mode
/// is settled.
#[verifier::rlimit(80)]
pub proof fn lemma_negotiation_keeps(n: Negotiation, reply: StartReply)
    ensures
        ({
            let m = n.spec_advance(reply).0;
            &&& m.backend == n.backend
            &&& m.device_id == n.device_id
            &&& m.source == n.source
            &&& m.device_rate == n.device_rate
            &&& m.exclusive_mode == n.exclusive_mode
            &&& m.integer_mode == n.integer_mode
            &&& m.buffer_frames == n.buffer_frames
            &&& (n.phase != StartPhase::HogMode ==> m.hog_mode_acquired == n.hog_mode_acquired)
            &&& (phase_rank(n.phase) >= 12 ==> m.mode == n.mode)
        }),
{
    let m = n.spec_advance(reply).0;
    assert(m.backend == n.backend && m.device_id == n.device_id && m.source == n.source);
    assert(m.device_rate == n.device_rate && m.exclusive_mode == n.exclusive_mode);
    assert(m.integer_mode == n.integer_mode && m.buffer_frames == n.buffer_frames);
    assert(n.phase != StartPhase::HogMode ==> m.hog_mode_acquired == n.hog_mode_acquired);
    assert(phase_rank(n.phase) >= 12 ==> m.mode == n.mode);
}

/// An integer mode is settled only on the word of the device: by a
/// physical format that the device read back as set, or by a unit that
/// took the format. And the physical format is only ever tried while the
/// rates of source and device agree.
pub proof fn lemma_integer_mode_is_confirmed(n: Negotiation, reply: StartReply)
    requires
        n.spec_advance(reply).0.mode != n.mode,
        n.spec_advance(reply).0.mode != OutputFormatMode::Float32,
    ensures
        reply.status == NO_ERR,
        n.phase == StartPhase::PhysicalInt32 || n.phase == StartPhase::PhysicalInt24 ==> reply.format is Some
            && confirms_mode(reply.format->0, n.spec_advance(reply).0.mode),
        n.phase == StartPhase::PhysicalInt32 || n.phase == StartPhase::PhysicalInt24 || n.phase
            == StartPhase::UnitInt32 || n.phase == StartPhase::UnitInt24,
{
}

/// A start fails only where sound cannot be produced: when the callback
/// cannot be registered, or the unit or device cannot be initialized or
/// started. The error carries the status of the call that failed.
pub proof fn lemma_start_fails_only_at_the_end(n: Negotiation, reply: StartReply)
    requires
        n.phase != StartPhase::Failed,
        n.spec_advance(reply).0.phase == StartPhase::Failed,
    ensures
        n.phase == StartPhase::Register || n.phase == StartPhase::Initialize || n.phase
            == StartPhase::Launch || n.phase == StartPhase::Unregister,
        n.phase != StartPhase::Unregister ==> reply.status != NO_ERR && n.spec_advance(reply).1
            == StartAction::Failed(OutputError::AudioUnitFailed(reply.status)),
        n.phase == StartPhase::Unregister ==> n.spec_advance(reply).1 == StartAction::Failed(
            OutputError::AudioUnitFailed(n.failure),
        ),
{
}

/// The backend to try first: see [`spec_first_backend`].
pub fn first_backend(use_hal: bool, is_bluetooth: bool) -> (backend: OutputBackend)
    ensures
        backend == spec_first_backend(use_hal, is_bluetooth),
{
    if use_hal && !is_bluetooth {
        OutputBackend::HalIoProc
    } else {
        OutputBackend::DefaultUnit
    }
}

/// What follows an attempt to create `backend`: see
/// [`spec_after_backend_attempt`].
pub fn after_backend_attempt(backend: OutputBackend, attempt: BackendAttempt) -> (step:
    ConstructionStep)
    ensures
        step == spec_after_backend_attempt(backend, attempt),
{
    match attempt {
        BackendAttempt::Created => ConstructionStep::Use(backend),
        BackendAttempt::ComponentMissing => match backend {
            OutputBackend::HalIoProc => ConstructionStep::Try(OutputBackend::HalUnit),
            OutputBackend::HalUnit => ConstructionStep::Try(OutputBackend::DefaultUnit),
            OutputBackend::DefaultUnit => ConstructionStep::Fail(OutputError::NoAudioComponent),
        },
        BackendAttempt::Failed(status) => match backend {
            OutputBackend::HalIoProc => ConstructionStep::Try(OutputBackend::HalUnit),
            OutputBackend::HalUnit => ConstructionStep::Try(OutputBackend::DefaultUnit),
            OutputBackend::DefaultUnit => ConstructionStep::Fail(
                OutputError::AudioUnitFailed(status),
            ),
        },
    }
}

/// A Bluetooth device is never driven directly, whatever the
/// configuration asks, and the mixer is the last resort of every other
/// device: no fallback leads back to a direct path.
pub proof fn lemma_bluetooth_uses_the_mixer(use_hal: bool, attempt: BackendAttempt)
    ensures
        spec_first_backend(use_hal, true) == OutputBackend::DefaultUnit,
        !(spec_after_backend_attempt(OutputBackend::DefaultUnit, attempt) is Try),
{
}

/// How a change of the sample rate went.
#[derive(Clone, Copy, Debug, PartialEq, Eq, Structural)]
pub enum RateOutcome {
    /// The device ran at the rate already: nothing was set.
    AlreadySet,
    /// The device confirmed the rate at this reading, counted from 1.
    Verified(u32),
    /// The device would not take a rate, with this status: it stays at its
    /// own.
    Refused(i32),
    /// The device took the rate but never read it back: it is taken on
    /// trust.
    Unverified,
}

/// What a change of rate is waiting for.
#[derive(Clone, Copy, Debug, PartialEq, Eq, Structural)]
pub enum RatePhase {
    /// Nothing was asked yet.
    Begin,
    /// The current rate was asked for.
    Current,
    /// The rate was set in the output scope.
    SetOutput,
    /// The rate was set in the global scope.
    SetGlobal,
    /// The rate was read back this many times before.
    Verify(u32),
    /// The change is over.
    Done(RateOutcome),
}

/// What the caller is to do next for a change of rate.
#[derive(Clone, Copy, Debug, PartialEq, Eq, Structural)]
pub enum RateAction {
    /// Read the nominal rate; reply with it, or with `None` if the device
    /// will not tell.
    ReadRate,
    /// Set the nominal rate in the output scope, or in the global scope.
    SetRate { rate: u32, global_scope: bool },
    /// Wait this many milliseconds, then read the nominal rate.
    WaitThenReadRate { millis: u64 },
    /// Nothing is left to do.
    Finished(RateOutcome),
}

/// A change of the device's sample rate, with verification.
#[derive(Clone, Copy, Debug, PartialEq, Eq, Structural)]
pub struct RateChange {
    /// The rate wanted.
    pub rate: u32,
    pub phase: RatePhase,
}

/// Whether a rate read from the device counts as `wanted`: within one
/// hertz.
pub open spec fn rate_matches(actual: u32, wanted: u32) -> bool {
    actual - wanted <= 1 && wanted - actual <= 1
}

/// The number of the reading after `done` readings.
pub open spec fn spec_next_attempt(done: u32) -> u32 {
    if done < u32::MAX {
        (done + 1) as u32
    } else {
        done
    }
}

/// The rate that a reply tells: its value, or 48 kHz if the device would
/// not tell.
pub open spec fn rate_told(reply: StartReply) -> u32 {
    if reply.status == NO_ERR && reply.value is Some {
        reply.value->0
    } else {
        FALLBACK_SAMPLE_RATE
    }
}

impl RateChange {
    /// The change after `reply`, and the next action.
    ///
    /// A device that runs at the rate already is left alone. Else the rate
    /// is set in the output scope and, if that is refused, in the global
    /// scope; a device that refuses both stays at its own rate. A rate
    /// that was taken is read back up to ten times, twenty milliseconds
    /// apart, until the device tells it; after the tenth reading it is
    /// taken on trust. No outcome is an error.
    pub open spec fn spec_advance(self, reply: StartReply) -> (RateChange, RateAction) {
        match self.phase {
            RatePhase::Begin => (
                RateChange { phase: RatePhase::Current, ..self },
                RateAction::ReadRate,
            ),
            RatePhase::Current => {
                if rate_matches(rate_told(reply), self.rate) {
                    self.spec_finish(RateOutcome::AlreadySet)
                } else {
                    (
                        RateChange { phase: RatePhase::SetOutput, ..self },
                        RateAction::SetRate { rate: self.rate, global_scope: false },
                    )
                }
            },
            RatePhase::SetOutput => {
                if reply.status == NO_ERR {
                    self.spec_verify(0)
                } else {
                    (
                        RateChange { phase: RatePhase::SetGlobal, ..self },
                        RateAction::SetRate { rate: self.rate, global_scope: true },
                    )
                }
            },
            RatePhase::SetGlobal => {
                if reply.status == NO_ERR {
                    self.spec_verify(0)
                } else {
                    self.spec_finish(RateOutcome::Refused(reply.status))
                }
            },
            RatePhase::Verify(done) => {
                if reply.status == NO_ERR && reply.value is Some && rate_matches(
                    reply.value->0,
                    self.rate,
                ) {
                    self.spec_finish(RateOutcome::Verified(spec_next_attempt(done)))
                } else if done + 1 >= RATE_VERIFY_ATTEMPTS {
                    self.spec_finish(RateOutcome::Unverified)
                } else {
                    self.spec_verify((done + 1) as u32)
                }
            },
            RatePhase::Done(outcome) => (self, RateAction::Finished(outcome)),
        }
    }

    /// Ends the change with `outcome`.
    pub open spec fn spec_finish(self, outcome: RateOutcome) -> (RateChange, RateAction) {
        (RateChange { phase: RatePhase::Done(outcome), ..self }, RateAction::Finished(outcome))
    }

    /// Waits, then reads the rate back, after `done` readings.
    pub open spec fn spec_verify(self, done: u32) -> (RateChange, RateAction) {
        (
            RateChange { phase: RatePhase::Verify(done), ..self },
            RateAction::WaitThenReadRate { millis: RATE_VERIFY_DELAY_MS },
        )
    }

    /// A change to `rate` that has asked nothing yet.
    pub fn new(rate: u32) -> (r: RateChange)
        ensures
            r == (RateChange { rate, phase: RatePhase::Begin }),
    {
        RateChange { rate, phase: RatePhase::Begin }
    }

    fn matches(actual: u32, wanted: u32) -> (r: bool)
        ensures
            r == rate_matches(actual, wanted),
    {
        if actual >= wanted {
            actual - wanted <= 1
        } else {
            wanted - actual <= 1
        }
    }

    /// Takes in the reply to the action handed out last (any reply for the
    /// first call) and hands out the next action: see
    /// [`spec_advance`](Self::spec_advance).
    pub fn advance(&mut self, reply: StartReply) -> (action: RateAction)
        ensures
            (*final(self), action) == old(self).spec_advance(reply),
    {
        let c: RateChange = *self;
        let told: Option<u32> = if reply.status == NO_ERR {
            reply.value
        } else {
            None
        };
        let next: (RatePhase, RateAction) = match c.phase {
            RatePhase::Begin => (RatePhase::Current, RateAction::ReadRate),
            RatePhase::Current => {
                let current: u32 = match told {
                    Some(v) => v,
                    None => FALLBACK_SAMPLE_RATE,
                };
                if Self::matches(current, c.rate) {
                    (RatePhase::Done(RateOutcome::AlreadySet), RateAction::Finished(RateOutcome::AlreadySet))
                } else {
                    (RatePhase::SetOutput, RateAction::SetRate { rate: c.rate, global_scope: false })
                }
            },
            RatePhase::SetOutput => {
                if reply.status == NO_ERR {
                    (
                        RatePhase::Verify(0),
                        RateAction::WaitThenReadRate { millis: RATE_VERIFY_DELAY_MS },
                    )
                } else {
                    (RatePhase::SetGlobal, RateAction::SetRate { rate: c.rate, global_scope: true })
                }
            },
            RatePhase::SetGlobal => {
                if reply.status == NO_ERR {
                    (
                        RatePhase::Verify(0),
                        RateAction::WaitThenReadRate { millis: RATE_VERIFY_DELAY_MS },
                    )
                } else {
                    (
                        RatePhase::Done(RateOutcome::Refused(reply.status)),
                        RateAction::Finished(RateOutcome::Refused(reply.status)),
                    )
                }
            },
            RatePhase::Verify(done) => {
                let confirmed: bool = match told {
                    Some(v) => Self::matches(v, c.rate),
                    None => false,
                };
                if confirmed {
                    let at: u32 = if done < u32::MAX { done + 1 } else { done };
                    (
                        RatePhase::Done(RateOutcome::Verified(at)),
                        RateAction::Finished(RateOutcome::Verified(at)),
                    )
                } else if done >= RATE_VERIFY_ATTEMPTS - 1 {
                    (
                        RatePhase::Done(RateOutcome::Unverified),
                        RateAction::Finished(RateOutcome::Unverified),
                    )
                } else {
                    (
                        RatePhase::Verify(done + 1),
                        RateAction::WaitThenReadRate { millis: RATE_VERIFY_DELAY_MS },
                    )
                }
            },
            RatePhase::Done(outcome) => (RatePhase::Done(outcome), RateAction::Finished(outcome)),
        };
        self.phase = next.0;
        next.1
    }
}

/// How many more replies a change of rate can take before it is over.
pub open spec fn rate_steps_left(phase: RatePhase) -> int {
    match phase {
        RatePhase::Begin => RATE_VERIFY_ATTEMPTS + 4,
        RatePhase::Current => RATE_VERIFY_ATTEMPTS + 3,
        RatePhase::SetOutput => RATE_VERIFY_ATTEMPTS + 2,
        RatePhase::SetGlobal => RATE_VERIFY_ATTEMPTS + 1,
        RatePhase::Verify(done) => if done < RATE_VERIFY_ATTEMPTS {
            RATE_VERIFY_ATTEMPTS - done
        } else {
            1
        },
        RatePhase::Done(_) => 0,
    }
}

/// A change of rate is over after at most fourteen replies, of which at
/// most ten are readings of the new rate, whatever the device answers.
pub proof fn lemma_rate_change_ends(c: RateChange, reply: StartReply)
    requires
        !(c.phase is Done),
    ensures
        rate_steps_left(c.spec_advance(reply).0.phase) < rate_steps_left(c.phase),
        c.spec_advance(reply).0.rate == c.rate,
{
}

/// The audio output: what is known of it between the calls to the audio
/// service.
pub struct AudioOutput {
    device_id: u32,
    backend: OutputBackend,
    config: OutputConfig,
    initial_sample_rate: u32,
    hog_mode_acquired: bool,
    actual_format: AudioFormat,
    supported_sample_rates: Vec<u32>,
    state: OutputState,
    output_mode: OutputFormatMode,
    callback_registered: bool,
    min_buffer_frames: u32,
    device_latency_frames: u32,
    safety_offset_frames: u32,
}

/// What is known of an output, for specifications.
pub struct OutputView {
    pub device_id: u32,
    pub backend: OutputBackend,
    pub config: OutputConfig,
    pub initial_sample_rate: u32,
    pub hog_mode_acquired: bool,
    pub actual_format: AudioFormat,
    pub supported_sample_rates: Seq<u32>,
    pub state: OutputState,
    pub output_mode: OutputFormatMode,
    pub callback_registered: bool,
    pub min_buffer_frames: u32,
    pub device_latency_frames: u32,
    pub safety_offset_frames: u32,
}

/// What a stop has to undo, in this order.
#[derive(Clone, Copy, Debug, PartialEq, Eq, Structural)]
pub struct StopPlan {
    /// Clear the `running` flag of the callback context.
    pub clear_running: bool,
    /// Stop the unit and uninitialize it.
    pub halt_unit: bool,
    /// Stop the device and take the callback back from it.
    pub halt_device: bool,
    /// Give up exclusive use of this device.
    pub release_hog_mode: Option<u32>,
    /// Set the device back to this rate, the one it had.
    pub restore_sample_rate: Option<u32>,
    /// Release the power assertion and drop the callback context.
    pub release_context: bool,
}

impl View for AudioOutput {
    type V = OutputView;

    closed spec fn view(&self) -> OutputView {
        OutputView {
            device_id: self.device_id,
            backend: self.backend,
            config: self.config,
            initial_sample_rate: self.initial_sample_rate,
            hog_mode_acquired: self.hog_mode_acquired,
            actual_format: self.actual_format,
            supported_sample_rates: self.supported_sample_rates@,
            state: self.state,
            output_mode: self.output_mode,
            callback_registered: self.callback_registered,
            min_buffer_frames: self.min_buffer_frames,
            device_latency_frames: self.device_latency_frames,
            safety_offset_frames: self.safety_offset_frames,
        }
    }
}

impl OutputView {
    /// Whether the output delivers the bits of the source: past the mixer,
    /// in exclusive use of the device, in an integer mode, and at the rate
    /// of the source.
    pub open spec fn is_bit_perfect(self, source_rate: u32) -> bool {
        &&& self.backend.spec_is_hal()
        &&& self.hog_mode_acquired
        &&& (self.output_mode == OutputFormatMode::Int32 || self.output_mode
            == OutputFormatMode::Int24)
        &&& source_rate == self.config.sample_rate
    }

    /// Whether the callback is armed: from a start that succeeded to the
    /// stop.
    pub open spec fn is_running(self) -> bool {
        self.state == OutputState::Running || self.state == OutputState::Paused
    }

    /// The negotiation that starts this output with a source of `format`.
    pub open spec fn negotiation(self, format: AudioFormat) -> Negotiation {
        Negotiation {
            phase: StartPhase::Begin,
            backend: self.backend,
            device_id: self.device_id,
            exclusive_mode: self.config.exclusive_mode,
            integer_mode: self.config.integer_mode,
            buffer_frames: self.config.buffer_frames,
            source: format,
            device_rate: if self.device_id != 0 {
                optimal_sample_rate(self.config.sample_rate, self.supported_sample_rates)
            } else {
                self.config.sample_rate
            },
            hog_mode_acquired: false,
            mode: OutputFormatMode::Float32,
            device_buffer_frames: DEFAULT_DEVICE_BUFFER_FRAMES,
            layout: OutputLayout::Interleaved,
            failure: NO_ERR,
        }
    }

    /// The output after the negotiation `n` has ended: running, with what
    /// was negotiated, or stopped for good. Exclusive use that was granted
    /// is remembered either way, so that a stop gives it up.
    pub open spec fn after_start(self, n: Negotiation) -> OutputView {
        if n.phase == StartPhase::Running {
            OutputView {
                state: OutputState::Running,
                hog_mode_acquired: n.hog_mode_acquired,
                config: OutputConfig { sample_rate: n.device_rate, ..self.config },
                actual_format: n.actual_format(),
                output_mode: n.mode,
                callback_registered: true,
                ..self
            }
        } else {
            OutputView {
                state: OutputState::Stopped,
                hog_mode_acquired: n.hog_mode_acquired,
                config: OutputConfig { sample_rate: n.device_rate, ..self.config },
                ..self
            }
        }
    }

    /// What a stop of this output has to undo.
    pub open spec fn stop_plan(self) -> StopPlan {
        StopPlan {
            clear_running: self.callback_registered,
            halt_unit: self.backend.spec_is_unit(),
            halt_device: !self.backend.spec_is_unit() && self.callback_registered,
            release_hog_mode: if self.hog_mode_acquired {
                Some(self.device_id)
            } else {
                None
            },
            restore_sample_rate: if self.device_id != 0 {
                Some(self.initial_sample_rate)
            } else {
                None
            },
            release_context: true,
        }
    }

    /// The output after a stop.
    pub open spec fn after_stop(self) -> OutputView {
        OutputView {
            state: OutputState::Stopped,
            hog_mode_acquired: false,
            callback_registered: false,
            ..self
        }
    }
}

impl AudioOutput {
    fn build(
        device_id: u32,
        backend: OutputBackend,
        config: OutputConfig,
        initial_sample_rate: u32,
        supported_sample_rates: Vec<u32>,
        min_buffer_frames: u32,
        device_latency_frames: u32,
        safety_offset_frames: u32,
    ) -> (r: Self)
        ensures
            r@ == (OutputView {
                device_id,
                backend,
                config,
                initial_sample_rate,
                hog_mode_acquired: false,
                actual_format: AudioFormat {
                    sample_rate: 48000,
                    channels: 2,
                    bits_per_sample: 32,
                    layout: OutputLayout::Interleaved,
                },
                supported_sample_rates: supported_sample_rates@,
                state: OutputState::Constructed,
                output_mode: OutputFormatMode::Float32,
                callback_registered: false,
                min_buffer_frames,
                device_latency_frames,
                safety_offset_frames,
            }),
    {
        AudioOutput {
            device_id,
            backend,
            config,
            initial_sample_rate,
            hog_mode_acquired: false,
            actual_format: AudioFormat::new(48000, 2, 32),
            supported_sample_rates,
            state: OutputState::Constructed,
            output_mode: OutputFormatMode::Float32,
            callback_registered: false,
            min_buffer_frames,
            device_latency_frames,
            safety_offset_frames,
        }
    }

    /// An output on the direct callback path of `device`. The buffer size
    /// asked for is moved into the range that the device tells, or into 64
    /// to 4096 frames if it tells none.
    pub fn new_hal_ioproc(config: OutputConfig, device: &DeviceInfo, caps: DeviceCaps) -> (r: Self)
        ensures
            r@.backend == OutputBackend::HalIoProc,
            r@.device_id == device.id,
            r@.state == OutputState::Constructed,
            r@.config == (OutputConfig {
                buffer_frames: match caps.buffer_range {
                    Some((low, high)) => clamp_frames(config.buffer_frames, low, high),
                    None => clamp_frames(config.buffer_frames, 64, 4096),
                },
                ..config
            }),
            r@.initial_sample_rate == device.current_sample_rate,
            r@.supported_sample_rates == device.supported_sample_rates@,
            !r@.hog_mode_acquired,
            !r@.callback_registered,
            r@.output_mode == OutputFormatMode::Float32,
            r@.min_buffer_frames == match caps.buffer_range {
                Some((low, high)) => low,
                None => 64u32,
            },
            r@.device_latency_frames == caps.latency_frames,
            r@.safety_offset_frames == caps.safety_offset_frames,
    {
        let (low, high): (u32, u32) = match caps.buffer_range {
            Some(range) => range,
            None => (64, 4096),
        };
        let raised: u32 = if config.buffer_frames >= low { config.buffer_frames } else { low };
        let frames: u32 = if raised <= high { raised } else { high };
        Self::build(
            device.id,
            OutputBackend::HalIoProc,
            OutputConfig { buffer_frames: frames, ..config },
            device.current_sample_rate,
            copy_rates(&device.supported_sample_rates),
            low,
            caps.latency_frames,
            caps.safety_offset_frames,
        )
    }

    /// An output on an output unit bound to `device`.
    pub fn new_hal_output(config: OutputConfig, device: &DeviceInfo, caps: DeviceCaps) -> (r: Self)
        ensures
            r@.backend == OutputBackend::HalUnit,
            r@.device_id == device.id,
            r@.state == OutputState::Constructed,
            r@.config == config,
            r@.initial_sample_rate == device.current_sample_rate,
            r@.supported_sample_rates == device.supported_sample_rates@,
            !r@.hog_mode_acquired,
            !r@.callback_registered,
            r@.output_mode == OutputFormatMode::Float32,
            r@.min_buffer_frames == match caps.buffer_range {
                Some((low, high)) => low,
                None => 64u32,
            },
            r@.device_latency_frames == caps.latency_frames,
            r@.safety_offset_frames == caps.safety_offset_frames,
    {
        let low: u32 = match caps.buffer_range {
            Some(range) => range.0,
            None => 64,
        };
        Self::build(
            device.id,
            OutputBackend::HalUnit,
            config,
            device.current_sample_rate,
            copy_rates(&device.supported_sample_rates),
            low,
            caps.latency_frames,
            caps.safety_offset_frames,
        )
    }

    /// An output on the default output unit: no device is named, and the
    /// mixer is taken to run at 44.1 or 48 kHz.
    pub fn new_default_output(config: OutputConfig) -> (r: Self)
        ensures
            r@.backend == OutputBackend::DefaultUnit,
            r@.device_id == 0,
            r@.state == OutputState::Constructed,
            r@.config == config,
            r@.initial_sample_rate == 48000,
            r@.supported_sample_rates == seq![44100u32, 48000u32],
            !r@.hog_mode_acquired,
            !r@.callback_registered,
            r@.output_mode == OutputFormatMode::Float32,
            r@.min_buffer_frames == 512,
            r@.device_latency_frames == 0,
            r@.safety_offset_frames == 0,
    {
        Self::build(
            0,
            OutputBackend::DefaultUnit,
            config,
            48000,
            crate::audio::device::default_sample_rates(),
            512,
            0,
            0,
        )
    }

    /// Begins a start with a source of `format`: the device rate is
    /// chosen, and the negotiation is ready for its first
    /// [`advance`](Negotiation::advance). Only an output that was never
    /// started can start.
    pub fn begin_start(&self, format: AudioFormat) -> (r: Result<Negotiation, OutputError>)
        ensures
            r is Ok <==> self@.state == OutputState::Constructed,
            r matches Ok(n) ==> n == self@.negotiation(format),
            r matches Err(e) ==> e is InvalidState,
    {
        match self.state {
            OutputState::Constructed => {
                let device_rate: u32 = if self.device_id != 0 {
                    select_optimal_sample_rate(
                        self.config.sample_rate,
                        self.supported_sample_rates.as_slice(),
                    )
                } else {
                    self.config.sample_rate
                };
                Ok(
                    Negotiation {
                        phase: StartPhase::Begin,
                        backend: self.backend,
                        device_id: self.device_id,
                        exclusive_mode: self.config.exclusive_mode,
                        integer_mode: self.config.integer_mode,
                        buffer_frames: self.config.buffer_frames,
                        source: format,
                        device_rate,
                        hog_mode_acquired: false,
                        mode: OutputFormatMode::Float32,
                        device_buffer_frames: DEFAULT_DEVICE_BUFFER_FRAMES,
                        layout: OutputLayout::Interleaved,
                        failure: NO_ERR,
                    },
                )
            },
            _ => Err(OutputError::InvalidState("output was started before")),
        }
    }

    /// Ends a start: takes over what the negotiation `n` has settled. The
    /// output runs if the negotiation ended well; if it failed, the output
    /// is stopped for good and the error tells the status of the service.
    /// A negotiation that is not over, or an output that is not waiting to
    /// be started, changes nothing.
    pub fn complete_start(&mut self, n: &Negotiation) -> (r: Result<(), OutputError>)
        ensures
            r is Ok <==> old(self)@.state == OutputState::Constructed && n.phase
                == StartPhase::Running,
            old(self)@.state == OutputState::Constructed && n.is_over() ==> final(self)@ == old(self)@.after_start(*n),
            !(old(self)@.state == OutputState::Constructed && n.is_over()) ==> final(self)@ == old(self)@ && (r matches Err(e) && e is InvalidState),
            old(self)@.state == OutputState::Constructed && n.phase == StartPhase::Failed ==> r
                == Err::<(), OutputError>(OutputError::AudioUnitFailed(n.failure)),
    {
        match self.state {
            OutputState::Constructed => {},
            _ => {
                return Err(OutputError::InvalidState("output was started before"));
            },
        }
        match n.phase {
            StartPhase::Running => {
                self.state = OutputState::Running;
                self.hog_mode_acquired = n.hog_mode_acquired;
                self.config = OutputConfig { sample_rate: n.device_rate, ..self.config };
                self.actual_format = AudioFormat {
                    sample_rate: n.device_rate,
                    channels: n.source.channels,
                    bits_per_sample: n.source.bits_per_sample,
                    layout: n.layout,
                };
                self.output_mode = n.mode;
                self.callback_registered = true;
                Ok(())
            },
            StartPhase::Failed => {
                self.state = OutputState::Stopped;
                self.hog_mode_acquired = n.hog_mode_acquired;
                self.config = OutputConfig { sample_rate: n.device_rate, ..self.config };
                Err(OutputError::AudioUnitFailed(n.failure))
            },
            _ => Err(OutputError::InvalidState("start is not over")),
        }
    }

    /// Whether a pause has to halt the device: only a running output is
    /// halted. Pausing an output that is paused, or not running, is no
    /// error and does nothing.
    pub fn wants_pause(&self) -> (r: bool)
        ensures
            r == (self@.state == OutputState::Running),
    {
        match self.state {
            OutputState::Running => true,
            _ => false,
        }
    }

    /// Takes in the status of the halt that [`wants_pause`](Self::wants_pause)
    /// called for. The callback stays registered.
    pub fn pause(&mut self, status: i32) -> (r: Result<(), OutputError>)
        ensures
            old(self)@.state != OutputState::Running ==> r is Ok && final(self)@ == old(self)@,
            old(self)@.state == OutputState::Running && status == NO_ERR ==> r is Ok && final(self)@ == (OutputView { state: OutputState::Paused, ..old(self)@ }),
            old(self)@.state == OutputState::Running && status != NO_ERR ==> r == Err::<
                (),
                OutputError,
            >(OutputError::AudioUnitFailed(status)) && final(self)@ == old(self)@,
    {
        match self.state {
            OutputState::Running => {
                if status != NO_ERR {
                    Err(OutputError::AudioUnitFailed(status))
                } else {
                    self.state = OutputState::Paused;
                    Ok(())
                }
            },
            _ => Ok(()),
        }
    }

    /// Whether a resume has to restart the device: only a paused output is
    /// restarted.
    pub fn wants_resume(&self) -> (r: bool)
        ensures
            r == (self@.state == OutputState::Paused),
    {
        match self.state {
            OutputState::Paused => true,
            _ => false,
        }
    }

    /// Takes in the status of the restart that
    /// [`wants_resume`](Self::wants_resume) called for.
    pub fn resume(&mut self, status: i32) -> (r: Result<(), OutputError>)
        ensures
            old(self)@.state != OutputState::Paused ==> r is Ok && final(self)@ == old(self)@,
            old(self)@.state == OutputState::Paused && status == NO_ERR ==> r is Ok && final(self)@ == (OutputView { state: OutputState::Running, ..old(self)@ }),
            old(self)@.state == OutputState::Paused && status != NO_ERR ==> r == Err::<
                (),
                OutputError,
            >(OutputError::AudioUnitFailed(status)) && final(self)@ == old(self)@,
    {
        match self.state {
            OutputState::Paused => {
                if status != NO_ERR {
                    Err(OutputError::AudioUnitFailed(status))
                } else {
                    self.state = OutputState::Running;
                    Ok(())
                }
            },
            _ => Ok(()),
        }
    }

    /// Whether the output is paused.
    pub fn is_paused(&self) -> (r: bool)
        ensures
            r == (self@.state == OutputState::Paused),
    {
        match self.state {
            OutputState::Paused => true,
            _ => false,
        }
    }

    /// Stops the output, from any state, and tells what the caller has to
    /// undo. None of it can fail the stop. A second stop finds less to
    /// undo and leaves the output as it is.
    pub fn stop(&mut self) -> (plan: StopPlan)
        ensures
            plan == old(self)@.stop_plan(),
            final(self)@ == old(self)@.after_stop(),
    {
        let is_unit: bool = self.backend.is_unit();
        let plan = StopPlan {
            clear_running: self.callback_registered,
            halt_unit: is_unit,
            halt_device: !is_unit && self.callback_registered,
            release_hog_mode: if self.hog_mode_acquired {
                Some(self.device_id)
            } else {
                None
            },
            restore_sample_rate: if self.device_id != 0 {
                Some(self.initial_sample_rate)
            } else {
                None
            },
            release_context: true,
        };
        self.hog_mode_acquired = false;
        self.callback_registered = false;
        self.state = OutputState::Stopped;
        plan
    }

    /// Whether the callback is armed.
    pub fn is_running(&self) -> (r: bool)
        ensures
            r == self@.is_running(),
    {
        match self.state {
            OutputState::Running => true,
            OutputState::Paused => true,
            _ => false,
        }
    }

    /// The state of the output.
    pub fn state(&self) -> (r: OutputState)
        ensures
            r == self@.state,
    {
        self.state
    }

    /// The format that the device runs at.
    pub fn actual_format(&self) -> (r: AudioFormat)
        ensures
            r == self@.actual_format,
    {
        self.actual_format
    }

    /// The sample format of the device buffer.
    pub fn output_mode(&self) -> (r: OutputFormatMode)
        ensures
            r == self@.output_mode,
    {
        self.output_mode
    }

    /// The backend.
    pub fn backend(&self) -> (r: OutputBackend)
        ensures
            r == self@.backend,
    {
        self.backend
    }

    /// The configuration, with the sample rate that the device was set to
    /// once the output has started.
    pub fn config(&self) -> (r: OutputConfig)
        ensures
            r == self@.config,
    {
        self.config
    }

    /// Whether the output goes past the mixer.
    pub fn is_hal_output(&self) -> (r: bool)
        ensures
            r == self@.backend.spec_is_hal(),
    {
        self.backend.is_hal()
    }

    /// Whether the output has exclusive use of its device.
    pub fn is_exclusive_mode(&self) -> (r: bool)
        ensures
            r == self@.hog_mode_acquired,
    {
        self.hog_mode_acquired
    }

    /// The device; 0 for the default output.
    pub fn device_id(&self) -> (r: u32)
        ensures
            r == self@.device_id,
    {
        self.device_id
    }

    /// The rate that the device would run at for a source of
    /// `requested_rate`: what tells, before a start, whether the audio
    /// service will have to convert.
    pub fn target_sample_rate(&self, requested_rate: u32) -> (r: u32)
        ensures
            r == optimal_sample_rate(requested_rate, self@.supported_sample_rates),
    {
        select_optimal_sample_rate(requested_rate, self.supported_sample_rates.as_slice())
    }

    /// Whether the output delivers the bits of a source of `source_rate`.
    pub fn is_bit_perfect(&self, source_rate: u32) -> (r: bool)
        ensures
            r == self@.is_bit_perfect(source_rate),
    {
        let integer: bool = match self.output_mode {
            OutputFormatMode::Float32 => false,
            _ => true,
        };
        self.backend.is_hal() && self.hog_mode_acquired && integer && source_rate
            == self.config.sample_rate
    }
}

/// A copy of a list of rates.
fn copy_rates(rates: &Vec<u32>) -> (r: Vec<u32>)
    ensures
        r@ == rates@,
{
    let mut r: Vec<u32> = Vec::new();
    let mut i: usize = 0;
    while i < rates.len()
        invariant
            i <= rates@.len(),
            r@ == rates@.take(i as int),
        decreases rates@.len() - i,
    {
        r.push(rates[i]);
        assert(r@ =~= rates@.take(i + 1));
        i += 1;
    }
    assert(rates@.take(rates@.len() as int) =~= rates@);
    r
}

/// The mixer never delivers the bits of the source, and neither does an
/// output without exclusive use of its device, nor one in the
/// floating-point mode, nor one whose device runs at another rate than the
/// source.
pub proof fn lemma_bit_perfect_needs_all(v: OutputView, source_rate: u32)
    requires
        v.is_bit_perfect(source_rate),
    ensures
        v.backend != OutputBackend::DefaultUnit,
        v.hog_mode_acquired,
        v.output_mode != OutputFormatMode::Float32,
        v.config.sample_rate == source_rate,
{
}

/// A stop can be repeated: after a stop the output is stopped, holds no
/// exclusive use and has no callback armed, and another stop changes
/// nothing more.
pub proof fn lemma_stop_is_idempotent(v: OutputView)
    ensures
        v.after_stop().after_stop() == v.after_stop(),
        v.after_stop().state == OutputState::Stopped,
        !v.after_stop().is_running(),
        v.after_stop().stop_plan().release_hog_mode is None,
        !v.after_stop().stop_plan().clear_running,
        !v.after_stop().stop_plan().halt_device,
{
}

} // verus!