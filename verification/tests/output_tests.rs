use hifi_replayer::audio::device::DeviceInfo;
use hifi_replayer::audio::format::{AudioFormat, OutputLayout};
use hifi_replayer::audio::output::{
    after_backend_attempt, first_backend, AudioOutput, BackendAttempt, ConstructionStep,
    DeviceCaps, Negotiation, OutputBackend, OutputConfig, OutputError, OutputState, RateAction,
    RateChange, RateOutcome, StartAction, StartPhase, StartReply,
};
use hifi_replayer::audio::render::OutputFormatMode;
use hifi_replayer::audio::stream_format::{
    StreamDescription, FORMAT_FLAG_IS_FLOAT, FORMAT_FLAG_IS_NON_INTERLEAVED, FORMAT_FLAG_IS_PACKED,
    FORMAT_FLAG_IS_SIGNED_INTEGER, FORMAT_LINEAR_PCM,
};

fn ok() -> StartReply {
    StartReply { status: 0, value: None, format: None }
}

fn failed(status: i32) -> StartReply {
    StartReply { status, value: None, format: None }
}

fn number(value: u32) -> StartReply {
    StartReply { status: 0, value: Some(value), format: None }
}

fn read_back(format: StreamDescription) -> StartReply {
    StartReply { status: 0, value: None, format: Some(format) }
}

fn wired(rates: Vec<u32>) -> DeviceInfo {
    DeviceInfo::from_answers(42, String::from("DAC"), Some(rates), Some(48000), Some(0x75736220))
}

fn caps() -> DeviceCaps {
    DeviceCaps { buffer_range: Some((32, 2048)), latency_frames: 20, safety_offset_frames: 10 }
}

#[test]
fn output_config_default() {
    let config = OutputConfig::default();
    assert_eq!(config.sample_rate, 48000);
    assert_eq!(config.buffer_frames, 512);
    assert!(config.exclusive_mode);
    assert!(config.integer_mode);
    assert!(config.use_hal);
    assert_eq!(config.device_id, None);
}

#[test]
fn backend_selection() {
    assert_eq!(first_backend(true, false), OutputBackend::HalIoProc);
    assert_eq!(first_backend(true, true), OutputBackend::DefaultUnit);
    assert_eq!(first_backend(false, false), OutputBackend::DefaultUnit);
    assert_eq!(first_backend(false, true), OutputBackend::DefaultUnit);
    assert!(matches!(
        after_backend_attempt(OutputBackend::HalIoProc, BackendAttempt::Created),
        ConstructionStep::Use(OutputBackend::HalIoProc)
    ));
    assert!(matches!(
        after_backend_attempt(OutputBackend::HalIoProc, BackendAttempt::Failed(-1)),
        ConstructionStep::Try(OutputBackend::HalUnit)
    ));
    assert!(matches!(
        after_backend_attempt(OutputBackend::HalUnit, BackendAttempt::ComponentMissing),
        ConstructionStep::Try(OutputBackend::DefaultUnit)
    ));
    assert!(matches!(
        after_backend_attempt(OutputBackend::HalUnit, BackendAttempt::Failed(-50)),
        ConstructionStep::Try(OutputBackend::DefaultUnit)
    ));
    assert!(matches!(
        after_backend_attempt(OutputBackend::DefaultUnit, BackendAttempt::ComponentMissing),
        ConstructionStep::Fail(OutputError::NoAudioComponent)
    ));
    assert!(matches!(
        after_backend_attempt(OutputBackend::DefaultUnit, BackendAttempt::Failed(-50)),
        ConstructionStep::Fail(OutputError::AudioUnitFailed(-50))
    ));
    assert!(OutputBackend::HalUnit.is_unit());
    assert!(!OutputBackend::HalIoProc.is_unit());
    assert!(OutputBackend::HalIoProc.is_hal());
    assert!(!OutputBackend::DefaultUnit.is_hal());
}

#[test]
fn constructors() {
    let device = wired(vec![44100, 48000]);
    let config = OutputConfig { buffer_frames: 16, ..OutputConfig::default() };
    let out = AudioOutput::new_hal_ioproc(config, &device, caps());
    assert_eq!(out.backend(), OutputBackend::HalIoProc);
    assert_eq!(out.device_id(), 42);
    assert_eq!(out.state(), OutputState::Constructed);
    // the buffer size is moved into the range of the device
    assert_eq!(out.config().buffer_frames, 32);
    assert!(out.is_hal_output());
    assert!(!out.is_exclusive_mode());
    assert!(!out.is_running());
    assert!(!out.is_paused());
    assert_eq!(out.actual_format(), AudioFormat::new(48000, 2, 32));
    let big = OutputConfig { buffer_frames: 100_000, ..OutputConfig::default() };
    assert_eq!(AudioOutput::new_hal_ioproc(big, &device, caps()).config().buffer_frames, 2048);
    let silent = DeviceCaps { buffer_range: None, latency_frames: 0, safety_offset_frames: 0 };
    assert_eq!(AudioOutput::new_hal_ioproc(big, &device, silent).config().buffer_frames, 4096);
    assert_eq!(AudioOutput::new_hal_ioproc(config, &device, silent).config().buffer_frames, 64);
    let unit = AudioOutput::new_hal_output(config, &device, caps());
    assert_eq!(unit.backend(), OutputBackend::HalUnit);
    assert_eq!(unit.config().buffer_frames, 16);
    let mixer = AudioOutput::new_default_output(config);
    assert_eq!(mixer.backend(), OutputBackend::DefaultUnit);
    assert_eq!(mixer.device_id(), 0);
    assert!(!mixer.is_hal_output());
    assert_eq!(mixer.target_sample_rate(96000), 48000);
    assert_eq!(out.target_sample_rate(88200), 44100);
}

#[test]
fn cd_file_on_a_wired_device_is_bit_perfect() {
    let device = wired(vec![44100, 48000]);
    let config = OutputConfig { sample_rate: 44100, ..OutputConfig::default() };
    let mut out = AudioOutput::new_hal_ioproc(config, &device, caps());
    let source = AudioFormat::new(44100, 2, 16);
    let mut n = out.begin_start(source).unwrap();
    assert_eq!(n.device_rate, 44100);
    assert!(matches!(n.advance(ok()), StartAction::AcquireHogMode { device_id: 42 }));
    assert!(matches!(
        n.advance(ok()),
        StartAction::ApplySampleRate { device_id: 42, rate: 44100 }
    ));
    assert!(matches!(n.advance(ok()), StartAction::SetBufferSize { device_id: 42, frames: 512 }));
    assert!(matches!(n.advance(ok()), StartAction::FindOutputStream { device_id: 42 }));
    let asked = match n.advance(number(77)) {
        StartAction::SetPhysicalFormat(d) => d,
        other => panic!("expected a physical format, got {:?}", other),
    };
    assert_eq!(asked, StreamDescription::pcm(OutputFormatMode::Int32, 44100, 2));
    assert!(matches!(n.advance(read_back(asked)), StartAction::QueryBufferSize { device_id: 42 }));
    let plan = match n.advance(number(512)) {
        StartAction::RegisterCallback(plan) => plan,
        other => panic!("expected the registration, got {:?}", other),
    };
    assert_eq!(plan.mode, OutputFormatMode::Int32);
    assert_eq!(plan.scratch_len, 8192 * 2);
    assert_eq!(plan.buffer_frames, 512);
    assert_eq!(plan.source_bits, 16);
    assert_eq!(plan.format, AudioFormat::new(44100, 2, 16));
    assert!(matches!(n.advance(ok()), StartAction::Launch));
    assert!(matches!(n.advance(ok()), StartAction::Finished));
    assert_eq!(n.phase, StartPhase::Running);
    assert!(matches!(n.advance(ok()), StartAction::Finished));
    assert!(out.complete_start(&n).is_ok());
    assert_eq!(out.state(), OutputState::Running);
    assert!(out.is_running());
    assert!(out.is_exclusive_mode());
    assert_eq!(out.output_mode(), OutputFormatMode::Int32);
    assert!(out.is_bit_perfect(44100));
    assert!(!out.is_bit_perfect(48000));
    assert_eq!(out.actual_format().sample_rate, 44100);
    // a running output is not started again
    assert!(matches!(out.begin_start(source), Err(OutputError::InvalidState(_))));
}

#[test]
fn high_rate_file_on_a_48k_device_is_converted() {
    let device = wired(vec![44100, 48000]);
    let config = OutputConfig { sample_rate: 96000, ..OutputConfig::default() };
    let mut out = AudioOutput::new_hal_ioproc(config, &device, caps());
    assert_eq!(out.target_sample_rate(96000), 48000);
    let mut n = out.begin_start(AudioFormat::new(96000, 2, 24)).unwrap();
    assert_eq!(n.device_rate, 48000);
    assert!(matches!(n.advance(ok()), StartAction::AcquireHogMode { .. }));
    assert!(matches!(n.advance(ok()), StartAction::ApplySampleRate { rate: 48000, .. }));
    assert!(matches!(n.advance(ok()), StartAction::SetBufferSize { .. }));
    // the rates differ: no physical format is tried, the mode is float
    assert!(matches!(n.advance(ok()), StartAction::QueryBufferSize { .. }));
    let plan = match n.advance(failed(-1)) {
        StartAction::RegisterCallback(plan) => plan,
        other => panic!("expected the registration, got {:?}", other),
    };
    assert_eq!(plan.mode, OutputFormatMode::Float32);
    assert_eq!(plan.format.sample_rate, 48000);
    // a device that will not tell its buffer size is taken at 512 frames
    assert_eq!(plan.buffer_frames, 512);
    assert!(matches!(n.advance(ok()), StartAction::Launch));
    assert!(matches!(n.advance(ok()), StartAction::Finished));
    assert!(out.complete_start(&n).is_ok());
    assert!(!out.is_bit_perfect(96000));
    assert!(!out.is_bit_perfect(48000));
    assert_eq!(out.config().sample_rate, 48000);
}

#[test]
fn bluetooth_goes_through_the_mixer_in_float() {
    let backend = first_backend(true, true);
    assert_eq!(backend, OutputBackend::DefaultUnit);
    let config = OutputConfig { sample_rate: 44100, ..OutputConfig::default() };
    let mut out = AudioOutput::new_default_output(config);
    let mut n = out.begin_start(AudioFormat::new(44100, 2, 16)).unwrap();
    // no device is named: nothing is asked of one, exclusive use least of all
    assert!(matches!(n.advance(ok()), StartAction::EnableIo));
    let asked = match n.advance(failed(-10851)) {
        StartAction::SetUnitFormat(d) => d,
        other => panic!("expected a unit format, got {:?}", other),
    };
    assert_eq!(asked, StreamDescription::pcm(OutputFormatMode::Float32, 44100, 2));
    assert!(matches!(n.advance(failed(-1)), StartAction::QueryLayout));
    let plan = match n.advance(ok()) {
        StartAction::RegisterCallback(plan) => plan,
        other => panic!("expected the registration, got {:?}", other),
    };
    assert_eq!(plan.mode, OutputFormatMode::Float32);
    assert_eq!(plan.buffer_frames, 4096);
    assert_eq!(plan.scratch_len, 8192 * 2);
    assert!(matches!(n.advance(ok()), StartAction::InitializeUnit));
    assert!(matches!(n.advance(ok()), StartAction::Launch));
    assert!(matches!(n.advance(ok()), StartAction::Finished));
    assert!(out.complete_start(&n).is_ok());
    assert!(!n.hog_mode_acquired);
    assert!(!out.is_exclusive_mode());
    assert!(!out.is_hal_output());
    assert_eq!(out.output_mode(), OutputFormatMode::Float32);
    assert!(!out.is_bit_perfect(44100));
}

#[test]
fn unit_falls_back_from_physical_to_integer_to_float() {
    let device = wired(vec![48000]);
    let config = OutputConfig { sample_rate: 48000, ..OutputConfig::default() };
    let out = AudioOutput::new_hal_output(config, &device, caps());
    let source = AudioFormat::new(48000, 2, 24);
    let mut n = out.begin_start(source).unwrap();
    assert!(matches!(n.advance(ok()), StartAction::AcquireHogMode { .. }));
    // exclusive use refused: the start goes on in shared mode
    assert!(matches!(n.advance(failed(560492391)), StartAction::ApplySampleRate { .. }));
    assert!(!n.hog_mode_acquired);
    assert!(matches!(n.advance(ok()), StartAction::SetBufferSize { .. }));
    assert!(matches!(n.advance(failed(-1)), StartAction::BindDevice { device_id: 42 }));
    assert!(matches!(n.advance(failed(-1)), StartAction::EnableIo));
    assert!(matches!(n.advance(failed(-1)), StartAction::FindOutputStream { .. }));
    assert!(matches!(n.advance(number(9)), StartAction::SetPhysicalFormat(d) if d.bits_per_channel == 32));
    // set went through, but the device reads back 24 bits
    let int24 = StreamDescription::pcm(OutputFormatMode::Int24, 48000, 2);
    assert!(matches!(n.advance(read_back(int24)), StartAction::SetPhysicalFormat(d) if d.bits_per_channel == 24));
    // refused
    assert!(matches!(
        n.advance(StartReply { status: -1, value: None, format: Some(int24) }),
        StartAction::SetUnitFormat(d) if d.bits_per_channel == 32 && d.format_flags == 12
    ));
    assert!(matches!(n.advance(failed(-1)), StartAction::SetUnitFormat(d) if d.bits_per_channel == 24));
    assert!(matches!(n.advance(failed(-1)), StartAction::SetUnitFormat(d) if d.format_flags == 9));
    assert!(matches!(n.advance(failed(-1)), StartAction::QueryBufferSize { .. }));
    assert_eq!(n.mode, OutputFormatMode::Float32);
    assert!(matches!(n.advance(number(16384)), StartAction::QueryLayout));
    let planar = StreamDescription {
        format_flags: FORMAT_FLAG_IS_FLOAT | FORMAT_FLAG_IS_NON_INTERLEAVED,
        ..StreamDescription::pcm(OutputFormatMode::Float32, 48000, 2)
    };
    let plan = match n.advance(read_back(planar)) {
        StartAction::RegisterCallback(plan) => plan,
        other => panic!("expected the registration, got {:?}", other),
    };
    assert_eq!(plan.format.layout, OutputLayout::NonInterleaved);
    assert_eq!(plan.scratch_len, 16384 * 2);
    assert_eq!(plan.buffer_frames, 16384);
}

#[test]
fn unit_takes_the_24_bit_physical_format() {
    let device = wired(vec![48000]);
    let out = AudioOutput::new_hal_output(OutputConfig::default(), &device, caps());
    let mut n = out.begin_start(AudioFormat::new(48000, 2, 24)).unwrap();
    for _ in 0..6 {
        n.advance(ok());
    }
    assert_eq!(n.phase, StartPhase::StreamId);
    n.advance(number(1));
    n.advance(failed(-1));
    assert_eq!(n.phase, StartPhase::PhysicalInt24);
    let int24 = StreamDescription::pcm(OutputFormatMode::Int24, 48000, 2);
    assert!(matches!(n.advance(read_back(int24)), StartAction::QueryBufferSize { .. }));
    assert_eq!(n.mode, OutputFormatMode::Int24);
}

#[test]
fn unit_without_a_stream_asks_the_unit() {
    let device = wired(vec![48000]);
    let out = AudioOutput::new_hal_output(OutputConfig::default(), &device, caps());
    let mut n = out.begin_start(AudioFormat::new(48000, 2, 16)).unwrap();
    for _ in 0..6 {
        n.advance(ok());
    }
    // no stream found
    assert!(matches!(n.advance(ok()), StartAction::SetUnitFormat(_)));
    assert!(matches!(n.advance(ok()), StartAction::QueryBufferSize { .. }));
    assert_eq!(n.mode, OutputFormatMode::Int32);
    let mut m = out.begin_start(AudioFormat::new(48000, 2, 16)).unwrap();
    for _ in 0..7 {
        m.advance(ok());
    }
    m.advance(failed(-1));
    assert_eq!(m.phase, StartPhase::UnitInt24);
    m.advance(ok());
    assert_eq!(m.mode, OutputFormatMode::Int24);
}

#[test]
fn integer_mode_switched_off_asks_for_float() {
    let device = wired(vec![48000]);
    let config = OutputConfig { integer_mode: false, exclusive_mode: false, ..OutputConfig::default() };
    let out = AudioOutput::new_hal_output(config, &device, caps());
    let mut n = out.begin_start(AudioFormat::new(48000, 2, 16)).unwrap();
    assert!(matches!(n.advance(ok()), StartAction::ApplySampleRate { .. }));
    n.advance(ok());
    n.advance(ok());
    assert!(matches!(n.advance(ok()), StartAction::EnableIo));
    assert!(matches!(n.advance(ok()), StartAction::SetUnitFormat(d) if d.format_flags == 9));
}

#[test]
fn start_failures_carry_the_status() {
    let device = wired(vec![48000]);
    // registration fails on the direct path
    let mut out = AudioOutput::new_hal_ioproc(OutputConfig::default(), &device, caps());
    let mut n = out.begin_start(AudioFormat::new(48000, 2, 16)).unwrap();
    while n.phase != StartPhase::Register {
        n.advance(ok());
    }
    assert!(matches!(n.advance(failed(-66)), StartAction::Failed(OutputError::AudioUnitFailed(-66))));
    assert_eq!(n.phase, StartPhase::Failed);
    assert!(matches!(n.advance(ok()), StartAction::Failed(OutputError::AudioUnitFailed(-66))));
    assert!(matches!(out.complete_start(&n), Err(OutputError::AudioUnitFailed(-66))));
    assert_eq!(out.state(), OutputState::Stopped);
    // exclusive use that was granted is given up by the stop
    let plan = out.stop();
    assert_eq!(plan.release_hog_mode, Some(42));
    assert!(!plan.halt_device);

    // the device will not start: the callback is taken back first
    let out = AudioOutput::new_hal_ioproc(OutputConfig::default(), &device, caps());
    let mut n = out.begin_start(AudioFormat::new(48000, 2, 16)).unwrap();
    while n.phase != StartPhase::Launch {
        n.advance(ok());
    }
    assert!(matches!(n.advance(failed(-7)), StartAction::UnregisterCallback { device_id: 42 }));
    assert!(matches!(n.advance(ok()), StartAction::Failed(OutputError::AudioUnitFailed(-7))));

    // a unit that will not initialize, and one that will not start
    let out = AudioOutput::new_hal_output(OutputConfig::default(), &device, caps());
    let mut n = out.begin_start(AudioFormat::new(48000, 2, 16)).unwrap();
    while n.phase != StartPhase::Initialize {
        n.advance(ok());
    }
    assert!(matches!(n.advance(failed(-8)), StartAction::Failed(OutputError::AudioUnitFailed(-8))));
    let mut n = out.begin_start(AudioFormat::new(48000, 2, 16)).unwrap();
    while n.phase != StartPhase::Launch {
        n.advance(ok());
    }
    assert!(matches!(n.advance(failed(-9)), StartAction::Failed(OutputError::AudioUnitFailed(-9))));
}

#[test]
fn unfinished_start_is_not_taken_over() {
    let device = wired(vec![48000]);
    let mut out = AudioOutput::new_hal_ioproc(OutputConfig::default(), &device, caps());
    let mut n: Negotiation = out.begin_start(AudioFormat::new(48000, 2, 16)).unwrap();
    n.advance(ok());
    assert!(matches!(out.complete_start(&n), Err(OutputError::InvalidState(_))));
    assert_eq!(out.state(), OutputState::Constructed);
}

fn running_output() -> AudioOutput {
    let device = wired(vec![48000]);
    let mut out = AudioOutput::new_hal_output(OutputConfig::default(), &device, caps());
    let mut n = out.begin_start(AudioFormat::new(48000, 2, 16)).unwrap();
    while n.phase != StartPhase::Running {
        n.advance(ok());
    }
    out.complete_start(&n).unwrap();
    out
}

#[test]
fn pause_resume_stop() {
    let mut out = running_output();
    assert!(!out.wants_resume());
    assert!(out.resume(0).is_ok());
    assert_eq!(out.state(), OutputState::Running);
    assert!(out.wants_pause());
    assert!(matches!(out.pause(-3), Err(OutputError::AudioUnitFailed(-3))));
    assert_eq!(out.state(), OutputState::Running);
    assert!(out.pause(0).is_ok());
    assert!(out.is_paused());
    assert!(out.is_running());
    // pausing twice is no error and asks for no call
    assert!(!out.wants_pause());
    assert!(out.pause(-3).is_ok());
    assert!(out.wants_resume());
    assert!(matches!(out.resume(-4), Err(OutputError::AudioUnitFailed(-4))));
    assert!(out.is_paused());
    assert!(out.resume(0).is_ok());
    assert_eq!(out.state(), OutputState::Running);

    let plan = out.stop();
    assert!(plan.clear_running);
    assert!(plan.halt_unit);
    assert!(!plan.halt_device);
    assert_eq!(plan.release_hog_mode, Some(42));
    assert_eq!(plan.restore_sample_rate, Some(48000));
    assert!(plan.release_context);
    assert_eq!(out.state(), OutputState::Stopped);
    assert!(!out.is_running());
    assert!(!out.is_exclusive_mode());
    assert!(!out.is_bit_perfect(48000));
    // a second stop finds less to undo
    let again = out.stop();
    assert!(!again.clear_running);
    assert_eq!(again.release_hog_mode, None);
    assert_eq!(out.state(), OutputState::Stopped);
    // stopped is the end
    assert!(!out.wants_pause());
    assert!(!out.wants_resume());
    assert!(matches!(out.begin_start(AudioFormat::new(48000, 2, 16)), Err(OutputError::InvalidState(_))));
}

#[test]
fn stop_of_the_mixer_restores_no_rate() {
    let mut out = AudioOutput::new_default_output(OutputConfig::default());
    let plan = out.stop();
    assert_eq!(plan.restore_sample_rate, None);
    assert_eq!(plan.release_hog_mode, None);
    assert!(plan.halt_unit);
    assert!(!plan.clear_running);
}

#[test]
fn rate_change_already_set() {
    let mut c = RateChange::new(44100);
    assert_eq!(c.advance(ok()), RateAction::ReadRate);
    // within one hertz
    assert_eq!(c.advance(number(44101)), RateAction::Finished(RateOutcome::AlreadySet));
    assert_eq!(c.advance(ok()), RateAction::Finished(RateOutcome::AlreadySet));
    // a device that will not tell is taken to run at 48 kHz
    let mut c = RateChange::new(48000);
    c.advance(ok());
    assert_eq!(c.advance(failed(-1)), RateAction::Finished(RateOutcome::AlreadySet));
}

#[test]
fn rate_change_verified_after_retries() {
    let mut c = RateChange::new(96000);
    assert_eq!(c.advance(ok()), RateAction::ReadRate);
    assert_eq!(
        c.advance(number(48000)),
        RateAction::SetRate { rate: 96000, global_scope: false }
    );
    assert_eq!(c.advance(ok()), RateAction::WaitThenReadRate { millis: 20 });
    assert_eq!(c.advance(number(48000)), RateAction::WaitThenReadRate { millis: 20 });
    assert_eq!(c.advance(failed(-1)), RateAction::WaitThenReadRate { millis: 20 });
    assert_eq!(c.advance(number(95999)), RateAction::Finished(RateOutcome::Verified(3)));
}

#[test]
fn rate_change_refused_or_unverified() {
    let mut c = RateChange::new(96000);
    c.advance(ok());
    c.advance(number(48000));
    assert_eq!(c.advance(failed(-1)), RateAction::SetRate { rate: 96000, global_scope: true });
    assert_eq!(c.advance(failed(-2)), RateAction::Finished(RateOutcome::Refused(-2)));

    let mut c = RateChange::new(96000);
    c.advance(ok());
    c.advance(number(48000));
    c.advance(failed(-1));
    assert_eq!(c.advance(ok()), RateAction::WaitThenReadRate { millis: 20 });
    for _ in 0..9 {
        assert_eq!(c.advance(number(48000)), RateAction::WaitThenReadRate { millis: 20 });
    }
    // the tenth reading still differs: taken on trust
    assert_eq!(c.advance(number(96002)), RateAction::Finished(RateOutcome::Unverified));
}

#[test]
fn stream_descriptions() {
    let d = StreamDescription::pcm(OutputFormatMode::Int24, 96000, 2);
    assert_eq!(d.sample_rate, 96000);
    assert_eq!(d.format_id, FORMAT_LINEAR_PCM);
    assert_eq!(d.format_flags, FORMAT_FLAG_IS_SIGNED_INTEGER | FORMAT_FLAG_IS_PACKED);
    assert_eq!(d.bytes_per_packet, 6);
    assert_eq!(d.frames_per_packet, 1);
    assert_eq!(d.bytes_per_frame, 6);
    assert_eq!(d.channels_per_frame, 2);
    assert_eq!(d.bits_per_channel, 24);
    assert!(!d.is_non_interleaved());
    assert!(d.confirms(OutputFormatMode::Int24));
    assert!(!d.confirms(OutputFormatMode::Int32));
    let f = StreamDescription::pcm(OutputFormatMode::Float32, 44100, 6);
    assert_eq!(f.format_flags, FORMAT_FLAG_IS_FLOAT | FORMAT_FLAG_IS_PACKED);
    assert_eq!(f.bytes_per_frame, 24);
    assert_eq!(f.bits_per_channel, 32);
    // 32 bits, but float: does not confirm the integer mode
    assert!(!f.confirms(OutputFormatMode::Int32));
    assert!(!f.confirms(OutputFormatMode::Float32));
    let i = StreamDescription::pcm(OutputFormatMode::Int32, 44100, 1);
    assert!(i.confirms(OutputFormatMode::Int32));
    assert_eq!(i.bytes_per_frame, 4);
    let planar = StreamDescription { format_flags: 32 | 4, ..i };
    assert!(planar.is_non_interleaved());
}
