use hifi_replayer::audio::dither::DitherState;
use hifi_replayer::audio::format::{AudioFormat, OutputLayout};
use hifi_replayer::audio::render::{
    fill_silence, realtime_thread_policy, render_int32, samples_for_buffer, valid_host_time,
    CallbackContext, CallbackEntry, OutputFormatMode, ThreadTimeConstraintPolicy,
};
use hifi_replayer::audio::ring_buffer::RingBuffer;
use hifi_replayer::audio::stats::PlaybackStats;
use hifi_replayer::audio::timing::TimebaseInfo;
use hifi_replayer::decode::transcode::convert_s16_to_i32;

fn context(mode: OutputFormatMode, source_bits: u16, scratch: usize) -> CallbackContext {
    CallbackContext::new(
        AudioFormat::new(48000, 2, source_bits),
        OutputLayout::Interleaved,
        scratch,
        1,
        mode,
        source_bits,
        512,
    )
}

#[test]
fn int32_mode_copies_samples_untouched() {
    let mut rb = RingBuffer::<i32>::new(8);
    let mut stats = PlaybackStats::new();
    rb.write(&[10, -20, 30, -40]);
    let mut out = [99i32; 4];
    assert_eq!(render_int32(&mut rb, &mut stats, &mut out, 4), 4);
    assert_eq!(out, [10, -20, 30, -40]);
    assert_eq!(stats.samples_played(), 4);
    assert_eq!(stats.underrun_count(), 0);
    assert_eq!(rb.available(), 0);
}

#[test]
fn int32_mode_underrun_fills_silence() {
    let mut rb = RingBuffer::<i32>::new(8);
    let mut stats = PlaybackStats::new();
    rb.write(&[1, 2]);
    let mut out = [99i32; 6];
    // four needed, two there: the rest of the whole buffer is silence
    assert_eq!(render_int32(&mut rb, &mut stats, &mut out, 4), 2);
    assert_eq!(out, [1, 2, 0, 0, 0, 0]);
    assert_eq!(stats.samples_played(), 2);
    assert_eq!(stats.underrun_count(), 1);
    // an empty buffer: one underrun per callback that comes up short
    assert_eq!(render_int32(&mut rb, &mut stats, &mut out, 4), 0);
    assert_eq!(out, [0; 6]);
    assert_eq!(stats.underrun_count(), 2);
    assert_eq!(render_int32(&mut rb, &mut stats, &mut out, 4), 0);
    assert_eq!(stats.underrun_count(), 3);
    // the worker comes back: clean again
    rb.write(&[5, 6, 7, 8]);
    assert_eq!(render_int32(&mut rb, &mut stats, &mut out, 4), 4);
    assert_eq!(out, [5, 6, 7, 8, 0, 0]);
    assert_eq!(stats.underrun_count(), 3);
    assert_eq!(stats.samples_played(), 6);
}

#[test]
fn int32_mode_takes_no_more_than_needed_or_fits() {
    let mut rb = RingBuffer::<i32>::new(8);
    let mut stats = PlaybackStats::new();
    rb.write(&[1, 2, 3, 4, 5, 6]);
    let mut out = [9i32; 4];
    assert_eq!(render_int32(&mut rb, &mut stats, &mut out, 2), 2);
    assert_eq!(out, [1, 2, 0, 0]);
    assert_eq!(rb.available(), 4);
    // more needed than the device buffer holds
    let mut small = [9i32; 3];
    assert_eq!(render_int32(&mut rb, &mut stats, &mut small, 100), 3);
    assert_eq!(small, [3, 4, 5]);
    assert_eq!(stats.underrun_count(), 0);
    // nothing needed: no underrun
    assert_eq!(render_int32(&mut rb, &mut stats, &mut small, 0), 0);
    assert_eq!(small, [0, 0, 0]);
    assert_eq!(stats.underrun_count(), 0);
}

#[test]
fn int16_source_reaches_device_bit_for_bit() {
    let left: [i16; 4] = [1, -1, i16::MAX, i16::MIN];
    let right: [i16; 4] = [100, -100, 0, 12345];
    let channels: [&[i16]; 2] = [&left, &right];
    let mut packet = [0i32; 8];
    convert_s16_to_i32(&channels, 4, &mut packet);
    let mut rb = RingBuffer::<i32>::new(8);
    let mut stats = PlaybackStats::new();
    assert_eq!(rb.write(&packet), 8);
    let mut device = [0i32; 8];
    assert_eq!(render_int32(&mut rb, &mut stats, &mut device, 8), 8);
    for f in 0..4 {
        assert_eq!(device[2 * f], (left[f] as i32) << 16);
        assert_eq!(device[2 * f + 1], (right[f] as i32) << 16);
    }
}

#[test]
fn int24_mode_drops_low_byte_without_dither() {
    let mut ctx = context(OutputFormatMode::Int24, 24, 8);
    let mut rb = RingBuffer::<i32>::new(8);
    let mut stats = PlaybackStats::new();
    rb.write(&[0x12345600, -256, 0x7FFFFF00]);
    let mut out = [0xAAu8; 14];
    // four samples needed, three there
    assert_eq!(ctx.render_int24(&mut rb, &mut stats, &mut out, 4), 4);
    assert_eq!(
        out,
        [0x56, 0x34, 0x12, 0xFF, 0xFF, 0xFF, 0xFF, 0xFF, 0x7F, 0, 0, 0, 0, 0]
    );
    assert_eq!(stats.samples_played(), 3);
    assert_eq!(stats.underrun_count(), 1);
    assert_eq!(&ctx.sample_buffer[..4], &[0x12345600, -256, 0x7FFFFF00, 0]);
}

#[test]
fn int24_mode_dithers_deeper_sources() {
    let mut ctx = context(OutputFormatMode::Int24, 32, 4);
    let mut rb = RingBuffer::<i32>::new(4);
    let mut stats = PlaybackStats::new();
    rb.write(&[0x01000000, i32::MIN, i32::MAX]);
    let mut out = [0u8; 9];
    assert_eq!(ctx.render_int24(&mut rb, &mut stats, &mut out, 3), 3);
    // the same noise as a generator of the same seed gives
    let mut noise = DitherState::new(1);
    let expected = [
        0x01000000i32.saturating_add(noise.next_tpdf_lsb24()),
        i32::MIN.saturating_add(noise.next_tpdf_lsb24()),
        i32::MAX.saturating_add(noise.next_tpdf_lsb24()),
    ];
    for k in 0..3 {
        let bytes = expected[k].to_le_bytes();
        assert_eq!(&out[3 * k..3 * k + 3], &bytes[1..4]);
    }
    assert_eq!(stats.underrun_count(), 0);
}

#[test]
fn int24_mode_is_bounded_by_scratch_and_output() {
    let mut ctx = context(OutputFormatMode::Int24, 16, 2);
    let mut rb = RingBuffer::<i32>::new(8);
    let mut stats = PlaybackStats::new();
    rb.write(&[0x100, 0x200, 0x300, 0x400]);
    let mut out = [0xAAu8; 4];
    // scratch holds two samples, the output one whole sample
    assert_eq!(ctx.render_int24(&mut rb, &mut stats, &mut out, 4), 1);
    assert_eq!(out, [1, 0, 0, 0]);
    assert_eq!(stats.samples_played(), 2);
    assert_eq!(rb.available(), 2);
    assert_eq!(ctx.sample_buffer.len(), 2);
}

#[test]
fn scratch_is_filled_for_the_float_mode() {
    let mut ctx = context(OutputFormatMode::Float32, 16, 6);
    let mut rb = RingBuffer::<i32>::new(8);
    let mut stats = PlaybackStats::new();
    rb.write(&[7, 8]);
    ctx.sample_buffer[5] = 55;
    assert_eq!(ctx.fill_scratch(&mut rb, &mut stats, 4), 4);
    assert_eq!(ctx.sample_buffer, vec![7, 8, 0, 0, 0, 55]);
    assert_eq!(stats.underrun_count(), 1);
    assert_eq!(ctx.scratch_bytes(), Some(24));
}

#[test]
fn callback_entry() {
    let mut ctx = context(OutputFormatMode::Int32, 16, 4);
    assert!(ctx.running);
    assert!(!ctx.thread_policy_set);
    assert_eq!(ctx.enter(), CallbackEntry::InstallPolicyAndRender);
    assert!(ctx.thread_policy_set);
    assert_eq!(ctx.enter(), CallbackEntry::Render);
    ctx.running = false;
    assert_eq!(ctx.enter(), CallbackEntry::Silence);
    let mut fresh = context(OutputFormatMode::Int32, 16, 4);
    fresh.running = false;
    assert_eq!(fresh.enter(), CallbackEntry::Silence);
    assert!(!fresh.thread_policy_set);
    let mut out = [1u8, 2, 3];
    fill_silence(&mut out);
    assert_eq!(out, [0, 0, 0]);
}

#[test]
fn thread_policy_follows_the_buffer_period() {
    let apple = TimebaseInfo::new(125, 3).unwrap();
    // 512 frames at 48 kHz: 10_666_666 ns
    let policy = realtime_thread_policy(apple, 512, 48000);
    assert_eq!(
        policy,
        ThreadTimeConstraintPolicy {
            period: 255_999,
            computation: 127_999,
            constraint: 255_999,
            preemptible: 1
        }
    );
    let ctx = context(OutputFormatMode::Int32, 16, 4);
    assert_eq!(ctx.set_realtime_thread_policy(apple), policy);
    let plain = realtime_thread_policy(TimebaseInfo::get(), 480, 48000);
    assert_eq!(plain.period, 10_000_000);
    assert_eq!(plain.computation, 5_000_000);
    assert_eq!(plain.constraint, 10_000_000);
}

#[test]
fn host_time_counts_only_when_flagged() {
    assert_eq!(valid_host_time(2, 777), 777);
    assert_eq!(valid_host_time(3, 777), 777);
    assert_eq!(valid_host_time(1, 777), 0);
    assert_eq!(valid_host_time(0, 777), 0);
}

#[test]
fn samples_asked_for_by_a_device_buffer() {
    assert_eq!(samples_for_buffer(OutputFormatMode::Int32, 2, 4096), 1024);
    assert_eq!(samples_for_buffer(OutputFormatMode::Float32, 2, 4100), 1024);
    assert_eq!(samples_for_buffer(OutputFormatMode::Int24, 2, 3072), 1024);
    assert_eq!(samples_for_buffer(OutputFormatMode::Int24, 2, 3077), 1024);
    assert_eq!(samples_for_buffer(OutputFormatMode::Int24, 3, 8), 0);
}
