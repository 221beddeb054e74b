use hifi_replayer::audio::ring_buffer::RingBuffer;
use hifi_replayer::audio::stats::{PlaybackStats, SAMPLE_INTERVAL, TIMESTAMP_BUFFER_SIZE};
use hifi_replayer::audio::timing::TimebaseInfo;

#[test]
fn stats_start_empty() {
    let stats = PlaybackStats::new();
    assert_eq!(stats.callback_count(), 0);
    assert_eq!(stats.underrun_count(), 0);
    assert_eq!(stats.samples_played(), 0);
    assert!(stats.at_sampling_point());
    let report = stats.report(512, 48000);
    assert_eq!(report.callback_count, 0);
    assert_eq!(report.sample_interval, 16);
    assert_eq!(report.expected_sampled_interval_ns, 10_666_666 * 16);
    assert_eq!(report.interval_stats.min_ns, 0);
    assert_eq!(report.interval_stats.max_ns, 0);
    assert_eq!(report.interval_stats.avg_ns, 0);
    assert_eq!(report.water_stats.min, 0);
    assert_eq!(report.water_stats.max, 0);
    assert_eq!(report.jitter_ns(), 0);
    assert_eq!(SAMPLE_INTERVAL, 16);
    assert_eq!(TIMESTAMP_BUFFER_SIZE, 256);
    let by_default = PlaybackStats::default();
    assert_eq!(by_default.callback_count(), 0);
}

#[test]
fn stats_count_underruns_and_samples() {
    let mut stats = PlaybackStats::new();
    stats.record_underrun();
    stats.record_underrun();
    stats.add_samples_played(1024);
    stats.add_samples_played(1);
    assert_eq!(stats.underrun_count(), 2);
    assert_eq!(stats.samples_played(), 1025);
    stats.add_samples_played(u64::MAX);
    assert_eq!(stats.samples_played(), 1024);
    stats.reset();
    assert_eq!(stats.underrun_count(), 0);
    assert_eq!(stats.samples_played(), 0);
}

#[test]
fn stats_sample_every_sixteenth_callback() {
    let mut stats = PlaybackStats::new();
    let mut rb = RingBuffer::<i32>::new(16);
    rb.write(&[0; 5]);
    // callback 0 is a sampling point: the level is logged, no interval yet
    stats.on_callback_with_timestamp(&rb, 1_000);
    assert!(!stats.at_sampling_point());
    rb.write(&[0; 4]);
    for k in 1..16u64 {
        // not sampling points: time and level are not looked at
        stats.on_callback_with_timestamp(&rb, 1_000 + k);
    }
    assert!(stats.at_sampling_point());
    stats.on_callback_with_timestamp(&rb, 5_000);
    for _ in 17..32 {
        stats.on_callback_at(3, 0);
    }
    stats.on_callback_at(12, 12_000);
    assert_eq!(stats.callback_count(), 33);
    let report = stats.report(512, 48000);
    assert_eq!(report.callback_count, 33);
    // intervals 4000 and 7000; levels 5, 9 and 12
    assert_eq!(report.interval_stats.min_ns, 4_000);
    assert_eq!(report.interval_stats.max_ns, 7_000);
    assert_eq!(report.interval_stats.avg_ns, 5_500);
    assert_eq!(report.water_stats.min, 5);
    assert_eq!(report.water_stats.max, 12);
    assert_eq!(report.jitter_ns(), 3_000);
}

#[test]
fn stats_report_converts_ticks() {
    let mut stats = PlaybackStats::new();
    stats.on_callback_at(1, 300);
    for _ in 1..16 {
        stats.on_callback_at(1, 0);
    }
    stats.on_callback_at(1, 600);
    let report = stats.report_with_timebase(256, 44100, TimebaseInfo { numer: 125, denom: 3 });
    // 300 ticks at 125/3 ns per tick
    assert_eq!(report.interval_stats.min_ns, 12_500);
    assert_eq!(report.interval_stats.max_ns, 12_500);
    assert_eq!(report.interval_stats.avg_ns, 12_500);
    assert_eq!(report.expected_sampled_interval_ns, (256u64 * 1_000_000_000 / 44100) * 16);
}

#[test]
fn stats_clock_going_backwards_logs_zero() {
    let mut stats = PlaybackStats::new();
    stats.on_callback_at(1, 500);
    for _ in 1..16 {
        stats.on_callback_at(1, 0);
    }
    stats.on_callback_at(1, 400);
    let report = stats.report(512, 48000);
    // the interval saturates at zero, and a zero entry counts as unset
    assert_eq!(report.interval_stats.max_ns, 0);
    assert_eq!(report.interval_stats.avg_ns, 0);
}

#[test]
fn stats_expected_interval_saturates() {
    let stats = PlaybackStats::new();
    let report = stats.report(u32::MAX, 1);
    assert_eq!(report.expected_sampled_interval_ns, u64::MAX);
}

#[test]
fn stats_callback_without_timestamp_reads_the_clock() {
    let mut stats = PlaybackStats::new();
    let mut rb = RingBuffer::<i32>::new(4);
    rb.write(&[1, 2]);
    stats.on_callback(&rb);
    assert_eq!(stats.callback_count(), 1);
    let report = stats.report(512, 48000);
    assert_eq!(report.water_stats.min, 2);
    assert_eq!(report.water_stats.max, 2);
}

#[test]
fn stats_logs_wrap_around() {
    let mut stats = PlaybackStats::new();
    // 300 sampling points: the log of 256 entries wraps
    let mut now: u64 = 1;
    for k in 0..300u64 {
        stats.on_callback_at(10 + k as usize, now);
        for _ in 1..16 {
            stats.on_callback_at(0, 0);
        }
        now += 100 + k;
    }
    let report = stats.report(512, 48000);
    // entries 0..43 were overwritten by sampling points 256..299
    assert_eq!(report.water_stats.min, 10 + 44);
    assert_eq!(report.water_stats.max, 10 + 299);
    // interval k (logged at sampling point k + 1) is 100 + k; 299 logged,
    // the first 43 overwritten
    assert_eq!(report.interval_stats.min_ns, 100 + 43);
    assert_eq!(report.interval_stats.max_ns, 100 + 298);
}
