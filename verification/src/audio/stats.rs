//! Playback statistics, gathered by the render callback.
//!
//! Two counters matter to the rest of the player: samples played and
//! underruns. Besides them the collector keeps, for every sixteenth
//! callback, the time since the previous such callback and the fill level of
//! the ring buffer, in two small circular logs, from which a report gives
//! minimum, maximum and average.
//!
//! Nothing here allocates after construction.

use vstd::prelude::*;
use crate::audio::ring_buffer::RingBuffer;
use crate::audio::timing::{now_ticks, saturate_u64, ticks_to_ns_exact, TimebaseInfo};

verus! {

/// Every `SAMPLE_INTERVAL`-th callback is a sampling point.
pub const SAMPLE_INTERVAL: u64 = 16;

/// Entries in each of the two circular logs.
pub const TIMESTAMP_BUFFER_SIZE: usize = 256;

/// What the collector has recorded.
pub struct StatsView {
    /// Callbacks seen, modulo 2^64.
    pub callback_count: u64,
    /// Time of the latest sampling point, in ticks; 0 before the first.
    pub last_sampled_ticks: u64,
    /// The log of intervals between sampling points, in ticks.
    pub intervals: Seq<u64>,
    /// Intervals logged so far, modulo the word size.
    pub interval_writes: usize,
    /// The log of fill levels, in samples.
    pub water_levels: Seq<usize>,
    /// Fill levels logged so far, modulo the word size.
    pub water_writes: usize,
    /// Callbacks that came up short.
    pub underrun_count: u64,
    /// Samples handed to the device.
    pub samples_played: u64,
}

impl StatsView {
    /// A collector that has recorded nothing.
    pub open spec fn initial() -> StatsView {
        StatsView {
            callback_count: 0,
            last_sampled_ticks: 0,
            intervals: Seq::new(TIMESTAMP_BUFFER_SIZE as nat, |i: int| 0u64),
            interval_writes: 0,
            water_levels: Seq::new(TIMESTAMP_BUFFER_SIZE as nat, |i: int| 0usize),
            water_writes: 0,
            underrun_count: 0,
            samples_played: 0,
        }
    }

    /// Whether the next callback is a sampling point.
    pub open spec fn at_sampling_point(self) -> bool {
        self.callback_count % SAMPLE_INTERVAL == 0
    }

    /// The record after a callback at time `now` that found `water_level`
    /// samples queued. The callback is counted; at a sampling point the
    /// fill level is logged, and so is the time since the previous sampling
    /// point if there was one (zero if the clock went backwards).
    pub open spec fn after_callback(self, water_level: usize, now: u64) -> StatsView {
        let counted = StatsView {
            callback_count: self.callback_count.wrapping_add(1),
            ..self
        };
        if self.at_sampling_point() {
            let timed = if self.last_sampled_ticks > 0 {
                StatsView {
                    intervals: self.intervals.update(
                        (self.interval_writes % TIMESTAMP_BUFFER_SIZE) as int,
                        if now >= self.last_sampled_ticks {
                            (now - self.last_sampled_ticks) as u64
                        } else {
                            0u64
                        },
                    ),
                    interval_writes: self.interval_writes.wrapping_add(1),
                    ..counted
                }
            } else {
                counted
            };
            StatsView {
                last_sampled_ticks: now,
                water_levels: self.water_levels.update(
                    (self.water_writes % TIMESTAMP_BUFFER_SIZE) as int,
                    water_level,
                ),
                water_writes: self.water_writes.wrapping_add(1),
                ..timed
            }
        } else {
            counted
        }
    }
}

/// Minimum, maximum and average of the logged intervals, in nanoseconds.
#[derive(Debug)]
pub struct IntervalStats {
    pub min_ns: u64,
    pub max_ns: u64,
    pub avg_ns: u64,
}

/// Minimum and maximum of the logged fill levels, in samples.
#[derive(Debug)]
pub struct WaterLevelStats {
    pub min: usize,
    pub max: usize,
}

/// A snapshot of the statistics.
#[derive(Debug)]
pub struct StatsReport {
    pub callback_count: u64,
    pub sample_interval: u64,
    pub expected_sampled_interval_ns: u64,
    pub interval_stats: IntervalStats,
    pub water_stats: WaterLevelStats,
    pub underrun_count: u64,
    pub samples_played: u64,
}

/// An interval of `ticks` in nanoseconds, as a report gives it.
pub open spec fn interval_ns(timebase: TimebaseInfo, ticks: u64) -> u64 {
    saturate_u64(ticks_to_ns_exact(timebase.numer, timebase.denom, ticks as int))
}

/// How many of the first `n` logged intervals are set (nonzero).
pub open spec fn count_set(intervals: Seq<u64>, n: int) -> int
    decreases n,
{
    if n <= 0 {
        0
    } else {
        count_set(intervals, n - 1) + if intervals[n - 1] > 0 {
            1int
        } else {
            0int
        }
    }
}

/// The sum, in nanoseconds, of those of the first `n` logged intervals
/// that are set.
pub open spec fn sum_set_ns(timebase: TimebaseInfo, intervals: Seq<u64>, n: int) -> int
    decreases n,
{
    if n <= 0 {
        0
    } else {
        sum_set_ns(timebase, intervals, n - 1) + if intervals[n - 1] > 0 {
            interval_ns(timebase, intervals[n - 1]) as int
        } else {
            0int
        }
    }
}

/// `stats` summarises the set entries of `intervals`: all zero if there is
/// none; else the least and the greatest of them in nanoseconds, and their
/// sum divided by their number.
pub open spec fn summarises_intervals(
    stats: IntervalStats,
    timebase: TimebaseInfo,
    intervals: Seq<u64>,
) -> bool {
    let n = intervals.len() as int;
    if count_set(intervals, n) == 0 {
        stats.min_ns == 0 && stats.max_ns == 0 && stats.avg_ns == 0
    } else {
        &&& exists|i: int|
            0 <= i < n && intervals[i] > 0 && stats.min_ns == interval_ns(timebase, intervals[i])
        &&& forall|i: int|
            0 <= i < n && intervals[i] > 0 ==> stats.min_ns <= interval_ns(
                timebase,
                #[trigger] intervals[i],
            )
        &&& exists|i: int|
            0 <= i < n && intervals[i] > 0 && stats.max_ns == interval_ns(timebase, intervals[i])
        &&& forall|i: int|
            0 <= i < n && intervals[i] > 0 ==> stats.max_ns >= interval_ns(
                timebase,
                #[trigger] intervals[i],
            )
        &&& stats.avg_ns == sum_set_ns(timebase, intervals, n) / count_set(intervals, n)
    }
}

/// `stats` summarises the set (nonzero) entries of `levels`: zero and zero
/// if there is none; else the least and the greatest of them.
pub open spec fn summarises_levels(stats: WaterLevelStats, levels: Seq<usize>) -> bool {
    let n = levels.len() as int;
    if forall|i: int| 0 <= i < n ==> #[trigger] levels[i] == 0 {
        stats.min == 0 && stats.max == 0
    } else {
        &&& exists|i: int| 0 <= i < n && levels[i] > 0 && stats.min == levels[i]
        &&& forall|i: int| 0 <= i < n && levels[i] > 0 ==> stats.min <= #[trigger] levels[i]
        &&& exists|i: int| 0 <= i < n && levels[i] > 0 && stats.max == levels[i]
        &&& forall|i: int| 0 <= i < n ==> stats.max >= #[trigger] levels[i]
    }
}

/// The time that `SAMPLE_INTERVAL` callbacks of `frames_per_callback`
/// frames take at `sample_rate`, in nanoseconds, saturating.
pub open spec fn expected_sampled_interval_ns(frames_per_callback: u32, sample_rate: u32) -> u64 {
    saturate_u64((frames_per_callback * 1_000_000_000 / (sample_rate as int)) * SAMPLE_INTERVAL)
}

/// Collector of playback statistics.
pub struct PlaybackStats {
    callback_count: u64,
    last_sampled_ticks: u64,
    interval_buffer: Vec<u64>,
    interval_write_idx: usize,
    water_level_buffer: Vec<usize>,
    water_level_write_idx: usize,
    underrun_count: u64,
    samples_played: u64,
}

impl View for PlaybackStats {
    type V = StatsView;

    closed spec fn view(&self) -> StatsView {
        StatsView {
            callback_count: self.callback_count,
            last_sampled_ticks: self.last_sampled_ticks,
            intervals: self.interval_buffer@,
            interval_writes: self.interval_write_idx,
            water_levels: self.water_level_buffer@,
            water_writes: self.water_level_write_idx,
            underrun_count: self.underrun_count,
            samples_played: self.samples_played,
        }
    }
}

impl PlaybackStats {
    /// The invariant of the collector: both logs have their fixed size.
    pub open spec fn wf(&self) -> bool {
        &&& self@.intervals.len() == TIMESTAMP_BUFFER_SIZE
        &&& self@.water_levels.len() == TIMESTAMP_BUFFER_SIZE
    }

    /// A collector that has recorded nothing.
    pub fn new() -> (r: Self)
        ensures
            r.wf(),
            r@ == StatsView::initial(),
    {
        let r = PlaybackStats {
            callback_count: 0,
            last_sampled_ticks: 0,
            interval_buffer: vec![0u64; TIMESTAMP_BUFFER_SIZE],
            interval_write_idx: 0,
            water_level_buffer: vec![0usize; TIMESTAMP_BUFFER_SIZE],
            water_level_write_idx: 0,
            underrun_count: 0,
            samples_played: 0,
        };
        assert(r@.intervals =~= StatsView::initial().intervals);
        assert(r@.water_levels =~= StatsView::initial().water_levels);
        r
    }

    /// Whether the next callback is a sampling point: whether it will read
    /// the time and the fill level.
    pub fn at_sampling_point(&self) -> (r: bool)
        ensures
            r == self@.at_sampling_point(),
    {
        self.callback_count % SAMPLE_INTERVAL == 0
    }

    /// Records a callback at time `now` (in ticks) that found `water_level`
    /// samples queued.
    pub fn on_callback_at(&mut self, water_level: usize, now: u64)
        requires
            old(self).wf(),
        ensures
            final(self).wf(),
            final(self)@ == old(self)@.after_callback(water_level, now),
    {
        let count: u64 = self.callback_count;
        self.callback_count = count.wrapping_add(1);
        if count % SAMPLE_INTERVAL == 0 {
            let last: u64 = self.last_sampled_ticks;
            self.last_sampled_ticks = now;
            if last > 0 {
                let interval: u64 = now.saturating_sub(last);
                let idx: usize = self.interval_write_idx % TIMESTAMP_BUFFER_SIZE;
                self.interval_write_idx = self.interval_write_idx.wrapping_add(1);
                self.interval_buffer[idx] = interval;
            }
            let idx: usize = self.water_level_write_idx % TIMESTAMP_BUFFER_SIZE;
            self.water_level_write_idx = self.water_level_write_idx.wrapping_add(1);
            self.water_level_buffer[idx] = water_level;
        }
    }

    /// Records a callback, called from inside it. `host_time` is the
    /// hardware timestamp of the callback in ticks, or 0 if it has none: the
    /// clock is then read instead, at sampling points only.
    #[inline]
    pub fn on_callback_with_timestamp(&mut self, ring_buffer: &RingBuffer<i32>, host_time: u64)
        requires
            old(self).wf(),
            ring_buffer.wf(),
        ensures
            final(self).wf(),
            host_time > 0 ==> final(self)@ == old(self)@.after_callback(
                ring_buffer.spec_available(),
                host_time,
            ),
            host_time == 0 ==> exists|now: u64|
                final(self)@ == #[trigger] old(self)@.after_callback(
                    ring_buffer.spec_available(),
                    now,
                ),
    {
        if self.at_sampling_point() {
            let now: u64 = if host_time > 0 { host_time } else { now_ticks() };
            self.on_callback_at(ring_buffer.available(), now);
            assert(self@ == old(self)@.after_callback(ring_buffer.spec_available(), now));
        } else {
            self.on_callback_at(0, host_time);
            assert(self@ == old(self)@.after_callback(ring_buffer.spec_available(), host_time));
        }
    }

    /// Records a callback that has no hardware timestamp.
    #[inline]
    pub fn on_callback(&mut self, ring_buffer: &RingBuffer<i32>)
        requires
            old(self).wf(),
            ring_buffer.wf(),
        ensures
            final(self).wf(),
            exists|now: u64|
                final(self)@ == #[trigger] old(self)@.after_callback(
                    ring_buffer.spec_available(),
                    now,
                ),
    {
        self.on_callback_with_timestamp(ring_buffer, 0);
    }

    /// Counts one underrun.
    #[inline]
    pub fn record_underrun(&mut self)
        ensures
            final(self)@ == (StatsView {
                underrun_count: old(self)@.underrun_count.wrapping_add(1),
                ..old(self)@
            }),
    {
        self.underrun_count = self.underrun_count.wrapping_add(1);
    }

    /// Adds to the samples played.
    #[inline]
    pub fn add_samples_played(&mut self, samples: u64)
        ensures
            final(self)@ == (StatsView {
                samples_played: old(self)@.samples_played.wrapping_add(samples),
                ..old(self)@
            }),
    {
        self.samples_played = self.samples_played.wrapping_add(samples);
    }

    /// Underruns so far.
    #[inline]
    pub fn underrun_count(&self) -> (r: u64)
        ensures
            r == self@.underrun_count,
    {
        self.underrun_count
    }

    /// Callbacks so far.
    #[inline]
    pub fn callback_count(&self) -> (r: u64)
        ensures
            r == self@.callback_count,
    {
        self.callback_count
    }

    /// Samples played so far.
    #[inline]
    pub fn samples_played(&self) -> (r: u64)
        ensures
            r == self@.samples_played,
    {
        self.samples_played
    }

    fn summarise_intervals(&self, timebase: TimebaseInfo) -> (stats: IntervalStats)
        requires
            self.wf(),
            timebase.wf(),
        ensures
            summarises_intervals(stats, timebase, self@.intervals),
    {
        let mut min_ns: u64 = 0;
        let mut max_ns: u64 = 0;
        let mut sum: u128 = 0;
        let mut count: u64 = 0;
        let ghost mut min_at: int = 0;
        let ghost mut max_at: int = 0;
        let mut i: usize = 0;
        while i < TIMESTAMP_BUFFER_SIZE
            invariant
                self.wf(),
                timebase.wf(),
                i <= TIMESTAMP_BUFFER_SIZE,
                count == count_set(self@.intervals, i as int),
                count <= i,
                sum == sum_set_ns(timebase, self@.intervals, i as int),
                sum <= count * 0xffff_ffff_ffff_ffff,
                count == 0 ==> forall|j: int| 0 <= j < i ==> #[trigger] self@.intervals[j] == 0,
                count > 0 ==> 0 <= min_at < i && self@.intervals[min_at] > 0 && min_ns
                    == interval_ns(timebase, self@.intervals[min_at]),
                count > 0 ==> 0 <= max_at < i && self@.intervals[max_at] > 0 && max_ns
                    == interval_ns(timebase, self@.intervals[max_at]),
                forall|j: int|
                    0 <= j < i && self@.intervals[j] > 0 ==> min_ns <= interval_ns(
                        timebase,
                        #[trigger] self@.intervals[j],
                    ) && max_ns >= interval_ns(timebase, self@.intervals[j]),
            decreases TIMESTAMP_BUFFER_SIZE - i,
        {
            let ticks: u64 = self.interval_buffer[i];
            if ticks > 0 {
                let ns: u64 = timebase.ticks_to_ns(ticks);
                if count == 0 || ns < min_ns {
                    min_ns = ns;
                    proof {
                        min_at = i as int;
                    }
                }
                if count == 0 || ns > max_ns {
                    max_ns = ns;
                    proof {
                        max_at = i as int;
                    }
                }
                sum = sum + ns as u128;
                count = count + 1;
            }
            i += 1;
        }
        if count == 0 {
            IntervalStats { min_ns: 0, max_ns: 0, avg_ns: 0 }
        } else {
            let avg: u128 = sum / (count as u128);
            assert(avg <= 0xffff_ffff_ffff_ffff) by (nonlinear_arith)
                requires
                    avg == sum / (count as u128),
                    count > 0,
                    sum <= count * 0xffff_ffff_ffff_ffff,
            ;
            IntervalStats { min_ns, max_ns, avg_ns: avg as u64 }
        }
    }

    fn summarise_levels(&self) -> (stats: WaterLevelStats)
        requires
            self.wf(),
        ensures
            summarises_levels(stats, self@.water_levels),
    {
        let mut min: usize = 0;
        let mut max: usize = 0;
        let mut seen: bool = false;
        let ghost mut min_at: int = 0;
        let ghost mut max_at: int = 0;
        let mut i: usize = 0;
        while i < TIMESTAMP_BUFFER_SIZE
            invariant
                self.wf(),
                i <= TIMESTAMP_BUFFER_SIZE,
                !seen ==> min == 0 && max == 0 && forall|j: int|
                    0 <= j < i ==> #[trigger] self@.water_levels[j] == 0,
                seen ==> 0 <= min_at < i && self@.water_levels[min_at] > 0 && min
                    == self@.water_levels[min_at],
                seen ==> 0 <= max_at < i && self@.water_levels[max_at] > 0 && max
                    == self@.water_levels[max_at],
                forall|j: int|
                    0 <= j < i && self@.water_levels[j] > 0 ==> min
                        <= #[trigger] self@.water_levels[j],
                forall|j: int| 0 <= j < i ==> max >= #[trigger] self@.water_levels[j],
            decreases TIMESTAMP_BUFFER_SIZE - i,
        {
            let level: usize = self.water_level_buffer[i];
            if level > 0 {
                if !seen || level < min {
                    min = level;
                    proof {
                        min_at = i as int;
                    }
                }
                if !seen || level > max {
                    max = level;
                    proof {
                        max_at = i as int;
                    }
                }
                seen = true;
            }
            i += 1;
        }
        WaterLevelStats { min, max }
    }

    /// A report, with intervals converted to nanoseconds under `timebase`.
    pub fn report_with_timebase(
        &self,
        frames_per_callback: u32,
        sample_rate: u32,
        timebase: TimebaseInfo,
    ) -> (report: StatsReport)
        requires
            self.wf(),
            timebase.wf(),
            sample_rate > 0,
        ensures
            report.callback_count == self@.callback_count,
            report.sample_interval == SAMPLE_INTERVAL,
            report.expected_sampled_interval_ns == expected_sampled_interval_ns(
                frames_per_callback,
                sample_rate,
            ),
            summarises_intervals(report.interval_stats, timebase, self@.intervals),
            summarises_levels(report.water_stats, self@.water_levels),
            report.underrun_count == self@.underrun_count,
            report.samples_played == self@.samples_played,
    {
        let expected_interval_ns: u64 = (frames_per_callback as u64 * 1_000_000_000)
            / sample_rate as u64;
        let expected: u64 = match expected_interval_ns.checked_mul(SAMPLE_INTERVAL) {
            Some(v) => v,
            None => u64::MAX,
        };
        StatsReport {
            callback_count: self.callback_count,
            sample_interval: SAMPLE_INTERVAL,
            expected_sampled_interval_ns: expected,
            interval_stats: self.summarise_intervals(timebase),
            water_stats: self.summarise_levels(),
            underrun_count: self.underrun_count,
            samples_played: self.samples_played,
        }
    }

    /// A report, for timestamps taken from the crate's own clock.
    pub fn report(&self, frames_per_callback: u32, sample_rate: u32) -> (report: StatsReport)
        requires
            self.wf(),
            sample_rate > 0,
        ensures
            report.callback_count == self@.callback_count,
            report.sample_interval == SAMPLE_INTERVAL,
            report.expected_sampled_interval_ns == expected_sampled_interval_ns(
                frames_per_callback,
                sample_rate,
            ),
            summarises_intervals(
                report.interval_stats,
                TimebaseInfo { numer: 1, denom: 1 },
                self@.intervals,
            ),
            summarises_levels(report.water_stats, self@.water_levels),
            report.underrun_count == self@.underrun_count,
            report.samples_played == self@.samples_played,
    {
        self.report_with_timebase(frames_per_callback, sample_rate, TimebaseInfo::get())
    }

    /// Forgets everything recorded.
    pub fn reset(&mut self)
        requires
            old(self).wf(),
        ensures
            final(self).wf(),
            final(self)@ == StatsView::initial(),
    {
        self.callback_count = 0;
        self.last_sampled_ticks = 0;
        self.interval_write_idx = 0;
        self.water_level_write_idx = 0;
        self.underrun_count = 0;
        self.samples_played = 0;
        let mut i: usize = 0;
        while i < TIMESTAMP_BUFFER_SIZE
            invariant
                i <= TIMESTAMP_BUFFER_SIZE,
                self.interval_buffer@.len() == TIMESTAMP_BUFFER_SIZE,
                self.water_level_buffer@.len() == TIMESTAMP_BUFFER_SIZE,
                self.callback_count == 0,
                self.last_sampled_ticks == 0,
                self.interval_write_idx == 0,
                self.water_level_write_idx == 0,
                self.underrun_count == 0,
                self.samples_played == 0,
                forall|j: int| 0 <= j < i ==> #[trigger] self.interval_buffer@[j] == 0,
                forall|j: int| 0 <= j < i ==> #[trigger] self.water_level_buffer@[j] == 0,
            decreases TIMESTAMP_BUFFER_SIZE - i,
        {
            self.interval_buffer[i] = 0;
            self.water_level_buffer[i] = 0;
            i += 1;
        }
        assert(self@.intervals =~= StatsView::initial().intervals);
        assert(self@.water_levels =~= StatsView::initial().water_levels);
    }
}

impl Default for PlaybackStats {
    fn default() -> (r: Self)
        ensures
            r.wf(),
            r@ == StatsView::initial(),
    {
        PlaybackStats::new()
    }
}

impl StatsReport {
    /// The spread between the longest and the shortest logged interval.
    pub fn jitter_ns(&self) -> (r: u64)
        ensures
            r == if self.interval_stats.max_ns >= self.interval_stats.min_ns {
                self.interval_stats.max_ns - self.interval_stats.min_ns
            } else {
                0
            },
    {
        self.interval_stats.max_ns.saturating_sub(self.interval_stats.min_ns)
    }
}

} // verus!
