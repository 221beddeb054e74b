//! Conversion between monotonic clock ticks and nanoseconds.
//!
//! A timebase is the ratio `numer / denom` of nanoseconds per tick. All
//! conversions multiply first and divide last, in 128-bit arithmetic, so an
//! intermediate product never overflows; a quotient too large for 64 bits
//! saturates.

use vstd::prelude::*;

verus! {

/// Nanoseconds per tick, as the fraction `numer / denom`.
#[derive(Clone, Copy, Debug, PartialEq, Eq, Structural)]
pub struct TimebaseInfo {
    pub numer: u32,
    pub denom: u32,
}

/// `ticks` converted to nanoseconds under `numer / denom`, rounded down.
pub open spec fn ticks_to_ns_exact(numer: u32, denom: u32, ticks: int) -> int {
    ticks * numer / (denom as int)
}

/// `ns` converted to ticks under `numer / denom`, rounded down.
pub open spec fn ns_to_ticks_exact(numer: u32, denom: u32, ns: int) -> int {
    ns * denom / (numer as int)
}

/// The value of `x` clipped to the range of `u64`.
pub open spec fn saturate_u64(x: int) -> u64 {
    if x > u64::MAX {
        u64::MAX
    } else if x < 0 {
        0u64
    } else {
        x as u64
    }
}

/// The value of `x` clipped to the range of `u32`.
pub open spec fn saturate_u32(x: int) -> u32 {
    if x > u32::MAX {
        u32::MAX
    } else if x < 0 {
        0u32
    } else {
        x as u32
    }
}

/// `a * b / c` for `c > 0`, computed without intermediate overflow and
/// clipped to `u64`.
fn mul_div_saturating(a: u64, b: u32, c: u32) -> (r: u64)
    requires
        c > 0,
    ensures
        r == saturate_u64(a * b / (c as int)),
{
    assert(0 <= a * b <= 0xffff_ffff_ffff_ffff * 0xffff_ffff) by (nonlinear_arith)
        requires
            0 <= a <= 0xffff_ffff_ffff_ffff,
            0 <= b <= 0xffff_ffff,
    ;
    let wide: u128 = (a as u128) * (b as u128);
    let q: u128 = wide / (c as u128);
    if q > u64::MAX as u128 {
        u64::MAX
    } else {
        q as u64
    }
}

impl TimebaseInfo {
    /// A timebase is usable when neither part of the fraction is zero.
    pub open spec fn wf(&self) -> bool {
        self.numer > 0 && self.denom > 0
    }

    /// Builds a timebase from a platform's ratio; a zero part is rejected.
    pub fn new(numer: u32, denom: u32) -> (r: Option<TimebaseInfo>)
        ensures
            r is Some <==> numer > 0 && denom > 0,
            r matches Some(t) ==> t.numer == numer && t.denom == denom,
    {
        if numer > 0 && denom > 0 {
            Some(TimebaseInfo { numer, denom })
        } else {
            None
        }
    }

    /// The timebase of the clock that [`now_ticks`] reads: one tick is one
    /// nanosecond.
    pub fn get() -> (r: TimebaseInfo)
        ensures
            r.numer == 1,
            r.denom == 1,
            r.wf(),
    {
        TimebaseInfo { numer: 1, denom: 1 }
    }

    /// Ticks to nanoseconds, rounded down, saturating at `u64::MAX`.
    pub fn ticks_to_ns(&self, ticks: u64) -> (ns: u64)
        requires
            self.wf(),
        ensures
            ns == saturate_u64(ticks_to_ns_exact(self.numer, self.denom, ticks as int)),
    {
        mul_div_saturating(ticks, self.numer, self.denom)
    }

    /// Nanoseconds to ticks, rounded down, saturating at `u64::MAX`.
    pub fn ns_to_ticks(&self, ns: u64) -> (ticks: u64)
        requires
            self.wf(),
        ensures
            ticks == saturate_u64(ns_to_ticks_exact(self.numer, self.denom, ns as int)),
    {
        mul_div_saturating(ns, self.denom, self.numer)
    }
}

/// Ticks of the crate's own clock to nanoseconds.
pub fn mach_ticks_to_ns(ticks: u64) -> (ns: u64)
    ensures
        ns == ticks,
{
    let info: TimebaseInfo = TimebaseInfo::get();
    info.ticks_to_ns(ticks)
}

/// Nanoseconds to ticks of the crate's own clock.
pub fn ns_to_mach_ticks(ns: u64) -> (ticks: u64)
    ensures
        ticks == ns,
{
    let info: TimebaseInfo = TimebaseInfo::get();
    info.ns_to_ticks(ns)
}

/// Nanoseconds to ticks as the 32-bit count that a thread scheduling policy
/// carries, saturating at `u32::MAX`.
pub fn ns_to_ticks(info: TimebaseInfo, ns: u64) -> (ticks: u32)
    requires
        info.wf(),
    ensures
        ticks == saturate_u32(ns_to_ticks_exact(info.numer, info.denom, ns as int)),
{
    let t: u64 = info.ns_to_ticks(ns);
    if t > u32::MAX as u64 {
        u32::MAX
    } else {
        t as u32
    }
}

/// Reads `std::time::SystemTime::now` and returns the nanoseconds elapsed
/// since the Unix epoch, truncated to 64 bits (zero when the clock is set
/// before the epoch). Nothing is claimed of the value: it is the time.
#[verifier::external_body]
pub fn now_ticks() -> (ticks: u64) {
    std::time::SystemTime::now()
        .duration_since(std::time::UNIX_EPOCH)
        .map_or(0, |d| d.as_nanos() as u64)
}

/// The current time in nanoseconds.
pub fn now_ns() -> (ns: u64) {
    mach_ticks_to_ns(now_ticks())
}

/// Converting nanoseconds to ticks and back loses at most one tick's worth
/// of nanoseconds (rounded up), and never gains any, as long as the tick
/// count fits in 64 bits.
pub proof fn lemma_timebase_roundtrip(info: TimebaseInfo, ns: u64)
    requires
        info.wf(),
        ns_to_ticks_exact(info.numer, info.denom, ns as int) <= u64::MAX,
    ensures
        ({
            let ticks = saturate_u64(ns_to_ticks_exact(info.numer, info.denom, ns as int));
            let back = saturate_u64(ticks_to_ns_exact(info.numer, info.denom, ticks as int));
            &&& back <= ns
            &&& ns - back <= (info.numer + info.denom - 1) / (info.denom as int)
            &&& ns - back <= info.numer / info.denom + 1
        }),
{
    let m = info.numer as int;
    let d = info.denom as int;
    let n = ns as int;
    let t = n * d / m;
    assert(0 <= t && t * m <= n * d && n * d < t * m + m) by (nonlinear_arith)
        requires
            t == n * d / m,
            m > 0,
            d > 0,
            n >= 0,
    ;
    let r = t * m / d;
    assert(0 <= r && r * d <= t * m && t * m < r * d + d) by (nonlinear_arith)
        requires
            r == t * m / d,
            m > 0,
            d > 0,
            t >= 0,
    ;
    assert(r <= n) by (nonlinear_arith)
        requires
            r * d <= n * d,
            d > 0,
    ;
    assert((n - r) * d == n * d - r * d) by (nonlinear_arith);
    let c = (m + d - 1) / d;
    assert(n - r <= c) by (nonlinear_arith)
        requires
            (n - r) * d < m + d,
            c == (m + d - 1) / d,
            d > 0,
            m > 0,
    ;
    assert(c <= m / d + 1) by (nonlinear_arith)
        requires
            c == (m + d - 1) / d,
            d > 0,
            m > 0,
    ;
}

} // verus!
