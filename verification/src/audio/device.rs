//! Output devices and the choice of a device sample rate.
//!
//! Rates are whole numbers of hertz.

use vstd::prelude::*;

verus! {

/// Transport type of a Bluetooth device.
pub const TRANSPORT_TYPE_BLUETOOTH: u32 = 0x626C7565;

/// Transport type of a Bluetooth Low Energy device.
pub const TRANSPORT_TYPE_BLUETOOTH_LE: u32 = 0x62746C65;

/// The rate assumed of a device that will not tell its own.
pub const FALLBACK_SAMPLE_RATE: u32 = 48000;

/// An output device.
#[derive(Debug, Clone)]
pub struct DeviceInfo {
    pub id: u32,
    pub name: String,
    pub supported_sample_rates: Vec<u32>,
    pub current_sample_rate: u32,
    pub is_bluetooth: bool,
}

/// A range of nominal sample rates that a device reports, both ends
/// included.
#[derive(Clone, Copy, Debug)]
pub struct RateRange {
    pub minimum: u32,
    pub maximum: u32,
}

/// Whether a transport type is Bluetooth, classic or low energy.
pub fn is_bluetooth_transport(transport_type: u32) -> (r: bool)
    ensures
        r == (transport_type == TRANSPORT_TYPE_BLUETOOTH || transport_type
            == TRANSPORT_TYPE_BLUETOOTH_LE),
{
    transport_type == TRANSPORT_TYPE_BLUETOOTH || transport_type == TRANSPORT_TYPE_BLUETOOTH_LE
}

/// The rates of the 44.1 kHz family, ascending.
pub open spec fn family_44k() -> Seq<u32> {
    seq![44100u32, 88200u32, 176400u32]
}

/// The rates of the 48 kHz family, ascending.
pub open spec fn family_48k() -> Seq<u32> {
    seq![48000u32, 96000u32, 192000u32]
}

/// The rates that a device with a continuous range is asked about.
pub open spec fn standard_rates() -> Seq<u32> {
    seq![44100u32, 48000u32, 88200u32, 96000u32, 176400u32, 192000u32]
}

/// The base rate of the family that `requested` belongs to, if any: a rate
/// belongs to a family when it lies less than one hundredth of the base
/// above a multiple of the base. The 44.1 kHz family is tried first.
pub open spec fn rate_family(requested: u32) -> Option<u32> {
    if requested % 44100 < 441 {
        Some(44100u32)
    } else if requested % 48000 < 480 {
        Some(48000u32)
    } else {
        None
    }
}

/// The greatest of the first `n` rates of `family` that does not exceed
/// `requested` by more than one hertz and that the device supports.
pub open spec fn family_fallback(requested: u32, supported: Seq<u32>, family: Seq<u32>, n: int) -> Option<u32>
    decreases n,
{
    if n <= 0 {
        None
    } else if family[n - 1] <= requested + 1 && supported.contains(family[n - 1]) {
        Some(family[n - 1])
    } else {
        family_fallback(requested, supported, family, n - 1)
    }
}

/// The distance between two rates.
pub open spec fn rate_distance(a: u32, b: u32) -> int {
    if a >= b {
        a - b
    } else {
        b - a
    }
}

/// The nearest to `requested` of the first `n` supported rates, taken in
/// order: the first rate stands until a later one is strictly nearer, and
/// a rate at or above the request is never given up for one below it.
pub open spec fn nearest_rate(requested: u32, supported: Seq<u32>, n: int) -> u32
    decreases n,
{
    if n <= 1 {
        supported[0]
    } else {
        let best = nearest_rate(requested, supported, n - 1);
        let rate = supported[n - 1];
        if rate_distance(rate, requested) < rate_distance(best, requested) && (rate >= requested
            || best < requested) {
            rate
        } else {
            best
        }
    }
}

/// The device rate for a requested rate:
/// 1. the requested rate itself if the device supports it (or tells no
///    rates at all);
/// 2. else the greatest rate of the request's family, at or below the
///    request, that the device supports: a whole-number division;
/// 3. else the nearest supported rate, a higher one preferred.
pub open spec fn optimal_sample_rate(requested: u32, supported: Seq<u32>) -> u32 {
    if supported.len() == 0 || supported.contains(requested) {
        requested
    } else {
        let by_family = match rate_family(requested) {
            Some(base) => family_fallback(
                requested,
                supported,
                if base == 44100 {
                    family_44k()
                } else {
                    family_48k()
                },
                3,
            ),
            None => None,
        };
        match by_family {
            Some(rate) => rate,
            None => nearest_rate(requested, supported, supported.len() as int),
        }
    }
}

/// Whether `rates` holds `rate`.
fn contains_rate(rates: &[u32], rate: u32) -> (r: bool)
    ensures
        r == rates@.contains(rate),
{
    let mut i: usize = 0;
    while i < rates.len()
        invariant
            i <= rates@.len(),
            forall|j: int| 0 <= j < i ==> rates@[j] != rate,
        decreases rates@.len() - i,
    {
        if rates[i] == rate {
            return true;
        }
        i += 1;
    }
    false
}

/// Chooses the device rate for a requested rate: see
/// [`optimal_sample_rate`].
pub fn select_optimal_sample_rate(requested: u32, supported: &[u32]) -> (rate: u32)
    ensures
        rate == optimal_sample_rate(requested, supported@),
{
    if supported.len() == 0 {
        return requested;
    }
    if contains_rate(supported, requested) {
        return requested;
    }
    let family: [u32; 3] = if requested % 44100 < 441 {
        [44100, 88200, 176400]
    } else {
        [48000, 96000, 192000]
    };
    if requested % 44100 < 441 || requested % 48000 < 480 {
        let ghost fam: Seq<u32> = if requested % 44100 < 441 {
            family_44k()
        } else {
            family_48k()
        };
        assert(family@ =~= fam);
        let mut n: usize = 3;
        while n > 0
            invariant
                n <= 3,
                family@ == fam,
                fam.len() == 3,
                supported@.len() > 0,
                !supported@.contains(requested),
                rate_family(requested) is Some,
                fam == if rate_family(requested) == Some(44100u32) {
                    family_44k()
                } else {
                    family_48k()
                },
                family_fallback(requested, supported@, fam, 3) == family_fallback(
                    requested,
                    supported@,
                    fam,
                    n as int,
                ),
            decreases n,
        {
            let rate: u32 = family[n - 1];
            if rate as u64 <= requested as u64 + 1 && contains_rate(supported, rate) {
                assert(family_fallback(requested, supported@, fam, n as int) == Some(rate));
                return rate;
            }
            n -= 1;
        }
    }
    assert(optimal_sample_rate(requested, supported@) == nearest_rate(
        requested,
        supported@,
        supported@.len() as int,
    ));
    let mut best: u32 = supported[0];
    let mut i: usize = 1;
    while i < supported.len()
        invariant
            1 <= i <= supported@.len(),
            best == nearest_rate(requested, supported@, i as int),
            optimal_sample_rate(requested, supported@) == nearest_rate(
                requested,
                supported@,
                supported@.len() as int,
            ),
        decreases supported@.len() - i,
    {
        let rate: u32 = supported[i];
        let diff: u32 = if rate >= requested { rate - requested } else { requested - rate };
        let best_diff: u32 = if best >= requested { best - requested } else { requested - best };
        if diff < best_diff && (rate >= requested || best < requested) {
            best = rate;
        }
        i += 1;
    }
    best
}

/// A device that tells its rates is never driven at a rate that it did not
/// tell.
pub proof fn lemma_optimal_rate_is_supported(requested: u32, supported: Seq<u32>)
    requires
        supported.len() > 0,
    ensures
        supported.contains(optimal_sample_rate(requested, supported)),
{
    if !supported.contains(requested) {
        let fam = if rate_family(requested) == Some(44100u32) {
            family_44k()
        } else {
            family_48k()
        };
        lemma_family_fallback_is_supported(requested, supported, fam, 3);
        lemma_nearest_is_supported(requested, supported, supported.len() as int);
    }
}

proof fn lemma_family_fallback_is_supported(
    requested: u32,
    supported: Seq<u32>,
    family: Seq<u32>,
    n: int,
)
    ensures
        family_fallback(requested, supported, family, n) matches Some(rate) ==> supported.contains(
            rate,
        ),
    decreases n,
{
    if n > 0 {
        lemma_family_fallback_is_supported(requested, supported, family, n - 1);
    }
}

proof fn lemma_nearest_is_supported(requested: u32, supported: Seq<u32>, n: int)
    requires
        1 <= n <= supported.len(),
    ensures
        supported.contains(nearest_rate(requested, supported, n)),
    decreases n,
{
    if n > 1 {
        lemma_nearest_is_supported(requested, supported, n - 1);
        assert(supported[n - 1] == supported[n - 1]);
    } else {
        assert(supported[0] == supported[0]);
    }
}

/// A rate of one of the two families, requested of a device that lacks it
/// but supports a lower rate of the same family, is divided by a whole
/// number: the device runs at a rate of that family, never above the
/// request by more than a hertz.
pub proof fn lemma_family_rate_is_kept(requested: u32, supported: Seq<u32>, lower: u32)
    requires
        !supported.contains(requested),
        supported.contains(lower),
        lower <= requested,
        rate_family(requested) == Some(44100u32) && family_44k().contains(lower) || rate_family(
            requested,
        ) == Some(48000u32) && family_48k().contains(lower),
    ensures
        ({
            let rate = optimal_sample_rate(requested, supported);
            let fam = if rate_family(requested) == Some(44100u32) {
                family_44k()
            } else {
                family_48k()
            };
            &&& fam.contains(rate)
            &&& supported.contains(rate)
            &&& lower <= rate <= requested + 1
        }),
{
    let fam = if rate_family(requested) == Some(44100u32) {
        family_44k()
    } else {
        family_48k()
    };
    let k = choose|k: int| 0 <= k < fam.len() && fam[k] == lower;
    lemma_family_fallback_finds(requested, supported, fam, 3, k);
}

proof fn lemma_family_fallback_finds(
    requested: u32,
    supported: Seq<u32>,
    family: Seq<u32>,
    n: int,
    k: int,
)
    requires
        0 <= k < n <= family.len(),
        family[k] <= requested + 1,
        supported.contains(family[k]),
        forall|a: int, b: int| 0 <= a < b < family.len() ==> family[a] < family[b],
    ensures
        family_fallback(requested, supported, family, n) matches Some(rate) && family.contains(rate)
            && supported.contains(rate) && family[k] <= rate <= requested + 1,
    decreases n,
{
    if family[n - 1] <= requested + 1 && supported.contains(family[n - 1]) {
        assert(family[n - 1] == family[n - 1]);
    } else {
        lemma_family_fallback_finds(requested, supported, family, n - 1, k);
    }
}

/// The rates assumed of a device that will not tell its own.
pub fn default_sample_rates() -> (rates: Vec<u32>)
    ensures
        rates@ == seq![44100u32, 48000u32],
{
    let mut rates: Vec<u32> = Vec::new();
    rates.push(44100);
    rates.push(48000);
    rates
}

/// What a list of ranges says of `rate`: a range of a single rate names
/// that rate; a wider range names the standard rates inside it.
pub open spec fn range_names(range: RateRange, rate: u32) -> bool {
    if range.minimum == range.maximum {
        rate == range.minimum
    } else {
        standard_rates().contains(rate) && range.minimum <= rate <= range.maximum
    }
}

/// `rates` is strictly ascending: sorted, nothing twice.
pub open spec fn strictly_ascending(rates: Seq<u32>) -> bool {
    forall|a: int, b: int| 0 <= a < b < rates.len() ==> rates[a] < rates[b]
}

/// Puts `rate` into the strictly ascending `rates`, unless it is there.
fn insert_rate(rates: &mut Vec<u32>, rate: u32)
    requires
        strictly_ascending(old(rates)@),
    ensures
        strictly_ascending(final(rates)@),
        forall|r: u32|
            #[trigger] final(rates)@.contains(r) <==> (old(rates)@.contains(r) || r == rate),
{
    let mut i: usize = 0;
    while i < rates.len() && rates[i] < rate
        invariant
            i <= rates@.len(),
            rates@ == old(rates)@,
            forall|j: int| 0 <= j < i ==> rates@[j] < rate,
        decreases rates@.len() - i,
    {
        i += 1;
    }
    if i < rates.len() && rates[i] == rate {
        assert(rates@.contains(rate));
        return ;
    }
    rates.insert(i, rate);
    assert forall|r: u32|
        #[trigger] rates@.contains(r) <==> (old(rates)@.contains(r) || r == rate) by {
        if rates@.contains(r) {
            let k = choose|k: int| 0 <= k < rates@.len() && rates@[k] == r;
            if k < i {
                assert(old(rates)@[k] == r);
            } else if k > i {
                assert(old(rates)@[k - 1] == r);
            }
        }
        if old(rates)@.contains(r) {
            let k = choose|k: int| 0 <= k < old(rates)@.len() && old(rates)@[k] == r;
            if k < i {
                assert(rates@[k] == r);
            } else {
                assert(rates@[k + 1] == r);
            }
        }
        if r == rate {
            assert(rates@[i as int] == r);
        }
    }
}

/// Whether one of the first `n` ranges names `rate`.
pub open spec fn named_by_ranges(ranges: Seq<RateRange>, n: int, rate: u32) -> bool {
    exists|i: int| 0 <= i < n && range_names(#[trigger] ranges[i], rate)
}

/// Whether `rate` is one of the first `k` standard rates and lies in
/// `range`.
spec fn standard_in_range(range: RateRange, k: int, rate: u32) -> bool {
    exists|m: int|
        0 <= m < k && #[trigger] standard_rates()[m] == rate && range.minimum <= rate
            <= range.maximum
}

/// The rates that a device supports, from the ranges that it reports:
/// ascending, each rate once. A range of a single rate gives that rate; a
/// wider range gives the standard rates inside it.
pub fn rates_from_ranges(ranges: &[RateRange]) -> (rates: Vec<u32>)
    ensures
        strictly_ascending(rates@),
        forall|r: u32|
            #[trigger] rates@.contains(r) <==> named_by_ranges(ranges@, ranges@.len() as int, r),
{
    let standard: [u32; 6] = [44100, 48000, 88200, 96000, 176400, 192000];
    assert(standard@ =~= standard_rates());
    let mut rates: Vec<u32> = Vec::new();
    let mut i: usize = 0;
    while i < ranges.len()
        invariant
            i <= ranges@.len(),
            standard@ == standard_rates(),
            strictly_ascending(rates@),
            forall|r: u32| #[trigger] rates@.contains(r) <==> named_by_ranges(ranges@, i as int, r),
        decreases ranges@.len() - i,
    {
        let range: RateRange = ranges[i];
        let ghost before = rates@;
        if range.minimum == range.maximum {
            insert_rate(&mut rates, range.minimum);
        } else {
            let mut k: usize = 0;
            while k < 6
                invariant
                    k <= 6,
                    standard@ == standard_rates(),
                    strictly_ascending(rates@),
                    forall|r: u32|
                        #[trigger] rates@.contains(r) <==> (before.contains(r)
                            || standard_in_range(range, k as int, r)),
                decreases 6 - k,
            {
                let rate: u32 = standard[k];
                let ghost prior = rates@;
                if rate >= range.minimum && rate <= range.maximum {
                    insert_rate(&mut rates, rate);
                }
                assert forall|r: u32|
                    #[trigger] rates@.contains(r) <==> (before.contains(r) || standard_in_range(
                        range,
                        k + 1,
                        r,
                    )) by {
                    assert(prior.contains(r) <==> (before.contains(r) || standard_in_range(
                        range,
                        k as int,
                        r,
                    )));
                    if rates@.contains(r) && !prior.contains(r) {
                        assert(standard_rates()[k as int] == r);
                    }
                    if standard_in_range(range, k + 1, r) {
                        let m = choose|m: int|
                            0 <= m < k + 1 && #[trigger] standard_rates()[m] == r && range.minimum
                                <= r <= range.maximum;
                        if m < k {
                            assert(standard_in_range(range, k as int, r));
                        }
                    }
                    if standard_in_range(range, k as int, r) {
                        let m = choose|m: int|
                            0 <= m < k && #[trigger] standard_rates()[m] == r && range.minimum <= r
                                <= range.maximum;
                        assert(standard_in_range(range, k + 1, r));
                    }
                }
                k += 1;
            }
        }
        assert forall|r: u32|
            #[trigger] rates@.contains(r) <==> named_by_ranges(ranges@, i + 1, r) by {
            assert(before.contains(r) <==> named_by_ranges(ranges@, i as int, r));
            if range.minimum == range.maximum {
                assert(rates@.contains(r) <==> (before.contains(r) || r == range.minimum));
            } else {
                assert(rates@.contains(r) <==> (before.contains(r) || standard_in_range(
                    range,
                    6,
                    r,
                )));
                if standard_in_range(range, 6, r) {
                    let m = choose|m: int|
                        0 <= m < 6 && #[trigger] standard_rates()[m] == r && range.minimum <= r
                            <= range.maximum;
                    assert(standard_rates().contains(r));
                }
                if standard_rates().contains(r) && range.minimum <= r <= range.maximum {
                    let m = choose|m: int| 0 <= m < 6 && standard_rates()[m] == r;
                    assert(standard_rates()[m] == r);
                    assert(standard_in_range(range, 6, r));
                }
            }
            if rates@.contains(r) && !before.contains(r) {
                assert(range_names(ranges@[i as int], r));
            }
            if named_by_ranges(ranges@, i as int, r) {
                let j = choose|j: int| 0 <= j < i && range_names(#[trigger] ranges@[j], r);
                assert(range_names(ranges@[j], r));
            }
            if named_by_ranges(ranges@, i + 1, r) {
                let j = choose|j: int| 0 <= j < i + 1 && range_names(#[trigger] ranges@[j], r);
                if j < i {
                    assert(named_by_ranges(ranges@, i as int, r));
                }
            }
        }
        i += 1;
    }
    rates
}

impl DeviceInfo {
    /// The description of a device from what it answered: `None` stands for
    /// a question that the device refused. A device that will not tell its
    /// rates is taken to support 44.1 and 48 kHz, one that will not tell its
    /// current rate to run at 48 kHz, and one that will not tell its
    /// transport not to be Bluetooth.
    pub fn from_answers(
        id: u32,
        name: String,
        supported_sample_rates: Option<Vec<u32>>,
        current_sample_rate: Option<u32>,
        transport_type: Option<u32>,
    ) -> (info: DeviceInfo)
        ensures
            info.id == id,
            info.name == name,
            info.supported_sample_rates@ == match supported_sample_rates {
                Some(rates) => rates@,
                None => seq![44100u32, 48000u32],
            },
            info.current_sample_rate == match current_sample_rate {
                Some(rate) => rate,
                None => FALLBACK_SAMPLE_RATE,
            },
            info.is_bluetooth == match transport_type {
                Some(t) => t == TRANSPORT_TYPE_BLUETOOTH || t == TRANSPORT_TYPE_BLUETOOTH_LE,
                None => false,
            },
    {
        let rates: Vec<u32> = match supported_sample_rates {
            Some(rates) => rates,
            None => default_sample_rates(),
        };
        let current: u32 = match current_sample_rate {
            Some(rate) => rate,
            None => FALLBACK_SAMPLE_RATE,
        };
        let is_bluetooth: bool = match transport_type {
            Some(t) => is_bluetooth_transport(t),
            None => false,
        };
        DeviceInfo {
            id,
            name,
            supported_sample_rates: rates,
            current_sample_rate: current,
            is_bluetooth,
        }
    }
}

/// The lower-case form of a text, as `str::to_lowercase` of the standard
/// library gives it.
pub uninterp spec fn lowercased(text: Seq<char>) -> Seq<char>;

/// Whether `needle` occurs in `hay` as a run of consecutive characters.
pub open spec fn occurs_in(needle: Seq<char>, hay: Seq<char>) -> bool {
    exists|i: int|
        0 <= i && i + needle.len() <= hay.len() && #[trigger] hay.subrange(
            i,
            i + needle.len(),
        ) == needle
}

/// Calls `str::to_lowercase` of the standard library: the result is the
/// lower-case form of the text by the rules of Unicode, and depends on the
/// text alone.
#[verifier::external_body]
fn to_lowercase(text: &str) -> (r: String)
    ensures
        r@ == lowercased(text@),
{
    text.to_lowercase()
}

/// Calls `str::contains` of the standard library with a string pattern:
/// whether the pattern occurs in the text.
#[verifier::external_body]
fn contains_text(hay: &str, needle: &str) -> (r: bool)
    ensures
        r == occurs_in(needle@, hay@),
{
    hay.contains(needle)
}

/// Whether the name of `device` is `name`, letter case aside.
pub open spec fn name_is(device: DeviceInfo, name: Seq<char>) -> bool {
    lowercased(device.name@) == lowercased(name)
}

/// Whether the name of `device` holds `name`, letter case aside.
pub open spec fn name_holds(device: DeviceInfo, name: Seq<char>) -> bool {
    occurs_in(lowercased(name), lowercased(device.name@))
}

/// Finds a device by name, letter case aside: the first device with
/// exactly that name, or, if there is none, the first whose name holds it.
/// Returns the index of the device.
pub fn find_device_by_name(devices: &[DeviceInfo], name: &str) -> (found: Option<usize>)
    ensures
        match found {
            Some(at) => {
                &&& at < devices@.len()
                &&& if exists|i: int| 0 <= i < devices@.len() && name_is(devices@[i], name@) {
                    &&& name_is(devices@[at as int], name@)
                    &&& forall|i: int| 0 <= i < at ==> !name_is(#[trigger] devices@[i], name@)
                } else {
                    &&& name_holds(devices@[at as int], name@)
                    &&& forall|i: int| 0 <= i < at ==> !name_holds(#[trigger] devices@[i], name@)
                }
            },
            None => forall|i: int|
                0 <= i < devices@.len() ==> !name_is(#[trigger] devices@[i], name@) && !name_holds(
                    devices@[i],
                    name@,
                ),
        },
{
    let wanted: String = to_lowercase(name);
    let mut i: usize = 0;
    while i < devices.len()
        invariant
            i <= devices@.len(),
            wanted@ == lowercased(name@),
            forall|j: int| 0 <= j < i ==> !name_is(#[trigger] devices@[j], name@),
        decreases devices@.len() - i,
    {
        let lower: String = to_lowercase(devices[i].name.as_str());
        if lower == wanted {
            assert(name_is(devices@[i as int], name@));
            return Some(i);
        }
        i += 1;
    }
    let mut k: usize = 0;
    while k < devices.len()
        invariant
            k <= devices@.len(),
            wanted@ == lowercased(name@),
            forall|j: int| 0 <= j < devices@.len() ==> !name_is(#[trigger] devices@[j], name@),
            forall|j: int| 0 <= j < k ==> !name_holds(#[trigger] devices@[j], name@),
        decreases devices@.len() - k,
    {
        let lower: String = to_lowercase(devices[k].name.as_str());
        if contains_text(lower.as_str(), wanted.as_str()) {
            return Some(k);
        }
        k += 1;
    }
    None
}

} // verus!