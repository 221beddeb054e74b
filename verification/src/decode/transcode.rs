//! Conversion of decoded packets to interleaved, left-aligned samples.
//!
//! A decoder hands out a packet as one run of samples per channel, in the
//! sample type of the source. The player wants one run of signed 32-bit
//! words, frame after frame, each sample moved to the top of its word: a
//! signed source sample of `n` bits is multiplied by 2^(32-n); an unsigned
//! one is first rebiased by subtracting the midpoint 2^(n-1). No rounding,
//! no floating point: an integer source reaches the device bit for bit.

use vstd::prelude::*;

verus! {

/// The 32-bit two's-complement word that `x` wraps to.
pub open spec fn wrap_i32(x: int) -> i32 {
    let m = x % 0x1_0000_0000;
    if m >= 0x8000_0000 {
        (m - 0x1_0000_0000) as i32
    } else {
        m as i32
    }
}

/// How one kind of source sample becomes a left-aligned word.
pub trait SampleRule<S: Copy> {
    /// The left-aligned word for `raw`.
    spec fn aligned(raw: S) -> i32;

    /// Computes the left-aligned word for `raw`.
    fn align(raw: S) -> (r: i32)
        ensures
            r == Self::aligned(raw),
    ;
}

/// Signed 8-bit samples.
pub struct S8;

/// Signed 16-bit samples.
pub struct S16;

/// Signed 24-bit samples, each held in the low 24 bits of an `i32`.
pub struct S24;

/// Signed 32-bit samples.
pub struct S32;

/// Unsigned 8-bit samples.
pub struct U8;

/// Unsigned 16-bit samples.
pub struct U16;

/// Unsigned 24-bit samples, each held in the low 24 bits of a `u32`.
pub struct U24;

/// Unsigned 32-bit samples.
pub struct U32;

impl SampleRule<i8> for S8 {
    open spec fn aligned(raw: i8) -> i32 {
        (raw * 0x100_0000) as i32
    }

    fn align(raw: i8) -> (r: i32) {
        assert(((raw as i32) << 24) == (raw * 0x100_0000) as i32) by (bit_vector);
        (raw as i32) << 24
    }
}

impl SampleRule<i16> for S16 {
    open spec fn aligned(raw: i16) -> i32 {
        (raw * 0x1_0000) as i32
    }

    fn align(raw: i16) -> (r: i32) {
        assert(((raw as i32) << 16) == (raw * 0x1_0000) as i32) by (bit_vector);
        (raw as i32) << 16
    }
}

impl SampleRule<i32> for S24 {
    open spec fn aligned(raw: i32) -> i32 {
        wrap_i32(raw * 0x100)
    }

    fn align(raw: i32) -> (r: i32) {
        assert((raw << 8) == ({
            let m = (raw * 0x100) % 0x1_0000_0000;
            if m >= 0x8000_0000 {
                (m - 0x1_0000_0000) as i32
            } else {
                m as i32
            }
        })) by (bit_vector);
        raw << 8
    }
}

impl SampleRule<i32> for S32 {
    open spec fn aligned(raw: i32) -> i32 {
        raw
    }

    fn align(raw: i32) -> (r: i32) {
        raw
    }
}

impl SampleRule<u8> for U8 {
    open spec fn aligned(raw: u8) -> i32 {
        ((raw - 0x80) * 0x100_0000) as i32
    }

    fn align(raw: u8) -> (r: i32) {
        let centred: i32 = raw as i32 - 128;
        assert((centred << 24) == (centred * 0x100_0000) as i32) by (bit_vector)
            requires
                -128 <= centred <= 127,
        ;
        centred << 24
    }
}

impl SampleRule<u16> for U16 {
    open spec fn aligned(raw: u16) -> i32 {
        ((raw - 0x8000) * 0x1_0000) as i32
    }

    fn align(raw: u16) -> (r: i32) {
        let centred: i32 = raw as i32 - 32768;
        assert((centred << 16) == (centred * 0x1_0000) as i32) by (bit_vector)
            requires
                -32768 <= centred <= 32767,
        ;
        centred << 16
    }
}

impl SampleRule<u32> for U24 {
    open spec fn aligned(raw: u32) -> i32 {
        wrap_i32((raw - 0x80_0000) * 0x100)
    }

    fn align(raw: u32) -> (r: i32) {
        let centred: i32 = (raw as i32).wrapping_sub(8388608);
        assert((centred << 8) == ({
            let m = ((raw - 0x80_0000) * 0x100) % 0x1_0000_0000;
            if m >= 0x8000_0000 {
                (m - 0x1_0000_0000) as i32
            } else {
                m as i32
            }
        })) by (bit_vector)
            requires
                centred == (if (raw as i32) - 8388608 < -0x8000_0000 {
                    ((raw as i32) - 8388608 + 0x1_0000_0000) as i32
                } else {
                    ((raw as i32) - 8388608) as i32
                }),
        ;
        centred << 8
    }
}

impl SampleRule<u32> for U32 {
    open spec fn aligned(raw: u32) -> i32 {
        (raw - 0x8000_0000) as i32
    }

    fn align(raw: u32) -> (r: i32) {
        let r: i32 = raw.wrapping_sub(2147483648) as i32;
        assert(r == (raw - 0x8000_0000) as i32) by (bit_vector)
            requires
                r == (if raw - 2147483648 < 0 {
                    (raw - 2147483648 + 0x1_0000_0000) as u32
                } else {
                    (raw - 2147483648) as u32
                }) as i32,
        ;
        r
    }
}

/// A packet is well-formed when every channel holds at least `frames`
/// samples.
pub open spec fn planar_wf<S>(channels: Seq<&[S]>, frames: int) -> bool {
    forall|c: int| 0 <= c < channels.len() ==> (#[trigger] channels[c])@.len() >= frames
}

/// The interleaved, left-aligned samples of a packet: sample `f * n + c`
/// is the sample of frame `f` in channel `c`, for `n` channels.
pub open spec fn interleaved<S: Copy, R: SampleRule<S>>(channels: Seq<&[S]>, frames: int) -> Seq<i32> {
    Seq::new(
        (frames * channels.len()) as nat,
        |k: int| R::aligned(channels[k % (channels.len() as int)]@[k / (channels.len() as int)]),
    )
}

/// Writes the interleaved, left-aligned samples of a packet to the front
/// of `output`, and leaves the rest of `output` as it was.
pub fn interleave<S: Copy, R: SampleRule<S>>(channels: &[&[S]], frames: usize, output: &mut [i32])
    requires
        planar_wf(channels@, frames as int),
        frames * channels@.len() <= old(output)@.len(),
    ensures
        final(output)@ == interleaved::<S, R>(channels@, frames as int) + old(output)@.skip(
            frames * channels@.len(),
        ),
{
    let n: usize = channels.len();
    let room: usize = output.len();
    let mut frame: usize = 0;
    let mut base: usize = 0;
    assert(0 <= frames * n) by (nonlinear_arith)
        requires
            0 <= frames,
            0 <= n,
    ;
    while frame < frames
        invariant
            n == channels@.len(),
            planar_wf(channels@, frames as int),
            frames * n <= output@.len(),
            output@.len() == old(output)@.len(),
            output@.len() == room,
            frame <= frames,
            base == frame * n,
            base <= frames * n,
            forall|k: int|
                0 <= k < base ==> #[trigger] output@[k] == interleaved::<S, R>(
                    channels@,
                    frames as int,
                )[k],
            forall|k: int| base <= k < output@.len() ==> #[trigger] output@[k] == old(output)@[k],
        decreases frames - frame,
    {
        assert(base + n <= frames * n && (frame + 1) * n == base + n) by (nonlinear_arith)
            requires
                base == frame * n,
                frame < frames,
        ;
        let mut ch: usize = 0;
        while ch < n
            invariant
                n == channels@.len(),
                planar_wf(channels@, frames as int),
                frames * n <= output@.len(),
                output@.len() == old(output)@.len(),
                output@.len() == room,
                frame < frames,
                base == frame * n,
                base + n <= frames * n,
                ch <= n,
                forall|k: int|
                    0 <= k < base + ch ==> #[trigger] output@[k] == interleaved::<S, R>(
                        channels@,
                        frames as int,
                    )[k],
                forall|k: int|
                    base + ch <= k < output@.len() ==> #[trigger] output@[k] == old(output)@[k],
            decreases n - ch,
        {
            let source: &[S] = channels[ch];
            assert(source@.len() >= frames);
            let raw: S = source[frame];
            let k: usize = base + ch;
            proof {
                let ki = k as int;
                let ni = n as int;
                assert(ki / ni == frame && ki % ni == ch) by (nonlinear_arith)
                    requires
                        ki == frame * ni + ch,
                        0 <= ch < ni,
                        0 <= frame,
                ;
            }
            output[k] = R::align(raw);
            ch += 1;
        }
        base += n;
        frame += 1;
    }
    assert(output@ =~= interleaved::<S, R>(channels@, frames as int) + old(output)@.skip(
        frames * channels@.len(),
    ));
}

/// Signed 8-bit packet to interleaved left-aligned samples.
#[inline]
pub fn convert_s8_to_i32(channels: &[&[i8]], frames: usize, output: &mut [i32])
    requires
        planar_wf(channels@, frames as int),
        frames * channels@.len() <= old(output)@.len(),
    ensures
        final(output)@ == interleaved::<i8, S8>(channels@, frames as int) + old(output)@.skip(
            frames * channels@.len(),
        ),
{
    interleave::<i8, S8>(channels, frames, output)
}

/// Signed 16-bit packet to interleaved left-aligned samples.
#[inline]
pub fn convert_s16_to_i32(channels: &[&[i16]], frames: usize, output: &mut [i32])
    requires
        planar_wf(channels@, frames as int),
        frames * channels@.len() <= old(output)@.len(),
    ensures
        final(output)@ == interleaved::<i16, S16>(channels@, frames as int) + old(output)@.skip(
            frames * channels@.len(),
        ),
{
    interleave::<i16, S16>(channels, frames, output)
}

/// Signed 24-bit packet to interleaved left-aligned samples.
#[inline]
pub fn convert_s24_to_i32(channels: &[&[i32]], frames: usize, output: &mut [i32])
    requires
        planar_wf(channels@, frames as int),
        frames * channels@.len() <= old(output)@.len(),
    ensures
        final(output)@ == interleaved::<i32, S24>(channels@, frames as int) + old(output)@.skip(
            frames * channels@.len(),
        ),
{
    interleave::<i32, S24>(channels, frames, output)
}

/// Signed 32-bit packet to interleaved samples.
#[inline]
pub fn convert_s32_to_i32(channels: &[&[i32]], frames: usize, output: &mut [i32])
    requires
        planar_wf(channels@, frames as int),
        frames * channels@.len() <= old(output)@.len(),
    ensures
        final(output)@ == interleaved::<i32, S32>(channels@, frames as int) + old(output)@.skip(
            frames * channels@.len(),
        ),
{
    interleave::<i32, S32>(channels, frames, output)
}

/// Unsigned 8-bit packet to interleaved left-aligned samples.
#[inline]
pub fn convert_u8_to_i32(channels: &[&[u8]], frames: usize, output: &mut [i32])
    requires
        planar_wf(channels@, frames as int),
        frames * channels@.len() <= old(output)@.len(),
    ensures
        final(output)@ == interleaved::<u8, U8>(channels@, frames as int) + old(output)@.skip(
            frames * channels@.len(),
        ),
{
    interleave::<u8, U8>(channels, frames, output)
}

/// Unsigned 16-bit packet to interleaved left-aligned samples.
#[inline]
pub fn convert_u16_to_i32(channels: &[&[u16]], frames: usize, output: &mut [i32])
    requires
        planar_wf(channels@, frames as int),
        frames * channels@.len() <= old(output)@.len(),
    ensures
        final(output)@ == interleaved::<u16, U16>(channels@, frames as int) + old(output)@.skip(
            frames * channels@.len(),
        ),
{
    interleave::<u16, U16>(channels, frames, output)
}

/// Unsigned 24-bit packet to interleaved left-aligned samples.
#[inline]
pub fn convert_u24_to_i32(channels: &[&[u32]], frames: usize, output: &mut [i32])
    requires
        planar_wf(channels@, frames as int),
        frames * channels@.len() <= old(output)@.len(),
    ensures
        final(output)@ == interleaved::<u32, U24>(channels@, frames as int) + old(output)@.skip(
            frames * channels@.len(),
        ),
{
    interleave::<u32, U24>(channels, frames, output)
}

/// Unsigned 32-bit packet to interleaved samples.
#[inline]
pub fn convert_u32_to_i32(channels: &[&[u32]], frames: usize, output: &mut [i32])
    requires
        planar_wf(channels@, frames as int),
        frames * channels@.len() <= old(output)@.len(),
    ensures
        final(output)@ == interleaved::<u32, U32>(channels@, frames as int) + old(output)@.skip(
            frames * channels@.len(),
        ),
{
    interleave::<u32, U32>(channels, frames, output)
}

/// The samples of a decoded packet, one run per channel, in the sample
/// type of the source.
pub enum PacketSamples<'a> {
    S8(&'a [&'a [i8]]),
    S16(&'a [&'a [i16]]),
    S24(&'a [&'a [i32]]),
    S32(&'a [&'a [i32]]),
    U8(&'a [&'a [u8]]),
    U16(&'a [&'a [u16]]),
    U24(&'a [&'a [u32]]),
    U32(&'a [&'a [u32]]),
}

impl<'a> PacketSamples<'a> {
    /// The number of channels.
    pub open spec fn spec_channels(&self) -> int {
        match *self {
            PacketSamples::S8(c) => c@.len() as int,
            PacketSamples::S16(c) => c@.len() as int,
            PacketSamples::S24(c) => c@.len() as int,
            PacketSamples::S32(c) => c@.len() as int,
            PacketSamples::U8(c) => c@.len() as int,
            PacketSamples::U16(c) => c@.len() as int,
            PacketSamples::U24(c) => c@.len() as int,
            PacketSamples::U32(c) => c@.len() as int,
        }
    }

    /// Every channel holds at least `frames` samples.
    pub open spec fn wf(&self, frames: int) -> bool {
        match *self {
            PacketSamples::S8(c) => planar_wf(c@, frames),
            PacketSamples::S16(c) => planar_wf(c@, frames),
            PacketSamples::S24(c) => planar_wf(c@, frames),
            PacketSamples::S32(c) => planar_wf(c@, frames),
            PacketSamples::U8(c) => planar_wf(c@, frames),
            PacketSamples::U16(c) => planar_wf(c@, frames),
            PacketSamples::U24(c) => planar_wf(c@, frames),
            PacketSamples::U32(c) => planar_wf(c@, frames),
        }
    }

    /// The interleaved, left-aligned samples of the first `frames` frames.
    pub open spec fn transcoded(&self, frames: int) -> Seq<i32> {
        match *self {
            PacketSamples::S8(c) => interleaved::<i8, S8>(c@, frames),
            PacketSamples::S16(c) => interleaved::<i16, S16>(c@, frames),
            PacketSamples::S24(c) => interleaved::<i32, S24>(c@, frames),
            PacketSamples::S32(c) => interleaved::<i32, S32>(c@, frames),
            PacketSamples::U8(c) => interleaved::<u8, U8>(c@, frames),
            PacketSamples::U16(c) => interleaved::<u16, U16>(c@, frames),
            PacketSamples::U24(c) => interleaved::<u32, U24>(c@, frames),
            PacketSamples::U32(c) => interleaved::<u32, U32>(c@, frames),
        }
    }

    /// The number of channels.
    pub fn channels(&self) -> (n: usize)
        ensures
            n == self.spec_channels(),
    {
        match *self {
            PacketSamples::S8(c) => c.len(),
            PacketSamples::S16(c) => c.len(),
            PacketSamples::S24(c) => c.len(),
            PacketSamples::S32(c) => c.len(),
            PacketSamples::U8(c) => c.len(),
            PacketSamples::U16(c) => c.len(),
            PacketSamples::U24(c) => c.len(),
            PacketSamples::U32(c) => c.len(),
        }
    }
}

/// Writes the interleaved, left-aligned samples of the first `frames`
/// frames of a packet to the front of `output`, whatever the sample type,
/// and returns how many samples that is. The rest of `output` is left as
/// it was.
pub fn transcode_packet(packet: &PacketSamples<'_>, frames: usize, output: &mut [i32]) -> (written:
    usize)
    requires
        packet.wf(frames as int),
        frames * packet.spec_channels() <= old(output)@.len(),
    ensures
        written == frames * packet.spec_channels(),
        final(output)@ == packet.transcoded(frames as int) + old(output)@.skip(written as int),
{
    let n: usize = packet.channels();
    let room: usize = output.len();
    assert(0 <= frames * n <= room) by (nonlinear_arith)
        requires
            frames * n <= room,
            0 <= frames,
            0 <= n,
    ;
    let total: usize = frames * n;
    match *packet {
        PacketSamples::S8(c) => convert_s8_to_i32(c, frames, output),
        PacketSamples::S16(c) => convert_s16_to_i32(c, frames, output),
        PacketSamples::S24(c) => convert_s24_to_i32(c, frames, output),
        PacketSamples::S32(c) => convert_s32_to_i32(c, frames, output),
        PacketSamples::U8(c) => convert_u8_to_i32(c, frames, output),
        PacketSamples::U16(c) => convert_u16_to_i32(c, frames, output),
        PacketSamples::U24(c) => convert_u24_to_i32(c, frames, output),
        PacketSamples::U32(c) => convert_u32_to_i32(c, frames, output),
    }
    total
}

/// What the transcoder does to a sample that is in the range of its
/// depth: a signed sample is multiplied by the power of two that moves it
/// to the top of the word, an unsigned one is rebiased first. The sign of a
/// signed sample is kept.
pub proof fn lemma_aligned_values(s8: i8, s16: i16, s24: i32, u8v: u8, u16v: u16, u24: u32, u32v: u32)
    requires
        -0x80_0000 <= s24 < 0x80_0000,
        u24 < 0x100_0000,
    ensures
        S8::aligned(s8) == s8 * 0x100_0000,
        S16::aligned(s16) == s16 * 0x1_0000,
        S24::aligned(s24) == s24 * 0x100,
        U8::aligned(u8v) == (u8v - 0x80) * 0x100_0000,
        U16::aligned(u16v) == (u16v - 0x8000) * 0x1_0000,
        U24::aligned(u24) == (u24 - 0x80_0000) * 0x100,
        U32::aligned(u32v) == u32v - 0x8000_0000,
        S8::aligned(s8) < 0 <==> s8 < 0,
        S16::aligned(s16) < 0 <==> s16 < 0,
        S24::aligned(s24) < 0 <==> s24 < 0,
{
}

} // verus!