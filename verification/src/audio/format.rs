//! Audio formats and the sample codec.
//!
//! Inside the player every sample is a signed 32-bit word, left-aligned: the
//! source's most significant bit sits in bit 31 whatever the source depth.
//! A 16-bit sample occupies bits 31..16, a 24-bit sample bits 31..8, a
//! 32-bit sample the whole word; the bits below are zero.
//!
//! On the wire a sample of depth `bits` is the top `bits / 8` bytes of that
//! word, least significant byte first. Decoding places the bytes at the top
//! of a word and clears the rest; encoding reads them back.

use vstd::prelude::*;

verus! {

/// How channels are laid out in a device buffer.
#[derive(Clone, Copy, Debug, PartialEq, Eq, Structural)]
pub enum OutputLayout {
    /// All channels in one buffer: L R L R ...
    Interleaved,
    /// One buffer per channel.
    NonInterleaved,
}

impl Default for OutputLayout {
    fn default() -> (r: Self)
        ensures
            r == OutputLayout::Interleaved,
    {
        OutputLayout::Interleaved
    }
}

/// Sample rate, channel count, source bit depth and buffer layout.
#[derive(Clone, Copy, Debug, PartialEq, Eq, Structural)]
pub struct AudioFormat {
    pub sample_rate: u32,
    pub channels: u16,
    pub bits_per_sample: u16,
    pub layout: OutputLayout,
}

/// The signed word whose bytes, least significant first, are `b0..b3`.
pub open spec fn word_from_bytes(b0: u8, b1: u8, b2: u8, b3: u8) -> i32 {
    let u = b0 + 256 * b1 + 65536 * b2 + 16777216 * b3;
    if u >= 0x8000_0000 {
        (u - 0x1_0000_0000) as i32
    } else {
        u as i32
    }
}

/// Byte `k` (0 is the least significant) of the two's-complement word `w`.
pub open spec fn word_byte(w: i32, k: int) -> u8 {
    let u = if w < 0 {
        w + 0x1_0000_0000
    } else {
        w as int
    };
    if k == 0 {
        (u % 256) as u8
    } else if k == 1 {
        (u / 256 % 256) as u8
    } else if k == 2 {
        (u / 65536 % 256) as u8
    } else {
        (u / 16777216 % 256) as u8
    }
}

/// The depths that the codec handles.
pub open spec fn is_wire_depth(bits: u16) -> bool {
    bits == 16 || bits == 24 || bits == 32
}

/// Bytes per sample at a wire depth.
pub open spec fn wire_width(bits: u16) -> int {
    if bits == 16 {
        2
    } else if bits == 24 {
        3
    } else {
        4
    }
}

/// The left-aligned sample that the `i`-th group of `wire_width(bits)`
/// bytes of `bytes` encodes.
pub open spec fn decoded_sample(bits: u16, bytes: Seq<u8>, i: int) -> i32 {
    if bits == 16 {
        word_from_bytes(0, 0, bytes[2 * i], bytes[2 * i + 1])
    } else if bits == 24 {
        word_from_bytes(0, bytes[3 * i], bytes[3 * i + 1], bytes[3 * i + 2])
    } else {
        word_from_bytes(bytes[4 * i], bytes[4 * i + 1], bytes[4 * i + 2], bytes[4 * i + 3])
    }
}

/// Byte `k` of the encoding of `sample` at depth `bits`: the top
/// `wire_width(bits)` bytes of the word, least significant first.
pub open spec fn encoded_byte(bits: u16, sample: i32, k: int) -> u8 {
    word_byte(sample, 4 - wire_width(bits) + k)
}

/// How many whole samples `n_bytes` bytes hold at a wire depth.
pub open spec fn wire_groups(bits: u16, n_bytes: int) -> int {
    if bits == 16 {
        n_bytes / 2
    } else if bits == 24 {
        n_bytes / 3
    } else {
        n_bytes / 4
    }
}

/// How many bytes `n_samples` samples take at a wire depth.
pub open spec fn wire_len(bits: u16, n_samples: int) -> int {
    if bits == 16 {
        n_samples * 2
    } else if bits == 24 {
        n_samples * 3
    } else {
        n_samples * 4
    }
}

/// Which byte of its sample the `j`-th wire byte is.
pub open spec fn wire_offset(bits: u16, j: int) -> int {
    if bits == 16 {
        j % 2
    } else if bits == 24 {
        j % 3
    } else {
        j % 4
    }
}

/// Every whole group of bytes decoded: the samples that `bytes` holds at
/// depth `bits`. Empty at a depth the codec does not handle.
pub open spec fn decoded_samples(bits: u16, bytes: Seq<u8>) -> Seq<i32> {
    if is_wire_depth(bits) {
        Seq::new(
            wire_groups(bits, bytes.len() as int) as nat,
            |i: int| decoded_sample(bits, bytes, i),
        )
    } else {
        Seq::empty()
    }
}

/// The wire bytes of `samples` at depth `bits`, sample after sample. Empty
/// at a depth the codec does not handle.
pub open spec fn encoded_bytes(bits: u16, samples: Seq<i32>) -> Seq<u8> {
    if is_wire_depth(bits) {
        Seq::new(
            wire_len(bits, samples.len() as int) as nat,
            |j: int| encoded_byte(bits, samples[wire_groups(bits, j)], wire_offset(bits, j)),
        )
    } else {
        Seq::empty()
    }
}

/// The smaller of two counts.
pub open spec fn min_int(a: int, b: int) -> int {
    if a <= b {
        a
    } else {
        b
    }
}

/// How many samples an encode writes into `n_out` bytes: every sample whose
/// bytes fit whole; none at a depth the codec does not handle.
pub open spec fn encodable_samples(bits: u16, n_samples: int, n_out: int) -> int {
    if is_wire_depth(bits) {
        min_int(n_samples, wire_groups(bits, n_out))
    } else {
        0
    }
}

/// How many frames of `n_samples` interleaved samples hold a sample of
/// channel `channel`, with `channels` samples per frame.
pub open spec fn channel_frames(n_samples: int, channel: int, channels: int) -> int {
    if channel >= n_samples {
        0
    } else {
        (n_samples - channel - 1) / channels + 1
    }
}

/// The samples of one channel of an interleaved buffer, frame after frame.
pub open spec fn channel_samples(samples: Seq<i32>, channel: int, channels: int) -> Seq<i32> {
    Seq::new(
        channel_frames(samples.len() as int, channel, channels) as nat,
        |f: int| samples[channel + f * channels],
    )
}

proof fn lemma_compose16(b0: u8, b1: u8)
    ensures
        ((((b0 as u16) | ((b1 as u16) << 8)) as i16) as i32) << 16 == word_from_bytes(0, 0, b0, b1),
{
    assert(((((b0 as u16) | ((b1 as u16) << 8)) as i16) as i32) << 16 == {
        let u = 65536 * b0 + 16777216 * b1;
        if u >= 0x8000_0000 {
            (u - 0x1_0000_0000) as i32
        } else {
            u as i32
        }
    }) by (bit_vector);
}

proof fn lemma_compose24(b0: u8, b1: u8, b2: u8)
    ensures
        ((((b0 as i32) | ((b1 as i32) << 8) | ((b2 as i32) << 16)) << 8) >> 8) << 8
            == word_from_bytes(0, b0, b1, b2),
{
    assert(((((b0 as i32) | ((b1 as i32) << 8) | ((b2 as i32) << 16)) << 8) >> 8) << 8 == {
        let u = 256 * b0 + 65536 * b1 + 16777216 * b2;
        if u >= 0x8000_0000 {
            (u - 0x1_0000_0000) as i32
        } else {
            u as i32
        }
    }) by (bit_vector);
}

proof fn lemma_compose32(b0: u8, b1: u8, b2: u8, b3: u8)
    ensures
        (((b0 as u32) | ((b1 as u32) << 8) | ((b2 as u32) << 16) | ((b3 as u32) << 24)) as i32)
            == word_from_bytes(b0, b1, b2, b3),
{
    assert((((b0 as u32) | ((b1 as u32) << 8) | ((b2 as u32) << 16) | ((b3 as u32) << 24)) as i32)
        == {
        let u = b0 + 256 * b1 + 65536 * b2 + 16777216 * b3;
        if u >= 0x8000_0000 {
            (u - 0x1_0000_0000) as i32
        } else {
            u as i32
        }
    }) by (bit_vector);
}

proof fn lemma_split(w: i32)
    ensures
        (w & 0xFF) as u8 == word_byte(w, 0),
        ((w >> 8) & 0xFF) as u8 == word_byte(w, 1),
        ((w >> 16) & 0xFF) as u8 == word_byte(w, 2),
        ((w >> 24) & 0xFF) as u8 == word_byte(w, 3),
{
    assert((w & 0xFF) as u8 == ((if w < 0 {
        w + 0x1_0000_0000
    } else {
        w as int
    }) % 256) as u8) by (bit_vector);
    assert(((w >> 8) & 0xFF) as u8 == ((if w < 0 {
        w + 0x1_0000_0000
    } else {
        w as int
    }) / 256 % 256) as u8) by (bit_vector);
    assert(((w >> 16) & 0xFF) as u8 == ((if w < 0 {
        w + 0x1_0000_0000
    } else {
        w as int
    }) / 65536 % 256) as u8) by (bit_vector);
    assert(((w >> 24) & 0xFF) as u8 == ((if w < 0 {
        w + 0x1_0000_0000
    } else {
        w as int
    }) / 16777216 % 256) as u8) by (bit_vector);
}

fn decode16(b0: u8, b1: u8) -> (r: i32)
    ensures
        r == word_from_bytes(0, 0, b0, b1),
{
    proof {
        lemma_compose16(b0, b1);
    }
    let raw: u16 = (b0 as u16) | ((b1 as u16) << 8);
    ((raw as i16) as i32) << 16
}

fn decode24(b0: u8, b1: u8, b2: u8) -> (r: i32)
    ensures
        r == word_from_bytes(0, b0, b1, b2),
{
    proof {
        lemma_compose24(b0, b1, b2);
    }
    let raw: i32 = (b0 as i32) | ((b1 as i32) << 8) | ((b2 as i32) << 16);
    // Move the sign bit of the 24-bit value to bit 31, then shift back
    // arithmetically: the value is now sign-extended.
    let signed: i32 = (raw << 8) >> 8;
    signed << 8
}

fn decode32(b0: u8, b1: u8, b2: u8, b3: u8) -> (r: i32)
    ensures
        r == word_from_bytes(b0, b1, b2, b3),
{
    proof {
        lemma_compose32(b0, b1, b2, b3);
    }
    let raw: u32 = (b0 as u32) | ((b1 as u32) << 8) | ((b2 as u32) << 16) | ((b3 as u32) << 24);
    raw as i32
}

fn byte_of(w: i32, k: u8) -> (r: u8)
    requires
        k < 4,
    ensures
        r == word_byte(w, k as int),
{
    proof {
        lemma_split(w);
    }
    if k == 0 {
        (w & 0xFF) as u8
    } else if k == 1 {
        ((w >> 8) & 0xFF) as u8
    } else if k == 2 {
        ((w >> 16) & 0xFF) as u8
    } else {
        ((w >> 24) & 0xFF) as u8
    }
}

/// The encoding of a run of samples is the encoding of all but the last,
/// followed by the encoding of the last.
pub proof fn lemma_encoded_bytes_push(bits: u16, samples: Seq<i32>, last: i32)
    requires
        is_wire_depth(bits),
    ensures
        encoded_bytes(bits, samples.push(last)) == encoded_bytes(bits, samples) + encoded_bytes(
            bits,
            seq![last],
        ),
        encoded_bytes(bits, samples).len() == wire_len(bits, samples.len() as int),
        encoded_bytes(bits, seq![last]).len() == wire_width(bits),
{
    assert(encoded_bytes(bits, samples.push(last)) =~= encoded_bytes(bits, samples)
        + encoded_bytes(bits, seq![last]));
}

/// Writes the wire bytes of one sample at `offset`.
pub fn pack_sample(bits: u16, sample: i32, output: &mut [u8], offset: usize)
    requires
        is_wire_depth(bits),
        offset + wire_width(bits) <= old(output)@.len(),
    ensures
        final(output)@ == old(output)@.take(offset as int) + encoded_bytes(bits, seq![sample])
            + old(output)@.skip(offset + wire_width(bits)),
{
    if bits == 16 {
        output[offset] = byte_of(sample, 2);
        output[offset + 1] = byte_of(sample, 3);
    } else if bits == 24 {
        output[offset] = byte_of(sample, 1);
        output[offset + 1] = byte_of(sample, 2);
        output[offset + 2] = byte_of(sample, 3);
    } else {
        output[offset] = byte_of(sample, 0);
        output[offset + 1] = byte_of(sample, 1);
        output[offset + 2] = byte_of(sample, 2);
        output[offset + 3] = byte_of(sample, 3);
    }
    assert(output@ =~= old(output)@.take(offset as int) + encoded_bytes(bits, seq![sample]) + old(
        output,
    )@.skip(offset + wire_width(bits)));
}

impl AudioFormat {
    /// A format with the interleaved layout.
    pub fn new(sample_rate: u32, channels: u16, bits_per_sample: u16) -> (r: Self)
        ensures
            r.sample_rate == sample_rate,
            r.channels == channels,
            r.bits_per_sample == bits_per_sample,
            r.layout == OutputLayout::Interleaved,
    {
        AudioFormat { sample_rate, channels, bits_per_sample, layout: OutputLayout::Interleaved }
    }

    /// Samples per frame: one per channel.
    #[inline]
    pub fn samples_per_frame(&self) -> (r: usize)
        ensures
            r == self.channels,
    {
        self.channels as usize
    }

    /// Bytes per frame at the source depth.
    #[inline]
    pub fn bytes_per_frame(&self) -> (r: usize)
        ensures
            r == (self.bits_per_sample / 8) * self.channels,
    {
        let width: usize = (self.bits_per_sample / 8) as usize;
        let channels: usize = self.channels as usize;
        assert(width * channels <= 8191 * 65535) by (nonlinear_arith)
            requires
                0 <= width <= 8191,
                0 <= channels <= 65535,
        ;
        width * channels
    }

    /// Bytes per sample at the source depth.
    #[inline]
    pub fn bytes_per_sample(&self) -> (r: usize)
        ensures
            r == self.bits_per_sample / 8,
    {
        (self.bits_per_sample / 8) as usize
    }

    /// Decodes little-endian packed PCM into left-aligned samples.
    ///
    /// Whole groups of bytes are decoded, as far as `output` has room; the
    /// rest of `output` is left as it was. At a depth other than 16, 24 or
    /// 32 nothing is decoded. Returns the number of samples written.
    pub fn bytes_to_samples(&self, bytes: &[u8], output: &mut [i32]) -> (written: usize)
        ensures
            written == min_int(
                decoded_samples(self.bits_per_sample, bytes@).len() as int,
                old(output)@.len() as int,
            ),
            final(output)@ == decoded_samples(self.bits_per_sample, bytes@).take(written as int)
                + old(output)@.skip(written as int),
    {
        let bits: u16 = self.bits_per_sample;
        let room: usize = output.len();
        let len: usize = bytes.len();
        let mut n: usize = 0;
        if bits == 16 {
            let groups: usize = len / 2;
            n = if groups <= room { groups } else { room };
            let mut i: usize = 0;
            while i < n
                invariant
                    bits == 16,
                    i <= n,
                    n <= room,
                    2 * n <= len,
                    len == bytes@.len(),
                    room == output@.len(),
                    output@.len() == old(output)@.len(),
                    forall|j: int| 0 <= j < i ==> #[trigger] output@[j] == decoded_sample(bits, bytes@, j),
                    forall|j: int| i <= j < room ==> #[trigger] output@[j] == old(output)@[j],
                decreases n - i,
            {
                output[i] = decode16(bytes[2 * i], bytes[2 * i + 1]);
                i += 1;
            }
        } else if bits == 24 {
            let groups: usize = len / 3;
            n = if groups <= room { groups } else { room };
            let mut i: usize = 0;
            while i < n
                invariant
                    bits == 24,
                    i <= n,
                    n <= room,
                    3 * n <= len,
                    len == bytes@.len(),
                    room == output@.len(),
                    output@.len() == old(output)@.len(),
                    forall|j: int| 0 <= j < i ==> #[trigger] output@[j] == decoded_sample(bits, bytes@, j),
                    forall|j: int| i <= j < room ==> #[trigger] output@[j] == old(output)@[j],
                decreases n - i,
            {
                output[i] = decode24(bytes[3 * i], bytes[3 * i + 1], bytes[3 * i + 2]);
                i += 1;
            }
        } else if bits == 32 {
            let groups: usize = len / 4;
            n = if groups <= room { groups } else { room };
            let mut i: usize = 0;
            while i < n
                invariant
                    bits == 32,
                    i <= n,
                    n <= room,
                    4 * n <= len,
                    len == bytes@.len(),
                    room == output@.len(),
                    output@.len() == old(output)@.len(),
                    forall|j: int| 0 <= j < i ==> #[trigger] output@[j] == decoded_sample(bits, bytes@, j),
                    forall|j: int| i <= j < room ==> #[trigger] output@[j] == old(output)@[j],
                decreases n - i,
            {
                output[i] = decode32(
                    bytes[4 * i],
                    bytes[4 * i + 1],
                    bytes[4 * i + 2],
                    bytes[4 * i + 3],
                );
                i += 1;
            }
        }
        assert(output@ =~= decoded_samples(bits, bytes@).take(n as int) + old(output)@.skip(
            n as int,
        ));
        n
    }

    /// Packs left-aligned samples into little-endian PCM at the source depth.
    ///
    /// Every sample whose bytes fit whole into `output` is written; the rest
    /// of `output` is left as it was. At a depth other than 16, 24 or 32
    /// nothing is written.
    pub fn samples_to_bytes(&self, samples: &[i32], output: &mut [u8])
        ensures
            ({
                let count = encodable_samples(
                    self.bits_per_sample,
                    samples@.len() as int,
                    old(output)@.len() as int,
                );
                let packed = encoded_bytes(self.bits_per_sample, samples@.take(count));
                final(output)@ == packed + old(output)@.skip(packed.len() as int)
            }),
    {
        let bits: u16 = self.bits_per_sample;
        let cap: usize = output.len();
        let total: usize = samples.len();
        let mut n: usize = 0;
        if bits == 16 {
            let room: usize = cap / 2;
            n = if total <= room { total } else { room };
            let mut i: usize = 0;
            while i < n
                invariant
                    bits == 16,
                    i <= n,
                    n <= total,
                    total == samples@.len(),
                    2 * n <= cap,
                    cap == output@.len(),
                    output@.len() == old(output)@.len(),
                    forall|j: int|
                        0 <= j < 2 * i ==> #[trigger] output@[j] == encoded_byte(
                            bits,
                            samples@[j / 2],
                            j % 2,
                        ),
                    forall|j: int| 2 * i <= j < cap ==> #[trigger] output@[j] == old(output)@[j],
                decreases n - i,
            {
                let s: i32 = samples[i];
                output[2 * i] = byte_of(s, 2);
                output[2 * i + 1] = byte_of(s, 3);
                i += 1;
            }
        } else if bits == 24 {
            let room: usize = cap / 3;
            n = if total <= room { total } else { room };
            let mut i: usize = 0;
            while i < n
                invariant
                    bits == 24,
                    i <= n,
                    n <= total,
                    total == samples@.len(),
                    3 * n <= cap,
                    cap == output@.len(),
                    output@.len() == old(output)@.len(),
                    forall|j: int|
                        0 <= j < 3 * i ==> #[trigger] output@[j] == encoded_byte(
                            bits,
                            samples@[j / 3],
                            j % 3,
                        ),
                    forall|j: int| 3 * i <= j < cap ==> #[trigger] output@[j] == old(output)@[j],
                decreases n - i,
            {
                let s: i32 = samples[i];
                output[3 * i] = byte_of(s, 1);
                output[3 * i + 1] = byte_of(s, 2);
                output[3 * i + 2] = byte_of(s, 3);
                i += 1;
            }
        } else if bits == 32 {
            let room: usize = cap / 4;
            n = if total <= room { total } else { room };
            let mut i: usize = 0;
            while i < n
                invariant
                    bits == 32,
                    i <= n,
                    n <= total,
                    total == samples@.len(),
                    4 * n <= cap,
                    cap == output@.len(),
                    output@.len() == old(output)@.len(),
                    forall|j: int|
                        0 <= j < 4 * i ==> #[trigger] output@[j] == encoded_byte(
                            bits,
                            samples@[j / 4],
                            j % 4,
                        ),
                    forall|j: int| 4 * i <= j < cap ==> #[trigger] output@[j] == old(output)@[j],
                decreases n - i,
            {
                let s: i32 = samples[i];
                output[4 * i] = byte_of(s, 0);
                output[4 * i + 1] = byte_of(s, 1);
                output[4 * i + 2] = byte_of(s, 2);
                output[4 * i + 3] = byte_of(s, 3);
                i += 1;
            }
        }
        proof {
            let packed = encoded_bytes(bits, samples@.take(n as int));
            assert(output@ =~= packed + old(output)@.skip(packed.len() as int));
        }
    }

    /// Packs the samples of one channel of an interleaved buffer, for a
    /// device that takes one buffer per channel.
    ///
    /// `samples` holds `channels` samples per frame; the sample of channel
    /// `channel` of every frame is packed at the source depth, as far as the
    /// bytes fit whole into `output`. The rest of `output` is left as it
    /// was. At a depth other than 16, 24 or 32 nothing is written.
    pub fn extract_channel_to_bytes(
        &self,
        samples: &[i32],
        channel: usize,
        channels: usize,
        output: &mut [u8],
    )
        requires
            channels > 0,
        ensures
            ({
                let picked = channel_samples(samples@, channel as int, channels as int);
                let count = encodable_samples(
                    self.bits_per_sample,
                    picked.len() as int,
                    old(output)@.len() as int,
                );
                let packed = encoded_bytes(self.bits_per_sample, picked.take(count));
                final(output)@ == packed + old(output)@.skip(packed.len() as int)
            }),
    {
        let bits: u16 = self.bits_per_sample;
        let cap: usize = output.len();
        let total: usize = samples.len();
        let ghost picked = channel_samples(samples@, channel as int, channels as int);
        if bits != 16 && bits != 24 && bits != 32 {
            assert(output@ =~= encoded_bytes(bits, picked.take(0)) + old(output)@.skip(0));
            return ;
        }
        let width: usize = if bits == 16 {
            2
        } else if bits == 24 {
            3
        } else {
            4
        };
        let frames: usize = if channel >= total {
            0
        } else {
            (total - channel - 1) / channels + 1
        };
        let room: usize = cap / width;
        let count: usize = if frames <= room { frames } else { room };
        let mut f: usize = 0;
        let mut offset: usize = 0;
        assert(encoded_bytes(bits, picked.take(0)) =~= Seq::<u8>::empty());
        while f < count
            invariant
                is_wire_depth(bits),
                width == wire_width(bits),
                channels > 0,
                total == samples@.len(),
                cap == output@.len(),
                output@.len() == old(output)@.len(),
                picked == channel_samples(samples@, channel as int, channels as int),
                frames == picked.len(),
                frames == channel_frames(total as int, channel as int, channels as int),
                count <= frames,
                count <= cap / width,
                f <= count,
                offset == f * width,
                offset == encoded_bytes(bits, picked.take(f as int)).len(),
                output@ == encoded_bytes(bits, picked.take(f as int)) + old(output)@.skip(
                    offset as int,
                ),
            decreases count - f,
        {
            assert(f * channels <= total - channel - 1 && f * width + width <= cap && (f + 1)
                * width == f * width + width) by (nonlinear_arith)
                requires
                    f < count,
                    count <= (total - channel - 1) / (channels as int) + 1,
                    count <= cap / width,
                    channels > 0,
                    width > 0,
                    channel < total,
            ;
            let idx: usize = channel + f * channels;
            let sample: i32 = samples[idx];
            proof {
                lemma_encoded_bytes_push(bits, picked.take(f as int), sample);
                assert(picked.take(f as int).push(sample) =~= picked.take(f + 1));
            }
            pack_sample(bits, sample, output, offset);
            offset += width;
            f += 1;
            assert(output@ =~= encoded_bytes(bits, picked.take(f as int)) + old(output)@.skip(
                offset as int,
            ));
        }
    }
}

/// Reading the bytes of a word built from bytes gives those bytes back.
pub proof fn lemma_bytes_of_word(b0: u8, b1: u8, b2: u8, b3: u8)
    ensures
        word_byte(word_from_bytes(b0, b1, b2, b3), 0) == b0,
        word_byte(word_from_bytes(b0, b1, b2, b3), 1) == b1,
        word_byte(word_from_bytes(b0, b1, b2, b3), 2) == b2,
        word_byte(word_from_bytes(b0, b1, b2, b3), 3) == b3,
{
    let w = word_from_bytes(b0, b1, b2, b3);
    lemma_compose32(b0, b1, b2, b3);
    lemma_split(w);
    assert((w & 0xFF) as u8 == b0 && ((w >> 8) & 0xFF) as u8 == b1 && ((w >> 16) & 0xFF) as u8
        == b2 && ((w >> 24) & 0xFF) as u8 == b3) by (bit_vector)
        requires
            w == (((b0 as u32) | ((b1 as u32) << 8) | ((b2 as u32) << 16) | ((b3 as u32)
                << 24)) as i32),
    ;
}

/// Building a word from the bytes of a word gives that word back.
pub proof fn lemma_word_of_bytes(w: i32)
    ensures
        word_from_bytes(word_byte(w, 0), word_byte(w, 1), word_byte(w, 2), word_byte(w, 3)) == w,
{
    let b0 = word_byte(w, 0);
    let b1 = word_byte(w, 1);
    let b2 = word_byte(w, 2);
    let b3 = word_byte(w, 3);
    lemma_split(w);
    lemma_compose32(b0, b1, b2, b3);
    assert((((b0 as u32) | ((b1 as u32) << 8) | ((b2 as u32) << 16) | ((b3 as u32) << 24)) as i32)
        == w) by (bit_vector)
        requires
            b0 == (w & 0xFF) as u8,
            b1 == ((w >> 8) & 0xFF) as u8,
            b2 == ((w >> 16) & 0xFF) as u8,
            b3 == ((w >> 24) & 0xFF) as u8,
    ;
}

/// The value, as a signed number, of the little-endian bytes of a sample
/// of `wire_width(bits)` bytes.
pub open spec fn wire_value(bits: u16, bytes: Seq<u8>, i: int) -> int {
    if bits == 16 {
        let u = bytes[2 * i] + 256 * bytes[2 * i + 1];
        if u >= 0x8000 {
            u - 0x1_0000
        } else {
            u
        }
    } else if bits == 24 {
        let u = bytes[3 * i] + 256 * bytes[3 * i + 1] + 65536 * bytes[3 * i + 2];
        if u >= 0x80_0000 {
            u - 0x100_0000
        } else {
            u
        }
    } else {
        let u = bytes[4 * i] + 256 * bytes[4 * i + 1] + 65536 * bytes[4 * i + 2] + 16777216
            * bytes[4 * i + 3];
        if u >= 0x8000_0000 {
            u - 0x1_0000_0000
        } else {
            u
        }
    }
}

/// The factor that moves a sample of depth `bits` to the top of the word.
pub open spec fn alignment_factor(bits: u16) -> int {
    if bits == 16 {
        65536
    } else if bits == 24 {
        256
    } else {
        1
    }
}

/// A decoded sample is the source value shifted to the top of the word: a
/// 16-bit value times 2^16, a 24-bit value times 2^8, a 32-bit value as it
/// is. In particular the sign of the source value is kept.
pub proof fn lemma_decoded_is_left_aligned(bits: u16, bytes: Seq<u8>, i: int)
    requires
        is_wire_depth(bits),
    ensures
        decoded_sample(bits, bytes, i) == wire_value(bits, bytes, i) * alignment_factor(bits),
        decoded_sample(bits, bytes, i) < 0 <==> wire_value(bits, bytes, i) < 0,
{
}

/// Encoding what was decoded gives the bytes back: every whole group of
/// bytes survives a decode followed by an encode.
pub proof fn lemma_decode_then_encode(bits: u16, bytes: Seq<u8>)
    requires
        is_wire_depth(bits),
    ensures
        encoded_bytes(bits, decoded_samples(bits, bytes)) == bytes.take(
            wire_len(bits, decoded_samples(bits, bytes).len() as int),
        ),
{
    let samples = decoded_samples(bits, bytes);
    let n = wire_len(bits, samples.len() as int);
    assert(n <= bytes.len());
    assert forall|j: int| 0 <= j < n implies encoded_bytes(bits, samples)[j] == bytes[j] by {
        let i = wire_groups(bits, j);
        if bits == 16 {
            lemma_bytes_of_word(0, 0, bytes[2 * i], bytes[2 * i + 1]);
        } else if bits == 24 {
            lemma_bytes_of_word(0, bytes[3 * i], bytes[3 * i + 1], bytes[3 * i + 2]);
        } else {
            lemma_bytes_of_word(bytes[4 * i], bytes[4 * i + 1], bytes[4 * i + 2], bytes[4 * i + 3]);
        }
    }
    assert(encoded_bytes(bits, samples) =~= bytes.take(n));
}

/// A sample is left-aligned at depth `bits` when the bytes below its top
/// `wire_width(bits)` bytes are zero.
pub open spec fn is_left_aligned(bits: u16, sample: i32) -> bool {
    forall|k: int| 0 <= k < 4 - wire_width(bits) ==> word_byte(sample, k) == 0
}

/// Decoding what was encoded gives left-aligned samples back unchanged.
pub proof fn lemma_encode_then_decode(bits: u16, samples: Seq<i32>)
    requires
        is_wire_depth(bits),
        forall|i: int| 0 <= i < samples.len() ==> is_left_aligned(bits, #[trigger] samples[i]),
    ensures
        decoded_samples(bits, encoded_bytes(bits, samples)) == samples,
{
    let bytes = encoded_bytes(bits, samples);
    assert(wire_groups(bits, bytes.len() as int) == samples.len());
    assert forall|i: int| 0 <= i < samples.len() implies decoded_sample(bits, bytes, i)
        == samples[i] by {
        let s = samples[i];
        assert(is_left_aligned(bits, s));
        lemma_word_of_bytes(s);
        if bits == 16 {
            assert(word_byte(s, 0) == 0 && word_byte(s, 1) == 0);
            assert(bytes[2 * i] == word_byte(s, 2));
            assert(bytes[2 * i + 1] == word_byte(s, 3));
        } else if bits == 24 {
            assert(word_byte(s, 0) == 0);
            assert(bytes[3 * i] == word_byte(s, 1));
            assert(bytes[3 * i + 1] == word_byte(s, 2));
            assert(bytes[3 * i + 2] == word_byte(s, 3));
        } else {
            assert(bytes[4 * i] == word_byte(s, 0));
            assert(bytes[4 * i + 1] == word_byte(s, 1));
            assert(bytes[4 * i + 2] == word_byte(s, 2));
            assert(bytes[4 * i + 3] == word_byte(s, 3));
        }
    }
    assert(decoded_samples(bits, bytes) =~= samples);
}

/// Encoding is stable under a decode: the bytes of a sample, decoded and
/// encoded again, are the same bytes, whether or not the sample was
/// left-aligned to begin with.
pub proof fn lemma_encode_decode_encode(bits: u16, samples: Seq<i32>)
    requires
        is_wire_depth(bits),
    ensures
        encoded_bytes(bits, decoded_samples(bits, encoded_bytes(bits, samples))) == encoded_bytes(
            bits,
            samples,
        ),
{
    let bytes = encoded_bytes(bits, samples);
    lemma_decode_then_encode(bits, bytes);
    assert(wire_groups(bits, bytes.len() as int) == samples.len());
    assert(bytes.take(wire_len(bits, decoded_samples(bits, bytes).len() as int)) =~= bytes);
}

} // verus!
