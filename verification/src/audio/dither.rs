//! Noise source for dither.
//!
//! Dither decorrelates the error of a reduction in bit depth. It is added
//! only where the output is narrower than the source; a source that the
//! device takes at its own depth goes out untouched.
//!
//! The generator is xorshift32: no allocation, no lock, a handful of
//! shifts. Two uniform draws added together give noise with a triangular
//! distribution (TPDF).

use vstd::prelude::*;

verus! {

/// The seed that replaces a zero seed: xorshift32 must not start at zero.
pub const DEFAULT_DITHER_SEED: u32 = 0xDEADBEEF;

/// One step of xorshift32.
pub open spec fn xorshift32(x: u32) -> u32 {
    let a = x ^ (x << 13);
    let b = a ^ (a >> 17);
    b ^ (b << 5)
}

/// The triangular noise made of two draws, in units of the least
/// significant bit of a 24-bit sample, left-aligned: the low bytes of the
/// draws, summed and centred, times 2^8.
pub open spec fn tpdf_lsb24(draw1: u32, draw2: u32) -> i32 {
    (((draw1 % 256) + (draw2 % 256) - 256) * 256) as i32
}

/// Whether a reduction from `source_bits` to `output_bits` calls for
/// dither: only when the output is strictly narrower than the source.
pub open spec fn needs_dither(source_bits: u16, output_bits: u16) -> bool {
    output_bits < source_bits
}

/// xorshift32 never reaches zero from a nonzero state.
pub proof fn lemma_xorshift32_nonzero(x: u32)
    requires
        x != 0,
    ensures
        xorshift32(x) != 0,
{
    assert(x != 0 ==> ({
        let a = x ^ (x << 13);
        let b = a ^ (a >> 17);
        b ^ (b << 5)
    }) != 0) by (bit_vector);
}

/// State of the noise generator.
pub struct DitherState {
    state: u32,
}

impl View for DitherState {
    type V = u32;

    /// The state of xorshift32.
    closed spec fn view(&self) -> u32 {
        self.state
    }
}

impl DitherState {
    /// The state that a generator seeded with `seed` starts from.
    pub open spec fn new_state(seed: u32) -> u32 {
        if seed == 0 {
            DEFAULT_DITHER_SEED
        } else {
            seed
        }
    }

    /// A generator is usable when its state is not zero.
    pub open spec fn wf(&self) -> bool {
        self@ != 0
    }

    /// A generator seeded with `seed`, or with a fixed seed if `seed` is
    /// zero.
    pub fn new(seed: u32) -> (r: Self)
        ensures
            r.wf(),
            r@ == Self::new_state(seed),
    {
        DitherState { state: if seed == 0 { DEFAULT_DITHER_SEED } else { seed } }
    }

    /// The next draw.
    #[inline(always)]
    pub fn next_u32(&mut self) -> (r: u32)
        ensures
            r == xorshift32(old(self)@),
            final(self)@ == r,
            old(self).wf() ==> final(self).wf(),
    {
        proof {
            if self.state != 0 {
                lemma_xorshift32_nonzero(self.state);
            }
        }
        let mut x: u32 = self.state;
        x ^= x << 13;
        x ^= x >> 17;
        x ^= x << 5;
        self.state = x;
        x
    }

    /// Triangular noise for a reduction to 24 bits: two draws, see
    /// [`tpdf_lsb24`]. The result lies between -65536 and 65024.
    #[inline(always)]
    pub fn next_tpdf_lsb24(&mut self) -> (r: i32)
        ensures
            r == tpdf_lsb24(xorshift32(old(self)@), xorshift32(xorshift32(old(self)@))),
            final(self)@ == xorshift32(xorshift32(old(self)@)),
            old(self).wf() ==> final(self).wf(),
            -65536 <= r <= 65024,
    {
        let d1: u32 = self.next_u32();
        let d2: u32 = self.next_u32();
        let r1: i32 = (d1 & 0xFF) as i32;
        let r2: i32 = (d2 & 0xFF) as i32;
        assert((d1 & 0xFF) == d1 % 256) by (bit_vector);
        assert((d2 & 0xFF) == d2 % 256) by (bit_vector);
        let centred: i32 = r1 + r2 - 256;
        assert(centred << 8 == centred * 256) by (bit_vector)
            requires
                -256 <= centred <= 254,
        ;
        centred << 8
    }

    /// Whether a reduction from `source_bits` to `output_bits` calls for
    /// dither.
    pub fn needs_dither(source_bits: u16, output_bits: u16) -> (r: bool)
        ensures
            r == needs_dither(source_bits, output_bits),
    {
        output_bits < source_bits
    }
}

} // verus!
