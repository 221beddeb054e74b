//! Sample-rate conversion policy.
//!
//! The player converts nothing itself: it sets the device to the rate of
//! the source where it can, and leaves the rest to the audio service.

use vstd::prelude::*;

verus! {

/// How the rates of source and device are brought together.
#[derive(Clone, Copy, Debug, PartialEq, Eq, Structural)]
pub enum ResamplePolicy {
    /// Set the device to the rate of the source wherever possible, so
    /// that nothing is converted.
    MatchSource,
    /// Run the device at a fixed rate.
    Fixed { target_rate: u32 },
}

impl Default for ResamplePolicy {
    fn default() -> (r: Self)
        ensures
            r == ResamplePolicy::MatchSource,
    {
        ResamplePolicy::MatchSource
    }
}

impl ResamplePolicy {
    /// The rate to ask of the device for a source of `source_rate`.
    pub fn requested_rate(&self, source_rate: u32) -> (rate: u32)
        ensures
            rate == match *self {
                ResamplePolicy::MatchSource => source_rate,
                ResamplePolicy::Fixed { target_rate } => target_rate,
            },
    {
        match *self {
            ResamplePolicy::MatchSource => source_rate,
            ResamplePolicy::Fixed { target_rate } => target_rate,
        }
    }
}

/// A resampler that passes samples through: ratio one, no latency.
#[derive(Clone, Copy, Debug, PartialEq, Eq, Structural)]
pub struct PassthroughResampler;

impl PassthroughResampler {
    /// How many samples a pass takes from `input_len` samples into room
    /// for `output_len`: the smaller of the two.
    pub fn process_len(&self, input_len: usize, output_len: usize) -> (n: usize)
        ensures
            n == if input_len <= output_len {
                input_len
            } else {
                output_len
            },
    {
        if input_len <= output_len {
            input_len
        } else {
            output_len
        }
    }

    /// The latency in samples: none.
    pub fn latency(&self) -> (n: usize)
        ensures
            n == 0,
    {
        0
    }

    /// Forgets the state: there is none.
    pub fn reset(&mut self)
        ensures
            *final(self) == *old(self),
    {
    }
}

} // verus!
