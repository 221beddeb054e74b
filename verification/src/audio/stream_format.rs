//! Stream descriptions: how a format is told to the audio service.
//!
//! A description carries the sample rate, the format identifier, a set of
//! flags (float, big-endian, signed integer, packed, non-interleaved) and
//! the sizes of a packet, a frame and a channel. The player only ever asks
//! for packed, native-endian, interleaved linear PCM with one frame per
//! packet.

use vstd::prelude::*;
use crate::audio::render::OutputFormatMode;

verus! {

/// Format identifier of linear PCM.
pub const FORMAT_LINEAR_PCM: u32 = 0x6C70636D;

/// Flag: samples are floating point.
pub const FORMAT_FLAG_IS_FLOAT: u32 = 1;

/// Flag: samples are big-endian.
pub const FORMAT_FLAG_IS_BIG_ENDIAN: u32 = 2;

/// Flag: samples are signed integers.
pub const FORMAT_FLAG_IS_SIGNED_INTEGER: u32 = 4;

/// Flag: samples fill their bytes.
pub const FORMAT_FLAG_IS_PACKED: u32 = 8;

/// Flag: one buffer per channel.
pub const FORMAT_FLAG_IS_NON_INTERLEAVED: u32 = 32;

/// Description of a stream.
#[derive(Clone, Copy, Debug, PartialEq, Eq, Structural)]
pub struct StreamDescription {
    /// Frames per second, in whole hertz.
    pub sample_rate: u32,
    pub format_id: u32,
    pub format_flags: u32,
    pub bytes_per_packet: u32,
    pub frames_per_packet: u32,
    pub bytes_per_frame: u32,
    pub channels_per_frame: u32,
    pub bits_per_channel: u32,
}

/// Bits per channel in a stream of the given mode.
pub open spec fn mode_bits(mode: OutputFormatMode) -> u32 {
    match mode {
        OutputFormatMode::Int24 => 24,
        _ => 32,
    }
}

/// The flags of a stream of the given mode: packed, and float or signed
/// integer.
pub open spec fn mode_flags(mode: OutputFormatMode) -> u32 {
    match mode {
        OutputFormatMode::Float32 => 9,
        _ => 12,
    }
}

/// The description of a packed, interleaved PCM stream of the given mode.
pub open spec fn pcm_description(mode: OutputFormatMode, sample_rate: u32, channels: u16) -> StreamDescription {
    StreamDescription {
        sample_rate,
        format_id: FORMAT_LINEAR_PCM,
        format_flags: mode_flags(mode),
        bytes_per_packet: (mode_bits(mode) / 8 * channels) as u32,
        frames_per_packet: 1,
        bytes_per_frame: (mode_bits(mode) / 8 * channels) as u32,
        channels_per_frame: channels as u32,
        bits_per_channel: mode_bits(mode),
    }
}

/// Whether a description that the device reports after a request for
/// `mode` confirms it: 32 bits of signed integer for the 32-bit mode, 24
/// bits for the 24-bit mode. The floating-point mode is never requested of
/// a device, so nothing confirms it.
pub open spec fn confirms_mode(actual: StreamDescription, mode: OutputFormatMode) -> bool {
    match mode {
        OutputFormatMode::Int32 => actual.bits_per_channel == 32 && actual.format_flags
            & FORMAT_FLAG_IS_SIGNED_INTEGER != 0,
        OutputFormatMode::Int24 => actual.bits_per_channel == 24,
        OutputFormatMode::Float32 => false,
    }
}

impl StreamDescription {
    /// The description of a packed, interleaved PCM stream.
    pub fn pcm(mode: OutputFormatMode, sample_rate: u32, channels: u16) -> (d: StreamDescription)
        ensures
            d == pcm_description(mode, sample_rate, channels),
    {
        let width: u32 = match mode {
            OutputFormatMode::Int24 => 3,
            _ => 4,
        };
        let flags: u32 = match mode {
            OutputFormatMode::Float32 => FORMAT_FLAG_IS_FLOAT | FORMAT_FLAG_IS_PACKED,
            _ => FORMAT_FLAG_IS_SIGNED_INTEGER | FORMAT_FLAG_IS_PACKED,
        };
        assert(1u32 | 8u32 == 9u32 && 4u32 | 8u32 == 12u32) by (bit_vector);
        StreamDescription {
            sample_rate,
            format_id: FORMAT_LINEAR_PCM,
            format_flags: flags,
            bytes_per_packet: width * channels as u32,
            frames_per_packet: 1,
            bytes_per_frame: width * channels as u32,
            channels_per_frame: channels as u32,
            bits_per_channel: width * 8,
        }
    }

    /// Whether the stream has one buffer per channel.
    pub fn is_non_interleaved(&self) -> (r: bool)
        ensures
            r == (self.format_flags & FORMAT_FLAG_IS_NON_INTERLEAVED != 0),
    {
        (self.format_flags & FORMAT_FLAG_IS_NON_INTERLEAVED) != 0
    }

    /// Whether this description, read back from the device after a request
    /// for `mode`, confirms it.
    pub fn confirms(&self, mode: OutputFormatMode) -> (r: bool)
        ensures
            r == confirms_mode(*self, mode),
    {
        match mode {
            OutputFormatMode::Int32 => self.bits_per_channel == 32 && (self.format_flags
                & FORMAT_FLAG_IS_SIGNED_INTEGER) != 0,
            OutputFormatMode::Int24 => self.bits_per_channel == 24,
            OutputFormatMode::Float32 => false,
        }
    }
}

/// A description that the player asks for confirms the mode that it was
/// made for, if that is an integer mode.
pub proof fn lemma_request_confirms_itself(mode: OutputFormatMode, sample_rate: u32, channels: u16)
    requires
        mode != OutputFormatMode::Float32,
    ensures
        confirms_mode(pcm_description(mode, sample_rate, channels), mode),
{
    assert(12u32 & 4u32 != 0) by (bit_vector);
}

} // verus!
