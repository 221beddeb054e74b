//! What a decoder reports and decides.
//!
//! Opening a file and decoding its packets is the work of a decoding
//! backend, outside this crate. What is decided here: which tracks count,
//! which failures end the stream and which are passed over, and what is
//! known of a file once its first audio track has been found.

use vstd::prelude::*;

verus! {

/// The bit depth assumed of a source that does not tell its own.
pub const DEFAULT_BIT_DEPTH: u32 = 24;

/// The channel count assumed of a track that does not tell its own.
pub const DEFAULT_CHANNELS: u32 = 2;

/// Why decoding failed.
#[derive(Debug)]
pub enum DecodeError {
    /// The file could not be opened.
    FileOpen(String),
    /// The container format is not supported.
    UnsupportedFormat,
    /// The file has no audio track, or its track has no sample rate.
    NoAudioTrack,
    /// No decoder could be made for the codec.
    DecoderCreation(String),
    /// Reading or decoding a packet failed for good.
    DecodeFailed(String),
    /// Seeking failed.
    SeekFailed(String),
}

/// What is known of an open file.
#[derive(Debug, Clone)]
pub struct AudioInfo {
    /// Frames per second.
    pub sample_rate: u32,
    /// Channels per frame.
    pub channels: u32,
    /// Bit depth of the source, if it tells.
    pub bit_depth: Option<u32>,
    /// Length in frames, if known.
    pub total_frames: Option<u64>,
    /// Name of the container format.
    pub format: String,
    /// Name of the codec.
    pub codec: String,
}

impl AudioInfo {
    /// The description of a file from the parameters of its first audio
    /// track. A track without a sample rate is no audio track; a track
    /// that does not tell its channels is taken to be stereo.
    pub fn from_track(
        sample_rate: Option<u32>,
        channels: Option<u32>,
        bit_depth: Option<u32>,
        total_frames: Option<u64>,
        format: String,
        codec: String,
    ) -> (r: Result<AudioInfo, DecodeError>)
        ensures
            sample_rate is None <==> r is Err,
            r is Err ==> r == Err::<AudioInfo, DecodeError>(DecodeError::NoAudioTrack),
            r matches Ok(info) ==> {
                &&& Some(info.sample_rate) == sample_rate
                &&& info.channels == match channels {
                    Some(n) => n,
                    None => DEFAULT_CHANNELS,
                }
                &&& info.bit_depth == bit_depth
                &&& info.total_frames == total_frames
                &&& info.format == format
                &&& info.codec == codec
            },
    {
        match sample_rate {
            None => Err(DecodeError::NoAudioTrack),
            Some(rate) => {
                let n: u32 = match channels {
                    Some(n) => n,
                    None => DEFAULT_CHANNELS,
                };
                Ok(
                    AudioInfo {
                        sample_rate: rate,
                        channels: n,
                        bit_depth,
                        total_frames,
                        format,
                        codec,
                    },
                )
            },
        }
    }

    /// The bit depth to play the file at: its own, or 24 if it tells none.
    /// A depth beyond 16 bits of count is cut to its low 16 bits.
    pub fn playback_bit_depth(&self) -> (bits: u16)
        ensures
            bits as int == match self.bit_depth {
                Some(d) => d as int % 0x1_0000,
                None => DEFAULT_BIT_DEPTH as int,
            },
    {
        match self.bit_depth {
            Some(d) => (d % 0x1_0000) as u16,
            None => DEFAULT_BIT_DEPTH as u16,
        }
    }

    /// The duration in milliseconds, rounded down, if the length in frames
    /// is known and the rate is not zero; saturating.
    pub fn duration_millis(&self) -> (r: Option<u64>)
        ensures
            r is Some <==> self.total_frames is Some && self.sample_rate > 0,
            r matches Some(ms) ==> ms == if self.total_frames->0 * 1000 / (self.sample_rate as int)
                > u64::MAX {
                u64::MAX as int
            } else {
                self.total_frames->0 * 1000 / (self.sample_rate as int)
            },
    {
        match self.total_frames {
            None => None,
            Some(frames) => {
                if self.sample_rate == 0 {
                    None
                } else {
                    let wide: u128 = (frames as u128) * 1000;
                    let q: u128 = wide / (self.sample_rate as u128);
                    if q > u64::MAX as u128 {
                        Some(u64::MAX)
                    } else {
                        Some(q as u64)
                    }
                }
            },
        }
    }

    /// The frame that a position of `samples_played` interleaved samples
    /// stands for; a file without channels has no position but zero.
    pub fn frames_played(&self, samples_played: u64) -> (frames: u64)
        ensures
            frames == if self.channels == 0 {
                0
            } else {
                samples_played as int / self.channels as int
            },
    {
        if self.channels == 0 {
            0
        } else {
            samples_played / (self.channels as u64)
        }
    }
}

/// What came of reading the next packet of a file.
pub enum ReadOutcome {
    /// A packet of the track with this id.
    Packet { track_id: u32 },
    /// The file ended.
    EndOfFile,
    /// Reading failed, with this message.
    Failed(String),
}

/// What came of decoding a packet.
pub enum DecodeOutcome {
    /// The packet was decoded.
    Decoded,
    /// The packet was corrupt.
    Corrupt,
    /// Decoding failed for another reason, with this message.
    Failed(String),
}

/// What to do next in the loop that produces one decoded packet.
pub enum PacketStep {
    /// Decode the packet just read.
    Decode,
    /// Transcode the packet just decoded and hand it out.
    Convert,
    /// Pass the packet over and read the next one.
    Skip,
    /// Hand out the empty packet: the stream is over.
    Finish,
    /// Give up with this error.
    Fail(DecodeError),
}

/// What follows a read: a packet of the played track is decoded, a packet
/// of another track is passed over, the end of the file ends the stream,
/// and any other failure is final.
pub fn after_read(played_track: u32, outcome: ReadOutcome) -> (step: PacketStep)
    ensures
        step == match outcome {
            ReadOutcome::Packet { track_id } => if track_id == played_track {
                PacketStep::Decode
            } else {
                PacketStep::Skip
            },
            ReadOutcome::EndOfFile => PacketStep::Finish,
            ReadOutcome::Failed(message) => PacketStep::Fail(DecodeError::DecodeFailed(message)),
        },
{
    match outcome {
        ReadOutcome::Packet { track_id } => {
            if track_id == played_track {
                PacketStep::Decode
            } else {
                PacketStep::Skip
            }
        },
        ReadOutcome::EndOfFile => PacketStep::Finish,
        ReadOutcome::Failed(message) => PacketStep::Fail(DecodeError::DecodeFailed(message)),
    }
}

/// What follows a decode: a decoded packet is transcoded, a corrupt one is
/// passed over in silence, and any other failure is final.
pub fn after_decode(outcome: DecodeOutcome) -> (step: PacketStep)
    ensures
        step == match outcome {
            DecodeOutcome::Decoded => PacketStep::Convert,
            DecodeOutcome::Corrupt => PacketStep::Skip,
            DecodeOutcome::Failed(message) => PacketStep::Fail(DecodeError::DecodeFailed(message)),
        },
{
    match outcome {
        DecodeOutcome::Decoded => PacketStep::Convert,
        DecodeOutcome::Corrupt => PacketStep::Skip,
        DecodeOutcome::Failed(message) => PacketStep::Fail(DecodeError::DecodeFailed(message)),
    }
}

/// How long the buffer for a packet of `frames` frames and `channels`
/// channels must be, if that fits in a machine word.
pub fn packet_samples(frames: usize, channels: usize) -> (r: Option<usize>)
    ensures
        r is Some <==> frames * channels <= usize::MAX,
        r matches Some(n) ==> n == frames * channels,
{
    frames.checked_mul(channels)
}

} // verus!
