//! Audio core: timebase conversion and everything that touches samples.

pub mod device;
pub mod dither;
pub mod format;
pub mod output;
pub mod render;
pub mod ring_buffer;
pub mod stats;
pub mod stream_format;
pub mod timing;

pub use format::AudioFormat;
pub use output::{AudioOutput, OutputConfig, OutputError};
pub use ring_buffer::RingBuffer;
pub use stats::{PlaybackStats, StatsReport};
