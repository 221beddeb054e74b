//! From decoded packets to the stream of samples that the ring buffer
//! takes.

pub mod decoder;
pub mod stream;
pub mod transcode;

pub use decoder::{AudioInfo, DecodeError};
pub use stream::DecoderIterator;
