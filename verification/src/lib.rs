//! Core of a bit-perfect, low-latency audio player: sample transcoding,
//! the decoder-to-callback ring buffer, playback statistics, device format
//! negotiation and the playback engine's lifecycle rules.
//!
//! Everything here is plain computation on plain values. Device access,
//! file decoding and thread scheduling are performed by the caller, which
//! feeds their results to the decision functions of this crate.

pub mod audio;
pub mod decode;
pub mod engine;
pub mod resample;
pub mod playlist;
