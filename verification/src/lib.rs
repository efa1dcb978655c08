//! Core of a voice-channel presence manager and per-speaker audio-capture
//! pipeline for a group voice-chat service.
//!
//! The crate tracks which speaker owns which synchronization source (SSRC),
//! owns one transcoder sink per active speaker, demultiplexes batched audio
//! ticks into per-speaker byte streams, selects which channel to monitor,
//! and coordinates a graceful shutdown handshake between the membership
//! event path and the audio event path. All decision logic is verified;
//! the surrounding process (gateway transport, child processes, database)
//! performs the actions this library decides on.

pub mod calendar;
pub mod clips;
pub mod controller;
pub mod demux;
pub mod metadata;
pub mod paths;
pub mod pcm;
pub mod registry;
pub mod select;
pub mod sink;
pub mod supervisor;

pub use pcm::encode_samples_le;
