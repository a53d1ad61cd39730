//! Per-process audio capture sidecar, verified core.
//!
//! The library holds the logic of a capture sidecar: target-identifier
//! parsing, the bounded frame queue, the capture engine state machine,
//! binary frame encoding, the JSON line writers for responses and events,
//! and the single-session controller. The process edges (standard streams,
//! sockets, threads, and the platform audio subsystem) live outside it and
//! drive these functions with plain values.

use vstd::prelude::*;

pub mod binary;
pub mod engine;
pub mod events;
pub mod frame_queue;
pub mod json;
pub mod outside;
pub mod parse;
pub mod session;
pub mod targets;

verus! {

/// Samples per second of the canonical frame format.
pub const TARGET_SAMPLE_RATE: u32 = 48000;

/// Channels of the canonical frame format.
pub const TARGET_CHANNELS: u16 = 1;

/// Samples per frame: 20 milliseconds at 48 kHz, one channel.
pub const FRAME_SIZE: u32 = 960;

/// Bytes of one sample (32-bit little-endian IEEE-754 float).
pub const BYTES_PER_SAMPLE: u32 = 4;

/// Version stamped on every response, event and binary frame.
pub const PROTOCOL_VERSION: u32 = 1;

/// Largest binary frame payload the egress path will write.
pub const MAX_APP_AUDIO_BINARY_FRAME_BYTES: u32 = 4194304;

} // verus!
