//! Verified core of an audio capture-to-playback relay.
//!
//! The library models the relay's logic on plain values: a point-in-time
//! directory of the host's active endpoints, format negotiation for a chosen
//! capture/render pair, and the playback queue that each delivered frame
//! batch is appended to. The host audio subsystem itself (device handles,
//! stream callbacks, the render thread) lives outside the library; it hands
//! the library snapshots and sample batches and takes decisions back.

pub mod endpoint;
pub mod errors;
pub mod format;
pub mod relay;
pub mod session;
