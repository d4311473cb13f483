//! The userspace media path: per-call transcoding, relaying, recording taps and key-press
//! extraction.
//!
//! A [`call::MediaCall`] owns two [`direction::Direction`]s. Every datagram walks through the call
//! as a chain of steps. Each step names the next piece of codec, crypto or signal work to do, and
//! the result of that work selects the step after it.
pub mod actor;
pub mod behaviour;
pub mod call;
pub mod direction;
pub mod echo;
pub mod latch;
pub mod laws;
pub mod registry;
pub mod packets;
pub mod repacketize;
pub mod rtcp;
pub mod step;
