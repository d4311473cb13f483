//! The media engine of a SIP media server: the rules and state machines that decide what happens to
//! every call, with their behaviour stated as contracts.
//!
//! Sockets, codecs, crypto contexts and timers live outside this crate. They hand plain values in
//! and perform the actions this crate decides on.

pub mod endpoint_table;
pub mod engine;
pub mod event;
pub mod ha;
pub mod ice;
pub mod interface;
pub mod media_fetch;
pub mod media_pipeline;
pub mod metrics;
pub mod net;
pub mod prompt_cache;
pub mod recording;
pub mod startup;
pub mod text;
