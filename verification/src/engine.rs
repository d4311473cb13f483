//! What the engine decides about whole calls: WebSocket takeovers and tees, the end of a call, and
//! its reports.
pub mod call;
pub mod takeover;
pub mod teardown;
pub mod tee;
pub mod telemetry;
