//! Supervision core for a local model-inference sidecar process.
//!
//! The crate holds the decision logic of the supervisor: configuration and
//! launch-argument construction, prompt building, the wire bodies sent to the
//! sidecar's HTTP surface, the line-delimited stream decoder, response
//! normalisation, bounded-concurrency admission control, and the process
//! lifecycle state machine.  The surrounding process plumbing (spawning the
//! binary, HTTP transport, timers, channels) lives outside the library and
//! feeds its observations into these functions as plain values.

pub mod client;
pub mod config;
pub mod decoder;
pub mod dto;
pub mod errors;
pub mod jsonenc;
pub mod manager;
pub mod numfmt;
pub mod paths;
pub mod probe;
pub mod prompt;
pub mod queue;
pub mod request;
pub mod strutil;
