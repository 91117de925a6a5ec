//! Clipboard retrieval over an event-driven display-server protocol.
//!
//! The display server pushes events at its own pace; the caller wants a
//! single synchronous answer: the current plain-text clipboard content.
//! This crate holds the deterministic core of that bridge — capability
//! resolution from a registry snapshot, the offer tracking store fed by
//! asynchronous events, the content-type selection policy, and the
//! reassembly and decoding of the transferred byte stream.  The transport
//! itself (socket, dispatch loop, pipes) lives outside and hands this crate
//! plain values.

pub mod errors;
pub mod registry;
pub mod session;
pub mod store;
pub mod transfer;
