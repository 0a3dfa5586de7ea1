//! A minimal HTTP service core: an exact-match route table, one handler,
//! the serving loop's per-request decisions, and the startup sequence.
//!
//! The network itself (the listener, the asynchronous runtime, the wire
//! parser) lives outside this crate; it hands in plain requests and parse
//! outcomes and carries the resulting responses back to the client.

pub mod handler;
pub mod http;
pub mod router;
pub mod serve;
pub mod startup;
