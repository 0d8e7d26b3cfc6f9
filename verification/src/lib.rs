//! A verified core for a network clipboard service: a single shared text
//! value that clients read and write through a line-delimited JSON protocol.
//!
//! The library holds the protocol logic — request validation, command
//! dispatch, response rendering, and the per-line session step — with
//! contracts over mathematical models. The surrounding I/O (sockets,
//! threads, argument parsing) lives outside the library.

pub mod codec;
pub mod dispatch;
pub mod laws;
pub mod request;
pub mod response;
pub mod store;
