//! Session and command marshaling for synchronous, kernel-mediated IPC.
//!
//! The crate models the client and server halves of a message-passing
//! runtime: status values, object identities and sessions, typed
//! buffer / handle / process-id arguments, the two wire encodings of one
//! transaction shape, version-gated command tables and domain multiplexing.
//!
//! Executable functions state in contracts what they return and change,
//! and Verus checks their bodies against them. One call into std,
//! `String::push`, is taken on trust behind a wrapper in `ipc::sf`. The
//! interface traits of the services declare signatures only.

pub mod result;
pub mod version;
pub mod wire;
pub mod ipc;
pub mod arm;
pub mod diag;
pub mod service;
