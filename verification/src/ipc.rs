//! The session and command marshaling engine.

pub mod message;
pub mod codec;
pub mod sf;
pub mod context;
pub mod client;
pub mod command;
pub mod server;
pub mod domain;
pub mod handles;
pub mod shared;
