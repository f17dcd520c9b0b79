//! Client-side codec for the OpenRGB SDK wire protocol.
//!
//! The crate encodes and decodes every value that travels between an OpenRGB
//! client and server, frames those values into packets, and states the rules
//! a client follows once a protocol version has been agreed. It performs no
//! input or output of its own: streams are byte buffers held in memory.

pub mod client;
pub mod data;
pub mod error;
pub mod laws;
pub mod protocol;
pub mod stream;
pub mod text;

pub use client::{OpenRGB, DEFAULT_PROTOCOL};
pub use error::OpenRGBError;
