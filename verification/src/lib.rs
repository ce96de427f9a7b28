//! Server side of the Wayland start-up handshake, without any I/O of its own.
//!
//! `byte_order` turns 32-bit words into bytes and back, `codec` frames
//! messages, `protocol` names the interfaces, globals and events, `client`
//! keeps the state of one connection and decides what to answer, and `error`
//! lists what can end a connection.

pub mod byte_order;
pub mod client;
pub mod codec;
pub mod error;
pub mod protocol;
