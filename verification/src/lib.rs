//! Typed messages for Open Sound Control over datagrams: coercing textual
//! arguments into typed values, framing messages as bytes, and deciding the
//! outcome of a request/reply exchange with one peer.
//!
//! The library does no input or output. Its functions take what a socket
//! gave and return what a socket should be given.

pub mod codec;
pub mod coerce;
pub mod exchange;
pub mod framing;
pub mod server;
pub mod text;
pub mod transport;
pub mod value;

pub use crate::coerce::parse_osc_args;
pub use crate::exchange::{recv_msg, send_msg};
pub use crate::transport::{recv_packet, send_packet};
pub use crate::value::CustomPacket;
