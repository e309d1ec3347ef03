//! A point-to-point layer-3 tunnel: handshake framing, the server's
//! demultiplexer and peer table, and the decisions of the client's bridge
//! between a TUN device and a UDP transport.

pub mod crypto;
pub mod protocol;
pub mod server;
pub mod tunnel;
