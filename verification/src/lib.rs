//! The protocol core of a SOCKS5 relay: wire codec, method negotiation,
//! request parsing, admission control and the per-connection state machine.
//! Everything here works on plain values; sockets and tasks live with the caller.

pub mod error;
pub mod wire;
pub mod admission;
pub mod session;
pub mod trace;
pub mod text;
