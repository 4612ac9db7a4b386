//! A Trojan / SOCKS5 proxy core without sockets.
//!
//! Every function here works on bytes and plain values: the wire formats,
//! the handshakes, the authentication rule and the choice of the outbound
//! leg. The caller owns the sockets, reads and writes what these functions
//! tell it to, and feeds back what arrived.
pub mod buffer;
pub mod config;
pub mod error;
pub mod protocol;
pub mod proxy;
pub mod transport;
pub mod wire;
