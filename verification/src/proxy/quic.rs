//! Tunnels that come in as QUIC streams.
pub mod server;
