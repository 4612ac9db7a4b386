//! Connections that come in over TCP, with or without TLS.
pub mod acceptor;
pub mod handler;
pub mod server;
