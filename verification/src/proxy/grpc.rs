//! Tunnels that come in as gRPC streams of chunks.
pub mod acceptor;
pub mod handler;
pub mod server;
