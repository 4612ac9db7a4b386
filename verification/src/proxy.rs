//! The two ends of a proxied connection: accepting the inbound side and
//! choosing the outbound leg.
pub mod base;
pub mod builder;
pub mod grpc;
pub mod quic;
pub mod tcp;
