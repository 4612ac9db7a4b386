//! Carriers that are not byte streams by themselves.
pub mod grpc_stream;
