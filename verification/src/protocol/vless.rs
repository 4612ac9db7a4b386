//! The VLESS request: a version, a user, a command and a numeric
//! destination.
pub mod base;
pub mod inbound;
pub mod outbound;
pub mod parser;
