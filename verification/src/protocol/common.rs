//! Types shared by every proxy protocol.
pub mod addr;
pub mod atype;
pub mod command;
pub mod parse;
pub mod request;
