//! Wire protocols: the types they share and their framing.
pub mod common;
pub mod socks5;
pub mod trojan;
pub mod vless;
