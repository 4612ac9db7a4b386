//! The proxy protocols a configuration can name.
use vstd::prelude::*;

verus! {

/// The protocol spoken on one side of the proxy.
#[derive(Clone, Copy, Debug, PartialEq, Eq, Structural)]
pub enum SupportedProtocols {
    SOCKS,
    TROJAN,
    DIRECT,
}

} // verus!
