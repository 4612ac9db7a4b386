//! The inbound side of a tunnel whose carrier is not a TCP connection:
//! the Trojan header at the start of its byte stream.
use crate::config::base::InboundConfig;
use crate::error::Error;
use crate::protocol::common::parse::{outcome_of, Parsed};
use crate::protocol::common::request::{InboundRequest, RequestModel};
use crate::protocol::trojan;
use crate::protocol::trojan::parser::parse_header;
use crate::proxy::base::SupportedProtocols;
use crate::proxy::tcp::acceptor::{make_secret, secret_len, secret_of};
use vstd::prelude::*;

verus! {

/// What the inbound side of every tunnel shares: the protocol and the
/// credential. It is made once and only read afterwards.
#[derive(Debug)]
pub struct GrpcAcceptor {
    protocol: SupportedProtocols,
    secret: Vec<u8>,
}

impl GrpcAcceptor {
    /// The protocol served.
    pub closed spec fn spec_protocol(&self) -> SupportedProtocols {
        self.protocol
    }

    /// The credential that clients must present.
    pub closed spec fn spec_secret(&self) -> Seq<u8> {
        self.secret@
    }

    /// Makes the acceptor that `inbound_config` describes.
    pub fn new(inbound_config: &InboundConfig) -> (acceptor: GrpcAcceptor)
        ensures
            acceptor.spec_protocol() == inbound_config.protocol,
            acceptor.spec_secret() == secret_of(inbound_config.protocol, inbound_config.secret),
            acceptor.spec_secret().len() == secret_len(
                inbound_config.protocol,
                inbound_config.secret,
            ),
    {
        let secret = make_secret(inbound_config.protocol, &inbound_config.secret);
        Self { protocol: inbound_config.protocol, secret }
    }

    /// The credential that clients must present.
    pub fn secret(&self) -> (secret: &[u8])
        ensures
            secret@ == self.spec_secret(),
    {
        self.secret.as_slice()
    }

    /// What the first bytes `s` of a tunnel come to under an acceptor of
    /// this protocol and credential: the Trojan header is read and
    /// authenticated; no other protocol is served.
    pub open spec fn accepted(protocol: SupportedProtocols, secret: Seq<u8>, s: Seq<u8>) -> Parsed<
        RequestModel,
    > {
        match protocol {
            SupportedProtocols::TROJAN => parse_header(s, secret),
            _ => Parsed::Invalid(Error::UnsupportedProtocol),
        }
    }

    /// Reads and authenticates the request at the start of the bytes that
    /// the tunnel has carried so far.
    ///
    /// `Ok(None)` asks for more bytes and consumes nothing. A request
    /// comes out only behind the right credential.
    pub fn accept_hunk(&self, request: &[u8]) -> (r: Result<Option<(InboundRequest, usize)>, Error>)
        ensures
            outcome_of(r) == Self::accepted(self.spec_protocol(), self.spec_secret(), request@),
    {
        match self.protocol {
            SupportedProtocols::TROJAN => trojan::accept(request, self.secret.as_slice()),
            _ => Err(Error::UnsupportedProtocol),
        }
    }
}

} // verus!
