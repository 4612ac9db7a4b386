//! Wrapping the streams of a connection by the configured protocol.
use crate::protocol::socks5::stream::Socks5Stream;
use crate::protocol::socks5::Phase;
use crate::proxy::base::SupportedProtocols;
use crate::wire::be_value;
use vstd::prelude::*;

verus! {

/// How the streams of a connection are to be wrapped.
pub struct ConnectionBuilder {
    protocol: SupportedProtocols,
    tls: bool,
}

impl ConnectionBuilder {
    /// The protocol to wrap streams for.
    pub closed spec fn spec_protocol(&self) -> SupportedProtocols {
        self.protocol
    }

    /// Whether the streams go under TLS.
    pub closed spec fn spec_tls(&self) -> bool {
        self.tls
    }

    /// The builder for this protocol, with or without TLS.
    pub fn new(protocol: SupportedProtocols, tls: bool) -> (builder: ConnectionBuilder)
        ensures
            builder.spec_protocol() == protocol,
            builder.spec_tls() == tls,
    {
        ConnectionBuilder { protocol, tls }
    }

    /// Wraps an inbound stream for its handshake, which advertises
    /// `inbound_port`. Only SOCKS streams are wrapped.
    pub fn build_inbound<IO>(self, inbound_stream: IO, inbound_port: u16) -> (wrapped: Option<
        Socks5Stream<IO>,
    >)
        ensures
            match wrapped {
                Some(stream) => {
                    &&& self.spec_protocol() == SupportedProtocols::SOCKS
                    &&& stream.spec_stream() == inbound_stream
                    &&& stream.spec_port() == inbound_port
                    &&& stream.spec_phase() == Phase::Greeting
                },
                None => self.spec_protocol() != SupportedProtocols::SOCKS,
            },
    {
        match self.protocol {
            SupportedProtocols::SOCKS => {
                let port = [(inbound_port / 256) as u8, (inbound_port % 256) as u8];
                proof {
                    reveal_with_fuel(be_value, 3);
                    assert(port@.drop_last().drop_last() =~= Seq::<u8>::empty());
                }
                Some(Socks5Stream::new(inbound_stream, port))
            },
            _ => None,
        }
    }

    /// The address to dial for `request`, which names it as text. Only a
    /// direct outbound dials.
    pub fn build_outbound(self, request: String) -> (target: Option<String>)
        ensures
            match target {
                Some(address) => self.spec_protocol() == SupportedProtocols::DIRECT && address
                    == request,
                None => self.spec_protocol() != SupportedProtocols::DIRECT,
            },
    {
        match self.protocol {
            SupportedProtocols::DIRECT => Some(request),
            _ => None,
        }
    }
}

} // verus!
