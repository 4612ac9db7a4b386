//! The QUIC listener: what it needs to start, and one stream from its
//! first byte to the choice of its outbound leg.
use crate::config::base::InboundConfig;
use crate::error::Error;
use crate::proxy::grpc::acceptor::GrpcAcceptor;
use crate::proxy::grpc::handler::GrpcHandler;
use crate::proxy::grpc::server::{tun, tun_step};
use crate::proxy::tcp::server::Action;
use vstd::prelude::*;

verus! {

/// The application protocols offered in the TLS handshake, in order:
/// "hq-29", "h2", "h3".
pub open spec fn alpn() -> Seq<Seq<u8>> {
    seq![
        seq![0x68u8, 0x71, 0x2d, 0x32, 0x39],
        seq![0x68u8, 0x32],
        seq![0x68u8, 0x33],
    ]
}

/// The application protocols offered in the TLS handshake.
pub fn alpn_quic_http() -> (names: Vec<Vec<u8>>)
    ensures
        names@.len() == 3,
        forall|i: int| 0 <= i < 3 ==> (#[trigger] names@[i])@ == alpn()[i],
{
    let mut hq: Vec<u8> = Vec::new();
    hq.push(0x68);
    hq.push(0x71);
    hq.push(0x2d);
    hq.push(0x32);
    hq.push(0x39);
    let mut h2: Vec<u8> = Vec::new();
    h2.push(0x68);
    h2.push(0x32);
    let mut h3: Vec<u8> = Vec::new();
    h3.push(0x68);
    h3.push(0x33);
    let mut names: Vec<Vec<u8>> = Vec::new();
    names.push(hq);
    names.push(h2);
    names.push(h3);
    proof {
        assert(names@[0]@ =~= alpn()[0]);
        assert(names@[1]@ =~= alpn()[1]);
        assert(names@[2]@ =~= alpn()[2]);
    }
    names
}

/// What a QUIC listener is started with.
pub struct Listener<T> {
    /// The TLS identity, as the caller loaded it.
    pub tls_config: T,
    /// The application protocols to offer.
    pub alpn_protocols: Vec<Vec<u8>>,
    pub acceptor: GrpcAcceptor,
    pub handler: GrpcHandler,
}

/// Checks that a QUIC listener can start. QUIC does not go without TLS:
/// the configuration must name an identity, and `tls_config` holds it if
/// it could be loaded.
pub fn start<T>(inbound_config: &InboundConfig, tls_config: Option<T>) -> (r: Result<
    Listener<T>,
    Error,
>)
    ensures
        match r {
            Ok(listener) => {
                &&& inbound_config.tls is Some
                &&& tls_config == Some(listener.tls_config)
                &&& listener.alpn_protocols@.len() == 3
                &&& forall|i: int|
                    0 <= i < 3 ==> (#[trigger] listener.alpn_protocols@[i])@ == alpn()[i]
                &&& listener.acceptor.spec_protocol() == inbound_config.protocol
                &&& listener.acceptor.spec_secret() == crate::proxy::tcp::acceptor::secret_of(
                    inbound_config.protocol,
                    inbound_config.secret,
                )
                &&& listener.acceptor.spec_secret().len()
                    == crate::proxy::tcp::acceptor::secret_len(
                    inbound_config.protocol,
                    inbound_config.secret,
                )
            },
            Err(e) => e == if inbound_config.tls is None {
                Error::QuicWithoutTls
            } else {
                Error::QuicTlsInvalid
            } && (inbound_config.tls is None || tls_config is None),
        },
{
    match &inbound_config.tls {
        None => {
            return Err(Error::QuicWithoutTls);
        },
        Some(_) => {},
    }
    match tls_config {
        None => Err(Error::QuicTlsInvalid),
        Some(tls_config) => Ok(
            Listener {
                tls_config,
                alpn_protocols: alpn_quic_http(),
                acceptor: GrpcAcceptor::new(inbound_config),
                handler: GrpcHandler::new(),
            },
        ),
    }
}

/// Moves one stream of a connection on: its request is read and
/// authenticated, then its outbound leg is chosen, as for a gRPC tunnel.
/// Streams share no state.
pub fn serve_stream(acceptor: &GrpcAcceptor, handler: &GrpcHandler, buf: &[u8]) -> (action: Action)
    ensures
        action@ == tun_step(acceptor.spec_protocol(), acceptor.spec_secret(), buf@),
{
    tun(acceptor, handler, buf)
}

} // verus!
