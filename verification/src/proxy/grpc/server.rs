//! One tunnel of the gRPC service from its first chunk to the choice of
//! its outbound leg.
use crate::config::base::InboundConfig;
use crate::error::Error;
use crate::protocol::common::parse::Parsed;
use crate::protocol::trojan::base::HEX_SIZE;
use crate::protocol::trojan::parser::lemma_accepted_header;
use crate::proxy::base::SupportedProtocols;
use crate::proxy::grpc::acceptor::GrpcAcceptor;
use crate::proxy::grpc::handler::{hunk_plan, GrpcHandler};
use crate::proxy::tcp::server::{Action, ActionModel};
use vstd::prelude::*;

verus! {

/// The depth of the channel that carries chunks back to the client. A
/// full channel is a failed write, which ends the tunnel.
pub const CHANNEL_SIZE: usize = 16;

/// One step of a tunnel: the request at the start of the bytes `s` is
/// read and authenticated, and once it is there, the outbound leg is
/// chosen. Any failure closes the tunnel.
pub open spec fn tun_step(protocol: SupportedProtocols, secret: Seq<u8>, s: Seq<u8>) -> ActionModel {
    match GrpcAcceptor::accepted(protocol, secret, s) {
        Parsed::Incomplete => ActionModel::Wait,
        Parsed::Invalid(e) => ActionModel::Close(e),
        Parsed::Complete(request, n) => match hunk_plan(request) {
            Ok(outbound) => ActionModel::Open { consumed: n, reply: Seq::empty(), outbound },
            Err(e) => ActionModel::Close(e),
        },
    }
}

/// Makes the acceptor and the handler of the service, before the first
/// tunnel is taken.
pub fn start(inbound_config: &InboundConfig) -> (service: (GrpcAcceptor, GrpcHandler))
    ensures
        service.0.spec_protocol() == inbound_config.protocol,
        service.0.spec_secret() == crate::proxy::tcp::acceptor::secret_of(
            inbound_config.protocol,
            inbound_config.secret,
        ),
        service.0.spec_secret().len() == crate::proxy::tcp::acceptor::secret_len(
            inbound_config.protocol,
            inbound_config.secret,
        ),
{
    (GrpcAcceptor::new(inbound_config), GrpcHandler::new())
}

/// Moves one tunnel on: reads and authenticates the request at the start
/// of the bytes carried so far and, once it is there, chooses the
/// outbound leg. Nothing is ever sent back in reply.
pub fn tun(acceptor: &GrpcAcceptor, handler: &GrpcHandler, buf: &[u8]) -> (action: Action)
    ensures
        action@ == tun_step(acceptor.spec_protocol(), acceptor.spec_secret(), buf@),
{
    match acceptor.accept_hunk(buf) {
        Ok(Some((request, consumed))) => match handler.handle_hunk(request) {
            Ok(outbound) => Action::Open { consumed, reply: Vec::new(), outbound },
            Err(e) => Action::Close(e),
        },
        Ok(None) => Action::Wait,
        Err(e) => Action::Close(e),
    }
}

/// Authentication before any side effect: as long as the bytes of a
/// Trojan tunnel do not start with the credential, no outbound leg is
/// opened. Short of 56 bytes the tunnel waits; from 56 bytes on it is
/// closed for a password mismatch, whatever follows.
pub proof fn lemma_tun_auth_before_side_effect(secret: Seq<u8>, s: Seq<u8>)
    requires
        s.len() < HEX_SIZE || s.subrange(0, HEX_SIZE as int) != secret,
    ensures
        tun_step(SupportedProtocols::TROJAN, secret, s) == if s.len() < HEX_SIZE {
            ActionModel::Wait
        } else {
            ActionModel::Close(Error::PasswordMismatch)
        },
{
}

/// An outbound leg is opened only if the bytes received start with the
/// credential.
pub proof fn lemma_tun_open_implies_authenticated(
    protocol: SupportedProtocols,
    secret: Seq<u8>,
    s: Seq<u8>,
)
    requires
        tun_step(protocol, secret, s) is Open,
    ensures
        protocol == SupportedProtocols::TROJAN,
        s.len() >= HEX_SIZE,
        s.subrange(0, HEX_SIZE as int) == secret,
{
    lemma_accepted_header(s, secret);
}

} // verus!
