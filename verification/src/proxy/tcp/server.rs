//! One connection from its first byte to the choice of its outbound leg.
use crate::config::base::{InboundConfig, OutboundConfig};
use crate::error::Error;
use crate::protocol::socks5::{Phase, Progress, ProgressModel};
use crate::protocol::trojan::base::HEX_SIZE;
use crate::protocol::trojan::parser::lemma_accepted_header;
use crate::proxy::base::SupportedProtocols;
use crate::proxy::tcp::acceptor::{accept_step, secret_len, AcceptorModel, TcpAcceptor};
use crate::proxy::tcp::handler::{
    handler_of, plan, HandlerModel, Outbound, OutboundModel, TcpHandler,
};
use vstd::prelude::*;

verus! {

/// What the task of a connection does next.
#[derive(Debug)]
pub enum Action {
    /// Read more bytes and come back with the longer buffer.
    Wait,
    /// Drop `consumed` bytes from the buffer, send `reply`, read on.
    Reply { consumed: usize, reply: Vec<u8> },
    /// The handshake is done: drop `consumed` bytes, send `reply`, set up
    /// `outbound`, and relay what follows.
    Open { consumed: usize, reply: Vec<u8>, outbound: Outbound },
    /// The handshake was over before: the bytes belong to the tunnel.
    Relay,
    /// Drop the connection and report the failure. Nothing is sent to the
    /// peer.
    Close(Error),
}

/// What an action is: the model that every contract speaks of.
pub enum ActionModel {
    Wait,
    Reply { consumed: nat, reply: Seq<u8> },
    Open { consumed: nat, reply: Seq<u8>, outbound: OutboundModel },
    Relay,
    Close(Error),
}

impl View for Action {
    type V = ActionModel;

    open spec fn view(&self) -> ActionModel {
        match *self {
            Action::Wait => ActionModel::Wait,
            Action::Reply { consumed, reply } => ActionModel::Reply {
                consumed: consumed as nat,
                reply: reply@,
            },
            Action::Open { consumed, reply, outbound } => ActionModel::Open {
                consumed: consumed as nat,
                reply: reply@,
                outbound: outbound@,
            },
            Action::Relay => ActionModel::Relay,
            Action::Close(e) => ActionModel::Close(e),
        }
    }
}

/// One step of a connection: the inbound handshake is fed with the bytes
/// `s` buffered in phase `phase`, and once it hands out a request, the
/// outbound leg is chosen. Any failure closes the connection.
pub open spec fn serve_step(
    acceptor: AcceptorModel,
    handler: HandlerModel,
    phase: Phase,
    s: Seq<u8>,
) -> (Phase, ActionModel) {
    let (next, progress) = accept_step(acceptor, phase, s);
    match progress {
        Ok(ProgressModel::NeedMore) => (next, ActionModel::Wait),
        Ok(ProgressModel::Greeted { consumed, reply }) => (
            next,
            ActionModel::Reply { consumed, reply },
        ),
        Ok(ProgressModel::Accepted { consumed, reply, request }) => match plan(handler, request) {
            Ok(outbound) => (next, ActionModel::Open { consumed, reply, outbound }),
            Err(e) => (next, ActionModel::Close(e)),
        },
        Ok(ProgressModel::Established) => (next, ActionModel::Relay),
        Err(e) => (next, ActionModel::Close(e)),
    }
}

/// Makes the acceptor and the handler that the two halves of the
/// configuration describe, before the first connection is taken.
pub fn start(inbound_config: &InboundConfig, outbound_config: &OutboundConfig, tls_loaded: bool) -> (r:
    Result<(TcpAcceptor, TcpHandler), Error>)
    ensures
        match (r, handler_of(*outbound_config)) {
            (Ok((acceptor, handler)), Ok(model)) => {
                &&& handler@ == model
                &&& handler@.secret.len() == secret_len(
                    outbound_config.protocol,
                    outbound_config.secret,
                )
                &&& acceptor@.secret.len() == secret_len(
                    inbound_config.protocol,
                    inbound_config.secret,
                )
                &&& acceptor@ == (AcceptorModel {
                    tls: inbound_config.tls is Some && tls_loaded,
                    port: inbound_config.port,
                    protocol: inbound_config.protocol,
                    secret: crate::proxy::tcp::acceptor::secret_of(
                        inbound_config.protocol,
                        inbound_config.secret,
                    ),
                })
            },
            (Err(e), Err(f)) => e == f,
            _ => false,
        },
{
    let acceptor = TcpAcceptor::init(inbound_config, tls_loaded);
    match TcpHandler::init(outbound_config) {
        Ok(handler) => Ok((acceptor, handler)),
        Err(e) => Err(e),
    }
}

/// Moves one connection on: feeds its handshake with the bytes buffered
/// so far and, once the request is there, chooses the outbound leg.
pub fn serve(acceptor: &TcpAcceptor, handler: &TcpHandler, phase: &mut Phase, buf: &[u8]) -> (action:
    Action)
    ensures
        (*final(phase), action@) == serve_step(acceptor@, handler@, *old(phase), buf@),
{
    match acceptor.accept(phase, buf) {
        Ok(Progress::NeedMore) => Action::Wait,
        Ok(Progress::Greeted { consumed, reply }) => Action::Reply { consumed, reply },
        Ok(Progress::Accepted { consumed, reply, request }) => match handler.dispatch(request) {
            Ok(outbound) => Action::Open { consumed, reply, outbound },
            Err(e) => Action::Close(e),
        },
        Ok(Progress::Established) => Action::Relay,
        Err(e) => Action::Close(e),
    }
}

/// Authentication before any side effect: on a Trojan connection whose
/// handshake is not over, as long as the bytes received do not start with
/// the credential, no outbound leg is opened and nothing is sent. Short of
/// 56 bytes the connection waits; from 56 bytes on it is closed for a
/// password mismatch, whatever follows.
pub proof fn lemma_auth_before_side_effect(
    acceptor: AcceptorModel,
    handler: HandlerModel,
    phase: Phase,
    s: Seq<u8>,
)
    requires
        acceptor.protocol == SupportedProtocols::TROJAN,
        phase != Phase::Established,
        s.len() < HEX_SIZE || s.subrange(0, HEX_SIZE as int) != acceptor.secret,
    ensures
        serve_step(acceptor, handler, phase, s) == if s.len() < HEX_SIZE {
            (phase, ActionModel::Wait)
        } else {
            (phase, ActionModel::Close(Error::PasswordMismatch))
        },
{
}

/// An outbound leg is opened on a Trojan connection only if the bytes
/// received start with the credential.
pub proof fn lemma_open_implies_authenticated(
    acceptor: AcceptorModel,
    handler: HandlerModel,
    phase: Phase,
    s: Seq<u8>,
)
    requires
        acceptor.protocol == SupportedProtocols::TROJAN,
        serve_step(acceptor, handler, phase, s).1 is Open,
    ensures
        s.len() >= HEX_SIZE,
        s.subrange(0, HEX_SIZE as int) == acceptor.secret,
{
    lemma_accepted_header(s, acceptor.secret);
}

} // verus!
