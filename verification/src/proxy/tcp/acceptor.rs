//! The inbound side of a TCP connection: which handshake to run, and
//! running it.
use crate::config::base::InboundConfig;
use crate::error::Error;
use crate::protocol::common::parse::Parsed;
use crate::protocol::socks5::{self, Phase, Progress, ProgressModel};
use crate::protocol::trojan::base::{credential, credential_of, HEX_SIZE};
use crate::protocol::trojan::parser::parse_header;
use crate::protocol::trojan;
use crate::proxy::base::SupportedProtocols;
use vstd::prelude::*;
use vstd::utf8::encode_utf8;

verus! {

/// The credential that a configuration stands for: that of the password
/// when the protocol is Trojan and a password is set, else none.
pub open spec fn secret_of(protocol: SupportedProtocols, secret: Option<String>) -> Seq<u8> {
    match (protocol, secret) {
        (SupportedProtocols::TROJAN, Some(password)) => credential_of(encode_utf8(password@)),
        _ => Seq::empty(),
    }
}

/// The length of the credential that a configuration stands for: 56
/// bytes when the protocol is Trojan and a password is set, else none.
pub open spec fn secret_len(protocol: SupportedProtocols, secret: Option<String>) -> nat {
    match (protocol, secret) {
        (SupportedProtocols::TROJAN, Some(_)) => HEX_SIZE as nat,
        _ => 0,
    }
}

/// Computes the credential that a configuration stands for. It has 56
/// bytes or none.
pub fn make_secret(protocol: SupportedProtocols, secret: &Option<String>) -> (hex: Vec<u8>)
    ensures
        hex@ == secret_of(protocol, *secret),
        hex@.len() == secret_len(protocol, *secret),
{
    match (protocol, secret) {
        (SupportedProtocols::TROJAN, Some(password)) => credential(password.as_str()),
        _ => Vec::new(),
    }
}

/// What the inbound side of every connection shares: the advertised port,
/// the protocol, the credential, and whether TLS comes first. It is made
/// once and only read afterwards.
#[derive(Debug)]
pub struct TcpAcceptor {
    tls_acceptor: bool,
    port: u16,
    protocol: SupportedProtocols,
    secret: Vec<u8>,
}

/// What an acceptor is: the model that every contract speaks of.
pub struct AcceptorModel {
    pub tls: bool,
    pub port: u16,
    pub protocol: SupportedProtocols,
    pub secret: Seq<u8>,
}

impl View for TcpAcceptor {
    type V = AcceptorModel;

    closed spec fn view(&self) -> AcceptorModel {
        AcceptorModel {
            tls: self.tls_acceptor,
            port: self.port,
            protocol: self.protocol,
            secret: self.secret@,
        }
    }
}

/// The phase in which a connection starts: SOCKS with the greeting,
/// Trojan with the request. No other protocol is served.
pub open spec fn first_phase(protocol: SupportedProtocols) -> Result<Phase, Error> {
    match protocol {
        SupportedProtocols::SOCKS => Ok(Phase::Greeting),
        SupportedProtocols::TROJAN => Ok(Phase::Request),
        SupportedProtocols::DIRECT => Err(Error::UnsupportedInbound),
    }
}

/// One step of the inbound handshake of `acceptor`, on the bytes `s`
/// buffered in phase `phase`.
///
/// SOCKS runs its handshake. Trojan has no greeting: its header is
/// awaited, authenticated against the credential, and answered with
/// nothing.
pub open spec fn accept_step(acceptor: AcceptorModel, phase: Phase, s: Seq<u8>) -> (
    Phase,
    Result<ProgressModel, Error>,
) {
    match acceptor.protocol {
        SupportedProtocols::SOCKS => socks5::step(phase, s, acceptor.port),
        SupportedProtocols::TROJAN => match phase {
            Phase::Established => (Phase::Established, Ok(ProgressModel::Established)),
            _ => match parse_header(s, acceptor.secret) {
                Parsed::Incomplete => (phase, Ok(ProgressModel::NeedMore)),
                Parsed::Invalid(e) => (phase, Err(e)),
                Parsed::Complete(request, n) => (
                    Phase::Established,
                    Ok(ProgressModel::Accepted { consumed: n, reply: Seq::empty(), request }),
                ),
            },
        },
        SupportedProtocols::DIRECT => (phase, Err(Error::UnsupportedInbound)),
    }
}

impl TcpAcceptor {
    /// Makes the acceptor that `inbound` describes. `tls_loaded` tells
    /// whether the TLS identity that `inbound` names was loaded; with no
    /// identity named or none loaded, connections are taken in the clear.
    pub fn init(inbound: &InboundConfig, tls_loaded: bool) -> (acceptor: Self)
        ensures
            acceptor@ == (AcceptorModel {
                tls: inbound.tls is Some && tls_loaded,
                port: inbound.port,
                protocol: inbound.protocol,
                secret: secret_of(inbound.protocol, inbound.secret),
            }),
            acceptor@.secret.len() == secret_len(inbound.protocol, inbound.secret),
    {
        let secret = make_secret(inbound.protocol, &inbound.secret);
        let tls_acceptor = match &inbound.tls {
            Some(_) => tls_loaded,
            None => false,
        };
        Self { tls_acceptor, port: inbound.port, protocol: inbound.protocol, secret }
    }

    /// Whether a TLS handshake comes before the proxy handshake.
    pub fn tls(&self) -> (tls: bool)
        ensures
            tls == self@.tls,
    {
        self.tls_acceptor
    }

    /// The credential that Trojan clients must present, or nothing.
    pub fn secret(&self) -> (secret: &[u8])
        ensures
            secret@ == self@.secret,
    {
        self.secret.as_slice()
    }

    /// The phase in which a new connection starts, or the refusal of a
    /// protocol that is not served inbound.
    pub fn open(&self) -> (phase: Result<Phase, Error>)
        ensures
            phase == first_phase(self@.protocol),
    {
        match self.protocol {
            SupportedProtocols::SOCKS => Ok(Phase::Greeting),
            SupportedProtocols::TROJAN => Ok(Phase::Request),
            SupportedProtocols::DIRECT => Err(Error::UnsupportedInbound),
        }
    }

    /// The failure to report when the peer ends the stream while the
    /// handshake still waits for bytes, `buffered` of them being there: a
    /// malformed header inside a Trojan credential, a short read anywhere
    /// else.
    pub fn end_of_stream(&self, buffered: usize) -> (e: Error)
        ensures
            e == if self@.protocol == SupportedProtocols::TROJAN && buffered < HEX_SIZE {
                Error::MalformedHeader
            } else {
                Error::ShortRead
            },
    {
        match self.protocol {
            SupportedProtocols::TROJAN => crate::protocol::trojan::parser::truncated(buffered),
            _ => Error::ShortRead,
        }
    }

    /// Feeds the handshake of one connection with the bytes buffered so
    /// far and moves it on.
    ///
    /// On `Err` the connection is over. A Trojan request comes out only
    /// behind the right credential.
    pub fn accept(&self, phase: &mut Phase, inbound_stream: &[u8]) -> (r: Result<Progress, Error>)
        ensures
            (*final(phase), socks5::progress_of(r)) == accept_step(
                self@,
                *old(phase),
                inbound_stream@,
            ),
    {
        match self.protocol {
            SupportedProtocols::SOCKS => socks5::accept(phase, inbound_stream, self.port),
            SupportedProtocols::TROJAN => match *phase {
                Phase::Established => Ok(Progress::Established),
                _ => match trojan::accept(inbound_stream, self.secret.as_slice()) {
                    Ok(Some((request, consumed))) => {
                        *phase = Phase::Established;
                        Ok(Progress::Accepted { consumed, reply: Vec::new(), request })
                    },
                    Ok(None) => Ok(Progress::NeedMore),
                    Err(e) => Err(e),
                },
            },
            SupportedProtocols::DIRECT => Err(Error::UnsupportedInbound),
        }
    }
}

} // verus!
