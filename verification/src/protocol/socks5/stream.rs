//! A stream on which the SOCKS5 handshake is run.
use crate::error::Error;
use crate::protocol::socks5::{accept, progress_of, step, Phase, Progress};
use crate::wire::be_value;
use vstd::prelude::*;

verus! {

/// A stream of the local edge together with the port to advertise and the
/// state of its handshake. The stream itself is only carried: the caller
/// reads from it and writes to it.
pub struct Socks5Stream<IO> {
    stream: IO,
    port: [u8; 2],
    phase: Phase,
}

impl<IO> Socks5Stream<IO> {
    /// The port that the reply to the request advertises.
    pub closed spec fn spec_port(&self) -> u16 {
        be_value(self.port@) as u16
    }

    /// Where the handshake stands.
    pub closed spec fn spec_phase(&self) -> Phase {
        self.phase
    }

    /// The stream carried.
    pub closed spec fn spec_stream(&self) -> IO {
        self.stream
    }

    /// Wraps `stream`, on which no byte of the handshake was read yet.
    /// `port` holds the advertised port, high byte first.
    pub fn new(stream: IO, port: [u8; 2]) -> (wrapped: Socks5Stream<IO>)
        ensures
            wrapped.spec_stream() == stream,
            wrapped.spec_port() == be_value(port@) as u16,
            wrapped.spec_phase() == Phase::Greeting,
    {
        Socks5Stream { stream, port, phase: Phase::Greeting }
    }

    /// Where the handshake stands.
    #[verifier::when_used_as_spec(spec_phase)]
    pub fn phase(&self) -> (phase: Phase)
        ensures
            phase == self.spec_phase(),
    {
        self.phase
    }

    /// The stream carried.
    pub fn get_mut(&mut self) -> (stream: &mut IO)
        ensures
            *stream == old(self).spec_stream(),
            final(self).spec_stream() == *final(stream),
            final(self).spec_port() == old(self).spec_port(),
            final(self).spec_phase() == old(self).spec_phase(),
    {
        &mut self.stream
    }

    /// Gives the stream back.
    pub fn into_inner(self) -> (stream: IO)
        ensures
            stream == self.spec_stream(),
    {
        self.stream
    }

    /// Feeds the handshake with the bytes read from the stream and not
    /// yet consumed, and moves it on.
    pub fn handshake(&mut self, buf: &[u8]) -> (r: Result<Progress, Error>)
        ensures
            (final(self).spec_phase(), progress_of(r)) == step(
                old(self).spec_phase(),
                buf@,
                old(self).spec_port(),
            ),
            final(self).spec_port() == old(self).spec_port(),
            final(self).spec_stream() == old(self).spec_stream(),
    {
        let port = crate::wire::read_u16(&self.port, 0);
        assert(self.port@.subrange(0, 2) =~= self.port@);
        let mut phase = self.phase;
        let r = accept(&mut phase, buf, port);
        self.phase = phase;
        r
    }
}

} // verus!
