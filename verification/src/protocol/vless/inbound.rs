//! A stream on which a VLESS request comes in.
use crate::buffer::put_slice;
use crate::error::Error;
use crate::protocol::common::parse::outcome_of;
use crate::protocol::vless::base::{Request, Response, VERSION};
use crate::protocol::vless::parser::{parse, parse_vless};
use vstd::prelude::*;

verus! {

/// A stream together with what was done on it so far. The stream itself
/// is only carried: the caller reads from it and writes to it.
pub struct VlessInboundStream<IO> {
    stream: IO,
    is_request_read: bool,
    is_response_written: bool,
}

impl<IO> VlessInboundStream<IO> {
    /// The stream carried.
    pub closed spec fn spec_stream(&self) -> IO {
        self.stream
    }

    /// Whether the request was read.
    pub closed spec fn request_read(&self) -> bool {
        self.is_request_read
    }

    /// Whether the answer was written, or given up.
    pub closed spec fn response_written(&self) -> bool {
        self.is_response_written
    }

    /// Wraps `stream`, on which nothing was read or written yet.
    pub fn new(stream: IO) -> (wrapped: VlessInboundStream<IO>)
        ensures
            wrapped.spec_stream() == stream,
            !wrapped.request_read(),
            !wrapped.response_written(),
    {
        VlessInboundStream { stream, is_request_read: false, is_response_written: false }
    }

    /// The stream carried.
    pub fn get_mut(&mut self) -> (stream: &mut IO)
        ensures
            *stream == old(self).spec_stream(),
            final(self).spec_stream() == *final(stream),
            final(self).request_read() == old(self).request_read(),
            final(self).response_written() == old(self).response_written(),
    {
        &mut self.stream
    }

    /// Reads the request at the start of the bytes read from the stream,
    /// and notes that it was read.
    ///
    /// `Ok(None)` asks for more bytes and consumes nothing.
    pub fn read_request(&mut self, buf: &[u8]) -> (r: Result<Option<(Request, usize)>, Error>)
        ensures
            outcome_of(r) == parse_vless(buf@),
            final(self).request_read() == (old(self).request_read() || parse_vless(
                buf@,
            ) is Complete),
            final(self).response_written() == old(self).response_written(),
            final(self).spec_stream() == old(self).spec_stream(),
    {
        match parse(buf) {
            Ok(Some(found)) => {
                self.is_request_read = true;
                Ok(Some(found))
            },
            Ok(None) => Ok(None),
            Err(e) => Err(e),
        }
    }

    /// Appends the answer to `out` and notes that it was written.
    pub fn ack_request(&mut self, out: &mut Vec<u8>)
        ensures
            final(out)@ == old(out)@ + seq![VERSION],
            final(self).response_written(),
            final(self).request_read() == old(self).request_read(),
            final(self).spec_stream() == old(self).spec_stream(),
    {
        let response = Response::new(VERSION);
        self.is_response_written = true;
        let wire = response.to_bytes();
        put_slice(out, wire.as_slice());
    }

    /// What goes out ahead of the first payload written: nothing, also
    /// when no answer was written before. From then on the answer counts
    /// as written.
    pub fn poll_write(&mut self, out: &mut Vec<u8>)
        ensures
            final(out)@ == old(out)@,
            final(self).response_written(),
            final(self).request_read() == old(self).request_read(),
            final(self).spec_stream() == old(self).spec_stream(),
    {
        if !self.is_response_written {
            self.is_response_written = true;
        }
    }
}

} // verus!
