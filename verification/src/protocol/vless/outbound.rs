//! A stream on which a VLESS request goes out.
use crate::buffer::put_slice;
use crate::protocol::vless::base::{Request, VlessModel};
use vstd::prelude::*;

verus! {

/// The length of the answer that is skipped before the first payload
/// read.
pub const RESPONSE_SIZE: usize = 2;

/// A stream together with the request to send on it and what was done so
/// far. The stream itself is only carried.
pub struct VlessOutboundStream<IO> {
    stream: IO,
    request: Request,
    is_request_written: bool,
    is_response_read: bool,
}

impl<IO> VlessOutboundStream<IO> {
    /// The stream carried.
    pub closed spec fn spec_stream(&self) -> IO {
        self.stream
    }

    /// The request to send.
    pub closed spec fn spec_request(&self) -> VlessModel {
        self.request@
    }

    /// Whether the request counts as written.
    pub closed spec fn request_written(&self) -> bool {
        self.is_request_written
    }

    /// Whether the answer counts as read.
    pub closed spec fn response_read(&self) -> bool {
        self.is_response_read
    }

    /// Wraps `stream`. The request counts as written and the answer as
    /// read from the start.
    pub fn new(stream: IO, request: Request) -> (wrapped: VlessOutboundStream<IO>)
        ensures
            wrapped.spec_stream() == stream,
            wrapped.spec_request() == request@,
            wrapped.request_written(),
            wrapped.response_read(),
    {
        VlessOutboundStream { stream, request, is_request_written: true, is_response_read: true }
    }

    /// The stream carried.
    pub fn get_mut(&mut self) -> (stream: &mut IO)
        ensures
            *stream == old(self).spec_stream(),
            final(self).spec_stream() == *final(stream),
            final(self).spec_request() == old(self).spec_request(),
            final(self).request_written() == old(self).request_written(),
            final(self).response_read() == old(self).response_read(),
    {
        &mut self.stream
    }

    /// How many bytes of the stream to skip before the first payload
    /// read: the answer, unless it counts as read.
    pub fn poll_read(&self) -> (skip: usize)
        ensures
            skip == if self.response_read() {
                0
            } else {
                RESPONSE_SIZE
            },
    {
        if !self.is_response_read {
            RESPONSE_SIZE
        } else {
            0
        }
    }

    /// Appends to `out` what goes out ahead of the first payload written:
    /// the request, unless it counts as written. From then on it counts as
    /// written.
    pub fn poll_write(&mut self, out: &mut Vec<u8>)
        ensures
            final(out)@ == old(out)@ + if old(self).request_written() {
                Seq::<u8>::empty()
            } else {
                old(self).spec_request().wire()
            },
            final(self).request_written(),
            final(self).response_read() == old(self).response_read(),
            final(self).spec_request() == old(self).spec_request(),
            final(self).spec_stream() == old(self).spec_stream(),
    {
        if !self.is_request_written {
            let bytes = self.request.to_bytes();
            put_slice(out, bytes.as_slice());
            self.is_request_written = true;
        } else {
            assert(out@ =~= old(out)@ + Seq::<u8>::empty());
        }
    }
}

} // verus!
