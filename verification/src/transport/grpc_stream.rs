//! A gRPC message stream used as a byte stream, and a byte stream cut into
//! gRPC messages.
//!
//! The reader of the messages and the reader of the bytes are only
//! carried: the caller polls them and reports what came.
use crate::buffer::{
    bytes_mut_advance, bytes_mut_as_slice, bytes_mut_contents, bytes_mut_has_remaining,
    bytes_mut_put_slice, bytes_mut_remaining, put_slice,
};
use crate::error::Error;
use bytes::BytesMut;
use vstd::prelude::*;
use vstd::slice::{slice_subrange, slice_to_vec};

verus! {

/// The most bytes that one message carries when a byte stream is cut into
/// messages.
pub const HUNK_SIZE: usize = 4096;

/// One message of the tunnel service: a chunk of the byte stream.
#[derive(Debug)]
pub struct Hunk {
    pub data: Vec<u8>,
}

impl View for Hunk {
    type V = Seq<u8>;

    open spec fn view(&self) -> Seq<u8> {
        self.data@
    }
}

/// What polling the message stream came to.
#[derive(Debug)]
pub enum Polled {
    /// The next message.
    Chunk(Hunk),
    /// The stream ended or failed.
    Closed,
    /// No message is there yet.
    Pending,
}

/// What became of the buffered bytes at the start of a read.
#[derive(Clone, Copy, Debug, PartialEq, Eq, Structural)]
pub enum Buffered {
    /// The caller's buffer is served from the bytes held back: the read is
    /// over and succeeds.
    Served,
    /// Nothing is held back any more: poll the message stream and report
    /// with `poll_read`. `delivered` tells whether this read has given out
    /// bytes already.
    Poll { delivered: bool },
    /// The stream is over and nothing is held back: the read fails.
    Closed,
}

/// How a read ends.
#[derive(Clone, Copy, Debug, PartialEq, Eq, Structural)]
pub enum Read {
    /// The read succeeds with the bytes given out so far.
    Ready,
    /// Nothing to give yet: the read is to be tried again.
    Pending,
    /// The read fails.
    Failed(Error),
}

/// How many of the first bytes of a message go straight to the caller:
/// none while older bytes are held back, else as many as fit.
pub open spec fn fitting(held: Seq<u8>, hunk: Seq<u8>, capacity: int) -> int {
    if held.len() > 0 {
        0
    } else if hunk.len() <= capacity {
        hunk.len() as int
    } else {
        capacity
    }
}

/// How many of the bytes held back go to the caller: as many as fit.
pub open spec fn draining(held: Seq<u8>, capacity: int) -> int {
    if held.len() <= capacity {
        held.len() as int
    } else {
        capacity
    }
}

/// The adapter preserves bytes and their order: whatever room the caller
/// has, what is given out followed by what is held back is what was held
/// back followed by what came in, and no more is given out than fits.
pub proof fn lemma_reads_preserve_bytes(held: Seq<u8>, hunk: Seq<u8>, capacity: int)
    requires
        0 <= capacity,
    ensures
        held.take(draining(held, capacity)) + held.skip(draining(held, capacity)) == held,
        0 <= draining(held, capacity) <= capacity,
        hunk.take(fitting(held, hunk, capacity)) + (held + hunk.skip(
            fitting(held, hunk, capacity),
        )) == held + hunk,
        0 <= fitting(held, hunk, capacity) <= capacity,
{
    let d = draining(held, capacity);
    let f = fitting(held, hunk, capacity);
    assert(held.take(d) + held.skip(d) =~= held);
    assert(hunk.take(f) + (held + hunk.skip(f)) =~= held + hunk);
}

/// The read side: message payloads are handed out as one byte stream.
/// What does not fit in the caller's buffer is held back for the next
/// read.
pub struct GrpcDataReaderStream<T> {
    reader: T,
    buf: BytesMut,
    closed: bool,
}

impl<T> GrpcDataReaderStream<T> {
    /// The bytes received and not yet handed out.
    pub closed spec fn buffered(&self) -> Seq<u8> {
        bytes_mut_contents(self.buf)
    }

    /// Whether the message stream ended or failed.
    pub closed spec fn closed(&self) -> bool {
        self.closed
    }

    /// The message stream carried.
    pub closed spec fn spec_reader(&self) -> T {
        self.reader
    }

    /// Wraps a message stream of which nothing was read yet.
    pub fn from_reader(reader: T) -> (stream: Self)
        ensures
            stream.buffered() == Seq::<u8>::empty(),
            !stream.closed(),
            stream.spec_reader() == reader,
    {
        Self { reader, buf: BytesMut::new(), closed: false }
    }

    /// The number of bytes received and not yet handed out.
    pub fn held(&self) -> (n: usize)
        ensures
            n == self.buffered().len(),
    {
        bytes_mut_remaining(&self.buf)
    }

    /// The message stream carried, for the caller to poll.
    pub fn reader_mut(&mut self) -> (reader: &mut T)
        ensures
            *reader == old(self).spec_reader(),
            final(self).spec_reader() == *final(reader),
            final(self).buffered() == old(self).buffered(),
            final(self).closed() == old(self).closed(),
    {
        &mut self.reader
    }

    /// First half of a read into a buffer with room for `capacity` bytes:
    /// hands out what is held back, as far as it fits, by appending it to
    /// `out`.
    ///
    /// No byte is lost or reordered: what was held back is what was given
    /// out followed by what is still held back.
    pub fn read_buffered(&mut self, out: &mut Vec<u8>, capacity: usize) -> (next: Buffered)
        ensures
            final(self).closed() == old(self).closed(),
            final(self).spec_reader() == old(self).spec_reader(),
            final(out)@ == old(out)@ + old(self).buffered().take(
                draining(old(self).buffered(), capacity as int),
            ),
            final(self).buffered() == old(self).buffered().skip(
                draining(old(self).buffered(), capacity as int),
            ),
            next == if old(self).buffered().len() > capacity {
                Buffered::Served
            } else if !old(self).closed() {
                Buffered::Poll { delivered: old(self).buffered().len() > 0 }
            } else if old(self).buffered().len() > 0 {
                Buffered::Served
            } else {
                Buffered::Closed
            },
    {
        let mut delivered = false;
        let ghost before = self.buffered();
        assert(before.take(before.len() as int) =~= before);
        assert(before.skip(before.len() as int) =~= Seq::<u8>::empty());
        assert(out@ + before.take(0) =~= out@);
        assert(before.skip(0) =~= before);
        if bytes_mut_has_remaining(&self.buf) {
            delivered = true;
            let held = bytes_mut_remaining(&self.buf);
            if held <= capacity {
                put_slice(out, bytes_mut_as_slice(&self.buf));
                self.buf.clear();
            } else {
                put_slice(out, slice_subrange(bytes_mut_as_slice(&self.buf), 0, capacity));
                bytes_mut_advance(&mut self.buf, capacity);
                return Buffered::Served;
            }
        }
        if !self.closed {
            Buffered::Poll { delivered }
        } else if delivered {
            Buffered::Served
        } else {
            Buffered::Closed
        }
    }

    /// Second half of a read: takes what polling the message stream came
    /// to, with room for `capacity` more bytes in the caller's buffer.
    ///
    /// A message is given out as far as it fits and the rest is held back;
    /// if bytes are held back already, the whole message joins them. When
    /// the stream is over or nothing is there yet, the read still succeeds
    /// if it has `delivered` bytes before.
    ///
    /// What is held back and a new message must fit in one allocation
    /// together.
    pub fn poll_read(
        &mut self,
        out: &mut Vec<u8>,
        capacity: usize,
        delivered: bool,
        polled: Polled,
    ) -> (read: Read)
        requires
            polled matches Polled::Chunk(hunk) ==> old(self).buffered().len() + hunk@.len()
                <= isize::MAX,
        ensures
            final(self).spec_reader() == old(self).spec_reader(),
            match polled {
                Polled::Chunk(hunk) => {
                    let fits = fitting(old(self).buffered(), hunk@, capacity as int);
                    &&& read == Read::Ready
                    &&& final(self).closed() == old(self).closed()
                    &&& final(out)@ == old(out)@ + hunk@.take(fits)
                    &&& final(self).buffered() == old(self).buffered() + hunk@.skip(fits)
                },
                Polled::Closed => {
                    &&& final(self).closed()
                    &&& final(out)@ == old(out)@
                    &&& final(self).buffered() == old(self).buffered()
                    &&& read == if delivered {
                        Read::Ready
                    } else {
                        Read::Failed(Error::StreamClosed)
                    }
                },
                Polled::Pending => {
                    &&& final(self).closed() == old(self).closed()
                    &&& final(out)@ == old(out)@
                    &&& final(self).buffered() == old(self).buffered()
                    &&& read == if delivered {
                        Read::Ready
                    } else {
                        Read::Pending
                    }
                },
            },
    {
        match polled {
            Polled::Chunk(packet) => {
                let data = packet.data.as_slice();
                if bytes_mut_has_remaining(&self.buf) {
                    bytes_mut_put_slice(&mut self.buf, data);
                    assert(out@ =~= old(out)@ + packet@.take(0));
                    assert(packet@.skip(0) =~= packet@);
                } else if capacity >= data.len() {
                    put_slice(out, data);
                    assert(packet@.take(packet@.len() as int) =~= packet@);
                    assert(self.buffered() =~= old(self).buffered() + packet@.skip(
                        packet@.len() as int,
                    ));
                } else {
                    put_slice(out, slice_subrange(data, 0, capacity));
                    bytes_mut_put_slice(&mut self.buf, slice_subrange(data, capacity, data.len()));
                }
                Read::Ready
            },
            Polled::Closed => {
                self.closed = true;
                if delivered {
                    Read::Ready
                } else {
                    Read::Failed(Error::StreamClosed)
                }
            },
            Polled::Pending => {
                if delivered {
                    Read::Ready
                } else {
                    Read::Pending
                }
            },
        }
    }
}

/// The write side towards the server: each read of the byte stream goes
/// out as one message.
pub struct GrpcHunkRequestStream<T> {
    inner: T,
}

impl<T> GrpcHunkRequestStream<T> {
    /// The byte stream carried.
    pub closed spec fn spec_inner(&self) -> T {
        self.inner
    }

    /// Wraps a byte stream.
    pub fn new(inner: T) -> (stream: Self)
        ensures
            stream.spec_inner() == inner,
    {
        Self { inner }
    }

    /// The byte stream carried, for the caller to read from.
    pub fn inner_mut(&mut self) -> (inner: &mut T)
        ensures
            *inner == old(self).spec_inner(),
            final(self).spec_inner() == *final(inner),
    {
        &mut self.inner
    }

    /// The next item of the message stream, from what a read of at most
    /// `HUNK_SIZE` bytes gave: the bytes read as one message, or the end
    /// of the stream when the read failed.
    pub fn poll_next(&self, filled: Option<&[u8]>) -> (item: Option<Hunk>)
        ensures
            match filled {
                Some(bytes) => item is Some && item.unwrap()@ == bytes@,
                None => item is None,
            },
    {
        match filled {
            Some(bytes) => Some(Hunk { data: slice_to_vec(bytes) }),
            None => None,
        }
    }
}

/// The write side towards the client: each read of the byte stream goes
/// out as one message, and a failed read as a failure.
pub struct GrpcHunkResponseStream<T> {
    inner: T,
}

impl<T> GrpcHunkResponseStream<T> {
    /// The byte stream carried.
    pub closed spec fn spec_inner(&self) -> T {
        self.inner
    }

    /// Wraps a byte stream.
    pub fn new(inner: T) -> (stream: Self)
        ensures
            stream.spec_inner() == inner,
    {
        Self { inner }
    }

    /// The byte stream carried, for the caller to read from.
    pub fn inner_mut(&mut self) -> (inner: &mut T)
        ensures
            *inner == old(self).spec_inner(),
            final(self).spec_inner() == *final(inner),
    {
        &mut self.inner
    }

    /// The next item of the message stream, from what a read of at most
    /// `HUNK_SIZE` bytes gave: the bytes read as one message, or the
    /// failure to hand to the client when the read failed.
    pub fn poll_next(&self, filled: Option<&[u8]>) -> (item: Result<Hunk, Error>)
        ensures
            match filled {
                Some(bytes) => item is Ok && item.unwrap()@ == bytes@,
                None => item == Err::<Hunk, Error>(Error::StreamClosed),
            },
    {
        match filled {
            Some(bytes) => Ok(Hunk { data: slice_to_vec(bytes) }),
            None => Err(Error::StreamClosed),
        }
    }
}

} // verus!
