//! A stream whose first bytes have already been read.
use bytes::Bytes;
use vstd::prelude::*;

use crate::buf::{as_slice, bytes_seq};

verus! {

/// A stream together with bytes that were read from it ahead of time and are to
/// be read first, so that none is lost when message framing ends.
pub struct BufferedStream<S> {
    stream: S,
    buffer: Bytes,
    buffer_pos: usize,
}

impl<S> BufferedStream<S> {
    /// The bytes to be read before the stream's own.
    pub closed spec fn buffered(&self) -> Seq<u8> {
        bytes_seq(self.buffer).skip(self.buffer_pos as int)
    }

    /// The stream itself.
    pub closed spec fn inner(&self) -> S {
        self.stream
    }

    /// The position lies inside the buffer.
    pub closed spec fn wf(&self) -> bool {
        self.buffer_pos <= bytes_seq(self.buffer).len()
    }

    /// A stream whose bytes come after those of `buffer`.
    pub fn new(stream: S, buffer: Bytes) -> (r: BufferedStream<S>)
        ensures
            r.wf(),
            r.inner() == stream,
            r.buffered() == bytes_seq(buffer),
    {
        let r = BufferedStream { stream, buffer, buffer_pos: 0 };
        assert(r.buffered() =~= bytes_seq(buffer));
        r
    }

    /// A stream with nothing before it.
    pub fn without_buffer(stream: S) -> (r: BufferedStream<S>)
        ensures
            r.wf(),
            r.inner() == stream,
            r.buffered() == Seq::<u8>::empty(),
    {
        BufferedStream::new(stream, Bytes::new())
    }

    /// The stream itself, to be read once nothing is buffered, and to be written.
    pub fn stream_mut(&mut self) -> (r: &mut S)
        requires
            old(self).wf(),
        ensures
            *r == old(self).inner(),
            final(self).inner() == *final(r),
            final(self).wf(),
            final(self).buffered() == old(self).buffered(),
    {
        &mut self.stream
    }

    /// Reads buffered bytes into the front of `out`. Gives their number, or
    /// `None` where there are none and the stream itself is to be read.
    pub fn poll_read(&mut self, out: &mut [u8]) -> (r: Option<usize>)
        requires
            old(self).wf(),
        ensures
            final(self).wf(),
            final(self).inner() == old(self).inner(),
            final(out)@.len() == old(out)@.len(),
            old(self).buffered().len() == 0 ==> {
                &&& r is None
                &&& final(out)@ == old(out)@
                &&& final(self).buffered() == old(self).buffered()
            },
            old(self).buffered().len() > 0 ==> {
                &&& r matches Some(n) && n == if old(self).buffered().len() < old(out)@.len() {
                    old(self).buffered().len() as int
                } else {
                    old(out)@.len() as int
                }
                &&& final(out)@ == old(self).buffered().take(r->0 as int) + old(out)@.skip(
                    r->0 as int,
                )
                &&& final(self).buffered() == old(self).buffered().skip(r->0 as int)
            },
            r matches Some(n) ==> old(self).buffered() == final(out)@.take(n as int) + final(
                self).buffered(),
    {
        let ghost buffered = self.buffered();
        let len: usize = self.buffer.len();
        if self.buffer_pos >= len {
            return None;
        }
        let remaining: usize = len - self.buffer_pos;
        let n: usize = if remaining < out.len() {
            remaining
        } else {
            out.len()
        };
        let data = as_slice(&self.buffer);
        let mut i: usize = 0;
        while i < n
            invariant
                i <= n,
                n <= out@.len(),
                out@.len() == old(out)@.len(),
                self.buffer_pos + n <= len == data@.len(),
                data@ == bytes_seq(self.buffer),
                buffered == data@.skip(self.buffer_pos as int),
                self.stream == old(self).stream,
                forall|j: int| 0 <= j < i ==> out@[j] == buffered[j],
                forall|j: int| i <= j < out@.len() ==> out@[j] == old(out)@[j],
            decreases n - i,
        {
            out[i] = data[self.buffer_pos + i];
            i += 1;
        }
        assert(out@ =~= buffered.take(n as int) + old(out)@.skip(n as int));
        let pos: usize = self.buffer_pos + n;
        if pos >= len {
            self.buffer = Bytes::new();
            self.buffer_pos = 0;
        } else {
            self.buffer_pos = pos;
        }
        assert(self.buffered() =~= buffered.skip(n as int));
        assert(buffered =~= out@.take(n as int) + self.buffered());
        Some(n)
    }
}

/// Reads of a stream one after the other, each of which hands out the first of the
/// bytes that are buffered: `streams` is the stream before each read, and at last.
pub open spec fn is_read_run<S>(streams: Seq<BufferedStream<S>>, reads: Seq<Seq<u8>>) -> bool {
    &&& streams.len() == reads.len() + 1
    &&& forall|i: int|
        0 <= i < reads.len() ==> streams[i].buffered() == #[trigger] reads[i] + streams[i
            + 1].buffered()
}

/// What the first `n` reads hand out, one after the other.
pub open spec fn read_so_far(reads: Seq<Seq<u8>>, n: nat) -> Seq<u8>
    decreases n,
{
    if n == 0 {
        Seq::empty()
    } else {
        read_so_far(reads, (n - 1) as nat) + reads[n - 1]
    }
}

/// However many reads there are and of whatever size, they hand out what was
/// buffered: no byte is lost, repeated or reordered.
pub proof fn law_reads_are_contiguous<S>(
    streams: Seq<BufferedStream<S>>,
    reads: Seq<Seq<u8>>,
    n: nat,
)
    requires
        is_read_run(streams, reads),
        n <= reads.len(),
    ensures
        streams[0].buffered() == read_so_far(reads, n) + streams[n as int].buffered(),
    decreases n,
{
    if n > 0 {
        law_reads_are_contiguous(streams, reads, (n - 1) as nat);
        assert(streams[n - 1].buffered() == reads[n - 1] + streams[n as int].buffered());
    }
    assert(streams[0].buffered() =~= read_so_far(reads, n) + streams[n as int].buffered());
}

/// A read gives a byte where one is buffered and one fits, as many as fit, in order, and
/// leaves the rest; only where nothing is buffered is the stream itself to be read.
pub proof fn law_buffered_bytes_are_read_first<S>(
    stream: &mut BufferedStream<S>,
    out: &mut [u8],
    r: Option<usize>,
    i: int,
)
    requires
        old(stream).wf(),
        call_ensures(BufferedStream::<S>::poll_read, (stream, out), r),
    ensures
        r is None <==> old(stream).buffered().len() == 0,
        r matches Some(n) ==> {
            &&& n <= old(out)@.len()
            &&& n <= old(stream).buffered().len()
            &&& n == old(out)@.len() || n == old(stream).buffered().len()
            &&& 0 <= i < n ==> final(out)@[i] == old(stream).buffered()[i]
            &&& n <= i < old(out)@.len() ==> final(out)@[i] == old(out)@[i]
            &&& final(stream).buffered().len() == old(stream).buffered().len() - n
            &&& 0 <= i < final(stream).buffered().len() ==> final(stream).buffered()[i] == old(
                stream).buffered()[n + i]
        },
        final(stream).inner() == old(stream).inner(),
{
}

/// A stream that is put behind bytes gives those bytes first, and one without any gives
/// none.
pub proof fn law_bytes_are_put_in_front<S>(
    stream: S,
    buffer: Bytes,
    r: BufferedStream<S>,
    bare: BufferedStream<S>,
)
    requires
        call_ensures(BufferedStream::<S>::new, (stream, buffer), r),
        call_ensures(BufferedStream::<S>::without_buffer, (stream,), bare),
    ensures
        r.buffered() == bytes_seq(buffer),
        bare.buffered().len() == 0,
        r.inner() == stream,
        bare.inner() == stream,
{
}

} // verus!
