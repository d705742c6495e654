//! A bounded pool of byte buffers that are used again.
use bytes::BytesMut;
use crossbeam_queue::SegQueue;
use vstd::prelude::*;

use crate::buf::bytes_mut_seq;

verus! {

/// The unbounded first-in first-out queue of `crossbeam-queue`.
#[verifier::external_type_specification]
#[verifier::external_body]
#[verifier::reject_recursive_types(T)]
pub struct ExSegQueue<T>(SegQueue<T>);

/// What the buffers in a queue hold, in the order in which they leave it.
pub uninterp spec fn buffer_queue_seq(q: SegQueue<BytesMut>) -> Seq<Seq<u8>>;

/// `SegQueue::new`: an empty queue.
#[verifier::external_body]
fn queue_new() -> (q: SegQueue<BytesMut>)
    ensures
        buffer_queue_seq(q) == Seq::<Seq<u8>>::empty(),
{
    SegQueue::new()
}

/// `SegQueue::push`: appends to the tail.
#[verifier::external_body]
fn queue_push(q: &mut SegQueue<BytesMut>, b: BytesMut)
    ensures
        buffer_queue_seq(*final(q)) == buffer_queue_seq(*old(q)).push(bytes_mut_seq(b)),
{
    q.push(b)
}

/// `SegQueue::pop`: takes the head, if there is one.
#[verifier::external_body]
fn queue_pop(q: &mut SegQueue<BytesMut>) -> (b: Option<BytesMut>)
    ensures
        match b {
            Some(b) => buffer_queue_seq(*old(q)).len() > 0 && bytes_mut_seq(b) == buffer_queue_seq(
                *old(q),
            )[0] && buffer_queue_seq(*final(q)) == buffer_queue_seq(*old(q)).drop_first(),
            None => buffer_queue_seq(*old(q)).len() == 0 && buffer_queue_seq(*final(q))
                == buffer_queue_seq(*old(q)),
        },
{
    q.pop()
}

/// `SegQueue::len`: the number of elements.
#[verifier::external_body]
fn queue_len(q: &SegQueue<BytesMut>) -> (n: usize)
    ensures
        n == buffer_queue_seq(*q).len(),
{
    q.len()
}

/// A pool of at most `max_pool_size` idle buffers.
pub struct BufferPool {
    pool: SegQueue<BytesMut>,
    max_pool_size: usize,
    default_buffer_size: usize,
}

impl BufferPool {
    /// What the idle buffers still hold, the one to be used next first.
    pub closed spec fn idle(&self) -> Seq<Seq<u8>> {
        buffer_queue_seq(self.pool)
    }

    /// How many buffers may be idle.
    pub closed spec fn limit(&self) -> nat {
        self.max_pool_size as nat
    }

    /// The smallest capacity that a buffer is handed out with.
    pub closed spec fn default_size(&self) -> nat {
        self.default_buffer_size as nat
    }

    /// Never more idle buffers than the limit.
    pub open spec fn wf(&self) -> bool {
        self.idle().len() <= self.limit()
    }

    /// The idle buffers once one was handed out and came back empty.
    pub open spec fn idle_after_loan(&self) -> Seq<Seq<u8>> {
        let left = if self.idle().len() > 0 {
            self.idle().drop_first()
        } else {
            self.idle()
        };
        if left.len() < self.limit() {
            left.push(Seq::empty())
        } else {
            left
        }
    }

    /// A pool without idle buffers.
    pub fn new(max_pool_size: usize, default_buffer_size: usize) -> (r: BufferPool)
        ensures
            r.wf(),
            r.idle() == Seq::<Seq<u8>>::empty(),
            r.limit() == max_pool_size,
            r.default_size() == default_buffer_size,
    {
        BufferPool { pool: queue_new(), max_pool_size, default_buffer_size }
    }

    /// The number of idle buffers.
    pub fn len(&self) -> (n: usize)
        ensures
            n == self.idle().len(),
    {
        queue_len(&self.pool)
    }

    /// Hands out an empty buffer with room for `capacity` bytes, and for the
    /// default size: an idle one if there is any. How much room a buffer has is
    /// the allocator's to say, so no clause speaks of it.
    pub fn get(&mut self, capacity: usize) -> (b: BytesMut)
        requires
            old(self).wf(),
            capacity <= isize::MAX,
            old(self).default_size() <= isize::MAX,
        ensures
            final(self).wf(),
            bytes_mut_seq(b) == Seq::<u8>::empty(),
            final(self).idle() == if old(self).idle().len() > 0 {
                old(self).idle().drop_first()
            } else {
                old(self).idle()
            },
            final(self).limit() == old(self).limit(),
            final(self).default_size() == old(self).default_size(),
    {
        let required: usize = if capacity < self.default_buffer_size {
            self.default_buffer_size
        } else {
            capacity
        };
        let mut buffer = match queue_pop(&mut self.pool) {
            Some(b) => b,
            None => BytesMut::with_capacity(required),
        };
        buffer.clear();
        if buffer.capacity() < required {
            buffer.reserve(required);
        }
        buffer
    }

    /// Takes a buffer back, unless enough are idle already.
    pub fn release(&mut self, buffer: BytesMut)
        requires
            old(self).wf(),
        ensures
            final(self).wf(),
            final(self).idle() == if old(self).idle().len() < old(self).limit() {
                old(self).idle().push(bytes_mut_seq(buffer))
            } else {
                old(self).idle()
            },
            final(self).limit() == old(self).limit(),
            final(self).default_size() == old(self).default_size(),
    {
        if queue_len(&self.pool) < self.max_pool_size {
            queue_push(&mut self.pool, buffer);
        }
    }
}

/// A buffer that is handed out is empty, and there is one idle buffer less, where there was
/// one; the others keep their order.
pub proof fn law_buffer_is_handed_out_empty(pool: &mut BufferPool, capacity: usize, b: BytesMut)
    requires
        old(pool).wf(),
        capacity <= isize::MAX,
        old(pool).default_size() <= isize::MAX,
        call_ensures(BufferPool::get, (pool, capacity), b),
    ensures
        bytes_mut_seq(b).len() == 0,
        old(pool).idle().len() > 0 ==> final(pool).idle().len() == old(pool).idle().len() - 1,
        old(pool).idle().len() == 0 ==> final(pool).idle().len() == 0,
        forall|i: int|
            0 <= i < final(pool).idle().len() ==> final(pool).idle()[i] == old(pool).idle()[i + 1],
        final(pool).limit() == old(pool).limit(),
{
}

/// A buffer that is given back is kept behind the others, unless as many are idle as may
/// be: then it is dropped.
pub proof fn law_buffer_is_taken_back(pool: &mut BufferPool, buffer: BytesMut)
    requires
        old(pool).wf(),
        call_ensures(BufferPool::release, (pool, buffer), ()),
    ensures
        old(pool).idle().len() == old(pool).limit() ==> final(pool).idle() == old(pool).idle(),
        old(pool).idle().len() < old(pool).limit() ==> {
            &&& final(pool).idle().len() == old(pool).idle().len() + 1
            &&& final(pool).idle().last() == bytes_mut_seq(buffer)
            &&& final(pool).idle().drop_last() == old(pool).idle()
        },
        final(pool).limit() == old(pool).limit(),
{
    if old(pool).idle().len() < old(pool).limit() {
        assert(final(pool).idle().drop_last() =~= old(pool).idle());
    }
}

/// A new pool has no idle buffer, and as much place for them as it was told.
pub proof fn law_new_pool_is_empty(limit: usize, size: usize, pool: BufferPool, n: usize)
    requires
        call_ensures(BufferPool::new, (limit, size), pool),
        call_ensures(BufferPool::len, (&pool,), n),
    ensures
        n == 0,
        pool.limit() == limit,
        pool.default_size() == size,
{
}

/// The length of a pool is the number of its idle buffers.
pub proof fn law_length_counts_the_idle(pool: &BufferPool, n: usize)
    requires
        call_ensures(BufferPool::len, (pool,), n),
    ensures
        n == pool.idle().len(),
{
}

} // verus!
