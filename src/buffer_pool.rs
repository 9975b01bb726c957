//! A pool of reusable read buffers, and the leases that hand them out.
use crate::buffers::{
    bytes_contents, bytes_mut_as_slice, bytes_mut_clear, bytes_mut_cleared, bytes_mut_contents, bytes_mut_extend,
    bytes_mut_freeze, bytes_mut_len, bytes_mut_with_capacity, bytes_try_into_mut,
};
use bytes::{Bytes, BytesMut};
use std::collections::VecDeque;
use vstd::prelude::*;

verus! {

/// A buffer taken from a [`BufferPool`], owned by one reader at a time until it
/// is released back to the pool or frozen into shared [`Bytes`].
pub struct LeasedBytesMut {
    buffer: BytesMut,
}

impl View for LeasedBytesMut {
    type V = Seq<u8>;

    closed spec fn view(&self) -> Seq<u8> {
        bytes_mut_contents(self.buffer)
    }
}

impl LeasedBytesMut {
    /// The buffer that the lease holds.
    pub closed spec fn spec_buffer(&self) -> BytesMut {
        self.buffer
    }

    /// The buffer itself, for a reader to fill.
    pub fn bytes_mut(&mut self) -> (r: &mut BytesMut)
        ensures
            *r == old(self).spec_buffer(),
            final(self).spec_buffer() == *final(r),
    {
        &mut self.buffer
    }

    /// Appends `data` to the bytes held by the lease.
    pub fn extend_from_slice(&mut self, data: &[u8])
        ensures
            final(self)@ == old(self)@ + data@,
    {
        bytes_mut_extend(&mut self.buffer, data);
    }

    /// The number of bytes held by the lease.
    pub fn len(&self) -> (r: usize)
        ensures
            r == self@.len(),
    {
        bytes_mut_len(&self.buffer)
    }

    /// The bytes held by the lease.
    pub fn as_ref(&self) -> (r: &[u8])
        ensures
            r@ == self@,
    {
        bytes_mut_as_slice(&self.buffer)
    }

    /// Turns the lease into shared, read-only bytes over the same storage.
    /// The storage goes back to a pool only through
    /// [`BufferPool::release_bytes`], once no other handle refers to it.
    pub fn into_bytes(self) -> (r: Bytes)
        ensures
            bytes_contents(r) == self@,
    {
        bytes_mut_freeze(self.buffer)
    }
}

/// A pool of idle buffers of a fixed size, with no bound on how many it holds.
pub struct BufferPool {
    buffers: VecDeque<BytesMut>,
    buffer_size: usize,
    /// How many buffers the pool has allocated so far.
    allocated: Ghost<nat>,
    /// How many leases are out (or frozen and not yet given back).
    outstanding: Ghost<nat>,
    /// The largest value that `outstanding` has reached.
    peak: Ghost<nat>,
}

/// One less, but never below zero.
pub open spec fn one_less(n: nat) -> nat {
    if n > 0 {
        (n - 1) as nat
    } else {
        0
    }
}

impl BufferPool {
    pub closed spec fn spec_buffer_size(&self) -> usize {
        self.buffer_size
    }

    /// The idle buffers, oldest first.
    pub closed spec fn spec_idle_buffers(&self) -> Seq<BytesMut> {
        self.buffers@
    }

    /// The number of idle buffers waiting for reuse.
    pub open spec fn idle(&self) -> nat {
        self.spec_idle_buffers().len()
    }

    /// The number of buffers that the pool has allocated in its life.
    pub closed spec fn allocations(&self) -> nat {
        self.allocated@
    }

    /// The number of leases handed out and not given back.
    pub closed spec fn outstanding(&self) -> nat {
        self.outstanding@
    }

    /// The largest number of leases that were ever out at once.
    pub closed spec fn peak_outstanding(&self) -> nat {
        self.peak@
    }

    pub closed spec fn wf(&self) -> bool {
        &&& forall|i: int|
            0 <= i < self.buffers@.len() ==> bytes_mut_contents(#[trigger] self.buffers@[i])
                == Seq::<u8>::empty()
        &&& self.allocated@ <= self.buffers@.len() + self.outstanding@
        &&& self.outstanding@ <= self.peak@
        &&& self.allocated@ <= self.peak@
    }

    /// Creates an empty pool whose buffers are allocated with `buffer_size` bytes
    /// of capacity.
    pub fn new(buffer_size: usize) -> (r: Self)
        ensures
            r.wf(),
            r.spec_buffer_size() == buffer_size,
            r.spec_idle_buffers() == Seq::<BytesMut>::empty(),
            r.allocations() == 0,
            r.outstanding() == 0,
            r.peak_outstanding() == 0,
    {
        BufferPool {
            buffers: VecDeque::new(),
            buffer_size,
            allocated: Ghost(0),
            outstanding: Ghost(0),
            peak: Ghost(0),
        }
    }

    /// The capacity that each fresh buffer is allocated with.
    pub fn buffer_size(&self) -> (r: usize)
        ensures
            r == self.spec_buffer_size(),
    {
        self.buffer_size
    }

    /// The number of idle buffers waiting for reuse.
    pub fn idle_count(&self) -> (r: usize)
        ensures
            r == self.idle(),
    {
        self.buffers.len()
    }

    /// Leases an empty buffer: the oldest idle one if there is one, else a fresh
    /// allocation of `buffer_size` bytes of capacity.
    pub fn get_buffer(&mut self) -> (r: LeasedBytesMut)
        requires
            old(self).wf(),
        ensures
            final(self).wf(),
            r@ == Seq::<u8>::empty(),
            final(self).spec_buffer_size() == old(self).spec_buffer_size(),
            final(self).outstanding() == old(self).outstanding() + 1,
            final(self).peak_outstanding() == if old(self).outstanding() + 1
                > old(self).peak_outstanding() {
                old(self).outstanding() + 1
            } else {
                old(self).peak_outstanding()
            },
            old(self).idle() > 0 ==> {
                &&& r.spec_buffer() == old(self).spec_idle_buffers()[0]
                &&& final(self).spec_idle_buffers() == old(self).spec_idle_buffers().drop_first()
                &&& final(self).allocations() == old(self).allocations()
            },
            old(self).idle() == 0 ==> {
                &&& final(self).spec_idle_buffers() == old(self).spec_idle_buffers()
                &&& final(self).allocations() == old(self).allocations() + 1
            },
    {
        let buffer = match self.buffers.pop_front() {
            Some(buffer) => buffer,
            None => {
                self.allocated = Ghost(self.allocated@ + 1);
                bytes_mut_with_capacity(self.buffer_size)
            },
        };
        self.outstanding = Ghost(self.outstanding@ + 1);
        self.peak = Ghost(
            if self.outstanding@ > self.peak@ {
                self.outstanding@
            } else {
                self.peak@
            },
        );
        LeasedBytesMut { buffer }
    }

    /// Clears a buffer and puts it at the back of the idle queue.
    fn return_buffer(&mut self, buffer: BytesMut)
        requires
            old(self).wf(),
        ensures
            final(self).buffers@ == old(self).buffers@.push(bytes_mut_cleared(buffer)),
            final(self).buffer_size == old(self).buffer_size,
            final(self).allocated == old(self).allocated,
            final(self).outstanding == old(self).outstanding,
            final(self).peak == old(self).peak,
            final(self).wf(),
    {
        let mut buffer = buffer;
        bytes_mut_clear(&mut buffer);
        self.buffers.push_back(buffer);
        assert forall|i: int| 0 <= i < self.buffers@.len() implies bytes_mut_contents(
            #[trigger] self.buffers@[i],
        ) == Seq::<u8>::empty() by {
            if i < old(self).buffers@.len() {
                assert(self.buffers@[i] == old(self).buffers@[i]);
            }
        }
    }

    /// Gives a lease back: its buffer is cleared and kept for reuse.
    pub fn release(&mut self, lease: LeasedBytesMut)
        requires
            old(self).wf(),
        ensures
            final(self).wf(),
            final(self).spec_buffer_size() == old(self).spec_buffer_size(),
            final(self).spec_idle_buffers() == old(self).spec_idle_buffers().push(
                bytes_mut_cleared(lease.spec_buffer()),
            ),
            final(self).allocations() == old(self).allocations(),
            final(self).outstanding() == one_less(old(self).outstanding()),
            final(self).peak_outstanding() == old(self).peak_outstanding(),
    {
        self.return_buffer(lease.buffer);
        self.outstanding = Ghost(one_less(self.outstanding@));
    }

    /// Takes in what came of turning frozen bytes back into a buffer: storage
    /// that came back is cleared and queued for reuse, and `None` is returned;
    /// bytes that are still shared are handed back and the pool is left as it
    /// was.
    pub fn take_back(&mut self, outcome: Result<BytesMut, Bytes>) -> (r: Option<Bytes>)
        requires
            old(self).wf(),
        ensures
            final(self).wf(),
            (r is None) == (outcome is Ok),
            match outcome {
                Ok(m) => {
                    &&& final(self).spec_idle_buffers() == old(self).spec_idle_buffers().push(
                        bytes_mut_cleared(m),
                    )
                    &&& final(self).outstanding() == one_less(old(self).outstanding())
                    &&& final(self).spec_buffer_size() == old(self).spec_buffer_size()
                    &&& final(self).allocations() == old(self).allocations()
                    &&& final(self).peak_outstanding() == old(self).peak_outstanding()
                },
                Err(b) => r == Some(b) && *final(self) == *old(self),
            },
    {
        match outcome {
            Ok(buffer) => {
                self.return_buffer(buffer);
                self.outstanding = Ghost(one_less(self.outstanding@));
                None
            },
            Err(bytes) => Some(bytes),
        }
    }

    /// Gives frozen bytes back. When this is the last handle on the storage, the
    /// storage returns to the pool and `None` comes back; while other handles
    /// remain, the pool is left as it was and the bytes are handed back, so
    /// that the return waits for the last of them. Which of the two happens
    /// is decided by `Bytes::try_into_mut`; [`BufferPool::take_back`] does the
    /// rest.
    pub fn release_bytes(&mut self, bytes: Bytes) -> (r: Option<Bytes>)
        requires
            old(self).wf(),
        ensures
            final(self).wf(),
            final(self).spec_buffer_size() == old(self).spec_buffer_size(),
            final(self).allocations() == old(self).allocations(),
            final(self).peak_outstanding() == old(self).peak_outstanding(),
            match r {
                None => {
                    &&& final(self).spec_idle_buffers().drop_last() == old(self).spec_idle_buffers()
                    &&& final(self).idle() == old(self).idle() + 1
                    &&& final(self).outstanding() == one_less(old(self).outstanding())
                },
                Some(b) => bytes_contents(b) == bytes_contents(bytes) && *final(self) == *old(
                    self,
                ),
            },
    {
        let outcome = bytes_try_into_mut(bytes);
        self.take_back(outcome)
    }
}

/// Creates a pool with no limit on the number of buffers it hands out.
pub fn new_unbounded_buffer_pool(buffer_size: usize) -> (r: BufferPool)
    ensures
        r.wf(),
        r.spec_buffer_size() == buffer_size,
        r.spec_idle_buffers() == Seq::<BytesMut>::empty(),
        r.allocations() == 0,
        r.outstanding() == 0,
        r.peak_outstanding() == 0,
{
    BufferPool::new(buffer_size)
}

/// However leases are taken and given back, a pool has never allocated more
/// buffers than the largest number of leases that were out at once.
pub proof fn lemma_allocations_within_peak(pool: &BufferPool)
    requires
        pool.wf(),
    ensures
        pool.allocations() <= pool.peak_outstanding(),
{
}

} // verus!
