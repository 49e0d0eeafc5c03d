//! The buffer pool: a capacity-bounded free list of idle buffers, carried by
//! a bounded channel so that workers and the drain loop can share it.
//!
//! The pool is not indexed and tracks no identity: obtaining a buffer takes
//! whichever idle buffer is available, or allocates a fresh one when none is.
//! Returning a buffer is best effort: when the free list is full the buffer
//! is simply dropped, which is never an error and only affects how many
//! allocations later obtains make.

use vstd::prelude::*;

use crate::buffer::Buffer;

verus! {

/// A handle on the shared free list of idle buffers. Every handle counts the
/// allocations it made itself, so a caller can observe how often recycling
/// missed.
#[verifier::reject_recursive_types(N)]
pub struct BufferPool<const N: usize> {
    return_tx: crossbeam_channel::Sender<Buffer<N>>,
    return_rx: crossbeam_channel::Receiver<Buffer<N>>,
    alloc_count: u64,
}

impl<const N: usize> BufferPool<N> {
    /// The number of fresh buffer allocations this handle has made (saturating
    /// at the largest 64-bit count).
    pub closed spec fn allocations(&self) -> u64 {
        self.alloc_count
    }

    /// A pool whose free list holds at most `cap` idle buffers.
    pub fn new(cap: usize) -> (r: BufferPool<N>)
        requires
            1 <= cap < usize::MAX / 4,
        ensures
            r.allocations() == 0,
    {
        let (tx, rx) = crossbeam_channel::bounded::<Buffer<N>>(cap);
        BufferPool { return_tx: tx, return_rx: rx, alloc_count: 0 }
    }

    /// Another handle on the same free list, with its own allocation count.
    pub fn clone_handle(&self) -> (r: BufferPool<N>)
        ensures
            r.allocations() == 0,
    {
        BufferPool {
            return_tx: self.return_tx.clone(),
            return_rx: self.return_rx.clone(),
            alloc_count: 0,
        }
    }

    /// The number of fresh buffer allocations this handle has made: how often
    /// an obtain found nothing to recycle.
    pub fn allocation_count(&self) -> (r: u64)
        ensures
            r == self.allocations(),
    {
        self.alloc_count
    }

    /// A buffer to fill: an idle one from the free list when available, else
    /// a freshly allocated one. At most one allocation happens per call, and
    /// only when the free list had nothing to recycle.
    pub fn obtain(&mut self) -> (r: Buffer<N>)
        ensures
            r.contents().len() == N,
            old(self).allocations() <= final(self).allocations(),
            final(self).allocations() <= old(self).allocations() + 1,
    {
        match self.return_rx.try_recv() {
            Ok(buf) => {
                proof {
                    use_type_invariant(&buf);
                }
                buf
            },
            Err(_) => {
                if self.alloc_count < u64::MAX {
                    self.alloc_count = self.alloc_count + 1;
                }
                Buffer::new()
            },
        }
    }

    /// Returns a consumed buffer to the free list, best effort: when the free
    /// list is full, the buffer is dropped for reclamation instead.
    pub fn release(&self, buf: Buffer<N>) {
        let _ = self.return_tx.try_send(buf);
    }
}

} // verus!
