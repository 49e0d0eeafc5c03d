//! The output-sink capability the pipeline writes to, and two concrete sinks
//! used to observe a run: one that counts bytes up to a cap and one that
//! records every chunk.
//!
//! A sink accepts whole buffers. Returning `true` from a write means "stop":
//! the consumer has disconnected (or, for the capped sinks here, the
//! requested volume has been reached), and the pipeline shuts down in an
//! orderly way rather than treating it as an error.

use vstd::prelude::*;
use vstd::slice::slice_to_vec;

verus! {

/// An output sink. `accepted` models the chunks the sink has acknowledged,
/// in order: a write either appends exactly its chunk (and the run goes on)
/// or acknowledges nothing and asks the pipeline to stop.
pub trait ByteSink: Sized {
    /// The chunks acknowledged so far, oldest first. Left unspecified for
    /// sinks outside this library.
    open spec fn accepted(&self) -> Seq<Seq<u8>> {
        vstd::pervasive::arbitrary()
    }

    /// Hands one chunk to the sink. Returns true when the run should stop;
    /// a stopping write acknowledges nothing.
    fn write_chunk(&mut self, chunk: &[u8]) -> (stop: bool)
        ensures
            !stop ==> final(self).accepted() == old(self).accepted().push(chunk@),
            stop ==> final(self).accepted() == old(self).accepted(),
    ;
}

/// The total number of bytes over a sequence of chunks.
pub open spec fn total_len(chunks: Seq<Seq<u8>>) -> nat
    decreases chunks.len(),
{
    if chunks.len() == 0 {
        0
    } else {
        total_len(chunks.drop_last()) + chunks.last().len()
    }
}

/// Law: when a run extends a sink's history only by whole chunks of `c`
/// bytes, the sink's byte total grows by exactly the number of new chunks
/// times `c` — bytes are neither lost nor counted twice. Together with a
/// drain loop's contract this ties the byte count a run reports to the byte
/// count the sink acknowledges.
pub proof fn lemma_uniform_chunks_total(pre: Seq<Seq<u8>>, post: Seq<Seq<u8>>, c: nat)
    requires
        pre.is_prefix_of(post),
        forall|i: int| pre.len() <= i < post.len() ==> #[trigger] post[i].len() == c,
    ensures
        total_len(post) == total_len(pre) + (post.len() - pre.len()) * c,
    decreases post.len() - pre.len(),
{
    if post.len() == pre.len() {
        assert(post =~= pre);
    } else {
        let shorter = post.drop_last();
        assert(pre.is_prefix_of(shorter)) by {
            assert(pre =~= shorter.subrange(0, pre.len() as int));
        }
        lemma_uniform_chunks_total(pre, shorter, c);
        assert(post.last().len() == c);
        vstd::arithmetic::mul::lemma_mul_is_distributive_add_other_way(
            c as int,
            (shorter.len() - pre.len()) as int,
            1,
        );
    }
}

/// A sink that counts the bytes it acknowledges and stops the run once a
/// requested total volume would be exceeded. The chunk contents are ghost:
/// nothing is stored.
pub struct CountingSink {
    received: u64,
    cap: u64,
    history: Ghost<Seq<Seq<u8>>>,
}

impl CountingSink {
    #[verifier::type_invariant]
    spec fn wf(self) -> bool {
        &&& self.received as nat == total_len(self.history@)
        &&& self.received <= self.cap
    }

    /// A sink that acknowledges at most `cap` bytes in total.
    pub fn new(cap: u64) -> (r: CountingSink)
        ensures
            r.accepted() == Seq::<Seq<u8>>::empty(),
            r.capacity() == cap,
    {
        CountingSink { received: 0, cap, history: Ghost(Seq::empty()) }
    }

    /// The requested total volume.
    pub closed spec fn capacity(&self) -> u64 {
        self.cap
    }

    /// The number of bytes acknowledged so far: the total length of the
    /// accepted chunks.
    pub fn bytes_received(&self) -> (r: u64)
        ensures
            r as nat == total_len(self.accepted()),
    {
        proof {
            use_type_invariant(self);
        }
        self.received
    }
}

impl ByteSink for CountingSink {
    closed spec fn accepted(&self) -> Seq<Seq<u8>> {
        self.history@
    }

    /// Acknowledges the chunk unless that would push the byte count past the
    /// cap; in that case stops without acknowledging.
    fn write_chunk(&mut self, chunk: &[u8]) -> (stop: bool)
        ensures
            stop == (total_len(old(self).accepted()) + chunk@.len() > old(self).capacity()),
    {
        proof {
            use_type_invariant(&*self);
        }
        let len: usize = chunk.len();
        if len as u64 <= self.cap - self.received {
            let new_received: u64 = self.received + len as u64;
            let ghost new_history: Seq<Seq<u8>> = self.history@.push(chunk@);
            proof {
                assert(new_history.drop_last() =~= self.history@);
            }
            *self = CountingSink {
                received: new_received,
                cap: self.cap,
                history: Ghost(new_history),
            };
            false
        } else {
            true
        }
    }
}

/// A sink that stores every chunk it acknowledges and stops the run after a
/// requested number of chunks.
pub struct RecordingSink {
    chunks: Vec<Vec<u8>>,
    max_chunks: usize,
}

impl RecordingSink {
    /// A sink that acknowledges at most `max_chunks` chunks.
    pub fn new(max_chunks: usize) -> (r: RecordingSink)
        ensures
            r.accepted() == Seq::<Seq<u8>>::empty(),
            r.chunk_limit() == max_chunks,
    {
        let r = RecordingSink { chunks: Vec::new(), max_chunks };
        proof {
            assert(r.accepted() =~= Seq::<Seq<u8>>::empty());
        }
        r
    }

    /// The requested number of chunks.
    pub closed spec fn chunk_limit(&self) -> usize {
        self.max_chunks
    }

    /// Hands back everything recorded, oldest chunk first.
    pub fn into_chunks(self) -> (r: Vec<Vec<u8>>)
        ensures
            r.deep_view() == self.accepted(),
    {
        self.chunks
    }
}

impl ByteSink for RecordingSink {
    closed spec fn accepted(&self) -> Seq<Seq<u8>> {
        self.chunks.deep_view()
    }

    /// Acknowledges and stores the chunk unless the chunk limit is already
    /// reached; in that case stops without acknowledging.
    fn write_chunk(&mut self, chunk: &[u8]) -> (stop: bool)
        ensures
            stop == (old(self).accepted().len() >= old(self).chunk_limit()),
    {
        if self.chunks.len() >= self.max_chunks {
            true
        } else {
            let owned: Vec<u8> = slice_to_vec(chunk);
            self.chunks.push(owned);
            proof {
                assert(final(self).accepted() =~~= old(self).accepted().push(chunk@));
            }
            false
        }
    }
}

} // verus!
