//! Run statistics and the contract every drain loop meets, shared by the
//! single-worker fast path and the multi-worker pipeline.

use vstd::prelude::*;

use crate::sink::ByteSink;

verus! {

/// What a finished run reports: how many bytes the sink acknowledged and how
/// many generator workers were spawned.
#[derive(Debug, Clone, Copy, PartialEq, Eq, Structural)]
pub struct RunStats {
    /// The total bytes acknowledged by the sink during this run.
    pub bytes_written: u64,
    /// The number of worker threads that were spawned (0 on the fast path).
    pub workers_spawned: usize,
}

/// What every drain loop guarantees, whatever ended the run.
///
/// The sink's history only grows, and it grows only by whole chunks of
/// exactly `chunk` bytes: no partial and no oversized writes. The byte count
/// reported is exactly the volume of the newly acknowledged chunks: nothing
/// is lost and nothing is counted twice. And when shutdown had already been
/// requested when the run began, at most one further chunk (the one already
/// in flight) reaches the sink.
pub open spec fn drained_ok<S: ByteSink>(
    pre: S,
    post: S,
    chunk: nat,
    stats: RunStats,
    pre_signal_set: bool,
) -> bool {
    &&& pre.accepted().is_prefix_of(post.accepted())
    &&& forall|i: int|
        pre.accepted().len() <= i < post.accepted().len() ==> #[trigger] post.accepted()[i].len()
            == chunk
    &&& stats.bytes_written as nat == (post.accepted().len() - pre.accepted().len()) * chunk
    &&& pre_signal_set ==> post.accepted().len() <= pre.accepted().len() + 1
}

} // verus!
