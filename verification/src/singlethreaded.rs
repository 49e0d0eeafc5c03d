//! The single-worker fast path: when parallelism is disallowed or pointless,
//! the pipeline degenerates to one source filling one buffer and writing it
//! straight to the sink — no channel, no pool, no extra thread.
//!
//! From the sink's point of view this path behaves exactly like the
//! multi-worker pipeline (chunk sizes, byte accounting, termination
//! triggers); only the internal concurrency differs.

use vstd::prelude::*;

use crate::algorithm::Algorithm;
use crate::buffer::Buffer;
use crate::pipeline::RunStats;
use crate::pipeline::drained_ok;
use crate::platform::ShutdownSignal;
use crate::sink::ByteSink;
use crate::source::ByteSource;

verus! {

/// Runs the fast path with the given algorithm, seeded from OS entropy
/// unless an explicit seed is given. A seed with the OS source must already
/// have been dropped by planning.
pub fn run<const N: usize, S: ByteSink, Z: ShutdownSignal>(
    algorithm: Algorithm,
    seed: Option<u64>,
    sink: &mut S,
    signal: &mut Z,
) -> (stats: RunStats)
    requires
        N >= 1,
        algorithm is Os ==> seed is None,
    ensures
        drained_ok(*old(sink), *final(sink), N as nat, stats, old(signal).is_set()),
        stats.workers_spawned == 0,
{
    if algorithm.is_parallelizable() {
        run_userspace::<N, S, Z>(algorithm, seed, sink, signal)
    } else {
        run_os::<N, S, Z>(sink, signal)
    }
}

/// Runs the fast path with a user-space generator: deterministically seeded
/// when a seed is given (identical runs produce identical bytes), else
/// entropy-seeded.
pub fn run_userspace<const N: usize, S: ByteSink, Z: ShutdownSignal>(
    algorithm: Algorithm,
    seed: Option<u64>,
    sink: &mut S,
    signal: &mut Z,
) -> (stats: RunStats)
    requires
        N >= 1,
        !(algorithm is Os),
    ensures
        drained_ok(*old(sink), *final(sink), N as nat, stats, old(signal).is_set()),
        stats.workers_spawned == 0,
{
    let source = match seed {
        None => ByteSource::from_entropy(algorithm),
        Some(seed) => ByteSource::from_seed(algorithm, seed),
    };
    generate_to_sink::<N, S, Z>(source, sink, signal)
}

/// Runs the fast path on the OS entropy source.
fn run_os<const N: usize, S: ByteSink, Z: ShutdownSignal>(sink: &mut S, signal: &mut Z) -> (stats:
    RunStats)
    requires
        N >= 1,
    ensures
        drained_ok(*old(sink), *final(sink), N as nat, stats, old(signal).is_set()),
        stats.workers_spawned == 0,
{
    generate_to_sink::<N, S, Z>(ByteSource::from_entropy(Algorithm::Os), sink, signal)
}

/// The fast-path loop: fills one buffer of `N` bytes over and over and hands
/// it to the sink, until the sink asks to stop, the shutdown signal reports
/// true (polled once per chunk, never mid-chunk), or the byte counter can
/// take no more.
fn generate_to_sink<const N: usize, S: ByteSink, Z: ShutdownSignal>(
    source: ByteSource,
    sink: &mut S,
    signal: &mut Z,
) -> (stats: RunStats)
    requires
        N >= 1,
    ensures
        drained_ok(*old(sink), *final(sink), N as nat, stats, old(signal).is_set()),
        stats.workers_spawned == 0,
{
    let mut source = source;
    let mut data: Vec<u8> = Buffer::<N>::new().into_data();
    let mut bytes: u64 = 0;
    loop
        invariant_except_break
            sink.accepted().len() > old(sink).accepted().len() ==> !signal.is_set(),
        invariant
            N >= 1,
            data@.len() == N,
            old(sink).accepted().is_prefix_of(sink.accepted()),
            forall|i: int|
                old(sink).accepted().len() <= i < sink.accepted().len()
                    ==> #[trigger] sink.accepted()[i].len() == N,
            bytes as nat == (sink.accepted().len() - old(sink).accepted().len()) * N,
            old(signal).is_set() ==> signal.is_set(),
        ensures
            old(signal).is_set() ==> sink.accepted().len() <= old(sink).accepted().len() + 1,
        decreases u64::MAX - bytes,
    {
        if bytes > u64::MAX - (N as u64) {
            break;
        }
        source.fill(&mut data);
        let ghost accepted_before = sink.accepted();
        let stop = sink.write_chunk(data.as_slice());
        if stop {
            break;
        }
        proof {
            assert(accepted_before.is_prefix_of(sink.accepted())) by {
                assert(accepted_before =~= sink.accepted().take(accepted_before.len() as int));
            }
            vstd::arithmetic::mul::lemma_mul_is_distributive_add_other_way(
                N as int,
                (sink.accepted().len() - old(sink).accepted().len() - 1) as int,
                1,
            );
        }
        bytes = bytes + (N as u64);
        if signal.poll() {
            break;
        }
    }
    RunStats { bytes_written: bytes, workers_spawned: 0 }
}

} // verus!
