//! The self-scaling multi-worker pipeline.
//!
//! The drain loop runs on the invoking thread. On each turn it takes an
//! already-filled buffer from the bounded channel if one is ready; otherwise
//! it grows the worker pool by one (never past the configured maximum) and
//! blocks for the next filled buffer. Each worker runs an independent
//! entropy-seeded source and blocks when the channel is full: the channel's
//! capacity bound is the backpressure that throttles generation to match the
//! sink. Workers are never torn down individually; when the drain loop drops
//! the receiving end at shutdown, every worker's next send fails and its loop
//! exits, and the drain loop then waits for them all, leaving no dangling
//! worker.
//!
//! The loop a worker runs, [`worker_loop`], is part of this library and
//! verified. Starting it on a new thread is plumbing this library cannot do
//! itself; a [`WorkerHost`] supplies that.

use vstd::prelude::*;

use crate::algorithm::Algorithm;
use crate::buffer::Buffer;
use crate::pipeline::RunStats;
use crate::pipeline::drained_ok;
use crate::platform::ShutdownSignal;
use crate::pool::BufferPool;
use crate::sink::ByteSink;
use crate::source::ByteSource;

verus! {

/// The capability to run worker loops in parallel with the drain loop.
///
/// `spawn_worker` must start `worker_loop(sender, pool, source)` on its own
/// thread, with an entropy-seeded source of the given algorithm, and return
/// at once; `join_all` must wait until every worker started so far has
/// finished. The drain loop itself bounds how often `spawn_worker` is called
/// and hands every worker its channel ends; the host only moves them onto a
/// thread.
pub trait WorkerHost<const N: usize>: Sized {
    /// Starts one generation worker.
    fn spawn_worker(
        &mut self,
        sender: crossbeam_channel::Sender<Buffer<N>>,
        pool: BufferPool<N>,
        algorithm: Algorithm,
    );

    /// Waits for every started worker to finish.
    fn join_all(&mut self);
}

/// Runs the multi-worker pipeline with up to `max_workers` generator workers
/// hosted by `host`. The OS source is excluded: it cannot be parallelized.
pub fn run<const N: usize, S: ByteSink, Z: ShutdownSignal, W: WorkerHost<N>>(
    algorithm: Algorithm,
    max_workers: usize,
    sink: &mut S,
    signal: &mut Z,
    host: &mut W,
) -> (stats: RunStats)
    requires
        N >= 1,
        1 <= max_workers < usize::MAX / 4,
        !(algorithm is Os),
    ensures
        drained_ok(*old(sink), *final(sink), N as nat, stats, old(signal).is_set()),
        stats.workers_spawned <= max_workers,
{
    run_internal::<N, S, Z, W>(algorithm, max_workers, sink, signal, host)
}

/// The drain loop: pull a filled buffer (growing the pool when none is
/// ready), write it to the sink, return the buffer to the pool best-effort,
/// and poll the shutdown signal — once per chunk, never mid-chunk.
fn run_internal<const N: usize, S: ByteSink, Z: ShutdownSignal, W: WorkerHost<N>>(
    algorithm: Algorithm,
    max_workers: usize,
    sink: &mut S,
    signal: &mut Z,
    host: &mut W,
) -> (stats: RunStats)
    requires
        N >= 1,
        1 <= max_workers < usize::MAX / 4,
        !(algorithm is Os),
    ensures
        drained_ok(*old(sink), *final(sink), N as nat, stats, old(signal).is_set()),
        stats.workers_spawned <= max_workers,
{
    let (sender, receiver) = crossbeam_channel::bounded::<Buffer<N>>(max_workers);
    let pool = BufferPool::<N>::new(
        if max_workers < 8 {
            8
        } else {
            max_workers
        },
    );
    let mut workers: usize = 0;
    let mut bytes: u64 = 0;
    loop
        invariant_except_break
            sink.accepted().len() > old(sink).accepted().len() ==> !signal.is_set(),
        invariant
            N >= 1,
            workers <= max_workers,
            old(sink).accepted().is_prefix_of(sink.accepted()),
            forall|i: int|
                old(sink).accepted().len() <= i < sink.accepted().len()
                    ==> #[trigger] sink.accepted()[i].len() == N,
            bytes as nat == (sink.accepted().len() - old(sink).accepted().len()) * N,
            old(signal).is_set() ==> signal.is_set(),
        ensures
            workers <= max_workers,
            old(signal).is_set() ==> sink.accepted().len() <= old(sink).accepted().len() + 1,
        decreases u64::MAX - bytes,
    {
        if bytes > u64::MAX - (N as u64) {
            break;
        }
        let buf: Buffer<N> = match receiver.try_recv() {
            Ok(b) => {
                proof {
                    use_type_invariant(&b);
                }
                b
            },
            Err(_) => add_worker_thread::<N, W>(
                host,
                &mut workers,
                max_workers,
                &sender,
                &receiver,
                &pool,
                algorithm,
            ),
        };
        let ghost accepted_before = sink.accepted();
        let stop = sink.write_chunk(buf.as_slice());
        if stop {
            break;
        }
        proof {
            assert(accepted_before.is_prefix_of(sink.accepted())) by {
                assert(accepted_before =~= sink.accepted().subrange(
                    0,
                    accepted_before.len() as int,
                ));
            }
            vstd::arithmetic::mul::lemma_mul_is_distributive_add_other_way(
                N as int,
                (sink.accepted().len() - old(sink).accepted().len() - 1) as int,
                1,
            );
        }
        bytes = bytes + (N as u64);
        pool.release(buf);
        if signal.poll() {
            break;
        }
    }
    // Hanging up on the workers: with the receiver gone, every worker's next
    // send fails and its loop exits; then wait for them all.
    drop_receiver(receiver);
    host.join_all();
    RunStats { bytes_written: bytes, workers_spawned: workers }
}

/// Consumes the drain side of the filled-buffer channel.
fn drop_receiver<const N: usize>(receiver: crossbeam_channel::Receiver<Buffer<N>>) {
}

/// Grows the pool by one worker if below the maximum and then blocks for the
/// next filled buffer. This is the cold path: it runs only a handful of times
/// near the start of a run, while the channel still runs dry.
fn add_worker_thread<const N: usize, W: WorkerHost<N>>(
    host: &mut W,
    workers: &mut usize,
    max_workers: usize,
    sender: &crossbeam_channel::Sender<Buffer<N>>,
    receiver: &crossbeam_channel::Receiver<Buffer<N>>,
    pool: &BufferPool<N>,
    algorithm: Algorithm,
) -> (b: Buffer<N>)
    requires
        N >= 1,
    ensures
        b.contents().len() == N,
        *final(workers) == (if *old(workers) < max_workers {
            *old(workers) + 1
        } else {
            *old(workers) as int
        }),
{
    if *workers < max_workers {
        host.spawn_worker(sender.clone(), pool.clone_handle(), algorithm);
        *workers = *workers + 1;
    }
    match receiver.recv() {
        Ok(b) => {
            proof {
                use_type_invariant(&b);
            }
            b
        },
        // Unreachable while this thread holds a sender; a fresh buffer keeps
        // the contract either way.
        Err(_) => Buffer::new(),
    }
}

/// One worker's generation loop: obtain a buffer (recycled when the pool has
/// one idle, else freshly allocated), fill it completely, and send it —
/// blocking when the channel is full, which is what throttles generation to
/// the sink's pace. The loop ends when a send fails: the drain loop has hung
/// up. The send counter only bounds the loop formally; no run reaches it.
pub fn worker_loop<const N: usize>(
    sender: crossbeam_channel::Sender<Buffer<N>>,
    pool: BufferPool<N>,
    source: ByteSource,
)
    requires
        N >= 1,
{
    let mut pool = pool;
    let mut source = source;
    let mut sent: u64 = 0;
    loop
        invariant
            N >= 1,
        decreases u64::MAX - sent,
    {
        if sent == u64::MAX {
            break;
        }
        let buf = pool.obtain();
        let mut data = buf.into_data();
        source.fill(&mut data);
        let filled = Buffer::<N>::from_data(data);
        match sender.send(filled) {
            Ok(_) => {},
            Err(_) => {
                break;
            },
        }
        sent = sent + 1;
    }
}

} // verus!
