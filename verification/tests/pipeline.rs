use rng::algorithm::Algorithm;
use rng::buffer::Buffer;
use rng::multithreaded;
use rng::multithreaded::WorkerHost;
use rng::platform::{abort_handle, ManualSignal};
use rng::pool::BufferPool;
use rng::singlethreaded;
use rng::sink::{CountingSink, RecordingSink};
use rng::source::ByteSource;

/// A worker host backed by one OS thread per worker.
struct ThreadHost<const N: usize> {
    pool: threadpool::ThreadPool,
}

impl<const N: usize> ThreadHost<N> {
    fn new(max_workers: usize) -> ThreadHost<N> {
        ThreadHost {
            pool: threadpool::ThreadPool::new(max_workers),
        }
    }
}

impl<const N: usize> WorkerHost<N> for ThreadHost<N> {
    fn spawn_worker(
        &mut self,
        sender: crossbeam_channel::Sender<Buffer<N>>,
        pool: BufferPool<N>,
        algorithm: Algorithm,
    ) {
        self.pool.execute(move || {
            let source = ByteSource::from_entropy(algorithm);
            multithreaded::worker_loop::<N>(sender, pool, source);
        });
    }

    fn join_all(&mut self) {
        self.pool.join();
    }
}

#[test]
fn fast_path_writes_whole_chunks_only() {
    let mut sink = RecordingSink::new(5);
    let mut signal = abort_handle();
    let stats =
        singlethreaded::run::<16, _, _>(Algorithm::ChaCha20, None, &mut sink, &mut signal);
    assert_eq!(stats.bytes_written, 5 * 16);
    assert_eq!(stats.workers_spawned, 0);
    let chunks = sink.into_chunks();
    assert_eq!(chunks.len(), 5);
    for chunk in &chunks {
        assert_eq!(chunk.len(), 16);
    }
}

#[test]
fn seeded_runs_reproduce_identical_bytes() {
    let mut first = RecordingSink::new(4);
    let mut signal = abort_handle();
    singlethreaded::run_userspace::<64, _, _>(
        Algorithm::ChaCha20,
        Some(42),
        &mut first,
        &mut signal,
    );
    let mut second = RecordingSink::new(4);
    let mut signal = abort_handle();
    singlethreaded::run_userspace::<64, _, _>(
        Algorithm::ChaCha20,
        Some(42),
        &mut second,
        &mut signal,
    );
    let first = first.into_chunks();
    let second = second.into_chunks();
    assert_eq!(first, second);
    // The generator really ran: a fresh buffer is zeroed, the output is not.
    assert!(first.iter().any(|chunk| chunk.iter().any(|&b| b != 0)));

    let mut other_seed = RecordingSink::new(4);
    let mut signal = abort_handle();
    singlethreaded::run_userspace::<64, _, _>(
        Algorithm::ChaCha20,
        Some(43),
        &mut other_seed,
        &mut signal,
    );
    assert_ne!(first, other_seed.into_chunks());
}

#[test]
fn every_userspace_algorithm_generates() {
    let algorithms = [
        Algorithm::Default,
        Algorithm::Hc,
        Algorithm::ChaCha8,
        Algorithm::ChaCha12,
        Algorithm::ChaCha20,
        Algorithm::XorShift,
        Algorithm::Pcg,
    ];
    for algorithm in algorithms {
        let mut sink = RecordingSink::new(2);
        let mut signal = abort_handle();
        let stats =
            singlethreaded::run_userspace::<32, _, _>(algorithm, Some(7), &mut sink, &mut signal);
        assert_eq!(stats.bytes_written, 64);
        let chunks = sink.into_chunks();
        assert_eq!(chunks.len(), 2);
        assert!(chunks.iter().any(|chunk| chunk.iter().any(|&b| b != 0)));
    }
}

#[test]
fn os_source_generates_too() {
    let mut sink = RecordingSink::new(2);
    let mut signal = abort_handle();
    let stats = singlethreaded::run::<32, _, _>(Algorithm::Os, None, &mut sink, &mut signal);
    assert_eq!(stats.bytes_written, 64);
    assert_eq!(sink.into_chunks().len(), 2);
}

#[test]
fn shutdown_stops_after_at_most_one_further_chunk() {
    let mut sink = RecordingSink::new(1000);
    let mut signal = ManualSignal::new();
    signal.request_stop();
    let stats = singlethreaded::run::<32, _, _>(Algorithm::Pcg, None, &mut sink, &mut signal);
    let chunks = sink.into_chunks();
    assert!(chunks.len() <= 1);
    assert_eq!(stats.bytes_written as usize, 32 * chunks.len());
}

#[test]
fn smallest_chunk_size_works() {
    let mut sink = RecordingSink::new(3);
    let mut signal = abort_handle();
    let stats = singlethreaded::run::<1, _, _>(Algorithm::XorShift, None, &mut sink, &mut signal);
    assert_eq!(stats.bytes_written, 3);
    let chunks = sink.into_chunks();
    assert_eq!(chunks.len(), 3);
    for chunk in &chunks {
        assert_eq!(chunk.len(), 1);
    }
}

#[test]
fn buffer_pool_recycles_instead_of_allocating() {
    let mut pool: BufferPool<256> = BufferPool::new(8);
    assert_eq!(pool.allocation_count(), 0);
    for _ in 0..1000 {
        let buffer = pool.obtain();
        pool.release(buffer);
    }
    // Sustained obtain/release traffic costs one allocation, not one per turn.
    assert_eq!(pool.allocation_count(), 1);
}

#[test]
fn capped_sink_confirms_no_loss_or_duplication() {
    let mut sink = CountingSink::new(64 * 1024);
    let mut signal = abort_handle();
    let mut host: ThreadHost<1024> = ThreadHost::new(4);
    let stats =
        multithreaded::run::<1024, _, _, _>(Algorithm::ChaCha8, 4, &mut sink, &mut signal, &mut host);
    assert_eq!(stats.bytes_written, 64 * 1024);
    assert_eq!(sink.bytes_received(), stats.bytes_written);
    assert!(stats.workers_spawned >= 1);
    assert!(stats.workers_spawned <= 4);
}

#[test]
fn worker_count_never_exceeds_the_maximum() {
    for max_workers in [1usize, 2, 3] {
        let mut sink = CountingSink::new(256 * 1024);
        let mut signal = abort_handle();
        let mut host: ThreadHost<512> = ThreadHost::new(max_workers);
        let stats = multithreaded::run::<512, _, _, _>(
            Algorithm::XorShift,
            max_workers,
            &mut sink,
            &mut signal,
            &mut host,
        );
        assert!(stats.workers_spawned <= max_workers);
        assert_eq!(stats.bytes_written, sink.bytes_received());
    }
}

#[test]
fn multithreaded_shutdown_stops_after_at_most_one_further_chunk() {
    let mut sink = CountingSink::new(u64::MAX);
    let mut signal = ManualSignal::new();
    signal.request_stop();
    let mut host: ThreadHost<128> = ThreadHost::new(2);
    let stats =
        multithreaded::run::<128, _, _, _>(Algorithm::Pcg, 2, &mut sink, &mut signal, &mut host);
    assert!(stats.bytes_written <= 128);
    assert_eq!(stats.bytes_written, sink.bytes_received());
}
