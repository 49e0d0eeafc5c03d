//! A library for streaming pseudo-random (or OS-sourced) bytes to an output
//! sink as fast as the sink can absorb them.
//!
//! The core is a self-scaling generate/output pipeline: a drain loop pulls
//! fixed-size buffers of random data from a pool of generator workers and
//! writes them to a sink, growing the worker pool one thread at a time until
//! the sink, not generation, is the bottleneck. Buffers are recycled through
//! a bounded return channel to keep allocation bounded under sustained
//! throughput.

pub mod algorithm;
pub mod buffer;
pub mod channel;
pub mod config;
pub mod formatting;
pub mod multithreaded;
pub mod pipeline;
pub mod platform;
pub mod pool;
pub mod singlethreaded;
pub mod sink;
pub mod source;
