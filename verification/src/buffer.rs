//! The fixed-size byte buffer that moves through the pipeline.
//!
//! A buffer holds exactly `N` bytes (the configured chunk size) and has
//! exactly one owner at any time: a worker while filling, a channel in
//! transit, the drain loop while writing, the pool while idle. Because the
//! length is a type invariant, it survives every handoff, including the trip
//! through a channel.

use vstd::prelude::*;

verus! {

/// A byte buffer of exactly `N` bytes.
pub struct Buffer<const N: usize> {
    data: Vec<u8>,
}

impl<const N: usize> Buffer<N> {
    /// The bytes held.
    pub closed spec fn contents(&self) -> Seq<u8> {
        self.data@
    }

    /// Every buffer holds exactly `N` bytes, wherever it has been.
    #[verifier::type_invariant]
    pub open spec fn wf(self) -> bool {
        self.contents().len() == N
    }

    /// A freshly allocated, zeroed buffer.
    pub fn new() -> (r: Buffer<N>)
        ensures
            r.contents().len() == N,
    {
        let mut data: Vec<u8> = Vec::new();
        while data.len() < N
            invariant
                data@.len() <= N,
            decreases N - data@.len(),
        {
            data.push(0u8);
        }
        Buffer { data }
    }

    /// The bytes, as a slice of length `N`.
    pub fn as_slice(&self) -> (r: &[u8])
        ensures
            r@ == self.contents(),
            r@.len() == N,
    {
        proof {
            use_type_invariant(self);
        }
        self.data.as_slice()
    }

    /// Takes the bytes out, as a vector of length `N`.
    pub fn into_data(self) -> (r: Vec<u8>)
        ensures
            r@ == self.contents(),
            r@.len() == N,
    {
        proof {
            use_type_invariant(&self);
        }
        let Buffer { data } = self;
        data
    }

    /// Wraps `N` bytes back up as a buffer.
    pub fn from_data(data: Vec<u8>) -> (r: Buffer<N>)
        requires
            data@.len() == N,
        ensures
            r.contents() == data@,
    {
        Buffer { data }
    }
}

} // verus!
