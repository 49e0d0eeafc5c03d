//! The byte source: a stateful generator that fills buffers with
//! pseudo-random (or OS-provided) bytes.
//!
//! The supported algorithms form a closed tagged variant over the generator
//! types of the rand family; selection happens once, before the pipeline is
//! built. A source is constructed either from OS entropy or from an explicit
//! 64-bit seed (the OS source takes no seed: the operating system controls
//! the data), and is never shared between threads.

use vstd::prelude::*;

use rand::RngCore;
use rand::SeedableRng;

use crate::algorithm::Algorithm;

verus! {

/// The default generator of the rand crate (`rand::rngs::StdRng`):
/// cryptographically secure with good performance.
#[verifier::external_type_specification]
#[verifier::external_body]
pub struct ExStdRng(rand::rngs::StdRng);

/// The HC-128 generator (`rand_hc::Hc128Rng`).
#[verifier::external_type_specification]
#[verifier::external_body]
pub struct ExHc128Rng(rand_hc::Hc128Rng);

/// The ChaCha generator with 8 rounds (`rand_chacha::ChaCha8Rng`).
#[verifier::external_type_specification]
#[verifier::external_body]
pub struct ExChaCha8Rng(rand_chacha::ChaCha8Rng);

/// The ChaCha generator with 12 rounds (`rand_chacha::ChaCha12Rng`).
#[verifier::external_type_specification]
#[verifier::external_body]
pub struct ExChaCha12Rng(rand_chacha::ChaCha12Rng);

/// The ChaCha generator with 20 rounds (`rand_chacha::ChaCha20Rng`).
#[verifier::external_type_specification]
#[verifier::external_body]
pub struct ExChaCha20Rng(rand_chacha::ChaCha20Rng);

/// The xorshift generator (`rand_xorshift::XorShiftRng`).
#[verifier::external_type_specification]
#[verifier::external_body]
pub struct ExXorShiftRng(rand_xorshift::XorShiftRng);

/// The PCG generator (`rand_pcg::Mcg128Xsl64`, also known as `Pcg64Mcg`).
#[verifier::external_type_specification]
#[verifier::external_body]
pub struct ExMcg128Xsl64(rand_pcg::Mcg128Xsl64);

/// The OS entropy source (`rand_core::OsRng`, re-exported by rand).
#[verifier::external_type_specification]
#[verifier::external_body]
pub struct ExOsRng(rand::rngs::OsRng);

/// A byte generator: one of the supported algorithms, with its state.
pub enum ByteSource {
    Default(rand::rngs::StdRng),
    Hc(rand_hc::Hc128Rng),
    ChaCha8(rand_chacha::ChaCha8Rng),
    ChaCha12(rand_chacha::ChaCha12Rng),
    ChaCha20(rand_chacha::ChaCha20Rng),
    XorShift(rand_xorshift::XorShiftRng),
    Pcg(rand_pcg::Pcg64Mcg),
    Os(rand::rngs::OsRng),
}

/// Relies on `rand::SeedableRng::from_entropy` for `rand::rngs::StdRng`:
/// a generator freshly seeded from OS entropy. Aborts the process when the
/// OS cannot provide entropy.
#[verifier::external_body]
fn std_from_entropy() -> rand::rngs::StdRng {
    rand::rngs::StdRng::from_entropy()
}

/// Relies on `rand::SeedableRng::from_entropy` for `rand_hc::Hc128Rng`.
#[verifier::external_body]
fn hc_from_entropy() -> rand_hc::Hc128Rng {
    rand_hc::Hc128Rng::from_entropy()
}

/// Relies on `rand::SeedableRng::from_entropy` for `rand_chacha::ChaCha8Rng`.
#[verifier::external_body]
fn chacha8_from_entropy() -> rand_chacha::ChaCha8Rng {
    rand_chacha::ChaCha8Rng::from_entropy()
}

/// Relies on `rand::SeedableRng::from_entropy` for `rand_chacha::ChaCha12Rng`.
#[verifier::external_body]
fn chacha12_from_entropy() -> rand_chacha::ChaCha12Rng {
    rand_chacha::ChaCha12Rng::from_entropy()
}

/// Relies on `rand::SeedableRng::from_entropy` for `rand_chacha::ChaCha20Rng`.
#[verifier::external_body]
fn chacha20_from_entropy() -> rand_chacha::ChaCha20Rng {
    rand_chacha::ChaCha20Rng::from_entropy()
}

/// Relies on `rand::SeedableRng::from_entropy` for `rand_xorshift::XorShiftRng`.
#[verifier::external_body]
fn xorshift_from_entropy() -> rand_xorshift::XorShiftRng {
    rand_xorshift::XorShiftRng::from_entropy()
}

/// Relies on `rand::SeedableRng::from_entropy` for `rand_pcg::Pcg64Mcg`.
#[verifier::external_body]
fn pcg_from_entropy() -> rand_pcg::Pcg64Mcg {
    rand_pcg::Pcg64Mcg::from_entropy()
}

/// Relies on `rand::rngs::OsRng` being a stateless unit handle on the OS
/// entropy channel.
#[verifier::external_body]
fn os_rng() -> rand::rngs::OsRng {
    rand::rngs::OsRng
}

/// Relies on `rand::SeedableRng::seed_from_u64` for `rand::rngs::StdRng`:
/// the generator state is a fixed function of the seed alone.
#[verifier::external_body]
fn std_from_seed(seed: u64) -> rand::rngs::StdRng {
    rand::rngs::StdRng::seed_from_u64(seed)
}

/// Relies on `rand::SeedableRng::seed_from_u64` for `rand_hc::Hc128Rng`.
#[verifier::external_body]
fn hc_from_seed(seed: u64) -> rand_hc::Hc128Rng {
    rand_hc::Hc128Rng::seed_from_u64(seed)
}

/// Relies on `rand::SeedableRng::seed_from_u64` for `rand_chacha::ChaCha8Rng`.
#[verifier::external_body]
fn chacha8_from_seed(seed: u64) -> rand_chacha::ChaCha8Rng {
    rand_chacha::ChaCha8Rng::seed_from_u64(seed)
}

/// Relies on `rand::SeedableRng::seed_from_u64` for `rand_chacha::ChaCha12Rng`.
#[verifier::external_body]
fn chacha12_from_seed(seed: u64) -> rand_chacha::ChaCha12Rng {
    rand_chacha::ChaCha12Rng::seed_from_u64(seed)
}

/// Relies on `rand::SeedableRng::seed_from_u64` for `rand_chacha::ChaCha20Rng`.
#[verifier::external_body]
fn chacha20_from_seed(seed: u64) -> rand_chacha::ChaCha20Rng {
    rand_chacha::ChaCha20Rng::seed_from_u64(seed)
}

/// Relies on `rand::SeedableRng::seed_from_u64` for `rand_xorshift::XorShiftRng`.
#[verifier::external_body]
fn xorshift_from_seed(seed: u64) -> rand_xorshift::XorShiftRng {
    rand_xorshift::XorShiftRng::seed_from_u64(seed)
}

/// Relies on `rand::SeedableRng::seed_from_u64` for `rand_pcg::Pcg64Mcg`.
#[verifier::external_body]
fn pcg_from_seed(seed: u64) -> rand_pcg::Pcg64Mcg {
    rand_pcg::Pcg64Mcg::seed_from_u64(seed)
}

/// Relies on `rand::RngCore::fill_bytes` for `rand::rngs::StdRng`: fills the
/// whole slice with generated bytes, in place; the length is unchanged.
#[verifier::external_body]
fn fill_std(rng: &mut rand::rngs::StdRng, data: &mut Vec<u8>)
    ensures
        final(data)@.len() == old(data)@.len(),
{
    rng.fill_bytes(data.as_mut_slice());
}

/// Relies on `rand::RngCore::fill_bytes` for `rand_hc::Hc128Rng`.
#[verifier::external_body]
fn fill_hc(rng: &mut rand_hc::Hc128Rng, data: &mut Vec<u8>)
    ensures
        final(data)@.len() == old(data)@.len(),
{
    rng.fill_bytes(data.as_mut_slice());
}

/// Relies on `rand::RngCore::fill_bytes` for `rand_chacha::ChaCha8Rng`.
#[verifier::external_body]
fn fill_chacha8(rng: &mut rand_chacha::ChaCha8Rng, data: &mut Vec<u8>)
    ensures
        final(data)@.len() == old(data)@.len(),
{
    rng.fill_bytes(data.as_mut_slice());
}

/// Relies on `rand::RngCore::fill_bytes` for `rand_chacha::ChaCha12Rng`.
#[verifier::external_body]
fn fill_chacha12(rng: &mut rand_chacha::ChaCha12Rng, data: &mut Vec<u8>)
    ensures
        final(data)@.len() == old(data)@.len(),
{
    rng.fill_bytes(data.as_mut_slice());
}

/// Relies on `rand::RngCore::fill_bytes` for `rand_chacha::ChaCha20Rng`.
#[verifier::external_body]
fn fill_chacha20(rng: &mut rand_chacha::ChaCha20Rng, data: &mut Vec<u8>)
    ensures
        final(data)@.len() == old(data)@.len(),
{
    rng.fill_bytes(data.as_mut_slice());
}

/// Relies on `rand::RngCore::fill_bytes` for `rand_xorshift::XorShiftRng`.
#[verifier::external_body]
fn fill_xorshift(rng: &mut rand_xorshift::XorShiftRng, data: &mut Vec<u8>)
    ensures
        final(data)@.len() == old(data)@.len(),
{
    rng.fill_bytes(data.as_mut_slice());
}

/// Relies on `rand::RngCore::fill_bytes` for `rand_pcg::Pcg64Mcg`.
#[verifier::external_body]
fn fill_pcg(rng: &mut rand_pcg::Pcg64Mcg, data: &mut Vec<u8>)
    ensures
        final(data)@.len() == old(data)@.len(),
{
    rng.fill_bytes(data.as_mut_slice());
}

/// Relies on `rand::RngCore::fill_bytes` for `rand::rngs::OsRng`: fills the
/// whole slice from OS entropy. Panics when the OS cannot provide entropy.
#[verifier::external_body]
fn fill_os(rng: &mut rand::rngs::OsRng, data: &mut Vec<u8>)
    ensures
        final(data)@.len() == old(data)@.len(),
{
    rng.fill_bytes(data.as_mut_slice());
}

impl ByteSource {
    /// The algorithm this source runs.
    pub open spec fn algorithm(&self) -> Algorithm {
        match self {
            ByteSource::Default(_) => Algorithm::Default,
            ByteSource::Hc(_) => Algorithm::Hc,
            ByteSource::ChaCha8(_) => Algorithm::ChaCha8,
            ByteSource::ChaCha12(_) => Algorithm::ChaCha12,
            ByteSource::ChaCha20(_) => Algorithm::ChaCha20,
            ByteSource::XorShift(_) => Algorithm::XorShift,
            ByteSource::Pcg(_) => Algorithm::Pcg,
            ByteSource::Os(_) => Algorithm::Os,
        }
    }

    /// A source of the given algorithm, seeded from OS entropy (or, for the
    /// OS algorithm, drawing from the OS directly).
    pub fn from_entropy(algorithm: Algorithm) -> (r: ByteSource)
        ensures
            r.algorithm() == algorithm,
    {
        match algorithm {
            Algorithm::Default => ByteSource::Default(std_from_entropy()),
            Algorithm::Hc => ByteSource::Hc(hc_from_entropy()),
            Algorithm::ChaCha8 => ByteSource::ChaCha8(chacha8_from_entropy()),
            Algorithm::ChaCha12 => ByteSource::ChaCha12(chacha12_from_entropy()),
            Algorithm::ChaCha20 => ByteSource::ChaCha20(chacha20_from_entropy()),
            Algorithm::XorShift => ByteSource::XorShift(xorshift_from_entropy()),
            Algorithm::Pcg => ByteSource::Pcg(pcg_from_entropy()),
            Algorithm::Os => ByteSource::Os(os_rng()),
        }
    }

    /// A deterministically seeded source of the given algorithm: runs with
    /// the same seed produce the same bytes. The OS algorithm rejects a seed.
    pub fn from_seed(algorithm: Algorithm, seed: u64) -> (r: ByteSource)
        requires
            !(algorithm is Os),
        ensures
            r.algorithm() == algorithm,
    {
        match algorithm {
            Algorithm::Default => ByteSource::Default(std_from_seed(seed)),
            Algorithm::Hc => ByteSource::Hc(hc_from_seed(seed)),
            Algorithm::ChaCha8 => ByteSource::ChaCha8(chacha8_from_seed(seed)),
            Algorithm::ChaCha12 => ByteSource::ChaCha12(chacha12_from_seed(seed)),
            Algorithm::ChaCha20 => ByteSource::ChaCha20(chacha20_from_seed(seed)),
            Algorithm::XorShift => ByteSource::XorShift(xorshift_from_seed(seed)),
            Algorithm::Pcg => ByteSource::Pcg(pcg_from_seed(seed)),
            Algorithm::Os => vstd::pervasive::unreached(),
        }
    }

    /// Fills `data` completely with generated bytes; the length is unchanged,
    /// and the source keeps its algorithm (only its state advances).
    pub fn fill(&mut self, data: &mut Vec<u8>)
        ensures
            final(data)@.len() == old(data)@.len(),
            final(self).algorithm() == old(self).algorithm(),
    {
        match self {
            ByteSource::Default(rng) => fill_std(rng, data),
            ByteSource::Hc(rng) => fill_hc(rng, data),
            ByteSource::ChaCha8(rng) => fill_chacha8(rng, data),
            ByteSource::ChaCha12(rng) => fill_chacha12(rng, data),
            ByteSource::ChaCha20(rng) => fill_chacha20(rng, data),
            ByteSource::XorShift(rng) => fill_xorshift(rng, data),
            ByteSource::Pcg(rng) => fill_pcg(rng, data),
            ByteSource::Os(rng) => fill_os(rng, data),
        }
    }
}

} // verus!
