//! Random number generation services: a seedable generator backed by rand's
//! standard algorithm. The generator state is opaque; what is proved is that
//! ranged draws stay within their bounds.

use vstd::prelude::*;

use rand::Rng;
use rand::SeedableRng;

verus! {

/// The marker a host installs to share one [`RandomNumberGenerator`] across
/// its systems as an application-wide resource.
pub struct RandomPlugin;

#[verifier::external_type_specification]
#[verifier::external_body]
pub struct ExStdRng(rand::rngs::StdRng);

/// Holds random number generation state and offers random number generation
/// services: fresh 32-bit draws and uniform draws from a half-open range.
pub struct RandomNumberGenerator {
    rng: rand::rngs::StdRng,
}

/// Relies on rand's `StdRng::from_entropy`: a fresh generator seeded from
/// the operating system's entropy source. Nothing can be promised of its
/// draws.
#[verifier::external_body]
fn rng_from_entropy() -> rand::rngs::StdRng {
    rand::rngs::StdRng::from_entropy()
}

/// Relies on rand's `StdRng::seed_from_u64`: a generator built from the
/// given seed alone, so equal seeds give equal draw sequences. That
/// reproducibility is exercised by tests, not stated: nothing is promised
/// of the draws.
#[verifier::external_body]
fn rng_seed_from_u64(seed: u64) -> rand::rngs::StdRng {
    rand::rngs::StdRng::seed_from_u64(seed)
}

/// Relies on rand's `Rng::gen`: any 32-bit value may come out, so nothing
/// is promised.
#[verifier::external_body]
fn rng_gen_u32(rng: &mut rand::rngs::StdRng) -> u32 {
    rng.gen()
}

/// Relies on rand's `Rng::gen_range`, which returns a value of the given
/// range and panics only when the range is empty.
#[verifier::external_body]
fn rng_gen_range_i32(rng: &mut rand::rngs::StdRng, low: i32, high: i32) -> (r: i32)
    requires
        low < high,
    ensures
        low <= r < high,
{
    rng.gen_range(low..high)
}

/// Relies on rand's `Rng::gen_range`, which returns a value of the given
/// range and panics only when the range is empty.
#[verifier::external_body]
fn rng_gen_range_u32(rng: &mut rand::rngs::StdRng, low: u32, high: u32) -> (r: u32)
    requires
        low < high,
    ensures
        low <= r < high,
{
    rng.gen_range(low..high)
}

impl RandomNumberGenerator {
    /// Creates a default generator, with a randomly selected starting seed.
    pub fn new() -> RandomNumberGenerator {
        RandomNumberGenerator { rng: rng_from_entropy() }
    }

    /// Creates a generator with a user-specified random seed. It will
    /// produce the same results each time, given the same requests.
    pub fn seeded(seed: u64) -> RandomNumberGenerator {
        RandomNumberGenerator { rng: rng_seed_from_u64(seed) }
    }

    /// Generates a new random 32-bit value.
    pub fn next(&mut self) -> u32 {
        rng_gen_u32(&mut self.rng)
    }

    /// Generates a random number within the half-open range `low..high`.
    pub fn range(&mut self, low: i32, high: i32) -> (r: i32)
        requires
            low < high,
        ensures
            low <= r < high,
    {
        rng_gen_range_i32(&mut self.rng, low, high)
    }

    /// Generates a random unsigned number within the half-open range
    /// `low..high`.
    pub fn range_u32(&mut self, low: u32, high: u32) -> (r: u32)
        requires
            low < high,
        ensures
            low <= r < high,
    {
        rng_gen_range_u32(&mut self.rng, low, high)
    }
}

impl Default for RandomNumberGenerator {
    fn default() -> Self {
        Self::new()
    }
}

} // verus!
