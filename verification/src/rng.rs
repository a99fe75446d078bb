//! A seedable source of uniform random draws, passed explicitly through the
//! engine's operations so that runs are reproducible.

use vstd::prelude::*;

verus! {

#[verifier::external_type_specification]
#[verifier::external_body]
pub struct ExStdRng(rand::rngs::StdRng);

/// A handle on a seeded pseudo-random number generator. Every probabilistic
/// step of the engine draws from such a handle, so a run is a deterministic
/// function of the seed.
pub struct GaRng {
    rng: rand::rngs::StdRng,
}

impl GaRng {
    /// Builds a generator from a seed.
    ///
    /// Relies on rand's `SeedableRng::seed_from_u64`, which constructs a
    /// `StdRng` deterministically from the given value.
    #[verifier::external_body]
    pub fn from_seed(seed: u64) -> GaRng {
        GaRng { rng: rand::SeedableRng::seed_from_u64(seed) }
    }

    /// Draws a value uniformly from `[0, n)`.
    ///
    /// Relies on rand's `RngExt::random_range`, which returns a value of the
    /// nonempty range `0..n` drawn uniformly. Nothing beyond membership in
    /// the range can be promised of a random draw.
    #[verifier::external_body]
    pub(crate) fn below(&mut self, n: u128) -> (r: u128)
        requires
            n > 0,
        ensures
            r < n,
    {
        rand::RngExt::random_range(&mut self.rng, 0..n)
    }
}

} // verus!
