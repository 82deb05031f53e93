//! A region-local source of randomness, and the few draws the simulation makes from it.
use rand::Rng;
use vstd::prelude::*;

verus! {

#[verifier::external_type_specification]
#[verifier::external_body]
pub struct ExThreadRng(rand::rngs::ThreadRng);

/// Owns the pseudorandom generator of one region; passed by `&mut` through every step
/// of the simulation that draws a random value.
pub struct RandomWrapper {
    rng: rand::rngs::ThreadRng,
}

impl RandomWrapper {
    /// Relies on `rand::thread_rng`: a handle on the lazily seeded thread-local generator.
    #[verifier::external_body]
    pub fn new() -> RandomWrapper {
        RandomWrapper { rng: rand::thread_rng() }
    }

    /// Relies on `rand::Rng::gen_ratio`: true with probability `numerator / denominator`,
    /// never true when `numerator == 0`, always true when `numerator == denominator`.
    #[verifier::external_body]
    pub(crate) fn gen_ratio(&mut self, numerator: u32, denominator: u32) -> (r: bool)
        requires
            0 < denominator,
            numerator <= denominator,
        ensures
            numerator == 0 ==> !r,
            numerator == denominator ==> r,
    {
        self.rng.gen_ratio(numerator, denominator)
    }

    /// Relies on `rand::Rng::gen_range` over the half-open range `0..len`.
    #[verifier::external_body]
    pub(crate) fn gen_index(&mut self, len: u64) -> (r: u64)
        requires
            0 < len,
        ensures
            r < len,
    {
        self.rng.gen_range(0..len)
    }

    /// Relies on `rand::seq::index::sample`: exactly `amount` distinct indices below `length`.
    #[verifier::external_body]
    pub(crate) fn sample_indices(&mut self, length: usize, amount: usize) -> (r: Vec<usize>)
        requires
            amount <= length,
        ensures
            r@.len() == amount,
            r@.no_duplicates(),
            forall|k: int| 0 <= k < r@.len() ==> #[trigger] r@[k] < length,
    {
        rand::seq::index::sample(&mut self.rng, length, amount).into_vec()
    }
}

} // verus!
