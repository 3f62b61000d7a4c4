//! The seeded random generator behind scene population and lens sampling.

use vstd::prelude::*;

use rand::Rng;

use crate::fixed::FX_ONE;

verus! {

#[verifier::external_type_specification]
#[verifier::external_body]
pub struct ExMcg128Xsl64(rand_pcg::Mcg128Xsl64);

/// A permuted-congruential generator with an explicit seed, so that a render
/// is reproducible and each parallel task can carry a generator of its own.
pub struct ScenePcg {
    inner: rand_pcg::Mcg128Xsl64,
}

impl ScenePcg {
    /// Relies on `rand_pcg::Mcg128Xsl64::new`, which seeds the generator from
    /// the given state and never fails.
    #[verifier::external_body]
    pub fn new(state: u128) -> ScenePcg {
        ScenePcg { inner: rand_pcg::Mcg128Xsl64::new(state) }
    }

    /// Relies on `rand::Rng::random_range` over `0..bound`, which returns a
    /// value of the (non-empty) range. Nothing more is assumed of the draw.
    #[verifier::external_body]
    pub fn next_below(&mut self, bound: u32) -> (r: u32)
        requires
            bound > 0,
        ensures
            r < bound,
    {
        self.inner.random_range(0..bound)
    }

    /// A fixed-point draw from `[0, 1)`.
    pub fn next_fraction(&mut self) -> (r: i64)
        ensures
            0 <= r < FX_ONE,
    {
        let u: u32 = self.next_below(65536);
        u as i64
    }

    /// A fixed-point draw from `[-1, 1)`, on even raw values.
    pub fn next_signed_unit(&mut self) -> (r: i64)
        ensures
            -FX_ONE <= r < FX_ONE,
    {
        let u: i64 = self.next_fraction();
        2 * u - 65536
    }
}

} // verus!
