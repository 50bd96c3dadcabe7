//! A six-sided die backed by the rand crate.

use rand::distributions::Distribution;
use rand::distributions::Uniform;
use rand::rngs::ThreadRng;
use vstd::prelude::*;

verus! {

/// A six-sided die
///
/// The struct is opaque to the verifier: its fields are rand's `Uniform`
/// distribution, whose type cannot be declared here (its `SampleUniform`
/// bound is a trait of the rand crate), and rand's thread-local generator.
/// All that is relied on of a `Die` is the contract of `roll`.
#[verifier::external_body]
pub struct Die {
    dist: Uniform<i32>,
    rng: ThreadRng,
}

impl Die {
    /// Roll the die, providing a result between 1 and 6
    ///
    /// Relies on rand's `Distribution::sample` for `Uniform`, which draws a
    /// value from the range the distribution was built over. Both fields are
    /// private and `default` is the only constructor, so every `Die` holds a
    /// distribution built with `Uniform::from(1..=6)`, whose samples lie in
    /// `[1, 6]`. Nothing more is claimed of the value: to this library two
    /// rolls of one die may differ.
    #[verifier::external_body]
    pub fn roll(&mut self) -> (r: i32)
        ensures
            1 <= r <= 6,
    {
        self.dist.sample(&mut self.rng)
    }
}

impl Default for Die {
    /// Relies on rand's `Uniform::from` over the inclusive range `1..=6`
    /// (which samples uniformly from `[1, 6]` and cannot panic, the range
    /// being nonempty) and on rand's `thread_rng` for the entropy source.
    #[verifier::external_body]
    fn default() -> Die {
        Die { dist: Uniform::from(1..=6), rng: rand::thread_rng() }
    }
}

} // verus!
