//! Sampling from distributions.
//!
//! A distribution is an object built once from its parameters. Building it
//! checks the parameters; sampling from it then never fails.

use vstd::prelude::*;
use crate::rng::RngCore;

pub mod fraction;
pub mod integer;
pub mod other;
pub mod range;
pub mod unbiased;
pub mod weighted;

pub use self::range::{Range, SampleRange};
pub use self::weighted::{Weighted, WeightedChoice};

verus! {

/// Why a distribution could not be built from the parameters given.
#[derive(Clone, Copy, Debug, PartialEq, Eq, Structural)]
pub enum ConstructionError {
    /// The range holds no value: its lower bound is not below its upper bound
    /// (for an inclusive range: is above it).
    EmptyRange,
    /// There are no items to choose from.
    NoItems,
    /// All weights are zero.
    ZeroTotalWeight,
    /// The sum of the weights does not fit the counter.
    WeightOverflow,
}

/// A generic random value distribution. Generates values for various types
/// with numerically uniform distribution.
///
/// * Integers (`i32`, `u32`, `isize`, `usize`, etc.): Uniformly distributed
///   over all values of the type.
/// * `char`: Uniformly distributed over all Unicode scalar values, i.e. all
///   code points in the range `0...0x10_FFFF`, except for the range
///   `0xD800...0xDFFF` (the surrogate code points). This includes
///   unassigned/reserved code points.
/// * `bool`: Generates `false` or `true`, each with probability 0.5.
/// * Tuples of up to twelve elements: Each element is generated
///   independently, in order.
/// * `Option<T>`: Returns `None` with probability 0.5; otherwise generates a
///   random `T` and returns `Some(T)`.
#[derive(Clone, Copy, Debug)]
pub struct Uniform;

/// Types (distributions) that can be used to create a random instance of `T`
/// from a source of type `R`.
pub trait Distribution<T, R: RngCore> {
    /// The invariant of the distribution, which its constructors establish.
    spec fn wf(&self) -> bool;

    /// The value that `sample` returns when the source is in state `s`, and
    /// the state that the source is left in.
    spec fn sample_spec(&self, s: R::V) -> (T, R::V);

    /// Generates a random value of `T`, using `rng` as the source of
    /// randomness.
    fn sample(&self, rng: &mut R) -> (r: T)
        requires
            self.wf(),
            old(rng).wf(),
        ensures
            final(rng).wf(),
            (r, final(rng)@) == self.sample_spec(old(rng)@),
    ;
}

/// A type that can be randomly generated using a source of type `R`.
///
/// This is merely an adaptor around the [`Uniform`] distribution for
/// convenience.
pub trait Rand<R: RngCore>: Sized {
    /// The value that `rand` returns when the source is in state `s`, and
    /// the state that the source is left in.
    spec fn rand_spec(s: R::V) -> (Self, R::V);

    /// Whether the type can be generated: the invariant of its distribution.
    spec fn rand_wf() -> bool;

    /// Generates a random instance of this type using the specified source
    /// of randomness.
    fn rand(rng: &mut R) -> (r: Self)
        requires
            old(rng).wf(),
            Self::rand_wf(),
        ensures
            final(rng).wf(),
            (r, final(rng)@) == Self::rand_spec(old(rng)@),
    ;
}

impl<T, R: RngCore> Rand<R> for T where Uniform: Distribution<T, R> {
    open spec fn rand_spec(s: R::V) -> (T, R::V) {
        <Uniform as Distribution<T, R>>::sample_spec(&Uniform, s)
    }

    open spec fn rand_wf() -> bool {
        <Uniform as Distribution<T, R>>::wf(&Uniform)
    }

    fn rand(rng: &mut R) -> (r: T) {
        Uniform.sample(rng)
    }
}

/// Types that can be used to create a random instance of `Support`, and
/// that may change when they are sampled from.
pub trait Sample<Support, R: RngCore> {
    /// The invariant of the sampler, which its constructors establish.
    spec fn sample_wf(&self) -> bool;

    /// Generate a random value of `Support`, using `rng` as the source of
    /// randomness.
    fn sample(&mut self, rng: &mut R) -> (r: Support)
        requires
            old(self).sample_wf(),
            old(rng).wf(),
        ensures
            final(self).sample_wf(),
            final(rng).wf(),
    ;
}

/// `Sample`s that do not require keeping track of state.
///
/// Since no state is recorded, each sample is (statistically) independent
/// of all others, assuming the source used has this property.
pub trait IndependentSample<Support, R: RngCore>: Sample<Support, R> {
    /// Generate a random value.
    fn ind_sample(&self, rng: &mut R) -> (r: Support)
        requires
            self.sample_wf(),
            old(rng).wf(),
        ensures
            final(rng).wf(),
    ;
}

impl<'a, T: Copy, R: RngCore> Sample<T, R> for WeightedChoice<'a, T> {
    open spec fn sample_wf(&self) -> bool {
        self.valid()
    }

    fn sample(&mut self, rng: &mut R) -> (r: T)
        ensures
            (r, final(rng)@) == Distribution::<T, R>::sample_spec(old(self), old(rng)@),
            final(self).items() == old(self).items(),
            final(self).cumulative() == old(self).cumulative(),
    {
        Distribution::sample(self, rng)
    }
}

impl<'a, T: Copy, R: RngCore> IndependentSample<T, R> for WeightedChoice<'a, T> {
    fn ind_sample(&self, rng: &mut R) -> (r: T)
        ensures
            (r, final(rng)@) == Distribution::<T, R>::sample_spec(self, old(rng)@),
    {
        Distribution::sample(self, rng)
    }
}

} // verus!
