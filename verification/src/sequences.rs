//! Random operations on sequences

use vstd::prelude::*;
use crate::distributions::SampleRange;
use crate::rng::RngCore;
use crate::{shuffle_spec, Rng};

verus! {

/// This trait implements a `pick` operation on slices and sequences: the
/// choice of one element.
pub trait Choose<T, R: RngCore>: Sized {
    /// The element that is returned when the source is in state `s`, and
    /// the state that the source is left in.
    spec fn pick_spec(self, s: R::V) -> (Option<T>, R::V);

    /// Return one element from a sequence.
    ///
    /// Returns `None` only if the sequence is empty.
    fn pick(self, rng: &mut R) -> (r: Option<T>)
        requires
            old(rng).wf(),
        ensures
            final(rng).wf(),
            (r, final(rng)@) == self.pick_spec(old(rng)@),
    ;
}

impl<'a, T, R: RngCore> Choose<&'a T, R> for &'a [T] {
    /// The element at an index drawn uniformly from the indices of the
    /// slice; without a draw, `None` for the empty slice.
    open spec fn pick_spec(self, s: R::V) -> (Option<&'a T>, R::V) {
        if self@.len() == 0 {
            (None, s)
        } else {
            let (i, s1) = <usize as SampleRange<R>>::sample_single_spec(0, self@.len() as usize, s);
            (Some(&self@[i as int]), s1)
        }
    }

    fn pick(self, rng: &mut R) -> (r: Option<&'a T>) {
        rng.pick(self)
    }
}

impl<T, R: RngCore> Choose<T, R> for Vec<T> {
    /// The element at an index drawn uniformly from the indices of the
    /// vector; without a draw, `None` for the empty vector.
    open spec fn pick_spec(self, s: R::V) -> (Option<T>, R::V) {
        if self@.len() == 0 {
            (None, s)
        } else {
            let (i, s1) = <usize as SampleRange<R>>::sample_single_spec(0, self@.len() as usize, s);
            (Some(self@[i as int]), s1)
        }
    }

    fn pick(self, rng: &mut R) -> (r: Option<T>) {
        let mut values = self;
        if values.len() == 0 {
            None
        } else {
            let index: usize = rng.gen_range(0usize, values.len());
            Some(values.swap_remove(index))
        }
    }
}

/// This trait introduces a `shuffle` operation on slices.
pub trait Shuffle<R: RngCore>: Sized {
    /// Shuffle a mutable sequence in place.
    ///
    /// This applies Durstenfeld's algorithm for the Fisher–Yates shuffle
    /// which produces an unbiased permutation.
    fn shuffle(self, rng: &mut R)
        requires
            old(rng).wf(),
        ensures
            final(rng).wf(),
    ;
}

impl<'a, T, R: RngCore> Shuffle<R> for &'a mut [T] {
    fn shuffle(self, rng: &mut R)
        ensures
            (final(self)@, final(rng)@) == shuffle_spec::<T, R>(
                old(self)@,
                old(rng)@,
                old(self)@.len(),
            ),
            final(self)@.to_multiset() == old(self)@.to_multiset(),
    {
        rng.shuffle(self)
    }
}

impl<'a, T, R: RngCore> Shuffle<R> for &'a mut Vec<T> {
    fn shuffle(self, rng: &mut R)
        ensures
            (final(self)@, final(rng)@) == shuffle_spec::<T, R>(
                old(self)@,
                old(rng)@,
                old(self)@.len(),
            ),
            final(self)@.to_multiset() == old(self)@.to_multiset(),
    {
        rng.shuffle(self.as_mut_slice())
    }
}

} // verus!
