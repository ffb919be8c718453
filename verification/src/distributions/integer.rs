//! The standard distribution of the integer types: every value of the type
//! with the same chance.

use vstd::prelude::*;
use crate::distributions::{Distribution, Uniform};
use crate::rng::RngCore;

verus! {

impl<R: RngCore> Distribution<u8, R> for Uniform {
    open spec fn wf(&self) -> bool {
        true
    }

    /// The low bits of the next 32-bit word, as many as the type has.
    open spec fn sample_spec(&self, s: R::V) -> (u8, R::V) {
        (R::next_u32_spec(s).0 as u8, R::next_u32_spec(s).1)
    }

    fn sample(&self, rng: &mut R) -> (r: u8) {
        #[verifier::truncate]
        (rng.next_u32() as u8)
    }
}

impl<R: RngCore> Distribution<u16, R> for Uniform {
    open spec fn wf(&self) -> bool {
        true
    }

    /// The low bits of the next 32-bit word, as many as the type has.
    open spec fn sample_spec(&self, s: R::V) -> (u16, R::V) {
        (R::next_u32_spec(s).0 as u16, R::next_u32_spec(s).1)
    }

    fn sample(&self, rng: &mut R) -> (r: u16) {
        #[verifier::truncate]
        (rng.next_u32() as u16)
    }
}

impl<R: RngCore> Distribution<u32, R> for Uniform {
    open spec fn wf(&self) -> bool {
        true
    }

    /// The low bits of the next 32-bit word, as many as the type has.
    open spec fn sample_spec(&self, s: R::V) -> (u32, R::V) {
        (R::next_u32_spec(s).0 as u32, R::next_u32_spec(s).1)
    }

    fn sample(&self, rng: &mut R) -> (r: u32) {
        #[verifier::truncate]
        (rng.next_u32() as u32)
    }
}

impl<R: RngCore> Distribution<i8, R> for Uniform {
    open spec fn wf(&self) -> bool {
        true
    }

    /// The low bits of the next 32-bit word, as many as the type has.
    open spec fn sample_spec(&self, s: R::V) -> (i8, R::V) {
        (R::next_u32_spec(s).0 as i8, R::next_u32_spec(s).1)
    }

    fn sample(&self, rng: &mut R) -> (r: i8) {
        #[verifier::truncate]
        (rng.next_u32() as i8)
    }
}

impl<R: RngCore> Distribution<i16, R> for Uniform {
    open spec fn wf(&self) -> bool {
        true
    }

    /// The low bits of the next 32-bit word, as many as the type has.
    open spec fn sample_spec(&self, s: R::V) -> (i16, R::V) {
        (R::next_u32_spec(s).0 as i16, R::next_u32_spec(s).1)
    }

    fn sample(&self, rng: &mut R) -> (r: i16) {
        #[verifier::truncate]
        (rng.next_u32() as i16)
    }
}

impl<R: RngCore> Distribution<i32, R> for Uniform {
    open spec fn wf(&self) -> bool {
        true
    }

    /// The low bits of the next 32-bit word, as many as the type has.
    open spec fn sample_spec(&self, s: R::V) -> (i32, R::V) {
        (R::next_u32_spec(s).0 as i32, R::next_u32_spec(s).1)
    }

    fn sample(&self, rng: &mut R) -> (r: i32) {
        #[verifier::truncate]
        (rng.next_u32() as i32)
    }
}

impl<R: RngCore> Distribution<u64, R> for Uniform {
    open spec fn wf(&self) -> bool {
        true
    }

    /// The low bits of the next 64-bit word, as many as the type has.
    open spec fn sample_spec(&self, s: R::V) -> (u64, R::V) {
        (R::next_u64_spec(s).0 as u64, R::next_u64_spec(s).1)
    }

    fn sample(&self, rng: &mut R) -> (r: u64) {
        #[verifier::truncate]
        (rng.next_u64() as u64)
    }
}

impl<R: RngCore> Distribution<i64, R> for Uniform {
    open spec fn wf(&self) -> bool {
        true
    }

    /// The low bits of the next 64-bit word, as many as the type has.
    open spec fn sample_spec(&self, s: R::V) -> (i64, R::V) {
        (R::next_u64_spec(s).0 as i64, R::next_u64_spec(s).1)
    }

    fn sample(&self, rng: &mut R) -> (r: i64) {
        #[verifier::truncate]
        (rng.next_u64() as i64)
    }
}

impl<R: RngCore> Distribution<usize, R> for Uniform {
    open spec fn wf(&self) -> bool {
        true
    }

    /// The low bits of the next 64-bit word, as many as the type has.
    open spec fn sample_spec(&self, s: R::V) -> (usize, R::V) {
        (R::next_u64_spec(s).0 as usize, R::next_u64_spec(s).1)
    }

    fn sample(&self, rng: &mut R) -> (r: usize) {
        #[verifier::truncate]
        (rng.next_u64() as usize)
    }
}

impl<R: RngCore> Distribution<isize, R> for Uniform {
    open spec fn wf(&self) -> bool {
        true
    }

    /// The low bits of the next 64-bit word, as many as the type has.
    open spec fn sample_spec(&self, s: R::V) -> (isize, R::V) {
        (R::next_u64_spec(s).0 as isize, R::next_u64_spec(s).1)
    }

    fn sample(&self, rng: &mut R) -> (r: isize) {
        #[verifier::truncate]
        (rng.next_u64() as isize)
    }
}

} // verus!
