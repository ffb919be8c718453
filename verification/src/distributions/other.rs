//! The standard distribution of the other built-in types.

use vstd::prelude::*;
use crate::distributions::range::REJECTION_LIMIT;
use crate::distributions::{Distribution, Uniform};
use crate::rng::RngCore;

verus! {

/// The bits of a raw word that a `char` is made of: a `char` has 21 bits.
pub const CHAR_MASK: u32 = 0x001f_ffff;

/// Whether `x` is a Unicode scalar value: a code point that is no surrogate.
pub open spec fn is_scalar_value(x: u32) -> bool {
    x <= 0xD7FF || (0xE000 <= x && x <= 0x10FFFF)
}

/// The `char` with the scalar value `x`, if `x` is one.
///
/// This is `char::from_u32`. It is taken on trust that the call returns the
/// `char` of that value for a Unicode scalar value and `None` for every
/// other number.
#[verifier::external_body]
fn char_from_u32(x: u32) -> (r: Option<char>)
    ensures
        is_scalar_value(x) ==> r == Some(x as char),
        !is_scalar_value(x) ==> r is None,
{
    char::from_u32(x)
}

/// The `char` that sampling gives when the source is in state `s`, and the
/// state after: that of the first raw word whose low 21 bits are a scalar
/// value; after `fuel` words that were none, the replacement character
/// stands in for a last one that is none either.
pub open spec fn char_spec<R: RngCore>(s: R::V, fuel: nat) -> (char, R::V)
    decreases fuel,
{
    let (w, s1) = R::next_u32_spec(s);
    if is_scalar_value(w & CHAR_MASK) {
        ((w & CHAR_MASK) as char, s1)
    } else if fuel == 0 {
        ('\u{FFFD}', s1)
    } else {
        char_spec::<R>(s1, (fuel - 1) as nat)
    }
}

impl<R: RngCore> Distribution<char, R> for Uniform {
    open spec fn wf(&self) -> bool {
        true
    }

    /// Every Unicode scalar value with the same chance.
    open spec fn sample_spec(&self, s: R::V) -> (char, R::V) {
        char_spec::<R>(s, REJECTION_LIMIT as nat)
    }

    fn sample(&self, rng: &mut R) -> (r: char) {
        let mut refused: u64 = 0;
        loop
            invariant
                rng.wf(),
                refused <= REJECTION_LIMIT,
                char_spec::<R>(old(rng)@, REJECTION_LIMIT as nat) == char_spec::<R>(
                    rng@,
                    (REJECTION_LIMIT - refused) as nat,
                ),
            decreases REJECTION_LIMIT - refused,
        {
            // Rejection sampling. About 47% of the numbers of 21 bits are no
            // scalar values, most of them for being too large.
            match char_from_u32(rng.next_u32() & CHAR_MASK) {
                Some(c) => {
                    return c;
                },
                None => {},
            }
            if refused == REJECTION_LIMIT {
                return '\u{FFFD}';
            }
            refused += 1;
        }
    }
}

impl<R: RngCore> Distribution<bool, R> for Uniform {
    open spec fn wf(&self) -> bool {
        true
    }

    /// The lowest bit of the next 32-bit word.
    open spec fn sample_spec(&self, s: R::V) -> (bool, R::V) {
        (R::next_u32_spec(s).0 & 1 == 1, R::next_u32_spec(s).1)
    }

    fn sample(&self, rng: &mut R) -> (r: bool) {
        rng.next_u32() & 1 == 1
    }
}

impl<R: RngCore> Distribution<(), R> for Uniform {
    open spec fn wf(&self) -> bool {
        true
    }

    open spec fn sample_spec(&self, s: R::V) -> ((), R::V) {
        ((), s)
    }

    fn sample(&self, rng: &mut R) -> (r: ()) {
        ()
    }
}

impl<A, R: RngCore> Distribution<(A,), R> for Uniform where
    Uniform: Distribution<A, R>,
 {
    open spec fn wf(&self) -> bool {
        <Uniform as Distribution<A, R>>::wf(&Uniform)
    }

    open spec fn sample_spec(&self, s: R::V) -> ((A,), R::V) {
        let (a, s1) = <Uniform as Distribution<A, R>>::sample_spec(&Uniform, s);
        ((a,), s1)
    }

    fn sample(&self, rng: &mut R) -> (r: (A,)) {
        let a: A = <Uniform as Distribution<A, R>>::sample(&Uniform, rng);
        (a,)
    }
}

impl<A, B, R: RngCore> Distribution<(A, B), R> for Uniform where
    Uniform: Distribution<A, R>,
    Uniform: Distribution<B, R>,
 {
    open spec fn wf(&self) -> bool {
        <Uniform as Distribution<A, R>>::wf(&Uniform) && <Uniform as Distribution<B, R>>::wf(&Uniform)
    }

    open spec fn sample_spec(&self, s: R::V) -> ((A, B), R::V) {
        let (a, s1) = <Uniform as Distribution<A, R>>::sample_spec(&Uniform, s);
        let (b, s2) = <Uniform as Distribution<B, R>>::sample_spec(&Uniform, s1);
        ((a, b), s2)
    }

    fn sample(&self, rng: &mut R) -> (r: (A, B)) {
        let a: A = <Uniform as Distribution<A, R>>::sample(&Uniform, rng);
        let b: B = <Uniform as Distribution<B, R>>::sample(&Uniform, rng);
        (a, b)
    }
}

impl<A, B, C, R: RngCore> Distribution<(A, B, C), R> for Uniform where
    Uniform: Distribution<A, R>,
    Uniform: Distribution<B, R>,
    Uniform: Distribution<C, R>,
 {
    open spec fn wf(&self) -> bool {
        <Uniform as Distribution<A, R>>::wf(&Uniform) && <Uniform as Distribution<B, R>>::wf(&Uniform) && <Uniform as Distribution<C, R>>::wf(&Uniform)
    }

    open spec fn sample_spec(&self, s: R::V) -> ((A, B, C), R::V) {
        let (a, s1) = <Uniform as Distribution<A, R>>::sample_spec(&Uniform, s);
        let (b, s2) = <Uniform as Distribution<B, R>>::sample_spec(&Uniform, s1);
        let (c, s3) = <Uniform as Distribution<C, R>>::sample_spec(&Uniform, s2);
        ((a, b, c), s3)
    }

    fn sample(&self, rng: &mut R) -> (r: (A, B, C)) {
        let a: A = <Uniform as Distribution<A, R>>::sample(&Uniform, rng);
        let b: B = <Uniform as Distribution<B, R>>::sample(&Uniform, rng);
        let c: C = <Uniform as Distribution<C, R>>::sample(&Uniform, rng);
        (a, b, c)
    }
}

impl<A, B, C, D, R: RngCore> Distribution<(A, B, C, D), R> for Uniform where
    Uniform: Distribution<A, R>,
    Uniform: Distribution<B, R>,
    Uniform: Distribution<C, R>,
    Uniform: Distribution<D, R>,
 {
    open spec fn wf(&self) -> bool {
        <Uniform as Distribution<A, R>>::wf(&Uniform) && <Uniform as Distribution<B, R>>::wf(&Uniform) && <Uniform as Distribution<C, R>>::wf(&Uniform) && <Uniform as Distribution<D, R>>::wf(&Uniform)
    }

    open spec fn sample_spec(&self, s: R::V) -> ((A, B, C, D), R::V) {
        let (a, s1) = <Uniform as Distribution<A, R>>::sample_spec(&Uniform, s);
        let (b, s2) = <Uniform as Distribution<B, R>>::sample_spec(&Uniform, s1);
        let (c, s3) = <Uniform as Distribution<C, R>>::sample_spec(&Uniform, s2);
        let (d, s4) = <Uniform as Distribution<D, R>>::sample_spec(&Uniform, s3);
        ((a, b, c, d), s4)
    }

    fn sample(&self, rng: &mut R) -> (r: (A, B, C, D)) {
        let a: A = <Uniform as Distribution<A, R>>::sample(&Uniform, rng);
        let b: B = <Uniform as Distribution<B, R>>::sample(&Uniform, rng);
        let c: C = <Uniform as Distribution<C, R>>::sample(&Uniform, rng);
        let d: D = <Uniform as Distribution<D, R>>::sample(&Uniform, rng);
        (a, b, c, d)
    }
}

impl<A, B, C, D, E, R: RngCore> Distribution<(A, B, C, D, E), R> for Uniform where
    Uniform: Distribution<A, R>,
    Uniform: Distribution<B, R>,
    Uniform: Distribution<C, R>,
    Uniform: Distribution<D, R>,
    Uniform: Distribution<E, R>,
 {
    open spec fn wf(&self) -> bool {
        <Uniform as Distribution<A, R>>::wf(&Uniform) && <Uniform as Distribution<B, R>>::wf(&Uniform) && <Uniform as Distribution<C, R>>::wf(&Uniform) && <Uniform as Distribution<D, R>>::wf(&Uniform) && <Uniform as Distribution<E, R>>::wf(&Uniform)
    }

    open spec fn sample_spec(&self, s: R::V) -> ((A, B, C, D, E), R::V) {
        let (a, s1) = <Uniform as Distribution<A, R>>::sample_spec(&Uniform, s);
        let (b, s2) = <Uniform as Distribution<B, R>>::sample_spec(&Uniform, s1);
        let (c, s3) = <Uniform as Distribution<C, R>>::sample_spec(&Uniform, s2);
        let (d, s4) = <Uniform as Distribution<D, R>>::sample_spec(&Uniform, s3);
        let (e, s5) = <Uniform as Distribution<E, R>>::sample_spec(&Uniform, s4);
        ((a, b, c, d, e), s5)
    }

    fn sample(&self, rng: &mut R) -> (r: (A, B, C, D, E)) {
        let a: A = <Uniform as Distribution<A, R>>::sample(&Uniform, rng);
        let b: B = <Uniform as Distribution<B, R>>::sample(&Uniform, rng);
        let c: C = <Uniform as Distribution<C, R>>::sample(&Uniform, rng);
        let d: D = <Uniform as Distribution<D, R>>::sample(&Uniform, rng);
        let e: E = <Uniform as Distribution<E, R>>::sample(&Uniform, rng);
        (a, b, c, d, e)
    }
}

impl<A, B, C, D, E, F, R: RngCore> Distribution<(A, B, C, D, E, F), R> for Uniform where
    Uniform: Distribution<A, R>,
    Uniform: Distribution<B, R>,
    Uniform: Distribution<C, R>,
    Uniform: Distribution<D, R>,
    Uniform: Distribution<E, R>,
    Uniform: Distribution<F, R>,
 {
    open spec fn wf(&self) -> bool {
        <Uniform as Distribution<A, R>>::wf(&Uniform) && <Uniform as Distribution<B, R>>::wf(&Uniform) && <Uniform as Distribution<C, R>>::wf(&Uniform) && <Uniform as Distribution<D, R>>::wf(&Uniform) && <Uniform as Distribution<E, R>>::wf(&Uniform) && <Uniform as Distribution<F, R>>::wf(&Uniform)
    }

    open spec fn sample_spec(&self, s: R::V) -> ((A, B, C, D, E, F), R::V) {
        let (a, s1) = <Uniform as Distribution<A, R>>::sample_spec(&Uniform, s);
        let (b, s2) = <Uniform as Distribution<B, R>>::sample_spec(&Uniform, s1);
        let (c, s3) = <Uniform as Distribution<C, R>>::sample_spec(&Uniform, s2);
        let (d, s4) = <Uniform as Distribution<D, R>>::sample_spec(&Uniform, s3);
        let (e, s5) = <Uniform as Distribution<E, R>>::sample_spec(&Uniform, s4);
        let (f, s6) = <Uniform as Distribution<F, R>>::sample_spec(&Uniform, s5);
        ((a, b, c, d, e, f), s6)
    }

    fn sample(&self, rng: &mut R) -> (r: (A, B, C, D, E, F)) {
        let a: A = <Uniform as Distribution<A, R>>::sample(&Uniform, rng);
        let b: B = <Uniform as Distribution<B, R>>::sample(&Uniform, rng);
        let c: C = <Uniform as Distribution<C, R>>::sample(&Uniform, rng);
        let d: D = <Uniform as Distribution<D, R>>::sample(&Uniform, rng);
        let e: E = <Uniform as Distribution<E, R>>::sample(&Uniform, rng);
        let f: F = <Uniform as Distribution<F, R>>::sample(&Uniform, rng);
        (a, b, c, d, e, f)
    }
}

impl<A, B, C, D, E, F, G, R: RngCore> Distribution<(A, B, C, D, E, F, G), R> for Uniform where
    Uniform: Distribution<A, R>,
    Uniform: Distribution<B, R>,
    Uniform: Distribution<C, R>,
    Uniform: Distribution<D, R>,
    Uniform: Distribution<E, R>,
    Uniform: Distribution<F, R>,
    Uniform: Distribution<G, R>,
 {
    open spec fn wf(&self) -> bool {
        <Uniform as Distribution<A, R>>::wf(&Uniform) && <Uniform as Distribution<B, R>>::wf(&Uniform) && <Uniform as Distribution<C, R>>::wf(&Uniform) && <Uniform as Distribution<D, R>>::wf(&Uniform) && <Uniform as Distribution<E, R>>::wf(&Uniform) && <Uniform as Distribution<F, R>>::wf(&Uniform) && <Uniform as Distribution<G, R>>::wf(&Uniform)
    }

    open spec fn sample_spec(&self, s: R::V) -> ((A, B, C, D, E, F, G), R::V) {
        let (a, s1) = <Uniform as Distribution<A, R>>::sample_spec(&Uniform, s);
        let (b, s2) = <Uniform as Distribution<B, R>>::sample_spec(&Uniform, s1);
        let (c, s3) = <Uniform as Distribution<C, R>>::sample_spec(&Uniform, s2);
        let (d, s4) = <Uniform as Distribution<D, R>>::sample_spec(&Uniform, s3);
        let (e, s5) = <Uniform as Distribution<E, R>>::sample_spec(&Uniform, s4);
        let (f, s6) = <Uniform as Distribution<F, R>>::sample_spec(&Uniform, s5);
        let (g, s7) = <Uniform as Distribution<G, R>>::sample_spec(&Uniform, s6);
        ((a, b, c, d, e, f, g), s7)
    }

    fn sample(&self, rng: &mut R) -> (r: (A, B, C, D, E, F, G)) {
        let a: A = <Uniform as Distribution<A, R>>::sample(&Uniform, rng);
        let b: B = <Uniform as Distribution<B, R>>::sample(&Uniform, rng);
        let c: C = <Uniform as Distribution<C, R>>::sample(&Uniform, rng);
        let d: D = <Uniform as Distribution<D, R>>::sample(&Uniform, rng);
        let e: E = <Uniform as Distribution<E, R>>::sample(&Uniform, rng);
        let f: F = <Uniform as Distribution<F, R>>::sample(&Uniform, rng);
        let g: G = <Uniform as Distribution<G, R>>::sample(&Uniform, rng);
        (a, b, c, d, e, f, g)
    }
}

impl<A, B, C, D, E, F, G, H, R: RngCore> Distribution<(A, B, C, D, E, F, G, H), R> for Uniform where
    Uniform: Distribution<A, R>,
    Uniform: Distribution<B, R>,
    Uniform: Distribution<C, R>,
    Uniform: Distribution<D, R>,
    Uniform: Distribution<E, R>,
    Uniform: Distribution<F, R>,
    Uniform: Distribution<G, R>,
    Uniform: Distribution<H, R>,
 {
    open spec fn wf(&self) -> bool {
        <Uniform as Distribution<A, R>>::wf(&Uniform) && <Uniform as Distribution<B, R>>::wf(&Uniform) && <Uniform as Distribution<C, R>>::wf(&Uniform) && <Uniform as Distribution<D, R>>::wf(&Uniform) && <Uniform as Distribution<E, R>>::wf(&Uniform) && <Uniform as Distribution<F, R>>::wf(&Uniform) && <Uniform as Distribution<G, R>>::wf(&Uniform) && <Uniform as Distribution<H, R>>::wf(&Uniform)
    }

    open spec fn sample_spec(&self, s: R::V) -> ((A, B, C, D, E, F, G, H), R::V) {
        let (a, s1) = <Uniform as Distribution<A, R>>::sample_spec(&Uniform, s);
        let (b, s2) = <Uniform as Distribution<B, R>>::sample_spec(&Uniform, s1);
        let (c, s3) = <Uniform as Distribution<C, R>>::sample_spec(&Uniform, s2);
        let (d, s4) = <Uniform as Distribution<D, R>>::sample_spec(&Uniform, s3);
        let (e, s5) = <Uniform as Distribution<E, R>>::sample_spec(&Uniform, s4);
        let (f, s6) = <Uniform as Distribution<F, R>>::sample_spec(&Uniform, s5);
        let (g, s7) = <Uniform as Distribution<G, R>>::sample_spec(&Uniform, s6);
        let (h, s8) = <Uniform as Distribution<H, R>>::sample_spec(&Uniform, s7);
        ((a, b, c, d, e, f, g, h), s8)
    }

    fn sample(&self, rng: &mut R) -> (r: (A, B, C, D, E, F, G, H)) {
        let a: A = <Uniform as Distribution<A, R>>::sample(&Uniform, rng);
        let b: B = <Uniform as Distribution<B, R>>::sample(&Uniform, rng);
        let c: C = <Uniform as Distribution<C, R>>::sample(&Uniform, rng);
        let d: D = <Uniform as Distribution<D, R>>::sample(&Uniform, rng);
        let e: E = <Uniform as Distribution<E, R>>::sample(&Uniform, rng);
        let f: F = <Uniform as Distribution<F, R>>::sample(&Uniform, rng);
        let g: G = <Uniform as Distribution<G, R>>::sample(&Uniform, rng);
        let h: H = <Uniform as Distribution<H, R>>::sample(&Uniform, rng);
        (a, b, c, d, e, f, g, h)
    }
}

impl<A, B, C, D, E, F, G, H, I, R: RngCore> Distribution<(A, B, C, D, E, F, G, H, I), R> for Uniform where
    Uniform: Distribution<A, R>,
    Uniform: Distribution<B, R>,
    Uniform: Distribution<C, R>,
    Uniform: Distribution<D, R>,
    Uniform: Distribution<E, R>,
    Uniform: Distribution<F, R>,
    Uniform: Distribution<G, R>,
    Uniform: Distribution<H, R>,
    Uniform: Distribution<I, R>,
 {
    open spec fn wf(&self) -> bool {
        <Uniform as Distribution<A, R>>::wf(&Uniform) && <Uniform as Distribution<B, R>>::wf(&Uniform) && <Uniform as Distribution<C, R>>::wf(&Uniform) && <Uniform as Distribution<D, R>>::wf(&Uniform) && <Uniform as Distribution<E, R>>::wf(&Uniform) && <Uniform as Distribution<F, R>>::wf(&Uniform) && <Uniform as Distribution<G, R>>::wf(&Uniform) && <Uniform as Distribution<H, R>>::wf(&Uniform) && <Uniform as Distribution<I, R>>::wf(&Uniform)
    }

    open spec fn sample_spec(&self, s: R::V) -> ((A, B, C, D, E, F, G, H, I), R::V) {
        let (a, s1) = <Uniform as Distribution<A, R>>::sample_spec(&Uniform, s);
        let (b, s2) = <Uniform as Distribution<B, R>>::sample_spec(&Uniform, s1);
        let (c, s3) = <Uniform as Distribution<C, R>>::sample_spec(&Uniform, s2);
        let (d, s4) = <Uniform as Distribution<D, R>>::sample_spec(&Uniform, s3);
        let (e, s5) = <Uniform as Distribution<E, R>>::sample_spec(&Uniform, s4);
        let (f, s6) = <Uniform as Distribution<F, R>>::sample_spec(&Uniform, s5);
        let (g, s7) = <Uniform as Distribution<G, R>>::sample_spec(&Uniform, s6);
        let (h, s8) = <Uniform as Distribution<H, R>>::sample_spec(&Uniform, s7);
        let (i, s9) = <Uniform as Distribution<I, R>>::sample_spec(&Uniform, s8);
        ((a, b, c, d, e, f, g, h, i), s9)
    }

    fn sample(&self, rng: &mut R) -> (r: (A, B, C, D, E, F, G, H, I)) {
        let a: A = <Uniform as Distribution<A, R>>::sample(&Uniform, rng);
        let b: B = <Uniform as Distribution<B, R>>::sample(&Uniform, rng);
        let c: C = <Uniform as Distribution<C, R>>::sample(&Uniform, rng);
        let d: D = <Uniform as Distribution<D, R>>::sample(&Uniform, rng);
        let e: E = <Uniform as Distribution<E, R>>::sample(&Uniform, rng);
        let f: F = <Uniform as Distribution<F, R>>::sample(&Uniform, rng);
        let g: G = <Uniform as Distribution<G, R>>::sample(&Uniform, rng);
        let h: H = <Uniform as Distribution<H, R>>::sample(&Uniform, rng);
        let i: I = <Uniform as Distribution<I, R>>::sample(&Uniform, rng);
        (a, b, c, d, e, f, g, h, i)
    }
}

impl<A, B, C, D, E, F, G, H, I, J, R: RngCore> Distribution<(A, B, C, D, E, F, G, H, I, J), R> for Uniform where
    Uniform: Distribution<A, R>,
    Uniform: Distribution<B, R>,
    Uniform: Distribution<C, R>,
    Uniform: Distribution<D, R>,
    Uniform: Distribution<E, R>,
    Uniform: Distribution<F, R>,
    Uniform: Distribution<G, R>,
    Uniform: Distribution<H, R>,
    Uniform: Distribution<I, R>,
    Uniform: Distribution<J, R>,
 {
    open spec fn wf(&self) -> bool {
        <Uniform as Distribution<A, R>>::wf(&Uniform) && <Uniform as Distribution<B, R>>::wf(&Uniform) && <Uniform as Distribution<C, R>>::wf(&Uniform) && <Uniform as Distribution<D, R>>::wf(&Uniform) && <Uniform as Distribution<E, R>>::wf(&Uniform) && <Uniform as Distribution<F, R>>::wf(&Uniform) && <Uniform as Distribution<G, R>>::wf(&Uniform) && <Uniform as Distribution<H, R>>::wf(&Uniform) && <Uniform as Distribution<I, R>>::wf(&Uniform) && <Uniform as Distribution<J, R>>::wf(&Uniform)
    }

    open spec fn sample_spec(&self, s: R::V) -> ((A, B, C, D, E, F, G, H, I, J), R::V) {
        let (a, s1) = <Uniform as Distribution<A, R>>::sample_spec(&Uniform, s);
        let (b, s2) = <Uniform as Distribution<B, R>>::sample_spec(&Uniform, s1);
        let (c, s3) = <Uniform as Distribution<C, R>>::sample_spec(&Uniform, s2);
        let (d, s4) = <Uniform as Distribution<D, R>>::sample_spec(&Uniform, s3);
        let (e, s5) = <Uniform as Distribution<E, R>>::sample_spec(&Uniform, s4);
        let (f, s6) = <Uniform as Distribution<F, R>>::sample_spec(&Uniform, s5);
        let (g, s7) = <Uniform as Distribution<G, R>>::sample_spec(&Uniform, s6);
        let (h, s8) = <Uniform as Distribution<H, R>>::sample_spec(&Uniform, s7);
        let (i, s9) = <Uniform as Distribution<I, R>>::sample_spec(&Uniform, s8);
        let (j, s10) = <Uniform as Distribution<J, R>>::sample_spec(&Uniform, s9);
        ((a, b, c, d, e, f, g, h, i, j), s10)
    }

    fn sample(&self, rng: &mut R) -> (r: (A, B, C, D, E, F, G, H, I, J)) {
        let a: A = <Uniform as Distribution<A, R>>::sample(&Uniform, rng);
        let b: B = <Uniform as Distribution<B, R>>::sample(&Uniform, rng);
        let c: C = <Uniform as Distribution<C, R>>::sample(&Uniform, rng);
        let d: D = <Uniform as Distribution<D, R>>::sample(&Uniform, rng);
        let e: E = <Uniform as Distribution<E, R>>::sample(&Uniform, rng);
        let f: F = <Uniform as Distribution<F, R>>::sample(&Uniform, rng);
        let g: G = <Uniform as Distribution<G, R>>::sample(&Uniform, rng);
        let h: H = <Uniform as Distribution<H, R>>::sample(&Uniform, rng);
        let i: I = <Uniform as Distribution<I, R>>::sample(&Uniform, rng);
        let j: J = <Uniform as Distribution<J, R>>::sample(&Uniform, rng);
        (a, b, c, d, e, f, g, h, i, j)
    }
}

impl<A, B, C, D, E, F, G, H, I, J, K, R: RngCore> Distribution<(A, B, C, D, E, F, G, H, I, J, K), R> for Uniform where
    Uniform: Distribution<A, R>,
    Uniform: Distribution<B, R>,
    Uniform: Distribution<C, R>,
    Uniform: Distribution<D, R>,
    Uniform: Distribution<E, R>,
    Uniform: Distribution<F, R>,
    Uniform: Distribution<G, R>,
    Uniform: Distribution<H, R>,
    Uniform: Distribution<I, R>,
    Uniform: Distribution<J, R>,
    Uniform: Distribution<K, R>,
 {
    open spec fn wf(&self) -> bool {
        <Uniform as Distribution<A, R>>::wf(&Uniform) && <Uniform as Distribution<B, R>>::wf(&Uniform) && <Uniform as Distribution<C, R>>::wf(&Uniform) && <Uniform as Distribution<D, R>>::wf(&Uniform) && <Uniform as Distribution<E, R>>::wf(&Uniform) && <Uniform as Distribution<F, R>>::wf(&Uniform) && <Uniform as Distribution<G, R>>::wf(&Uniform) && <Uniform as Distribution<H, R>>::wf(&Uniform) && <Uniform as Distribution<I, R>>::wf(&Uniform) && <Uniform as Distribution<J, R>>::wf(&Uniform) && <Uniform as Distribution<K, R>>::wf(&Uniform)
    }

    open spec fn sample_spec(&self, s: R::V) -> ((A, B, C, D, E, F, G, H, I, J, K), R::V) {
        let (a, s1) = <Uniform as Distribution<A, R>>::sample_spec(&Uniform, s);
        let (b, s2) = <Uniform as Distribution<B, R>>::sample_spec(&Uniform, s1);
        let (c, s3) = <Uniform as Distribution<C, R>>::sample_spec(&Uniform, s2);
        let (d, s4) = <Uniform as Distribution<D, R>>::sample_spec(&Uniform, s3);
        let (e, s5) = <Uniform as Distribution<E, R>>::sample_spec(&Uniform, s4);
        let (f, s6) = <Uniform as Distribution<F, R>>::sample_spec(&Uniform, s5);
        let (g, s7) = <Uniform as Distribution<G, R>>::sample_spec(&Uniform, s6);
        let (h, s8) = <Uniform as Distribution<H, R>>::sample_spec(&Uniform, s7);
        let (i, s9) = <Uniform as Distribution<I, R>>::sample_spec(&Uniform, s8);
        let (j, s10) = <Uniform as Distribution<J, R>>::sample_spec(&Uniform, s9);
        let (k, s11) = <Uniform as Distribution<K, R>>::sample_spec(&Uniform, s10);
        ((a, b, c, d, e, f, g, h, i, j, k), s11)
    }

    fn sample(&self, rng: &mut R) -> (r: (A, B, C, D, E, F, G, H, I, J, K)) {
        let a: A = <Uniform as Distribution<A, R>>::sample(&Uniform, rng);
        let b: B = <Uniform as Distribution<B, R>>::sample(&Uniform, rng);
        let c: C = <Uniform as Distribution<C, R>>::sample(&Uniform, rng);
        let d: D = <Uniform as Distribution<D, R>>::sample(&Uniform, rng);
        let e: E = <Uniform as Distribution<E, R>>::sample(&Uniform, rng);
        let f: F = <Uniform as Distribution<F, R>>::sample(&Uniform, rng);
        let g: G = <Uniform as Distribution<G, R>>::sample(&Uniform, rng);
        let h: H = <Uniform as Distribution<H, R>>::sample(&Uniform, rng);
        let i: I = <Uniform as Distribution<I, R>>::sample(&Uniform, rng);
        let j: J = <Uniform as Distribution<J, R>>::sample(&Uniform, rng);
        let k: K = <Uniform as Distribution<K, R>>::sample(&Uniform, rng);
        (a, b, c, d, e, f, g, h, i, j, k)
    }
}

impl<A, B, C, D, E, F, G, H, I, J, K, L, R: RngCore> Distribution<(A, B, C, D, E, F, G, H, I, J, K, L), R> for Uniform where
    Uniform: Distribution<A, R>,
    Uniform: Distribution<B, R>,
    Uniform: Distribution<C, R>,
    Uniform: Distribution<D, R>,
    Uniform: Distribution<E, R>,
    Uniform: Distribution<F, R>,
    Uniform: Distribution<G, R>,
    Uniform: Distribution<H, R>,
    Uniform: Distribution<I, R>,
    Uniform: Distribution<J, R>,
    Uniform: Distribution<K, R>,
    Uniform: Distribution<L, R>,
 {
    open spec fn wf(&self) -> bool {
        <Uniform as Distribution<A, R>>::wf(&Uniform) && <Uniform as Distribution<B, R>>::wf(&Uniform) && <Uniform as Distribution<C, R>>::wf(&Uniform) && <Uniform as Distribution<D, R>>::wf(&Uniform) && <Uniform as Distribution<E, R>>::wf(&Uniform) && <Uniform as Distribution<F, R>>::wf(&Uniform) && <Uniform as Distribution<G, R>>::wf(&Uniform) && <Uniform as Distribution<H, R>>::wf(&Uniform) && <Uniform as Distribution<I, R>>::wf(&Uniform) && <Uniform as Distribution<J, R>>::wf(&Uniform) && <Uniform as Distribution<K, R>>::wf(&Uniform) && <Uniform as Distribution<L, R>>::wf(&Uniform)
    }

    open spec fn sample_spec(&self, s: R::V) -> ((A, B, C, D, E, F, G, H, I, J, K, L), R::V) {
        let (a, s1) = <Uniform as Distribution<A, R>>::sample_spec(&Uniform, s);
        let (b, s2) = <Uniform as Distribution<B, R>>::sample_spec(&Uniform, s1);
        let (c, s3) = <Uniform as Distribution<C, R>>::sample_spec(&Uniform, s2);
        let (d, s4) = <Uniform as Distribution<D, R>>::sample_spec(&Uniform, s3);
        let (e, s5) = <Uniform as Distribution<E, R>>::sample_spec(&Uniform, s4);
        let (f, s6) = <Uniform as Distribution<F, R>>::sample_spec(&Uniform, s5);
        let (g, s7) = <Uniform as Distribution<G, R>>::sample_spec(&Uniform, s6);
        let (h, s8) = <Uniform as Distribution<H, R>>::sample_spec(&Uniform, s7);
        let (i, s9) = <Uniform as Distribution<I, R>>::sample_spec(&Uniform, s8);
        let (j, s10) = <Uniform as Distribution<J, R>>::sample_spec(&Uniform, s9);
        let (k, s11) = <Uniform as Distribution<K, R>>::sample_spec(&Uniform, s10);
        let (l, s12) = <Uniform as Distribution<L, R>>::sample_spec(&Uniform, s11);
        ((a, b, c, d, e, f, g, h, i, j, k, l), s12)
    }

    fn sample(&self, rng: &mut R) -> (r: (A, B, C, D, E, F, G, H, I, J, K, L)) {
        let a: A = <Uniform as Distribution<A, R>>::sample(&Uniform, rng);
        let b: B = <Uniform as Distribution<B, R>>::sample(&Uniform, rng);
        let c: C = <Uniform as Distribution<C, R>>::sample(&Uniform, rng);
        let d: D = <Uniform as Distribution<D, R>>::sample(&Uniform, rng);
        let e: E = <Uniform as Distribution<E, R>>::sample(&Uniform, rng);
        let f: F = <Uniform as Distribution<F, R>>::sample(&Uniform, rng);
        let g: G = <Uniform as Distribution<G, R>>::sample(&Uniform, rng);
        let h: H = <Uniform as Distribution<H, R>>::sample(&Uniform, rng);
        let i: I = <Uniform as Distribution<I, R>>::sample(&Uniform, rng);
        let j: J = <Uniform as Distribution<J, R>>::sample(&Uniform, rng);
        let k: K = <Uniform as Distribution<K, R>>::sample(&Uniform, rng);
        let l: L = <Uniform as Distribution<L, R>>::sample(&Uniform, rng);
        (a, b, c, d, e, f, g, h, i, j, k, l)
    }
}

impl<T, R: RngCore> Distribution<Option<T>, R> for Uniform where Uniform: Distribution<T, R> {
    open spec fn wf(&self) -> bool {
        <Uniform as Distribution<T, R>>::wf(&Uniform)
    }

    /// `None` or `Some` by the lowest bit of a first word; the value of a
    /// `Some` is sampled after it.
    open spec fn sample_spec(&self, s: R::V) -> (Option<T>, R::V) {
        let (some, s1) = <Uniform as Distribution<bool, R>>::sample_spec(&Uniform, s);
        if some {
            let (t, s2) = <Uniform as Distribution<T, R>>::sample_spec(&Uniform, s1);
            (Some(t), s2)
        } else {
            (None, s1)
        }
    }

    fn sample(&self, rng: &mut R) -> (r: Option<T>) {
        let some: bool = <Uniform as Distribution<bool, R>>::sample(&Uniform, rng);
        if some {
            let t: T = <Uniform as Distribution<T, R>>::sample(&Uniform, rng);
            Some(t)
        } else {
            None
        }
    }
}

} // verus!
