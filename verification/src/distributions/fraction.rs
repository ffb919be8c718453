//! The integer side of sampling real numbers.
//!
//! A real number in a binary interval is made of a raw word by taking some
//! of its bits as the fraction and putting an exponent before them. What is
//! done with the number afterwards is arithmetic on real numbers and is no
//! part of this library; how the bits of the word are used is.

use vstd::prelude::*;
use crate::rng::RngCore;

verus! {

/// The number of layers of a ziggurat table.
pub const ZIGGURAT_LAYERS: usize = 256;

/// The exponent bias of a double-precision number.
pub const EXPONENT_BIAS: u64 = 1023;

/// The layer of the ziggurat that a raw word chooses, and the fraction that
/// it gives: the lowest eight bits are the layer, the highest 52 bits the
/// fraction. The four bits between them are not used.
pub open spec fn ziggurat_parts(word: u64) -> (usize, u64) {
    ((word as int % 256) as usize, (word as int / 0x1000) as u64)
}

/// The layer of the ziggurat that `word` chooses, and the fraction that it
/// gives. A table of 257 entries has the entries `layer` and `layer + 1`.
pub fn ziggurat_draw(word: u64) -> (r: (usize, u64))
    ensures
        r == ziggurat_parts(word),
        r.0 < ZIGGURAT_LAYERS,
        r.1 < 0x10_0000_0000_0000,
{
    assert((word & 0xff) == word % 256) by (bit_vector);
    assert((word >> 12) == word / 0x1000) by (bit_vector);
    ((word & 0xff) as usize, word >> 12)
}

/// The next raw word of `rng`, as the layer that it chooses and the
/// fraction that it gives.
pub fn next_ziggurat_draw<R: RngCore>(rng: &mut R) -> (r: (usize, u64))
    requires
        old(rng).wf(),
    ensures
        final(rng).wf(),
        r == ziggurat_parts(R::next_u64_spec(old(rng)@).0),
        final(rng)@ == R::next_u64_spec(old(rng)@).1,
        r.0 < ZIGGURAT_LAYERS,
        r.1 < 0x10_0000_0000_0000,
{
    ziggurat_draw(rng.next_u64())
}

/// The bit pattern of the double-precision number with the fraction
/// `fraction` and the binary exponent `exponent`: the number
/// `(1 + fraction / 2^52) * 2^exponent`. With exponent 0 it lies in
/// `[1, 2)`, with exponent 1 in `[2, 4)`.
pub fn with_exponent(fraction: u64, exponent: u64) -> (bits: u64)
    requires
        fraction < 0x10_0000_0000_0000,
        exponent <= 1,
    ensures
        bits == (EXPONENT_BIAS + exponent) * 0x10_0000_0000_0000 + fraction,
{
    let e: u64 = EXPONENT_BIAS + exponent;
    assert((e << 52) | fraction == e * 0x10_0000_0000_0000 + fraction) by (bit_vector)
        requires
            e <= 1024,
            fraction < 0x10_0000_0000_0000,
    ;
    (e << 52) | fraction
}

/// The fraction of 52 bits that the next raw word of `rng` gives for a
/// uniform real number: its highest 52 bits.
pub fn next_fraction<R: RngCore>(rng: &mut R) -> (fraction: u64)
    requires
        old(rng).wf(),
    ensures
        final(rng).wf(),
        fraction == R::next_u64_spec(old(rng)@).0 as int / 0x1000,
        final(rng)@ == R::next_u64_spec(old(rng)@).1,
        fraction < 0x10_0000_0000_0000,
{
    let word: u64 = rng.next_u64();
    assert((word >> 12) == word / 0x1000) by (bit_vector);
    word >> 12
}

/// Whether an event that is given by the scaled chance `p_int` comes to
/// pass: whether the next 32-bit word is no greater than `p_int`. For a
/// chance `p` the scaled chance is `p * (2^32 - 1)`, rounded down, so that
/// the event comes to pass with a chance of `p`, but for one part in 2^32.
pub fn gen_bool_scaled<R: RngCore>(rng: &mut R, p_int: u32) -> (r: bool)
    requires
        old(rng).wf(),
    ensures
        final(rng).wf(),
        r == (R::next_u32_spec(old(rng)@).0 <= p_int),
        final(rng)@ == R::next_u32_spec(old(rng)@).1,
{
    rng.next_u32() <= p_int
}

} // verus!
