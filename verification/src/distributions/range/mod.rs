//! Uniform sampling from integer ranges.

use vstd::prelude::*;
use crate::distributions::unbiased::{
    accepted, candidate, leftover, lemma_candidate_in_range, lemma_rejected_count, words32,
    words64, zone_of,
};
use crate::rng::RngCore;

pub mod large;
pub mod small;

verus! {

/// How many raw words in a row one sample refuses at most. The candidate of
/// the draw after that is returned whether or not it would be accepted, so
/// that sampling ends with every source. A raw word is refused with a chance
/// below one half.
pub const REJECTION_LIMIT: u64 = 0xffff_ffff_ffff_ffff;

/// The widths of the domains that are sampled through 32-bit raw words.
pub open spec fn small_domain(m: int) -> bool {
    m == 0x100 || m == 0x1_0000 || m == 0x1_0000_0000
}

/// The raw word of a domain of `m` values that a 32-bit word `w` of the
/// source gives: its low bits.
pub open spec fn raw_small(m: int, w: u32) -> int {
    w as int % m
}

/// The offset in `[0, range)` that sampling gives when the source is in
/// state `s`, and the state after: the candidate of the first raw word that
/// is accepted, or of the last one looked at when `fuel` words were refused.
pub open spec fn below_small_spec<R: RngCore>(m: int, range: int, s: R::V, fuel: nat) -> (int, R::V)
    decreases fuel,
{
    let (w, s1) = R::next_u32_spec(s);
    if fuel == 0 || accepted(m, range, raw_small(m, w)) {
        (candidate(m, range, raw_small(m, w)), s1)
    } else {
        below_small_spec::<R>(m, range, s1, (fuel - 1) as nat)
    }
}

/// As `below_small_spec`, for the domain of 64-bit words.
pub open spec fn below_large_spec<R: RngCore>(range: int, s: R::V, fuel: nat) -> (int, R::V)
    decreases fuel,
{
    let (w, s1) = R::next_u64_spec(s);
    if fuel == 0 || accepted(words64(), range, w as int) {
        (candidate(words64(), range, w as int), s1)
    } else {
        below_large_spec::<R>(range, s1, (fuel - 1) as nat)
    }
}

/// Sampling gives an offset inside the range.
pub proof fn lemma_below_small_in_range<R: RngCore>(m: int, range: int, s: R::V, fuel: nat)
    requires
        small_domain(m),
        0 < range <= m,
    ensures
        0 <= below_small_spec::<R>(m, range, s, fuel).0 < range,
    decreases fuel,
{
    let (w, s1) = R::next_u32_spec(s);
    lemma_candidate_in_range(m, range, raw_small(m, w));
    if !(fuel == 0 || accepted(m, range, raw_small(m, w))) {
        lemma_below_small_in_range::<R>(m, range, s1, (fuel - 1) as nat);
    }
}

/// Sampling gives an offset inside the range.
pub proof fn lemma_below_large_in_range<R: RngCore>(range: int, s: R::V, fuel: nat)
    requires
        0 < range <= words64(),
    ensures
        0 <= below_large_spec::<R>(range, s, fuel).0 < range,
    decreases fuel,
{
    let (w, s1) = R::next_u64_spec(s);
    lemma_candidate_in_range(words64(), range, w as int);
    if !(fuel == 0 || accepted(words64(), range, w as int)) {
        lemma_below_large_in_range::<R>(range, s1, (fuel - 1) as nat);
    }
}

/// The candidate that the raw word `raw` stands for below `bound`, and
/// whether the word is accepted. Sampling below a bound is: draw raw words
/// until one is accepted, and take its candidate.
pub fn unbiased_below(bound: u32, raw: u32) -> (r: (bool, u32))
    requires
        bound > 0,
    ensures
        r.0 == accepted(words32(), bound as int, raw as int),
        r.1 == candidate(words32(), bound as int, raw as int),
        r.1 < bound,
{
    let zone: u32 = zone_small(0x1_0000_0000, bound);
    let (hi, lo) = wmul_small(0x1_0000_0000, bound, raw as u64);
    (lo <= zone, hi)
}

/// The largest low part that is accepted for `range` in a domain of `m`
/// values.
pub fn zone_small(m: u64, range: u32) -> (zone: u32)
    requires
        small_domain(m as int),
        0 < range <= m,
    ensures
        zone == zone_of(m as int, range as int),
{
    let rejected: u64 = m % (range as u64);
    (m - 1 - rejected) as u32
}

/// The largest low part that is accepted for `range` in the domain of
/// 64-bit words.
pub fn zone_large(range: u64) -> (zone: u64)
    requires
        0 < range,
    ensures
        zone == zone_of(words64(), range as int),
{
    proof {
        lemma_rejected_count(words64(), range as int);
    }
    let rejected: u64 = (0xffff_ffff_ffff_ffff - range + 1) % range;
    0xffff_ffff_ffff_ffff - rejected
}

/// The product of `w` and `range`, split at `m`: candidate and low part.
pub fn wmul_small(m: u64, range: u32, w: u64) -> (r: (u32, u32))
    requires
        small_domain(m as int),
        0 < range <= m,
        w < m,
    ensures
        r.0 == candidate(m as int, range as int, w as int),
        r.1 == leftover(m as int, range as int, w as int),
        r.0 < range,
{
    proof {
        lemma_candidate_in_range(m as int, range as int, w as int);
        assert(w * range <= 0xffff_ffff * 0xffff_ffff) by (nonlinear_arith)
            requires
                w <= 0xffff_ffff,
                range <= 0xffff_ffff,
        ;
    }
    let p: u64 = w * (range as u64);
    ((p / m) as u32, (p % m) as u32)
}

/// The product of `w` and `range`, split at `2^64`: candidate and low part.
pub fn wmul_large(range: u64, w: u64) -> (r: (u64, u64))
    requires
        0 < range,
    ensures
        r.0 == candidate(words64(), range as int, w as int),
        r.1 == leftover(words64(), range as int, w as int),
        r.0 < range,
{
    proof {
        lemma_candidate_in_range(words64(), range as int, w as int);
        assert(w * range <= 0xffff_ffff_ffff_ffff * 0xffff_ffff_ffff_ffff) by (nonlinear_arith)
            requires
                w <= 0xffff_ffff_ffff_ffff,
                range <= 0xffff_ffff_ffff_ffff,
        ;
    }
    let p: u128 = (w as u128) * (range as u128);
    assert((p >> 64) == p / 0x1_0000_0000_0000_0000) by (bit_vector);
    assert((p & 0xffff_ffff_ffff_ffff) == p % 0x1_0000_0000_0000_0000) by (bit_vector);
    ((p >> 64) as u64, (p & 0xffff_ffff_ffff_ffff) as u64)
}

/// Samples an offset in `[0, range)` from 32-bit words of `rng`, for a
/// domain of `m` values.
pub fn below_small<R: RngCore>(m: u64, range: u32, zone: u32, rng: &mut R) -> (v: u32)
    requires
        small_domain(m as int),
        0 < range <= m,
        zone == zone_of(m as int, range as int),
        old(rng).wf(),
    ensures
        final(rng).wf(),
        (v as int, final(rng)@) == below_small_spec::<R>(
            m as int,
            range as int,
            old(rng)@,
            REJECTION_LIMIT as nat,
        ),
        v < range,
{
    let mut refused: u64 = 0;
    loop
        invariant
            small_domain(m as int),
            0 < range <= m,
            zone == zone_of(m as int, range as int),
            rng.wf(),
            refused <= REJECTION_LIMIT,
            below_small_spec::<R>(m as int, range as int, old(rng)@, REJECTION_LIMIT as nat)
                == below_small_spec::<R>(
                m as int,
                range as int,
                rng@,
                (REJECTION_LIMIT - refused) as nat,
            ),
        decreases REJECTION_LIMIT - refused,
    {
        let w: u64 = (rng.next_u32() as u64) % m;
        let (hi, lo) = wmul_small(m, range, w);
        if lo <= zone || refused == REJECTION_LIMIT {
            return hi;
        }
        refused += 1;
    }
}

/// Samples an offset in `[0, range)` from 64-bit words of `rng`.
pub fn below_large<R: RngCore>(range: u64, zone: u64, rng: &mut R) -> (v: u64)
    requires
        0 < range,
        zone == zone_of(words64(), range as int),
        old(rng).wf(),
    ensures
        final(rng).wf(),
        (v as int, final(rng)@) == below_large_spec::<R>(
            range as int,
            old(rng)@,
            REJECTION_LIMIT as nat,
        ),
        v < range,
{
    let mut refused: u64 = 0;
    loop
        invariant
            0 < range,
            zone == zone_of(words64(), range as int),
            rng.wf(),
            refused <= REJECTION_LIMIT,
            below_large_spec::<R>(range as int, old(rng)@, REJECTION_LIMIT as nat)
                == below_large_spec::<R>(range as int, rng@, (REJECTION_LIMIT - refused) as nat),
        decreases REJECTION_LIMIT - refused,
    {
        let w: u64 = rng.next_u64();
        let (hi, lo) = wmul_large(range, w);
        if lo <= zone || refused == REJECTION_LIMIT {
            return hi;
        }
        refused += 1;
    }
}

/// A uniform distribution over a range of integers of type `X`.
///
/// The range is kept as its lower bound and its size. What sampling needs
/// besides is worked out once, when the range is built.
#[derive(Clone, Copy, Debug)]
pub struct Range<X> {
    low: X,
    /// The number of values, or zero where the range is the whole domain.
    range: u64,
    /// The largest accepted low part.
    zone: u64,
}

/// The integer types that a value can be sampled of, uniformly between two
/// bounds, from a source of type `R`.
pub trait SampleRange<R: RngCore>: Sized {
    /// The integer that a value of the type stands for.
    spec fn as_int(self) -> int;

    /// The value that `sample_single` returns when the source is in state
    /// `s`, and the state that the source is left in.
    spec fn sample_single_spec(low: Self, high: Self, s: R::V) -> (Self, R::V);

    /// Samples one value uniformly from `[low, high)`, without building a
    /// distribution that could be used again.
    fn sample_single(low: Self, high: Self, rng: &mut R) -> (r: Self)
        requires
            low.as_int() < high.as_int(),
            old(rng).wf(),
        ensures
            final(rng).wf(),
            (r, final(rng)@) == Self::sample_single_spec(low, high, old(rng)@),
            low.as_int() <= r.as_int() < high.as_int(),
    ;
}

} // verus!
