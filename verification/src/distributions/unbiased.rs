//! The arithmetic of sampling below a bound without bias.
//!
//! A raw word `w`, uniform over `[0, m)`, is multiplied by the size of the
//! range, `range`. The product, divided by `m`, is the candidate value; what
//! is left of the division tells whether the word is accepted. The words that
//! are accepted fall into `range` runs of equal length, one run for each
//! value, so that an accepted word gives every value with the same chance.

use vstd::prelude::*;
use vstd::arithmetic::div_mod::{
    lemma_div_multiples_vanish, lemma_fundamental_div_mod, lemma_fundamental_div_mod_converse,
    lemma_mod_multiples_basic, lemma_mod_multiples_vanish, lemma_mod_pos_bound,
};

verus! {

/// The number of values of a 32-bit word.
pub open spec fn words32() -> int {
    0x1_0000_0000
}

/// The number of values of a 64-bit word.
pub open spec fn words64() -> int {
    0x1_0000_0000_0000_0000
}

/// The value that the raw word `w` stands for in a range of `range` values:
/// the high part of the product.
pub open spec fn candidate(m: int, range: int, w: int) -> int {
    (w * range) / m
}

/// The low part of the product of the raw word `w` and `range`.
pub open spec fn leftover(m: int, range: int, w: int) -> int {
    (w * range) % m
}

/// The largest low part with which a word is accepted. The `m % range` low
/// parts above it are refused.
pub open spec fn zone_of(m: int, range: int) -> int {
    m - 1 - m % range
}

/// Whether the raw word `w` is accepted for a range of `range` values.
pub open spec fn accepted(m: int, range: int, w: int) -> bool {
    leftover(m, range, w) <= zone_of(m, range)
}

/// The least raw word whose candidate is `v`: `v * m / range`, rounded up.
pub open spec fn first_word(m: int, range: int, v: int) -> int {
    (v * m + range - 1) / range
}

/// The candidate of a raw word lies in the range.
pub proof fn lemma_candidate_in_range(m: int, range: int, w: int)
    requires
        0 < range <= m,
        0 <= w < m,
    ensures
        0 <= candidate(m, range, w) < range,
{
    let p = w * range;
    assert(0 <= p < m * range) by (nonlinear_arith)
        requires
            0 <= w < m,
            0 < range,
            p == w * range,
    ;
    lemma_fundamental_div_mod(p, m);
    lemma_mod_pos_bound(p, m);
    let c = p / m;
    assert(0 <= c < range) by (nonlinear_arith)
        requires
            p == m * c + p % m,
            0 <= p % m < m,
            0 <= p < m * range,
            0 < m,
    ;
}

/// The product of the first word of `v` and `range` reaches `v * m` and
/// stays less than `range` above it.
proof fn lemma_first_word(m: int, range: int, v: int)
    requires
        0 < range <= m,
        0 <= v < range,
    ensures
        v * m <= first_word(m, range, v) * range < v * m + range,
        0 <= first_word(m, range, v),
{
    let x = v * m + range - 1;
    assert(0 <= v * m) by (nonlinear_arith)
        requires
            0 <= v,
            0 < m,
    ;
    lemma_fundamental_div_mod(x, range);
    lemma_mod_pos_bound(x, range);
    let f = x / range;
    assert(f * range == range * f) by (nonlinear_arith);
    assert(0 <= f) by (nonlinear_arith)
        requires
            x == range * f + x % range,
            0 <= x % range < range,
            0 <= x,
            0 < range,
    ;
}

/// The zone is one less than a multiple of `range`: `range * (m / range) - 1`.
proof fn lemma_zone(m: int, range: int)
    requires
        0 < range <= m,
    ensures
        zone_of(m, range) == range * (m / range) - 1,
        1 <= m / range,
        0 <= zone_of(m, range) < m,
{
    lemma_fundamental_div_mod(m, range);
    lemma_mod_pos_bound(m, range);
    let q = m / range;
    assert(1 <= q) by (nonlinear_arith)
        requires
            m == range * q + m % range,
            0 <= m % range < range,
            range <= m,
    ;
    assert(range * q >= range) by (nonlinear_arith)
        requires
            1 <= q,
            0 < range,
    ;
}

/// Each value has its accepted words in one run: a raw word is accepted
/// with candidate `v` exactly if it is one of the `m / range` words from
/// `first_word(m, range, v)` on. Every value of the range thus has the same
/// number of accepted words, so a raw word that is uniform over `[0, m)` and
/// accepted gives a value that is uniform over `[0, range)`.
#[verifier::rlimit(50)]
pub proof fn lemma_accepted_words_of_value(m: int, range: int, v: int, w: int)
    requires
        0 < range <= m,
        0 <= v < range,
        0 <= w < m,
    ensures
        (accepted(m, range, w) && candidate(m, range, w) == v) <==> (first_word(m, range, v) <= w
            < first_word(m, range, v) + m / range),
{
    let q = m / range;
    let f = first_word(m, range, v);
    let p = w * range;
    lemma_zone(m, range);
    lemma_first_word(m, range, v);
    lemma_fundamental_div_mod(p, m);
    lemma_mod_pos_bound(p, m);
    let c = p / m;
    let l = p % m;
    if accepted(m, range, w) && c == v {
        // p == m * v + l with 0 <= l <= range * q - 1
        assert(f <= w) by (nonlinear_arith)
            requires
                p == w * range,
                p == m * v + l,
                0 <= l,
                f * range < v * m + range,
                0 < range,
        ;
        assert(w < f + q) by (nonlinear_arith)
            requires
                p == w * range,
                p == m * v + l,
                l <= range * q - 1,
                v * m <= f * range,
                0 < range,
        ;
    }
    if f <= w < f + q {
        let k = w - f;
        let l0 = f * range - v * m;
        let l1 = l0 + k * range;
        assert(p == m * v + l1) by (nonlinear_arith)
            requires
                p == w * range,
                k == w - f,
                l0 == f * range - v * m,
                l1 == l0 + k * range,
        ;
        assert(0 <= l1 <= range * q - 1) by (nonlinear_arith)
            requires
                0 <= l0 < range,
                0 <= k < q,
                l1 == l0 + k * range,
                0 < range,
        ;
        assert(p == v * m + l1) by (nonlinear_arith)
            requires
                p == m * v + l1,
        ;
        lemma_fundamental_div_mod_converse(p, m, v, l1);
    }
}

/// The run of accepted words of each value lies among the raw words.
pub proof fn lemma_accepted_words_fit(m: int, range: int, v: int)
    requires
        0 < range <= m,
        0 <= v < range,
    ensures
        0 <= first_word(m, range, v),
        first_word(m, range, v) + m / range <= m,
{
    let q = m / range;
    let f = first_word(m, range, v);
    lemma_zone(m, range);
    lemma_first_word(m, range, v);
    assert(f + q <= m) by (nonlinear_arith)
        requires
            f * range < v * m + range,
            range * q <= m,
            0 <= v < range,
            0 < range <= m,
            1 <= q,
    ;
}

/// The runs of two values do not meet: that of the greater value starts at
/// or after the end of the other.
pub proof fn lemma_accepted_words_apart(m: int, range: int, u: int, v: int)
    requires
        0 < range <= m,
        0 <= u < v < range,
    ensures
        first_word(m, range, u) + m / range <= first_word(m, range, v),
{
    let q = m / range;
    let fu = first_word(m, range, u);
    let fv = first_word(m, range, v);
    lemma_zone(m, range);
    lemma_first_word(m, range, u);
    lemma_first_word(m, range, v);
    assert(fu + q <= fv) by (nonlinear_arith)
        requires
            fu * range < u * m + range,
            v * m <= fv * range,
            range * q <= m,
            u + 1 <= v,
            0 < range,
            0 < m,
    ;
}

/// Where the range is the whole domain every raw word is accepted and stands
/// for itself.
pub proof fn lemma_whole_domain(m: int, w: int)
    requires
        0 < m,
        0 <= w < m,
    ensures
        accepted(m, m, w),
        candidate(m, m, w) == w,
{
    assert(w * m == m * w) by (nonlinear_arith);
    lemma_div_multiples_vanish(w, m);
    lemma_mod_multiples_basic(w, m);
    lemma_mod_pos_bound(m, m);
    lemma_fundamental_div_mod_converse(m, m, 1, 0);
}

/// The number of low parts that are refused is what `m - range` leaves when
/// divided by `range`.
pub proof fn lemma_rejected_count(m: int, range: int)
    requires
        0 < range <= m,
    ensures
        (m - range) % range == m % range,
{
    lemma_mod_multiples_vanish(-1, m, range);
    assert(range * -1 + m == m - range) by (nonlinear_arith);
}

} // verus!
