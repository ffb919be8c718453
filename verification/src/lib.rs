//! Utilities for random number generation.
//!
//! A random source ([`RngCore`]) turns a seed into a stream of words. The
//! methods of [`Rng`], which every source has, turn words into values:
//! integers of a range, elements of a slice, a shuffled slice. The module
//! [`distributions`] holds the distributions that can be sampled again and
//! again.
//!
//! Every source describes its stream by spec functions of its state, and
//! every function that draws from a source says what it returns as a
//! function of that state. Where a value is sampled by rejection, the
//! contract names the raw words that are looked at.

use vstd::prelude::*;
use vstd::string::StrSliceExecFns;

pub mod block;
pub mod chacha;
pub mod distributions;
pub mod entropy;
pub mod error;
pub mod iter;
pub mod jitter;
pub mod le;
pub mod mock;
pub mod read;
pub mod reseeding;
pub mod retry;
pub mod rng;
pub mod sequences;
pub mod std_rng;
pub mod thread;
pub mod xorshift;

pub use crate::chacha::ChaChaRng;
pub use crate::entropy::EntropyRng;
pub use crate::error::{Error, ErrorKind};
pub use crate::jitter::JitterRng;
pub use crate::read::ReadRng;
pub use crate::reseeding::ReseedingRng;
pub use crate::rng::{
    Bytes, CryptoRng, EntropySource, Length, RngCore, SeedFromRng, SeedableRng, Words,
};
pub use vstd::view::View;
pub use crate::std_rng::StdRng;
pub use crate::thread::{thread_rng, ThreadRng};
pub use crate::xorshift::XorShiftRng;

use crate::distributions::{Distribution, SampleRange, Uniform};
use crate::le::{
    join_u32, read_u16le, read_u32_into, read_u32le, read_u64_into, words16_le, words64_le,
    words_le,
};
use crate::rng::{from_rng_spec, SEED_ATTEMPTS};

verus! {

/// Swaps two elements of a slice.
///
/// This is `<[T]>::swap` of the standard library, which panics if an index is
/// out of bounds.
pub assume_specification<Item>[ <[Item]>::swap ](slice: &mut [Item], a: usize, b: usize)
    requires
        a < old(slice)@.len(),
        b < old(slice)@.len(),
    ensures
        final(slice)@ == old(slice)@.update(a as int, old(slice)@[b as int]).update(
            b as int,
            old(slice)@[a as int],
        ),
;

/// The sequence `values` with the elements at `a` and `b` swapped.
pub open spec fn swapped<T>(values: Seq<T>, a: int, b: int) -> Seq<T> {
    values.update(a, values[b]).update(b, values[a])
}

/// The slice that shuffling makes of `values` when the source is in state
/// `s` and the elements from index `i` on are in their final places, and
/// the state after: element `i - 1` is swapped with one drawn uniformly from
/// the elements `0` to `i - 1`, and so on down to the second element.
pub open spec fn shuffle_spec<T, R: RngCore>(values: Seq<T>, s: R::V, i: nat) -> (Seq<T>, R::V)
    decreases i,
{
    if i < 2 {
        (values, s)
    } else {
        let (j, s1) = <usize as SampleRange<R>>::sample_single_spec(0, i as usize, s);
        shuffle_spec::<T, R>(swapped(values, i - 1, j as int), s1, (i - 1) as nat)
    }
}

/// Swapping two elements of a sequence keeps its elements, each as often as
/// it was there.
pub proof fn lemma_swapped_is_permutation<T>(values: Seq<T>, a: int, b: int)
    requires
        0 <= a < values.len(),
        0 <= b < values.len(),
    ensures
        swapped(values, a, b).to_multiset() == values.to_multiset(),
{
    broadcast use vstd::multiset::group_multiset_axioms;

    let once = values.update(a, values[b]);
    vstd::seq_lib::to_multiset_update(values, a, values[b]);
    vstd::seq_lib::to_multiset_update(once, b, values[a]);
    values.to_multiset_ensures();
    assert(values.contains(values[a]));
    assert(values.contains(values[b]));
    assert(once[b] == values[b]);
    assert(swapped(values, a, b).to_multiset() =~= values.to_multiset());
}

/// Trait for types that can be filled with the bytes of a random source:
/// slices of unsigned integers. The integers are made of the bytes in
/// little-endian order, so that one seed fills a slice with the same values
/// on every machine.
pub trait AsByteSliceMut {
    /// The number of bytes that fill the value.
    spec fn byte_len(&self) -> Length;

    /// Whether the value is the one that `bytes` fill it with.
    spec fn filled_with(&self, bytes: Bytes) -> bool;

    /// The number of bytes that fill the value, if a `usize` holds it.
    fn byte_size(&self) -> (n: Option<usize>)
        ensures
            self.byte_len() <= usize::MAX ==> n == Some(self.byte_len() as usize),
            self.byte_len() > usize::MAX ==> n is None,
    ;

    /// Fills the value with `bytes`.
    fn set_le_bytes(&mut self, bytes: &[u8])
        requires
            bytes@.len() == old(self).byte_len(),
        ensures
            final(self).byte_len() == old(self).byte_len(),
            final(self).filled_with(bytes@),
    ;
}

impl AsByteSliceMut for [u8] {
    open spec fn byte_len(&self) -> nat {
        self@.len()
    }

    open spec fn filled_with(&self, bytes: Seq<u8>) -> bool {
        self@ == bytes
    }

    fn byte_size(&self) -> (n: Option<usize>) {
        Some(self.len())
    }

    fn set_le_bytes(&mut self, bytes: &[u8]) {
        let n: usize = self.len();
        let mut i: usize = 0;
        while i < n
            invariant
                i <= n == self@.len(),
                n == bytes@.len(),
                forall|j: int| 0 <= j < i ==> self@[j] == bytes@[j],
            decreases n - i,
        {
            self[i] = bytes[i];
            i += 1;
        }
        assert(self@ =~= bytes@);
    }
}

impl AsByteSliceMut for [u32] {
    open spec fn byte_len(&self) -> nat {
        4 * self@.len()
    }

    open spec fn filled_with(&self, bytes: Seq<u8>) -> bool {
        self@ == words_le(bytes)
    }

    fn byte_size(&self) -> (n: Option<usize>) {
        self.len().checked_mul(4)
    }

    fn set_le_bytes(&mut self, bytes: &[u8]) {
        read_u32_into(bytes, self);
    }
}

impl AsByteSliceMut for [u64] {
    open spec fn byte_len(&self) -> nat {
        8 * self@.len()
    }

    open spec fn filled_with(&self, bytes: Seq<u8>) -> bool {
        self@ == words64_le(bytes)
    }

    fn byte_size(&self) -> (n: Option<usize>) {
        self.len().checked_mul(8)
    }

    fn set_le_bytes(&mut self, bytes: &[u8]) {
        read_u64_into(bytes, self);
    }
}

impl AsByteSliceMut for [u16] {
    open spec fn byte_len(&self) -> nat {
        2 * self@.len()
    }

    open spec fn filled_with(&self, bytes: Seq<u8>) -> bool {
        self@ == words16_le(bytes)
    }

    fn byte_size(&self) -> (n: Option<usize>) {
        self.len().checked_mul(2)
    }

    fn set_le_bytes(&mut self, bytes: &[u8]) {
        let n: usize = self.len();
        let total: usize = bytes.len();
        let mut i: usize = 0;
        while i < n
            invariant
                i <= n == self@.len(),
                total == bytes@.len() == 2 * n,
                forall|j: int| 0 <= j < i ==> self@[j] == words16_le(bytes@)[j],
            decreases n - i,
        {
            self[i] = read_u16le(bytes[2 * i], bytes[2 * i + 1]);
            i += 1;
        }
        assert(self@ =~= words16_le(bytes@));
    }
}

impl AsByteSliceMut for [i8] {
    open spec fn byte_len(&self) -> nat {
        self@.len()
    }

    /// Each byte as a number of eight bits with a sign.
    open spec fn filled_with(&self, bytes: Seq<u8>) -> bool {
        self@ == Seq::new(bytes.len(), |i: int| bytes[i] as i8)
    }

    fn byte_size(&self) -> (n: Option<usize>) {
        Some(self.len())
    }

    fn set_le_bytes(&mut self, bytes: &[u8]) {
        let n: usize = self.len();
        let mut i: usize = 0;
        while i < n
            invariant
                i <= n == self@.len(),
                bytes@.len() == n,
                forall|j: int| 0 <= j < i ==> self@[j] == bytes@[j] as i8,
            decreases n - i,
        {
            self[i] = #[verifier::truncate]
            (bytes[i] as i8);
            i += 1;
        }
        assert(self@ =~= Seq::new(bytes@.len(), |i: int| bytes@[i] as i8));
    }
}

impl AsByteSliceMut for [i16] {
    open spec fn byte_len(&self) -> nat {
        2 * self@.len()
    }

    /// Each word of two bytes as a number of sixteen bits with a sign.
    open spec fn filled_with(&self, bytes: Seq<u8>) -> bool {
        self@ == Seq::new(bytes.len() / 2, |i: int| words16_le(bytes)[i] as i16)
    }

    fn byte_size(&self) -> (n: Option<usize>) {
        self.len().checked_mul(2)
    }

    fn set_le_bytes(&mut self, bytes: &[u8]) {
        let n: usize = self.len();
        let total: usize = bytes.len();
        let mut i: usize = 0;
        while i < n
            invariant
                i <= n == self@.len(),
                total == bytes@.len() == 2 * n,
                forall|j: int| 0 <= j < i ==> self@[j] == words16_le(bytes@)[j] as i16,
            decreases n - i,
        {
            let w: u16 = read_u16le(bytes[2 * i], bytes[2 * i + 1]);
            self[i] = #[verifier::truncate]
            (w as i16);
            i += 1;
        }
        assert(self@ =~= Seq::new(bytes@.len() / 2, |i: int| words16_le(bytes@)[i] as i16));
    }
}

impl AsByteSliceMut for [i32] {
    open spec fn byte_len(&self) -> nat {
        4 * self@.len()
    }

    /// Each word of four bytes as a number of 32 bits with a sign.
    open spec fn filled_with(&self, bytes: Seq<u8>) -> bool {
        self@ == Seq::new(bytes.len() / 4, |i: int| words_le(bytes)[i] as i32)
    }

    fn byte_size(&self) -> (n: Option<usize>) {
        self.len().checked_mul(4)
    }

    fn set_le_bytes(&mut self, bytes: &[u8]) {
        let n: usize = self.len();
        let total: usize = bytes.len();
        let mut i: usize = 0;
        while i < n
            invariant
                i <= n == self@.len(),
                total == bytes@.len() == 4 * n,
                forall|j: int| 0 <= j < i ==> self@[j] == words_le(bytes@)[j] as i32,
            decreases n - i,
        {
            let w: u32 = read_u32le(vstd::slice::slice_subrange(bytes, 4 * i, 4 * i + 4));
            self[i] = #[verifier::truncate]
            (w as i32);
            i += 1;
        }
        assert(self@ =~= Seq::new(bytes@.len() / 4, |i: int| words_le(bytes@)[i] as i32));
    }
}

impl AsByteSliceMut for [i64] {
    open spec fn byte_len(&self) -> nat {
        8 * self@.len()
    }

    /// Each word of eight bytes as a number of 64 bits with a sign.
    open spec fn filled_with(&self, bytes: Seq<u8>) -> bool {
        self@ == Seq::new(bytes.len() / 8, |i: int| words64_le(bytes)[i] as i64)
    }

    fn byte_size(&self) -> (n: Option<usize>) {
        self.len().checked_mul(8)
    }

    fn set_le_bytes(&mut self, bytes: &[u8]) {
        let n: usize = self.len();
        let total: usize = bytes.len();
        let mut i: usize = 0;
        while i < n
            invariant
                i <= n == self@.len(),
                total == bytes@.len() == 8 * n,
                forall|j: int| 0 <= j < i ==> self@[j] == words64_le(bytes@)[j] as i64,
            decreases n - i,
        {
            let lo: u32 = read_u32le(vstd::slice::slice_subrange(bytes, 8 * i, 8 * i + 4));
            let hi: u32 = read_u32le(vstd::slice::slice_subrange(bytes, 8 * i + 4, 8 * i + 8));
            let w: u64 = join_u32(lo, hi);
            self[i] = #[verifier::truncate]
            (w as i64);
            i += 1;
        }
        assert(self@ =~= Seq::new(bytes@.len() / 8, |i: int| words64_le(bytes@)[i] as i64));
    }
}

/// An automatically-implemented extension trait on [`RngCore`] providing
/// high-level generic methods for sampling values and other convenience
/// methods.
///
/// This is the primary trait to use when generating random values.
pub trait Rng: RngCore {
    /// Return a random value supporting the [`Uniform`] distribution.
    fn gen<T>(&mut self) -> (r: T) where Uniform: Distribution<T, Self>
        requires
            old(self).wf(),
            <Uniform as Distribution<T, Self>>::wf(&Uniform),
        ensures
            final(self).wf(),
            (r, final(self)@) == <Uniform as Distribution<T, Self>>::sample_spec(
                &Uniform,
                old(self)@,
            ),
    {
        Uniform.sample(self)
    }

    /// Generate a random value in the range [`low`, `high`), i.e. inclusive of
    /// `low` and exclusive of `high`.
    ///
    /// If this function will be called repeatedly with the same arguments,
    /// it will be faster to construct a `Range` distribution object and
    /// sample from that.
    ///
    /// The range must hold a value: `low < high`.
    fn gen_range<T: SampleRange<Self>>(&mut self, low: T, high: T) -> (r: T)
        requires
            old(self).wf(),
            low.as_int() < high.as_int(),
        ensures
            final(self).wf(),
            (r, final(self)@) == T::sample_single_spec(low, high, old(self)@),
            low.as_int() <= r.as_int() < high.as_int(),
    {
        T::sample_single(low, high, self)
    }

    /// Sample a new value, using the given distribution.
    fn sample<T, D: Distribution<T, Self>>(&mut self, distr: D) -> (r: T)
        requires
            old(self).wf(),
            distr.wf(),
        ensures
            final(self).wf(),
            (r, final(self)@) == distr.sample_spec(old(self)@),
    {
        distr.sample(self)
    }

    /// Create a generator of values of the given distribution.
    fn sample_iter<'a, T, D: Distribution<T, Self>>(&'a mut self, distr: &'a D) -> (r: DistIter<
        'a,
        D,
        Self,
    >)
        ensures
            r.distr == distr,
            *r.rng == *old(self),
            *final(self) == *final(r.rng),
    {
        DistIter { distr, rng: self }
    }

    /// Fill `dest` entirely with random bytes (uniform value distribution),
    /// where `dest` is a slice of unsigned integers; the integers are made
    /// of the bytes in little-endian order.
    ///
    /// The bytes of `dest` have to be fewer than a `usize` can count.
    fn fill<T: AsByteSliceMut + ?Sized>(&mut self, dest: &mut T)
        requires
            old(self).wf(),
            old(dest).byte_len() <= usize::MAX,
        ensures
            final(self).wf(),
            final(dest).byte_len() == old(dest).byte_len(),
            final(dest).filled_with(Self::fill_bytes_spec(old(self)@, old(dest).byte_len()).0),
            final(self)@ == Self::fill_bytes_spec(old(self)@, old(dest).byte_len()).1,
    {
        match dest.byte_size() {
            Some(n) => {
                let mut buf: Vec<u8> = vec![0u8; n];
                self.fill_bytes(buf.as_mut_slice());
                dest.set_le_bytes(buf.as_slice());
            },
            None => {},
        }
    }

    /// Fill `dest` entirely with random bytes (uniform value distribution),
    /// where `dest` is a slice of unsigned integers, or report the failure
    /// of the source.
    ///
    /// The bytes of `dest` have to be fewer than a `usize` can count.
    fn try_fill<T: AsByteSliceMut + ?Sized>(&mut self, dest: &mut T) -> (r: Result<(), Error>)
        requires
            old(self).wf(),
            old(dest).byte_len() <= usize::MAX,
        ensures
            final(self).wf(),
            final(dest).byte_len() == old(dest).byte_len(),
            final(self)@ == Self::try_fill_bytes_spec(old(self)@, old(dest).byte_len()).1,
            match Self::try_fill_bytes_spec(old(self)@, old(dest).byte_len()).0 {
                Ok(bytes) => r is Ok && final(dest).filled_with(bytes),
                Err(e) => r == Err::<(), Error>(e),
            },
    {
        match dest.byte_size() {
            Some(n) => {
                let mut buf: Vec<u8> = vec![0u8; n];
                match self.try_fill_bytes(buf.as_mut_slice()) {
                    Ok(()) => {
                        dest.set_le_bytes(buf.as_slice());
                        Ok(())
                    },
                    Err(e) => Err(e),
                }
            },
            None => Ok(()),
        }
    }

    /// Return a random element from `values`.
    ///
    /// Return `None` if `values` is empty.
    fn pick<'a, T>(&mut self, values: &'a [T]) -> (r: Option<&'a T>)
        requires
            old(self).wf(),
        ensures
            final(self).wf(),
            values@.len() == 0 ==> r is None && final(self)@ == old(self)@,
            values@.len() > 0 ==> ({
                let (i, s1) = <usize as SampleRange<Self>>::sample_single_spec(
                    0,
                    values@.len() as usize,
                    old(self)@,
                );
                &&& 0 <= i < values@.len()
                &&& r == Some(&values@[i as int])
                &&& final(self)@ == s1
            }),
    {
        if values.len() == 0 {
            None
        } else {
            let i: usize = self.gen_range(0usize, values.len());
            Some(&values[i])
        }
    }

    /// Return a mutable pointer to a random element from `values`.
    ///
    /// Return `None` if `values` is empty.
    fn pick_mut<'a, T>(&mut self, values: &'a mut [T]) -> (r: Option<&'a mut T>)
        requires
            old(self).wf(),
        ensures
            final(self).wf(),
            old(values)@.len() == 0 ==> r is None && final(self)@ == old(self)@ && final(values)@
                == old(values)@,
            old(values)@.len() > 0 ==> ({
                let (i, s1) = <usize as SampleRange<Self>>::sample_single_spec(
                    0,
                    old(values)@.len() as usize,
                    old(self)@,
                );
                &&& 0 <= i < old(values)@.len()
                &&& r is Some
                &&& *r->Some_0 == old(values)@[i as int]
                &&& final(values)@ == old(values)@.update(i as int, *final(r->Some_0))
                &&& final(self)@ == s1
            }),
    {
        if values.len() == 0 {
            None
        } else {
            let len: usize = values.len();
            let i: usize = self.gen_range(0usize, len);
            Some(&mut values[i])
        }
    }

    /// Shuffle a mutable slice in place.
    ///
    /// This applies Durstenfeld's algorithm for the Fisher–Yates shuffle
    /// which produces an unbiased permutation.
    fn shuffle<T>(&mut self, values: &mut [T])
        requires
            old(self).wf(),
        ensures
            final(self).wf(),
            (final(values)@, final(self)@) == shuffle_spec::<T, Self>(
                old(values)@,
                old(self)@,
                old(values)@.len(),
            ),
            final(values)@.to_multiset() == old(values)@.to_multiset(),
    {
        let mut i: usize = values.len();
        while i >= 2
            invariant
                self.wf(),
                i <= values@.len() == old(values)@.len(),
                shuffle_spec::<T, Self>(old(values)@, old(self)@, old(values)@.len())
                    == shuffle_spec::<T, Self>(values@, self@, i as nat),
                values@.to_multiset() == old(values)@.to_multiset(),
            decreases i,
        {
            // invariant: elements with index >= i have been locked in place.
            i -= 1;
            // lock element i in place.
            let j: usize = self.gen_range(0usize, i + 1);
            proof {
                lemma_swapped_is_permutation(values@, i as int, j as int);
            }
            values.swap(i, j);
        }
    }

    /// Return a generator that will yield an infinite number of randomly
    /// generated items.
    fn gen_iter<'a, T>(&'a mut self) -> (r: Generator<'a, T, Self>) where
        Uniform: Distribution<T, Self>,

        ensures
            *r.rng == *old(self),
            *final(self) == *final(r.rng),
    {
        Generator { rng: self, _marker: core::marker::PhantomData }
    }

    /// Return a generator of random characters from the set A-Z,a-z,0-9.
    fn gen_ascii_chars<'a>(&'a mut self) -> (r: AsciiGenerator<'a, Self>)
        ensures
            *r.rng == *old(self),
            *final(self) == *final(r.rng),
    {
        AsciiGenerator { rng: self }
    }

    /// Return a bool with a 1 in n chance of true
    fn gen_weighted_bool(&mut self, n: u32) -> (r: bool)
        requires
            old(self).wf(),
        ensures
            final(self).wf(),
            n <= 1 ==> r && final(self)@ == old(self)@,
            n > 1 ==> (r, final(self)@) == ({
                let (v, s1) = <u32 as SampleRange<Self>>::sample_single_spec(0, n, old(self)@);
                (v == 0, s1)
            }),
    {
        // Short-circuit after `n <= 1` to avoid an empty range
        n <= 1 || self.gen_range(0u32, n) == 0
    }
}

impl<R: RngCore> Rng for R {

}

/// A generator of values of a distribution, drawn from a source that it
/// has borrowed.
///
/// This generator is created via the [`sample_iter`](Rng::sample_iter)
/// method on [`Rng`].
#[derive(Debug)]
pub struct DistIter<'a, D, R: RngCore> {
    /// The distribution.
    pub distr: &'a D,
    /// The source.
    pub rng: &'a mut R,
}

impl<'a, D, R: RngCore> DistIter<'a, D, R> {
    /// The next value: a sample of the distribution. There always is one.
    pub fn next<T>(&mut self) -> (r: Option<T>) where D: Distribution<T, R>
        requires
            old(self).rng.wf(),
            old(self).distr.wf(),
        ensures
            final(self).rng.wf(),
            final(self).distr == old(self).distr,
            r is Some,
            (r->Some_0, final(self).rng@) == old(self).distr.sample_spec(old(self).rng@),
    {
        let item: T = self.distr.sample(self.rng);
        Some(item)
    }
}

/// Generator which will generate a stream of random items.
///
/// This generator is created via the [`gen_iter`](Rng::gen_iter) method on
/// [`Rng`].
#[derive(Debug)]
pub struct Generator<'a, T, R: RngCore> {
    /// The source of the items.
    pub rng: &'a mut R,
    /// The type of the items.
    pub _marker: core::marker::PhantomData<T>,
}

impl<'a, T, R: RngCore> Generator<'a, T, R> where Uniform: Distribution<T, R> {
    /// The next item: a value of the [`Uniform`] distribution. There always
    /// is one.
    pub fn next(&mut self) -> (r: Option<T>)
        requires
            old(self).rng.wf(),
            <Uniform as Distribution<T, R>>::wf(&Uniform),
        ensures
            final(self).rng.wf(),
            r is Some,
            (r->Some_0, final(self).rng@) == <Uniform as Distribution<T, R>>::sample_spec(
                &Uniform,
                old(self).rng@,
            ),
    {
        let item: T = Uniform.sample(self.rng);
        Some(item)
    }
}

/// The characters that `AsciiGenerator` yields.
pub open spec fn ascii_charset() -> Seq<char> {
    "ABCDEFGHIJKLMNOPQRSTUVWXYZabcdefghijklmnopqrstuvwxyz0123456789"@
}

/// Generator which will continuously generate random ascii characters.
///
/// This generator is created via the
/// [`gen_ascii_chars`](Rng::gen_ascii_chars) method on [`Rng`].
#[derive(Debug)]
pub struct AsciiGenerator<'a, R: RngCore> {
    /// The source of the characters.
    pub rng: &'a mut R,
}

impl<'a, R: RngCore> AsciiGenerator<'a, R> {
    /// The next character: one of the 62 letters and digits, each with the
    /// same chance. There always is one.
    pub fn next(&mut self) -> (r: Option<char>)
        requires
            old(self).rng.wf(),
        ensures
            final(self).rng.wf(),
            ({
                let (i, s1) = <usize as SampleRange<R>>::sample_single_spec(
                    0,
                    62,
                    old(self).rng@,
                );
                &&& 0 <= i < 62
                &&& r == Some(ascii_charset()[i as int])
                &&& final(self).rng@ == s1
            }),
    {
        let charset: &str = "ABCDEFGHIJKLMNOPQRSTUVWXYZabcdefghijklmnopqrstuvwxyz0123456789";
        proof {
            reveal_strlit("ABCDEFGHIJKLMNOPQRSTUVWXYZabcdefghijklmnopqrstuvwxyz0123456789");
        }
        let i: usize = self.rng.gen_range(0usize, 62usize);
        Some(charset.get_char(i))
    }
}

/// A convenience extension to [`SeedableRng`] allowing construction from
/// fresh entropy. Every seedable source has it.
pub trait FromEntropy: SeedableRng {
    /// Creates a new instance, seeded with fresh entropy from `entropy`, or
    /// hands on the failure of that source.
    fn from_entropy<E: EntropySource>(entropy: &mut E) -> (r: Result<Self, Error>)
        requires
            old(entropy).wf(),
        ensures
            final(entropy).wf(),
            final(entropy)@ == from_rng_spec::<Self, E>(old(entropy)@, SEED_ATTEMPTS as nat).1,
            match from_rng_spec::<Self, E>(old(entropy)@, SEED_ATTEMPTS as nat).0 {
                Ok(v) => r matches Ok(g) && g.wf() && g@ == v,
                Err(e) => r matches Err(f) && f == e,
            },
    {
        Self::from_rng(entropy)
    }
}

impl<R: SeedableRng> FromEntropy for R {

}

/// Create a weak random number generator with a default algorithm and
/// seed.
///
/// It returns the fastest generator of this crate without consideration for
/// cryptography or security. The generator is seeded from `rng`, for
/// instance from the generator of the thread; a failure of `rng` is handed
/// on.
pub fn weak_rng<R: EntropySource>(rng: &mut R) -> (r: Result<XorShiftRng, Error>)
    requires
        old(rng).wf(),
    ensures
        final(rng).wf(),
        final(rng)@ == from_rng_spec::<XorShiftRng, R>(old(rng)@, SEED_ATTEMPTS as nat).1,
        match from_rng_spec::<XorShiftRng, R>(old(rng)@, SEED_ATTEMPTS as nat).0 {
            Ok(v) => r matches Ok(g) && g@ == v,
            Err(e) => r matches Err(f) && f == e,
        },
{
    XorShiftRng::from_rng(rng)
}

/// The reservoir that `sample` builds of `values` when `amount` elements
/// are wanted, the elements before index `i` have been looked at, the
/// reservoir stands at `reservoir` and the source is in state `s`; and the
/// state that the source is left in. Element `i` takes a place drawn
/// uniformly from the `i + 1` places up to its own, if that place is one of
/// the reservoir.
pub open spec fn sample_spec<T, R: RngCore>(
    values: Seq<T>,
    reservoir: Seq<T>,
    s: R::V,
    i: nat,
) -> (Seq<T>, R::V)
    decreases values.len() - i,
{
    if i >= values.len() {
        (reservoir, s)
    } else {
        let (k, s1) = <usize as SampleRange<R>>::sample_single_spec(0, (i + 1) as usize, s);
        let next = if k < reservoir.len() {
            reservoir.update(k as int, values[i as int])
        } else {
            reservoir
        };
        sample_spec::<T, R>(values, next, s1, i + 1)
    }
}

/// Randomly sample up to `amount` elements from a slice: each element of
/// the slice with the same chance. The order of elements in the sample is
/// not random. If the slice has fewer than `amount` elements, the sample is
/// the slice.
pub fn sample<T: Copy, R: RngCore>(rng: &mut R, values: &[T], amount: usize) -> (r: Vec<T>)
    requires
        old(rng).wf(),
    ensures
        final(rng).wf(),
        r@.len() == if amount < values@.len() {
            amount as nat
        } else {
            values@.len()
        },
        (r@, final(rng)@) == sample_spec::<T, R>(
            values@,
            values@.take(r@.len() as int),
            old(rng)@,
            r@.len(),
        ),
        forall|j: int| 0 <= j < r@.len() ==> values@.contains(#[trigger] r@[j]),
{
    let n: usize = values.len();
    let first: usize = if amount < n {
        amount
    } else {
        n
    };
    let mut reservoir: Vec<T> = Vec::new();
    let mut i: usize = 0;
    while i < first
        invariant
            i <= first <= n == values@.len(),
            reservoir@ == values@.take(i as int),
        decreases first - i,
    {
        reservoir.push(values[i]);
        assert(reservoir@ =~= values@.take(i + 1));
        i += 1;
    }
    assert forall|j: int| 0 <= j < reservoir@.len() implies values@.contains(
        #[trigger] reservoir@[j],
    ) by {
        assert(values@[j] == reservoir@[j]);
    }
    while i < n
        invariant
            rng.wf(),
            first <= i <= n == values@.len(),
            reservoir@.len() == first,
            sample_spec::<T, R>(values@, values@.take(first as int), old(rng)@, first as nat)
                == sample_spec::<T, R>(values@, reservoir@, rng@, i as nat),
            forall|j: int| 0 <= j < reservoir@.len() ==> values@.contains(#[trigger] reservoir@[j]),
        decreases n - i,
    {
        let k: usize = rng.gen_range(0usize, i + 1);
        if k < first {
            reservoir[k] = values[i];
            assert(values@.contains(values@[i as int]));
        }
        i += 1;
    }
    reservoir
}

} // verus!
