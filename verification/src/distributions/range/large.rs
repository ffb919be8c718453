//! Ranges of the 64-bit integer types and of `usize` and `isize`. Their raw
//! words are the 64-bit words of the source, on every machine.

use vstd::prelude::*;
use crate::distributions::range::{
    below_large, below_large_spec, lemma_below_large_in_range, zone_large, Range, SampleRange,
    REJECTION_LIMIT,
};
use crate::distributions::unbiased::{lemma_whole_domain, words64, zone_of};
use crate::distributions::{ConstructionError, Distribution, IndependentSample, Sample};
use crate::rng::RngCore;

verus! {

impl Range<u64> {
    /// The value that a range with lower bound `low` and `size` values
    /// gives when the source is in state `s`, and the state after.
    pub open spec fn draw_spec<R: RngCore>(low: int, size: int, s: R::V) -> (u64, R::V) {
        let (offset, s1) = below_large_spec::<R>(size, s, REJECTION_LIMIT as nat);
        ((low + offset) as u64, s1)
    }

    /// The lower bound of the range.
    pub closed spec fn low(&self) -> int {
        self.low as int
    }

    /// The number of values in the range.
    pub closed spec fn size(&self) -> int {
        if self.range == 0 {
            words64()
        } else {
            self.range as int
        }
    }

    /// The invariant: the range lies in the type, and what was worked out
    /// for sampling fits its size.
    pub closed spec fn valid(&self) -> bool {
        &&& self.range == 0 ==> self.low == u64::MIN
        &&& self.range != 0 ==> self.zone == zone_of(words64(), self.range as int)
        &&& self.low + self.size() <= u64::MAX + 1
    }

    /// The uniform distribution over `[low, high)`. Fails if the range is
    /// empty: if `low >= high`.
    pub fn new(low: u64, high: u64) -> (r: Result<Range<u64>, ConstructionError>)
        ensures
            match r {
                Ok(d) => low < high && d.valid() && d.low() == low && d.size() == high - low,
                Err(e) => low >= high && e == ConstructionError::EmptyRange,
            },
    {
        if low >= high {
            return Err(ConstructionError::EmptyRange);
        }
        let range: u64 = (high as i128 - low as i128) as u64;
        let zone: u64 = zone_large(range);
        Ok(Range { low, range, zone })
    }

    /// The uniform distribution over `[low, high]`. Fails if the range is
    /// empty: if `low > high`.
    pub fn new_inclusive(low: u64, high: u64) -> (r: Result<Range<u64>, ConstructionError>)
        ensures
            match r {
                Ok(d) => low <= high && d.valid() && d.low() == low && d.size() == high - low + 1,
                Err(e) => low > high && e == ConstructionError::EmptyRange,
            },
    {
        if low > high {
            return Err(ConstructionError::EmptyRange);
        }
        let size: i128 = high as i128 - low as i128 + 1;
        if size == 0x1_0000_0000_0000_0000 {
            return Ok(Range { low, range: 0, zone: 0 });
        }
        let zone: u64 = zone_large(size as u64);
        Ok(Range { low, range: size as u64, zone })
    }
}

impl<R: RngCore> Distribution<u64, R> for Range<u64> {
    open spec fn wf(&self) -> bool {
        self.valid()
    }

    open spec fn sample_spec(&self, s: R::V) -> (u64, R::V) {
        Range::<u64>::draw_spec::<R>(self.low(), self.size(), s)
    }

    fn sample(&self, rng: &mut R) -> (r: u64)
        ensures
            self.low() <= r < self.low() + self.size(),
    {
        proof {
            lemma_below_large_in_range::<R>(self.size(), rng@, REJECTION_LIMIT as nat);
        }
        if self.range == 0 {
            // The range is the whole domain: the raw word is returned as it is.
            let w: u64 = rng.next_u64();
            proof {
                lemma_whole_domain(words64(), w as int);
            }
            (u64::MIN as i128 + w as i128) as u64
        } else {
            let offset: u64 = below_large(self.range, self.zone, rng);
            (self.low as i128 + offset as i128) as u64
        }
    }
}

impl<R: RngCore> Sample<u64, R> for Range<u64> {
    open spec fn sample_wf(&self) -> bool {
        self.valid()
    }

    fn sample(&mut self, rng: &mut R) -> (r: u64)
        ensures
            (r, final(rng)@) == Distribution::<u64, R>::sample_spec(old(self), old(rng)@),
            *final(self) == *old(self),
    {
        Distribution::sample(self, rng)
    }
}

impl<R: RngCore> IndependentSample<u64, R> for Range<u64> {
    fn ind_sample(&self, rng: &mut R) -> (r: u64)
        ensures
            (r, final(rng)@) == Distribution::<u64, R>::sample_spec(self, old(rng)@),
    {
        Distribution::sample(self, rng)
    }
}

impl<R: RngCore> SampleRange<R> for u64 {
    open spec fn as_int(self) -> int {
        self as int
    }

    open spec fn sample_single_spec(low: u64, high: u64, s: R::V) -> (u64, R::V) {
        Range::<u64>::draw_spec::<R>(low as int, high - low, s)
    }

    fn sample_single(low: u64, high: u64, rng: &mut R) -> (r: u64) {
        proof {
            lemma_below_large_in_range::<R>(high - low, rng@, REJECTION_LIMIT as nat);
        }
        let range: u64 = (high as i128 - low as i128) as u64;
        let zone: u64 = zone_large(range);
        let offset: u64 = below_large(range, zone, rng);
        (low as i128 + offset as i128) as u64
    }
}

impl Range<i64> {
    /// The value that a range with lower bound `low` and `size` values
    /// gives when the source is in state `s`, and the state after.
    pub open spec fn draw_spec<R: RngCore>(low: int, size: int, s: R::V) -> (i64, R::V) {
        let (offset, s1) = below_large_spec::<R>(size, s, REJECTION_LIMIT as nat);
        ((low + offset) as i64, s1)
    }

    /// The lower bound of the range.
    pub closed spec fn low(&self) -> int {
        self.low as int
    }

    /// The number of values in the range.
    pub closed spec fn size(&self) -> int {
        if self.range == 0 {
            words64()
        } else {
            self.range as int
        }
    }

    /// The invariant: the range lies in the type, and what was worked out
    /// for sampling fits its size.
    pub closed spec fn valid(&self) -> bool {
        &&& self.range == 0 ==> self.low == i64::MIN
        &&& self.range != 0 ==> self.zone == zone_of(words64(), self.range as int)
        &&& self.low + self.size() <= i64::MAX + 1
    }

    /// The uniform distribution over `[low, high)`. Fails if the range is
    /// empty: if `low >= high`.
    pub fn new(low: i64, high: i64) -> (r: Result<Range<i64>, ConstructionError>)
        ensures
            match r {
                Ok(d) => low < high && d.valid() && d.low() == low && d.size() == high - low,
                Err(e) => low >= high && e == ConstructionError::EmptyRange,
            },
    {
        if low >= high {
            return Err(ConstructionError::EmptyRange);
        }
        let range: u64 = (high as i128 - low as i128) as u64;
        let zone: u64 = zone_large(range);
        Ok(Range { low, range, zone })
    }

    /// The uniform distribution over `[low, high]`. Fails if the range is
    /// empty: if `low > high`.
    pub fn new_inclusive(low: i64, high: i64) -> (r: Result<Range<i64>, ConstructionError>)
        ensures
            match r {
                Ok(d) => low <= high && d.valid() && d.low() == low && d.size() == high - low + 1,
                Err(e) => low > high && e == ConstructionError::EmptyRange,
            },
    {
        if low > high {
            return Err(ConstructionError::EmptyRange);
        }
        let size: i128 = high as i128 - low as i128 + 1;
        if size == 0x1_0000_0000_0000_0000 {
            return Ok(Range { low, range: 0, zone: 0 });
        }
        let zone: u64 = zone_large(size as u64);
        Ok(Range { low, range: size as u64, zone })
    }
}

impl<R: RngCore> Distribution<i64, R> for Range<i64> {
    open spec fn wf(&self) -> bool {
        self.valid()
    }

    open spec fn sample_spec(&self, s: R::V) -> (i64, R::V) {
        Range::<i64>::draw_spec::<R>(self.low(), self.size(), s)
    }

    fn sample(&self, rng: &mut R) -> (r: i64)
        ensures
            self.low() <= r < self.low() + self.size(),
    {
        proof {
            lemma_below_large_in_range::<R>(self.size(), rng@, REJECTION_LIMIT as nat);
        }
        if self.range == 0 {
            // The range is the whole domain: the raw word is returned as it is.
            let w: u64 = rng.next_u64();
            proof {
                lemma_whole_domain(words64(), w as int);
            }
            (i64::MIN as i128 + w as i128) as i64
        } else {
            let offset: u64 = below_large(self.range, self.zone, rng);
            (self.low as i128 + offset as i128) as i64
        }
    }
}

impl<R: RngCore> Sample<i64, R> for Range<i64> {
    open spec fn sample_wf(&self) -> bool {
        self.valid()
    }

    fn sample(&mut self, rng: &mut R) -> (r: i64)
        ensures
            (r, final(rng)@) == Distribution::<i64, R>::sample_spec(old(self), old(rng)@),
            *final(self) == *old(self),
    {
        Distribution::sample(self, rng)
    }
}

impl<R: RngCore> IndependentSample<i64, R> for Range<i64> {
    fn ind_sample(&self, rng: &mut R) -> (r: i64)
        ensures
            (r, final(rng)@) == Distribution::<i64, R>::sample_spec(self, old(rng)@),
    {
        Distribution::sample(self, rng)
    }
}

impl<R: RngCore> SampleRange<R> for i64 {
    open spec fn as_int(self) -> int {
        self as int
    }

    open spec fn sample_single_spec(low: i64, high: i64, s: R::V) -> (i64, R::V) {
        Range::<i64>::draw_spec::<R>(low as int, high - low, s)
    }

    fn sample_single(low: i64, high: i64, rng: &mut R) -> (r: i64) {
        proof {
            lemma_below_large_in_range::<R>(high - low, rng@, REJECTION_LIMIT as nat);
        }
        let range: u64 = (high as i128 - low as i128) as u64;
        let zone: u64 = zone_large(range);
        let offset: u64 = below_large(range, zone, rng);
        (low as i128 + offset as i128) as i64
    }
}

impl Range<usize> {
    /// The value that a range with lower bound `low` and `size` values
    /// gives when the source is in state `s`, and the state after.
    pub open spec fn draw_spec<R: RngCore>(low: int, size: int, s: R::V) -> (usize, R::V) {
        let (offset, s1) = below_large_spec::<R>(size, s, REJECTION_LIMIT as nat);
        ((low + offset) as usize, s1)
    }

    /// The lower bound of the range.
    pub closed spec fn low(&self) -> int {
        self.low as int
    }

    /// The number of values in the range.
    pub closed spec fn size(&self) -> int {
        if self.range == 0 {
            words64()
        } else {
            self.range as int
        }
    }

    /// The invariant: the range lies in the type, and what was worked out
    /// for sampling fits its size.
    pub closed spec fn valid(&self) -> bool {
        &&& self.range == 0 ==> self.low == usize::MIN
        &&& self.range != 0 ==> self.zone == zone_of(words64(), self.range as int)
        &&& self.low + self.size() <= usize::MAX + 1
    }

    /// The uniform distribution over `[low, high)`. Fails if the range is
    /// empty: if `low >= high`.
    pub fn new(low: usize, high: usize) -> (r: Result<Range<usize>, ConstructionError>)
        ensures
            match r {
                Ok(d) => low < high && d.valid() && d.low() == low && d.size() == high - low,
                Err(e) => low >= high && e == ConstructionError::EmptyRange,
            },
    {
        if low >= high {
            return Err(ConstructionError::EmptyRange);
        }
        let range: u64 = (high as i128 - low as i128) as u64;
        let zone: u64 = zone_large(range);
        Ok(Range { low, range, zone })
    }

    /// The uniform distribution over `[low, high]`. Fails if the range is
    /// empty: if `low > high`.
    pub fn new_inclusive(low: usize, high: usize) -> (r: Result<Range<usize>, ConstructionError>)
        ensures
            match r {
                Ok(d) => low <= high && d.valid() && d.low() == low && d.size() == high - low + 1,
                Err(e) => low > high && e == ConstructionError::EmptyRange,
            },
    {
        if low > high {
            return Err(ConstructionError::EmptyRange);
        }
        let size: i128 = high as i128 - low as i128 + 1;
        if size == 0x1_0000_0000_0000_0000 {
            return Ok(Range { low, range: 0, zone: 0 });
        }
        let zone: u64 = zone_large(size as u64);
        Ok(Range { low, range: size as u64, zone })
    }
}

impl<R: RngCore> Distribution<usize, R> for Range<usize> {
    open spec fn wf(&self) -> bool {
        self.valid()
    }

    open spec fn sample_spec(&self, s: R::V) -> (usize, R::V) {
        Range::<usize>::draw_spec::<R>(self.low(), self.size(), s)
    }

    fn sample(&self, rng: &mut R) -> (r: usize)
        ensures
            self.low() <= r < self.low() + self.size(),
    {
        proof {
            lemma_below_large_in_range::<R>(self.size(), rng@, REJECTION_LIMIT as nat);
        }
        if self.range == 0 {
            // The range is the whole domain: the raw word is returned as it is.
            let w: u64 = rng.next_u64();
            proof {
                lemma_whole_domain(words64(), w as int);
            }
            (usize::MIN as i128 + w as i128) as usize
        } else {
            let offset: u64 = below_large(self.range, self.zone, rng);
            (self.low as i128 + offset as i128) as usize
        }
    }
}

impl<R: RngCore> Sample<usize, R> for Range<usize> {
    open spec fn sample_wf(&self) -> bool {
        self.valid()
    }

    fn sample(&mut self, rng: &mut R) -> (r: usize)
        ensures
            (r, final(rng)@) == Distribution::<usize, R>::sample_spec(old(self), old(rng)@),
            *final(self) == *old(self),
    {
        Distribution::sample(self, rng)
    }
}

impl<R: RngCore> IndependentSample<usize, R> for Range<usize> {
    fn ind_sample(&self, rng: &mut R) -> (r: usize)
        ensures
            (r, final(rng)@) == Distribution::<usize, R>::sample_spec(self, old(rng)@),
    {
        Distribution::sample(self, rng)
    }
}

impl<R: RngCore> SampleRange<R> for usize {
    open spec fn as_int(self) -> int {
        self as int
    }

    open spec fn sample_single_spec(low: usize, high: usize, s: R::V) -> (usize, R::V) {
        Range::<usize>::draw_spec::<R>(low as int, high - low, s)
    }

    fn sample_single(low: usize, high: usize, rng: &mut R) -> (r: usize) {
        proof {
            lemma_below_large_in_range::<R>(high - low, rng@, REJECTION_LIMIT as nat);
        }
        let range: u64 = (high as i128 - low as i128) as u64;
        let zone: u64 = zone_large(range);
        let offset: u64 = below_large(range, zone, rng);
        (low as i128 + offset as i128) as usize
    }
}

impl Range<isize> {
    /// The value that a range with lower bound `low` and `size` values
    /// gives when the source is in state `s`, and the state after.
    pub open spec fn draw_spec<R: RngCore>(low: int, size: int, s: R::V) -> (isize, R::V) {
        let (offset, s1) = below_large_spec::<R>(size, s, REJECTION_LIMIT as nat);
        ((low + offset) as isize, s1)
    }

    /// The lower bound of the range.
    pub closed spec fn low(&self) -> int {
        self.low as int
    }

    /// The number of values in the range.
    pub closed spec fn size(&self) -> int {
        if self.range == 0 {
            words64()
        } else {
            self.range as int
        }
    }

    /// The invariant: the range lies in the type, and what was worked out
    /// for sampling fits its size.
    pub closed spec fn valid(&self) -> bool {
        &&& self.range == 0 ==> self.low == isize::MIN
        &&& self.range != 0 ==> self.zone == zone_of(words64(), self.range as int)
        &&& self.low + self.size() <= isize::MAX + 1
    }

    /// The uniform distribution over `[low, high)`. Fails if the range is
    /// empty: if `low >= high`.
    pub fn new(low: isize, high: isize) -> (r: Result<Range<isize>, ConstructionError>)
        ensures
            match r {
                Ok(d) => low < high && d.valid() && d.low() == low && d.size() == high - low,
                Err(e) => low >= high && e == ConstructionError::EmptyRange,
            },
    {
        if low >= high {
            return Err(ConstructionError::EmptyRange);
        }
        let range: u64 = (high as i128 - low as i128) as u64;
        let zone: u64 = zone_large(range);
        Ok(Range { low, range, zone })
    }

    /// The uniform distribution over `[low, high]`. Fails if the range is
    /// empty: if `low > high`.
    pub fn new_inclusive(low: isize, high: isize) -> (r: Result<Range<isize>, ConstructionError>)
        ensures
            match r {
                Ok(d) => low <= high && d.valid() && d.low() == low && d.size() == high - low + 1,
                Err(e) => low > high && e == ConstructionError::EmptyRange,
            },
    {
        if low > high {
            return Err(ConstructionError::EmptyRange);
        }
        let size: i128 = high as i128 - low as i128 + 1;
        if size == 0x1_0000_0000_0000_0000 {
            return Ok(Range { low, range: 0, zone: 0 });
        }
        let zone: u64 = zone_large(size as u64);
        Ok(Range { low, range: size as u64, zone })
    }
}

impl<R: RngCore> Distribution<isize, R> for Range<isize> {
    open spec fn wf(&self) -> bool {
        self.valid()
    }

    open spec fn sample_spec(&self, s: R::V) -> (isize, R::V) {
        Range::<isize>::draw_spec::<R>(self.low(), self.size(), s)
    }

    fn sample(&self, rng: &mut R) -> (r: isize)
        ensures
            self.low() <= r < self.low() + self.size(),
    {
        proof {
            lemma_below_large_in_range::<R>(self.size(), rng@, REJECTION_LIMIT as nat);
        }
        if self.range == 0 {
            // The range is the whole domain: the raw word is returned as it is.
            let w: u64 = rng.next_u64();
            proof {
                lemma_whole_domain(words64(), w as int);
            }
            (isize::MIN as i128 + w as i128) as isize
        } else {
            let offset: u64 = below_large(self.range, self.zone, rng);
            (self.low as i128 + offset as i128) as isize
        }
    }
}

impl<R: RngCore> Sample<isize, R> for Range<isize> {
    open spec fn sample_wf(&self) -> bool {
        self.valid()
    }

    fn sample(&mut self, rng: &mut R) -> (r: isize)
        ensures
            (r, final(rng)@) == Distribution::<isize, R>::sample_spec(old(self), old(rng)@),
            *final(self) == *old(self),
    {
        Distribution::sample(self, rng)
    }
}

impl<R: RngCore> IndependentSample<isize, R> for Range<isize> {
    fn ind_sample(&self, rng: &mut R) -> (r: isize)
        ensures
            (r, final(rng)@) == Distribution::<isize, R>::sample_spec(self, old(rng)@),
    {
        Distribution::sample(self, rng)
    }
}

impl<R: RngCore> SampleRange<R> for isize {
    open spec fn as_int(self) -> int {
        self as int
    }

    open spec fn sample_single_spec(low: isize, high: isize, s: R::V) -> (isize, R::V) {
        Range::<isize>::draw_spec::<R>(low as int, high - low, s)
    }

    fn sample_single(low: isize, high: isize, rng: &mut R) -> (r: isize) {
        proof {
            lemma_below_large_in_range::<R>(high - low, rng@, REJECTION_LIMIT as nat);
        }
        let range: u64 = (high as i128 - low as i128) as u64;
        let zone: u64 = zone_large(range);
        let offset: u64 = below_large(range, zone, rng);
        (low as i128 + offset as i128) as isize
    }
}

} // verus!
