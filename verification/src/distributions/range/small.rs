//! Ranges of the integer types of up to 32 bits. Their raw words are taken
//! from the 32-bit words of the source: the low bits, as many as the type has.

use vstd::prelude::*;
use crate::distributions::range::{
    below_small, below_small_spec, lemma_below_small_in_range, zone_small, Range, SampleRange,
    REJECTION_LIMIT,
};
use crate::distributions::unbiased::{lemma_whole_domain, zone_of};
use crate::distributions::{ConstructionError, Distribution, IndependentSample, Sample};
use crate::rng::RngCore;

verus! {

impl Range<u8> {
    /// The value that a range with lower bound `low` and `size` values
    /// gives when the source is in state `s`, and the state after.
    pub open spec fn draw_spec<R: RngCore>(low: int, size: int, s: R::V) -> (u8, R::V) {
        let (offset, s1) = below_small_spec::<R>(0x100, size, s, REJECTION_LIMIT as nat);
        ((low + offset) as u8, s1)
    }

    /// The lower bound of the range.
    pub closed spec fn low(&self) -> int {
        self.low as int
    }

    /// The number of values in the range.
    pub closed spec fn size(&self) -> int {
        if self.range == 0 {
            0x100
        } else {
            self.range as int
        }
    }

    /// The invariant: the range lies in the type, and what was worked out
    /// for sampling fits its size.
    pub closed spec fn valid(&self) -> bool {
        &&& self.range < 0x100
        &&& self.zone < 0x100
        &&& self.range == 0 ==> self.low == u8::MIN
        &&& self.range != 0 ==> self.zone == zone_of(0x100, self.range as int)
        &&& self.low + self.size() <= u8::MAX + 1
    }

    /// The uniform distribution over `[low, high)`. Fails if the range is
    /// empty: if `low >= high`.
    pub fn new(low: u8, high: u8) -> (r: Result<Range<u8>, ConstructionError>)
        ensures
            match r {
                Ok(d) => low < high && d.valid() && d.low() == low && d.size() == high - low,
                Err(e) => low >= high && e == ConstructionError::EmptyRange,
            },
    {
        if low >= high {
            return Err(ConstructionError::EmptyRange);
        }
        let range: u32 = (high as i64 - low as i64) as u32;
        let zone: u32 = zone_small(0x100, range);
        Ok(Range { low, range: range as u64, zone: zone as u64 })
    }

    /// The uniform distribution over `[low, high]`. Fails if the range is
    /// empty: if `low > high`.
    pub fn new_inclusive(low: u8, high: u8) -> (r: Result<Range<u8>, ConstructionError>)
        ensures
            match r {
                Ok(d) => low <= high && d.valid() && d.low() == low && d.size() == high - low + 1,
                Err(e) => low > high && e == ConstructionError::EmptyRange,
            },
    {
        if low > high {
            return Err(ConstructionError::EmptyRange);
        }
        let size: u64 = (high as i64 - low as i64 + 1) as u64;
        if size == 0x100 {
            return Ok(Range { low, range: 0, zone: 0 });
        }
        let zone: u32 = zone_small(0x100, size as u32);
        Ok(Range { low, range: size, zone: zone as u64 })
    }
}

impl<R: RngCore> Distribution<u8, R> for Range<u8> {
    open spec fn wf(&self) -> bool {
        self.valid()
    }

    open spec fn sample_spec(&self, s: R::V) -> (u8, R::V) {
        Range::<u8>::draw_spec::<R>(self.low(), self.size(), s)
    }

    fn sample(&self, rng: &mut R) -> (r: u8)
        ensures
            self.low() <= r < self.low() + self.size(),
    {
        proof {
            lemma_below_small_in_range::<R>(0x100, self.size(), rng@, REJECTION_LIMIT as nat);
        }
        if self.range == 0 {
            // The range is the whole domain: the raw word is returned as it is.
            let w: u64 = (rng.next_u32() as u64) % 0x100;
            proof {
                lemma_whole_domain(0x100, w as int);
            }
            (u8::MIN as i64 + w as i64) as u8
        } else {
            let offset: u32 = below_small(0x100, self.range as u32, self.zone as u32, rng);
            (self.low as i64 + offset as i64) as u8
        }
    }
}

impl<R: RngCore> Sample<u8, R> for Range<u8> {
    open spec fn sample_wf(&self) -> bool {
        self.valid()
    }

    fn sample(&mut self, rng: &mut R) -> (r: u8)
        ensures
            (r, final(rng)@) == Distribution::<u8, R>::sample_spec(old(self), old(rng)@),
            *final(self) == *old(self),
    {
        Distribution::sample(self, rng)
    }
}

impl<R: RngCore> IndependentSample<u8, R> for Range<u8> {
    fn ind_sample(&self, rng: &mut R) -> (r: u8)
        ensures
            (r, final(rng)@) == Distribution::<u8, R>::sample_spec(self, old(rng)@),
    {
        Distribution::sample(self, rng)
    }
}

impl<R: RngCore> SampleRange<R> for u8 {
    open spec fn as_int(self) -> int {
        self as int
    }

    open spec fn sample_single_spec(low: u8, high: u8, s: R::V) -> (u8, R::V) {
        Range::<u8>::draw_spec::<R>(low as int, high - low, s)
    }

    fn sample_single(low: u8, high: u8, rng: &mut R) -> (r: u8) {
        let range: u32 = (high as i64 - low as i64) as u32;
        let zone: u32 = zone_small(0x100, range);
        let offset: u32 = below_small(0x100, range, zone, rng);
        (low as i64 + offset as i64) as u8
    }
}

impl Range<u16> {
    /// The value that a range with lower bound `low` and `size` values
    /// gives when the source is in state `s`, and the state after.
    pub open spec fn draw_spec<R: RngCore>(low: int, size: int, s: R::V) -> (u16, R::V) {
        let (offset, s1) = below_small_spec::<R>(0x1_0000, size, s, REJECTION_LIMIT as nat);
        ((low + offset) as u16, s1)
    }

    /// The lower bound of the range.
    pub closed spec fn low(&self) -> int {
        self.low as int
    }

    /// The number of values in the range.
    pub closed spec fn size(&self) -> int {
        if self.range == 0 {
            0x1_0000
        } else {
            self.range as int
        }
    }

    /// The invariant: the range lies in the type, and what was worked out
    /// for sampling fits its size.
    pub closed spec fn valid(&self) -> bool {
        &&& self.range < 0x1_0000
        &&& self.zone < 0x1_0000
        &&& self.range == 0 ==> self.low == u16::MIN
        &&& self.range != 0 ==> self.zone == zone_of(0x1_0000, self.range as int)
        &&& self.low + self.size() <= u16::MAX + 1
    }

    /// The uniform distribution over `[low, high)`. Fails if the range is
    /// empty: if `low >= high`.
    pub fn new(low: u16, high: u16) -> (r: Result<Range<u16>, ConstructionError>)
        ensures
            match r {
                Ok(d) => low < high && d.valid() && d.low() == low && d.size() == high - low,
                Err(e) => low >= high && e == ConstructionError::EmptyRange,
            },
    {
        if low >= high {
            return Err(ConstructionError::EmptyRange);
        }
        let range: u32 = (high as i64 - low as i64) as u32;
        let zone: u32 = zone_small(0x1_0000, range);
        Ok(Range { low, range: range as u64, zone: zone as u64 })
    }

    /// The uniform distribution over `[low, high]`. Fails if the range is
    /// empty: if `low > high`.
    pub fn new_inclusive(low: u16, high: u16) -> (r: Result<Range<u16>, ConstructionError>)
        ensures
            match r {
                Ok(d) => low <= high && d.valid() && d.low() == low && d.size() == high - low + 1,
                Err(e) => low > high && e == ConstructionError::EmptyRange,
            },
    {
        if low > high {
            return Err(ConstructionError::EmptyRange);
        }
        let size: u64 = (high as i64 - low as i64 + 1) as u64;
        if size == 0x1_0000 {
            return Ok(Range { low, range: 0, zone: 0 });
        }
        let zone: u32 = zone_small(0x1_0000, size as u32);
        Ok(Range { low, range: size, zone: zone as u64 })
    }
}

impl<R: RngCore> Distribution<u16, R> for Range<u16> {
    open spec fn wf(&self) -> bool {
        self.valid()
    }

    open spec fn sample_spec(&self, s: R::V) -> (u16, R::V) {
        Range::<u16>::draw_spec::<R>(self.low(), self.size(), s)
    }

    fn sample(&self, rng: &mut R) -> (r: u16)
        ensures
            self.low() <= r < self.low() + self.size(),
    {
        proof {
            lemma_below_small_in_range::<R>(0x1_0000, self.size(), rng@, REJECTION_LIMIT as nat);
        }
        if self.range == 0 {
            // The range is the whole domain: the raw word is returned as it is.
            let w: u64 = (rng.next_u32() as u64) % 0x1_0000;
            proof {
                lemma_whole_domain(0x1_0000, w as int);
            }
            (u16::MIN as i64 + w as i64) as u16
        } else {
            let offset: u32 = below_small(0x1_0000, self.range as u32, self.zone as u32, rng);
            (self.low as i64 + offset as i64) as u16
        }
    }
}

impl<R: RngCore> Sample<u16, R> for Range<u16> {
    open spec fn sample_wf(&self) -> bool {
        self.valid()
    }

    fn sample(&mut self, rng: &mut R) -> (r: u16)
        ensures
            (r, final(rng)@) == Distribution::<u16, R>::sample_spec(old(self), old(rng)@),
            *final(self) == *old(self),
    {
        Distribution::sample(self, rng)
    }
}

impl<R: RngCore> IndependentSample<u16, R> for Range<u16> {
    fn ind_sample(&self, rng: &mut R) -> (r: u16)
        ensures
            (r, final(rng)@) == Distribution::<u16, R>::sample_spec(self, old(rng)@),
    {
        Distribution::sample(self, rng)
    }
}

impl<R: RngCore> SampleRange<R> for u16 {
    open spec fn as_int(self) -> int {
        self as int
    }

    open spec fn sample_single_spec(low: u16, high: u16, s: R::V) -> (u16, R::V) {
        Range::<u16>::draw_spec::<R>(low as int, high - low, s)
    }

    fn sample_single(low: u16, high: u16, rng: &mut R) -> (r: u16) {
        let range: u32 = (high as i64 - low as i64) as u32;
        let zone: u32 = zone_small(0x1_0000, range);
        let offset: u32 = below_small(0x1_0000, range, zone, rng);
        (low as i64 + offset as i64) as u16
    }
}

impl Range<u32> {
    /// The value that a range with lower bound `low` and `size` values
    /// gives when the source is in state `s`, and the state after.
    pub open spec fn draw_spec<R: RngCore>(low: int, size: int, s: R::V) -> (u32, R::V) {
        let (offset, s1) = below_small_spec::<R>(0x1_0000_0000, size, s, REJECTION_LIMIT as nat);
        ((low + offset) as u32, s1)
    }

    /// The lower bound of the range.
    pub closed spec fn low(&self) -> int {
        self.low as int
    }

    /// The number of values in the range.
    pub closed spec fn size(&self) -> int {
        if self.range == 0 {
            0x1_0000_0000
        } else {
            self.range as int
        }
    }

    /// The invariant: the range lies in the type, and what was worked out
    /// for sampling fits its size.
    pub closed spec fn valid(&self) -> bool {
        &&& self.range < 0x1_0000_0000
        &&& self.zone < 0x1_0000_0000
        &&& self.range == 0 ==> self.low == u32::MIN
        &&& self.range != 0 ==> self.zone == zone_of(0x1_0000_0000, self.range as int)
        &&& self.low + self.size() <= u32::MAX + 1
    }

    /// The uniform distribution over `[low, high)`. Fails if the range is
    /// empty: if `low >= high`.
    pub fn new(low: u32, high: u32) -> (r: Result<Range<u32>, ConstructionError>)
        ensures
            match r {
                Ok(d) => low < high && d.valid() && d.low() == low && d.size() == high - low,
                Err(e) => low >= high && e == ConstructionError::EmptyRange,
            },
    {
        if low >= high {
            return Err(ConstructionError::EmptyRange);
        }
        let range: u32 = (high as i64 - low as i64) as u32;
        let zone: u32 = zone_small(0x1_0000_0000, range);
        Ok(Range { low, range: range as u64, zone: zone as u64 })
    }

    /// The uniform distribution over `[low, high]`. Fails if the range is
    /// empty: if `low > high`.
    pub fn new_inclusive(low: u32, high: u32) -> (r: Result<Range<u32>, ConstructionError>)
        ensures
            match r {
                Ok(d) => low <= high && d.valid() && d.low() == low && d.size() == high - low + 1,
                Err(e) => low > high && e == ConstructionError::EmptyRange,
            },
    {
        if low > high {
            return Err(ConstructionError::EmptyRange);
        }
        let size: u64 = (high as i64 - low as i64 + 1) as u64;
        if size == 0x1_0000_0000 {
            return Ok(Range { low, range: 0, zone: 0 });
        }
        let zone: u32 = zone_small(0x1_0000_0000, size as u32);
        Ok(Range { low, range: size, zone: zone as u64 })
    }
}

impl<R: RngCore> Distribution<u32, R> for Range<u32> {
    open spec fn wf(&self) -> bool {
        self.valid()
    }

    open spec fn sample_spec(&self, s: R::V) -> (u32, R::V) {
        Range::<u32>::draw_spec::<R>(self.low(), self.size(), s)
    }

    fn sample(&self, rng: &mut R) -> (r: u32)
        ensures
            self.low() <= r < self.low() + self.size(),
    {
        proof {
            lemma_below_small_in_range::<R>(0x1_0000_0000, self.size(), rng@, REJECTION_LIMIT as nat);
        }
        if self.range == 0 {
            // The range is the whole domain: the raw word is returned as it is.
            let w: u64 = (rng.next_u32() as u64) % 0x1_0000_0000;
            proof {
                lemma_whole_domain(0x1_0000_0000, w as int);
            }
            (u32::MIN as i64 + w as i64) as u32
        } else {
            let offset: u32 = below_small(0x1_0000_0000, self.range as u32, self.zone as u32, rng);
            (self.low as i64 + offset as i64) as u32
        }
    }
}

impl<R: RngCore> Sample<u32, R> for Range<u32> {
    open spec fn sample_wf(&self) -> bool {
        self.valid()
    }

    fn sample(&mut self, rng: &mut R) -> (r: u32)
        ensures
            (r, final(rng)@) == Distribution::<u32, R>::sample_spec(old(self), old(rng)@),
            *final(self) == *old(self),
    {
        Distribution::sample(self, rng)
    }
}

impl<R: RngCore> IndependentSample<u32, R> for Range<u32> {
    fn ind_sample(&self, rng: &mut R) -> (r: u32)
        ensures
            (r, final(rng)@) == Distribution::<u32, R>::sample_spec(self, old(rng)@),
    {
        Distribution::sample(self, rng)
    }
}

impl<R: RngCore> SampleRange<R> for u32 {
    open spec fn as_int(self) -> int {
        self as int
    }

    open spec fn sample_single_spec(low: u32, high: u32, s: R::V) -> (u32, R::V) {
        Range::<u32>::draw_spec::<R>(low as int, high - low, s)
    }

    fn sample_single(low: u32, high: u32, rng: &mut R) -> (r: u32) {
        let range: u32 = (high as i64 - low as i64) as u32;
        let zone: u32 = zone_small(0x1_0000_0000, range);
        let offset: u32 = below_small(0x1_0000_0000, range, zone, rng);
        (low as i64 + offset as i64) as u32
    }
}

impl Range<i8> {
    /// The value that a range with lower bound `low` and `size` values
    /// gives when the source is in state `s`, and the state after.
    pub open spec fn draw_spec<R: RngCore>(low: int, size: int, s: R::V) -> (i8, R::V) {
        let (offset, s1) = below_small_spec::<R>(0x100, size, s, REJECTION_LIMIT as nat);
        ((low + offset) as i8, s1)
    }

    /// The lower bound of the range.
    pub closed spec fn low(&self) -> int {
        self.low as int
    }

    /// The number of values in the range.
    pub closed spec fn size(&self) -> int {
        if self.range == 0 {
            0x100
        } else {
            self.range as int
        }
    }

    /// The invariant: the range lies in the type, and what was worked out
    /// for sampling fits its size.
    pub closed spec fn valid(&self) -> bool {
        &&& self.range < 0x100
        &&& self.zone < 0x100
        &&& self.range == 0 ==> self.low == i8::MIN
        &&& self.range != 0 ==> self.zone == zone_of(0x100, self.range as int)
        &&& self.low + self.size() <= i8::MAX + 1
    }

    /// The uniform distribution over `[low, high)`. Fails if the range is
    /// empty: if `low >= high`.
    pub fn new(low: i8, high: i8) -> (r: Result<Range<i8>, ConstructionError>)
        ensures
            match r {
                Ok(d) => low < high && d.valid() && d.low() == low && d.size() == high - low,
                Err(e) => low >= high && e == ConstructionError::EmptyRange,
            },
    {
        if low >= high {
            return Err(ConstructionError::EmptyRange);
        }
        let range: u32 = (high as i64 - low as i64) as u32;
        let zone: u32 = zone_small(0x100, range);
        Ok(Range { low, range: range as u64, zone: zone as u64 })
    }

    /// The uniform distribution over `[low, high]`. Fails if the range is
    /// empty: if `low > high`.
    pub fn new_inclusive(low: i8, high: i8) -> (r: Result<Range<i8>, ConstructionError>)
        ensures
            match r {
                Ok(d) => low <= high && d.valid() && d.low() == low && d.size() == high - low + 1,
                Err(e) => low > high && e == ConstructionError::EmptyRange,
            },
    {
        if low > high {
            return Err(ConstructionError::EmptyRange);
        }
        let size: u64 = (high as i64 - low as i64 + 1) as u64;
        if size == 0x100 {
            return Ok(Range { low, range: 0, zone: 0 });
        }
        let zone: u32 = zone_small(0x100, size as u32);
        Ok(Range { low, range: size, zone: zone as u64 })
    }
}

impl<R: RngCore> Distribution<i8, R> for Range<i8> {
    open spec fn wf(&self) -> bool {
        self.valid()
    }

    open spec fn sample_spec(&self, s: R::V) -> (i8, R::V) {
        Range::<i8>::draw_spec::<R>(self.low(), self.size(), s)
    }

    fn sample(&self, rng: &mut R) -> (r: i8)
        ensures
            self.low() <= r < self.low() + self.size(),
    {
        proof {
            lemma_below_small_in_range::<R>(0x100, self.size(), rng@, REJECTION_LIMIT as nat);
        }
        if self.range == 0 {
            // The range is the whole domain: the raw word is returned as it is.
            let w: u64 = (rng.next_u32() as u64) % 0x100;
            proof {
                lemma_whole_domain(0x100, w as int);
            }
            (i8::MIN as i64 + w as i64) as i8
        } else {
            let offset: u32 = below_small(0x100, self.range as u32, self.zone as u32, rng);
            (self.low as i64 + offset as i64) as i8
        }
    }
}

impl<R: RngCore> Sample<i8, R> for Range<i8> {
    open spec fn sample_wf(&self) -> bool {
        self.valid()
    }

    fn sample(&mut self, rng: &mut R) -> (r: i8)
        ensures
            (r, final(rng)@) == Distribution::<i8, R>::sample_spec(old(self), old(rng)@),
            *final(self) == *old(self),
    {
        Distribution::sample(self, rng)
    }
}

impl<R: RngCore> IndependentSample<i8, R> for Range<i8> {
    fn ind_sample(&self, rng: &mut R) -> (r: i8)
        ensures
            (r, final(rng)@) == Distribution::<i8, R>::sample_spec(self, old(rng)@),
    {
        Distribution::sample(self, rng)
    }
}

impl<R: RngCore> SampleRange<R> for i8 {
    open spec fn as_int(self) -> int {
        self as int
    }

    open spec fn sample_single_spec(low: i8, high: i8, s: R::V) -> (i8, R::V) {
        Range::<i8>::draw_spec::<R>(low as int, high - low, s)
    }

    fn sample_single(low: i8, high: i8, rng: &mut R) -> (r: i8) {
        let range: u32 = (high as i64 - low as i64) as u32;
        let zone: u32 = zone_small(0x100, range);
        let offset: u32 = below_small(0x100, range, zone, rng);
        (low as i64 + offset as i64) as i8
    }
}

impl Range<i16> {
    /// The value that a range with lower bound `low` and `size` values
    /// gives when the source is in state `s`, and the state after.
    pub open spec fn draw_spec<R: RngCore>(low: int, size: int, s: R::V) -> (i16, R::V) {
        let (offset, s1) = below_small_spec::<R>(0x1_0000, size, s, REJECTION_LIMIT as nat);
        ((low + offset) as i16, s1)
    }

    /// The lower bound of the range.
    pub closed spec fn low(&self) -> int {
        self.low as int
    }

    /// The number of values in the range.
    pub closed spec fn size(&self) -> int {
        if self.range == 0 {
            0x1_0000
        } else {
            self.range as int
        }
    }

    /// The invariant: the range lies in the type, and what was worked out
    /// for sampling fits its size.
    pub closed spec fn valid(&self) -> bool {
        &&& self.range < 0x1_0000
        &&& self.zone < 0x1_0000
        &&& self.range == 0 ==> self.low == i16::MIN
        &&& self.range != 0 ==> self.zone == zone_of(0x1_0000, self.range as int)
        &&& self.low + self.size() <= i16::MAX + 1
    }

    /// The uniform distribution over `[low, high)`. Fails if the range is
    /// empty: if `low >= high`.
    pub fn new(low: i16, high: i16) -> (r: Result<Range<i16>, ConstructionError>)
        ensures
            match r {
                Ok(d) => low < high && d.valid() && d.low() == low && d.size() == high - low,
                Err(e) => low >= high && e == ConstructionError::EmptyRange,
            },
    {
        if low >= high {
            return Err(ConstructionError::EmptyRange);
        }
        let range: u32 = (high as i64 - low as i64) as u32;
        let zone: u32 = zone_small(0x1_0000, range);
        Ok(Range { low, range: range as u64, zone: zone as u64 })
    }

    /// The uniform distribution over `[low, high]`. Fails if the range is
    /// empty: if `low > high`.
    pub fn new_inclusive(low: i16, high: i16) -> (r: Result<Range<i16>, ConstructionError>)
        ensures
            match r {
                Ok(d) => low <= high && d.valid() && d.low() == low && d.size() == high - low + 1,
                Err(e) => low > high && e == ConstructionError::EmptyRange,
            },
    {
        if low > high {
            return Err(ConstructionError::EmptyRange);
        }
        let size: u64 = (high as i64 - low as i64 + 1) as u64;
        if size == 0x1_0000 {
            return Ok(Range { low, range: 0, zone: 0 });
        }
        let zone: u32 = zone_small(0x1_0000, size as u32);
        Ok(Range { low, range: size, zone: zone as u64 })
    }
}

impl<R: RngCore> Distribution<i16, R> for Range<i16> {
    open spec fn wf(&self) -> bool {
        self.valid()
    }

    open spec fn sample_spec(&self, s: R::V) -> (i16, R::V) {
        Range::<i16>::draw_spec::<R>(self.low(), self.size(), s)
    }

    fn sample(&self, rng: &mut R) -> (r: i16)
        ensures
            self.low() <= r < self.low() + self.size(),
    {
        proof {
            lemma_below_small_in_range::<R>(0x1_0000, self.size(), rng@, REJECTION_LIMIT as nat);
        }
        if self.range == 0 {
            // The range is the whole domain: the raw word is returned as it is.
            let w: u64 = (rng.next_u32() as u64) % 0x1_0000;
            proof {
                lemma_whole_domain(0x1_0000, w as int);
            }
            (i16::MIN as i64 + w as i64) as i16
        } else {
            let offset: u32 = below_small(0x1_0000, self.range as u32, self.zone as u32, rng);
            (self.low as i64 + offset as i64) as i16
        }
    }
}

impl<R: RngCore> Sample<i16, R> for Range<i16> {
    open spec fn sample_wf(&self) -> bool {
        self.valid()
    }

    fn sample(&mut self, rng: &mut R) -> (r: i16)
        ensures
            (r, final(rng)@) == Distribution::<i16, R>::sample_spec(old(self), old(rng)@),
            *final(self) == *old(self),
    {
        Distribution::sample(self, rng)
    }
}

impl<R: RngCore> IndependentSample<i16, R> for Range<i16> {
    fn ind_sample(&self, rng: &mut R) -> (r: i16)
        ensures
            (r, final(rng)@) == Distribution::<i16, R>::sample_spec(self, old(rng)@),
    {
        Distribution::sample(self, rng)
    }
}

impl<R: RngCore> SampleRange<R> for i16 {
    open spec fn as_int(self) -> int {
        self as int
    }

    open spec fn sample_single_spec(low: i16, high: i16, s: R::V) -> (i16, R::V) {
        Range::<i16>::draw_spec::<R>(low as int, high - low, s)
    }

    fn sample_single(low: i16, high: i16, rng: &mut R) -> (r: i16) {
        let range: u32 = (high as i64 - low as i64) as u32;
        let zone: u32 = zone_small(0x1_0000, range);
        let offset: u32 = below_small(0x1_0000, range, zone, rng);
        (low as i64 + offset as i64) as i16
    }
}

impl Range<i32> {
    /// The value that a range with lower bound `low` and `size` values
    /// gives when the source is in state `s`, and the state after.
    pub open spec fn draw_spec<R: RngCore>(low: int, size: int, s: R::V) -> (i32, R::V) {
        let (offset, s1) = below_small_spec::<R>(0x1_0000_0000, size, s, REJECTION_LIMIT as nat);
        ((low + offset) as i32, s1)
    }

    /// The lower bound of the range.
    pub closed spec fn low(&self) -> int {
        self.low as int
    }

    /// The number of values in the range.
    pub closed spec fn size(&self) -> int {
        if self.range == 0 {
            0x1_0000_0000
        } else {
            self.range as int
        }
    }

    /// The invariant: the range lies in the type, and what was worked out
    /// for sampling fits its size.
    pub closed spec fn valid(&self) -> bool {
        &&& self.range < 0x1_0000_0000
        &&& self.zone < 0x1_0000_0000
        &&& self.range == 0 ==> self.low == i32::MIN
        &&& self.range != 0 ==> self.zone == zone_of(0x1_0000_0000, self.range as int)
        &&& self.low + self.size() <= i32::MAX + 1
    }

    /// The uniform distribution over `[low, high)`. Fails if the range is
    /// empty: if `low >= high`.
    pub fn new(low: i32, high: i32) -> (r: Result<Range<i32>, ConstructionError>)
        ensures
            match r {
                Ok(d) => low < high && d.valid() && d.low() == low && d.size() == high - low,
                Err(e) => low >= high && e == ConstructionError::EmptyRange,
            },
    {
        if low >= high {
            return Err(ConstructionError::EmptyRange);
        }
        let range: u32 = (high as i64 - low as i64) as u32;
        let zone: u32 = zone_small(0x1_0000_0000, range);
        Ok(Range { low, range: range as u64, zone: zone as u64 })
    }

    /// The uniform distribution over `[low, high]`. Fails if the range is
    /// empty: if `low > high`.
    pub fn new_inclusive(low: i32, high: i32) -> (r: Result<Range<i32>, ConstructionError>)
        ensures
            match r {
                Ok(d) => low <= high && d.valid() && d.low() == low && d.size() == high - low + 1,
                Err(e) => low > high && e == ConstructionError::EmptyRange,
            },
    {
        if low > high {
            return Err(ConstructionError::EmptyRange);
        }
        let size: u64 = (high as i64 - low as i64 + 1) as u64;
        if size == 0x1_0000_0000 {
            return Ok(Range { low, range: 0, zone: 0 });
        }
        let zone: u32 = zone_small(0x1_0000_0000, size as u32);
        Ok(Range { low, range: size, zone: zone as u64 })
    }
}

impl<R: RngCore> Distribution<i32, R> for Range<i32> {
    open spec fn wf(&self) -> bool {
        self.valid()
    }

    open spec fn sample_spec(&self, s: R::V) -> (i32, R::V) {
        Range::<i32>::draw_spec::<R>(self.low(), self.size(), s)
    }

    fn sample(&self, rng: &mut R) -> (r: i32)
        ensures
            self.low() <= r < self.low() + self.size(),
    {
        proof {
            lemma_below_small_in_range::<R>(0x1_0000_0000, self.size(), rng@, REJECTION_LIMIT as nat);
        }
        if self.range == 0 {
            // The range is the whole domain: the raw word is returned as it is.
            let w: u64 = (rng.next_u32() as u64) % 0x1_0000_0000;
            proof {
                lemma_whole_domain(0x1_0000_0000, w as int);
            }
            (i32::MIN as i64 + w as i64) as i32
        } else {
            let offset: u32 = below_small(0x1_0000_0000, self.range as u32, self.zone as u32, rng);
            (self.low as i64 + offset as i64) as i32
        }
    }
}

impl<R: RngCore> Sample<i32, R> for Range<i32> {
    open spec fn sample_wf(&self) -> bool {
        self.valid()
    }

    fn sample(&mut self, rng: &mut R) -> (r: i32)
        ensures
            (r, final(rng)@) == Distribution::<i32, R>::sample_spec(old(self), old(rng)@),
            *final(self) == *old(self),
    {
        Distribution::sample(self, rng)
    }
}

impl<R: RngCore> IndependentSample<i32, R> for Range<i32> {
    fn ind_sample(&self, rng: &mut R) -> (r: i32)
        ensures
            (r, final(rng)@) == Distribution::<i32, R>::sample_spec(self, old(rng)@),
    {
        Distribution::sample(self, rng)
    }
}

impl<R: RngCore> SampleRange<R> for i32 {
    open spec fn as_int(self) -> int {
        self as int
    }

    open spec fn sample_single_spec(low: i32, high: i32, s: R::V) -> (i32, R::V) {
        Range::<i32>::draw_spec::<R>(low as int, high - low, s)
    }

    fn sample_single(low: i32, high: i32, rng: &mut R) -> (r: i32) {
        let range: u32 = (high as i64 - low as i64) as u32;
        let zone: u32 = zone_small(0x1_0000_0000, range);
        let offset: u32 = below_small(0x1_0000_0000, range, zone, rng);
        (low as i64 + offset as i64) as i32
    }
}

} // verus!
