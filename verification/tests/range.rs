use rand::distributions::range::unbiased_below;
use rand::distributions::{ConstructionError, Distribution, Range, SampleRange};
use rand::mock::StepRng;
use rand::{Rng, RngCore, SeedableRng, StdRng};

fn seeded(n: u8) -> StdRng {
    let mut seed = [0u8; 32];
    for (i, b) in seed.iter_mut().enumerate() {
        *b = n.wrapping_mul(31).wrapping_add(i as u8);
    }
    StdRng::from_seed(seed).unwrap()
}

#[test]
fn unbiased_below_examples() {
    assert_eq!(unbiased_below(3, 0), (true, 0));
    assert_eq!(unbiased_below(3, 0x5555_5555), (false, 0));
    assert_eq!(unbiased_below(3, 0x5555_5556), (true, 1));
    assert_eq!(unbiased_below(7, 0x9249_2492), (false, 3));
    assert_eq!(unbiased_below(7, 0x2492_4924), (false, 0));
    assert_eq!(unbiased_below(7, 0xb6db_6db6), (true, 4));
    assert_eq!(unbiased_below(10, 0xffff_ffff), (true, 9));
    assert_eq!(unbiased_below(1, 12345), (true, 0));
    assert_eq!(unbiased_below(0x8000_0001, 0x7fff_ffff), (false, 1073741823));
    assert_eq!(unbiased_below(0x8000_0001, 0xffff_ffff), (true, 2147483648));
    assert_eq!(unbiased_below(0xffff_ffff, 1), (false, 0));
    assert_eq!(unbiased_below(0xffff_ffff, 0), (true, 0));
}

#[test]
fn unbiased_below_around_the_boundary_of_each_value() {
    // For each value of a range, the accepted raw words are a run of
    // `2^32 / range` words that starts at `value * 2^32 / range`, rounded up.
    for &range in [1u32, 2, 3, 5, 6, 7, 10, 1000, 65537, 0x7fff_ffff, 0x8000_0001, 0xffff_fff0]
        .iter()
    {
        let m: u64 = 1 << 32;
        let per_value = m / range as u64;
        let values: Vec<u32> = if range <= 10 {
            (0..range).collect()
        } else {
            vec![0, 1, range / 2, range - 2, range - 1]
        };
        for v in values {
            let first = (v as u64 * m + range as u64 - 1) / range as u64;
            let last = first + per_value - 1;
            assert!(last < m);
            assert_eq!(unbiased_below(range, first as u32), (true, v));
            assert_eq!(unbiased_below(range, last as u32), (true, v));
            if first > 0 {
                let (accepted, value) = unbiased_below(range, (first - 1) as u32);
                assert!(!(accepted && value == v));
            }
            if last + 1 < m {
                let (accepted, value) = unbiased_below(range, (last + 1) as u32);
                assert!(!(accepted && value == v));
            }
        }
    }
}

#[test]
fn each_value_of_a_byte_range_has_as_many_raw_words() {
    // All raw words of the 8-bit domain are tried for each range. The word
    // is accepted if the sample has taken one word from the source.
    for size in 1..=255u16 {
        let low = 0u8;
        let high = size as u8;
        let distr = Range::<u8>::new(low, high).unwrap();
        let mut counts = vec![0u32; size as usize];
        for raw in 0..256u64 {
            let mut rng = StepRng::new(raw, 1);
            let v = distr.sample(&mut rng);
            assert!(v < high);
            if rng.next_u64() == raw + 1 {
                counts[v as usize] += 1;
            }
        }
        let per_value = 256 / size as u32;
        for &c in counts.iter() {
            assert_eq!(c, per_value);
        }
    }
}

#[test]
fn range_samples_by_known_words() {
    let distr = Range::<i32>::new(-3, 42).unwrap();
    let mut rng = StepRng::new(0, 0x0123_4567_89ab_cdef);
    let got: Vec<i32> = (0..12).map(|_| distr.sample(&mut rng)).collect();
    assert_eq!(got, [-3, 21, 0, 24, 3, 27, 7, 31, 10, 34, 13, 38]);

    let distr = Range::<u8>::new(10, 17).unwrap();
    let mut rng = StepRng::new(5, 0x9e37_79b9_7f4a_7c15);
    let got: Vec<u8> = (0..12).map(|_| distr.sample(&mut rng)).collect();
    assert_eq!(got, [10, 10, 11, 11, 12, 13, 13, 14, 14, 15, 15, 16]);

    let distr = Range::<i16>::new(-300, 17).unwrap();
    let mut rng = StepRng::new(5, 0x9e37_79b9_7f4a_7c15);
    let got: Vec<i16> = (0..12).map(|_| distr.sample(&mut rng)).collect();
    assert_eq!(got, [-300, -147, 7, -157, -3, -166, -13, -176, -22, -186, -32, -195]);

    let distr = Range::<i64>::new(-(1 << 40), 1 << 41).unwrap();
    let mut rng = StepRng::new(5, 0x9e37_79b9_7f4a_7c15);
    let got: Vec<i64> = (0..6).map(|_| distr.sample(&mut rng)).collect();
    assert_eq!(
        got,
        [-1099511627776, 939095043197, -320833169157, 1717773501817, 457845289463, -802082922891]
    );

    let distr = Range::<usize>::new(0, 10).unwrap();
    let mut rng = StepRng::new(5, 0x9e37_79b9_7f4a_7c15);
    let got: Vec<usize> = (0..12).map(|_| distr.sample(&mut rng)).collect();
    assert_eq!(got, [0, 6, 2, 8, 4, 0, 7, 3, 9, 5, 1, 7]);
}

#[test]
fn single_shot_agrees_with_the_distribution() {
    let mut a = seeded(1);
    let mut b = seeded(1);
    let distr = Range::<i32>::new(-1000, 77).unwrap();
    for _ in 0..1000 {
        let x: i32 = a.gen_range(-1000, 77);
        assert_eq!(x, distr.sample(&mut b));
    }
    let distr = Range::<u64>::new(5, 1 << 63).unwrap();
    for _ in 0..1000 {
        let x = <u64 as SampleRange<StdRng>>::sample_single(5, 1 << 63, &mut a);
        assert_eq!(x, distr.sample(&mut b));
    }
}

#[test]
fn empty_ranges_are_refused() {
    assert_eq!(Range::<u8>::new(5, 5).unwrap_err(), ConstructionError::EmptyRange);
    assert_eq!(Range::<u8>::new(6, 5).unwrap_err(), ConstructionError::EmptyRange);
    assert_eq!(Range::<i8>::new(5, -2).unwrap_err(), ConstructionError::EmptyRange);
    assert_eq!(Range::<u16>::new(1, 0).unwrap_err(), ConstructionError::EmptyRange);
    assert_eq!(Range::<i16>::new(0, 0).unwrap_err(), ConstructionError::EmptyRange);
    assert_eq!(Range::<u32>::new(5, 2).unwrap_err(), ConstructionError::EmptyRange);
    assert_eq!(Range::<i32>::new(5, -2).unwrap_err(), ConstructionError::EmptyRange);
    assert_eq!(Range::<u64>::new(u64::MAX, u64::MAX).unwrap_err(), ConstructionError::EmptyRange);
    assert_eq!(Range::<i64>::new(i64::MAX, i64::MIN).unwrap_err(), ConstructionError::EmptyRange);
    assert_eq!(Range::<usize>::new(5, 2).unwrap_err(), ConstructionError::EmptyRange);
    assert_eq!(Range::<isize>::new(0, -1).unwrap_err(), ConstructionError::EmptyRange);
    assert_eq!(Range::<i32>::new_inclusive(5, 4).unwrap_err(), ConstructionError::EmptyRange);
    assert!(Range::<i32>::new_inclusive(5, 5).is_ok());
    assert!(Range::<u8>::new(0, 1).is_ok());
}

#[test]
fn a_range_of_one_value() {
    let mut rng = seeded(2);
    for _ in 0..100 {
        assert_eq!(Range::<i32>::new(-12, -11).unwrap().sample(&mut rng), -12);
        assert_eq!(Range::<u64>::new_inclusive(u64::MAX, u64::MAX).unwrap().sample(&mut rng), u64::MAX);
        assert_eq!(Range::<i8>::new_inclusive(-128, -128).unwrap().sample(&mut rng), -128);
    }
}

#[test]
fn the_whole_domain_returns_the_raw_word() {
    let mut rng = StepRng::new(0x1122_3344_5566_7788, 0);
    assert_eq!(Range::<u32>::new_inclusive(0, u32::MAX).unwrap().sample(&mut rng), 0x5566_7788);
    assert_eq!(Range::<u64>::new_inclusive(0, u64::MAX).unwrap().sample(&mut rng), 0x1122_3344_5566_7788);
    assert_eq!(Range::<u8>::new_inclusive(0, u8::MAX).unwrap().sample(&mut rng), 0x88);
    assert_eq!(Range::<u16>::new_inclusive(0, u16::MAX).unwrap().sample(&mut rng), 0x7788);
    assert_eq!(
        Range::<i32>::new_inclusive(i32::MIN, i32::MAX).unwrap().sample(&mut rng),
        i32::MIN.wrapping_add(0x5566_7788)
    );
    assert_eq!(
        Range::<i8>::new_inclusive(i8::MIN, i8::MAX).unwrap().sample(&mut rng),
        i8::MIN.wrapping_add(0x88u8 as i8)
    );
    assert_eq!(
        Range::<i64>::new_inclusive(i64::MIN, i64::MAX).unwrap().sample(&mut rng),
        i64::MIN.wrapping_add(0x1122_3344_5566_7788)
    );
}

fn check_within<T, D>(distr: D, low: T, high: T, rng: &mut StdRng)
where
    T: PartialOrd + Copy + std::fmt::Debug,
    D: Distribution<T, StdRng>,
{
    for _ in 0..100_000 {
        let v = distr.sample(rng);
        assert!(low <= v && v < high, "{:?} is not in [{:?}, {:?})", v, low, high);
    }
}

#[test]
fn samples_fall_within_the_range_u8_i8() {
    let mut rng = seeded(3);
    check_within(Range::<u8>::new(3, 250).unwrap(), 3, 250, &mut rng);
    check_within(Range::<i8>::new(-128, 127).unwrap(), -128, 127, &mut rng);
}

#[test]
fn samples_fall_within_the_range_u16_i16() {
    let mut rng = seeded(4);
    check_within(Range::<u16>::new(0, 3).unwrap(), 0, 3, &mut rng);
    check_within(Range::<i16>::new(-32768, -32700).unwrap(), -32768, -32700, &mut rng);
}

#[test]
fn samples_fall_within_the_range_u32_i32() {
    let mut rng = seeded(5);
    check_within(Range::<u32>::new(10, 0xffff_ffff).unwrap(), 10, 0xffff_ffff, &mut rng);
    check_within(Range::<i32>::new(-3, 42).unwrap(), -3, 42, &mut rng);
}

#[test]
fn samples_fall_within_the_range_u64_i64() {
    let mut rng = seeded(6);
    check_within(Range::<u64>::new(1 << 40, (1 << 63) + 5).unwrap(), 1 << 40, (1 << 63) + 5, &mut rng);
    check_within(Range::<i64>::new(i64::MIN, -7).unwrap(), i64::MIN, -7, &mut rng);
}

#[test]
fn samples_fall_within_the_range_usize_isize() {
    let mut rng = seeded(7);
    check_within(Range::<usize>::new(0, 6).unwrap(), 0, 6, &mut rng);
    check_within(Range::<isize>::new(-1000, 1000).unwrap(), -1000, 1000, &mut rng);
}

#[test]
fn frequencies_are_uniform() {
    // chi-squared test of 100,000 samples over 13 values: the statistic has
    // 12 degrees of freedom and stays below 50 but for a chance of one in
    // a million.
    let mut rng = seeded(8);
    let distr = Range::<i32>::new(-6, 7).unwrap();
    let mut counts = [0u32; 13];
    let n = 100_000;
    for _ in 0..n {
        counts[(distr.sample(&mut rng) + 6) as usize] += 1;
    }
    let expected = n as f64 / 13.0;
    let mut chi = 0.0f64;
    for &c in counts.iter() {
        let d = c as f64 - expected;
        chi += d * d / expected;
    }
    assert!(chi < 50.0, "chi-squared is {}", chi);
    for &c in counts.iter() {
        assert!(c > 0);
    }
}

#[test]
fn a_refused_word_is_drawn_again() {
    // range 3: the raw word 0x55555555 is refused, the next one is taken
    let distr = Range::<u32>::new(0, 3).unwrap();
    let mut rng = StepRng::new(0x5555_5555, 1);
    assert_eq!(distr.sample(&mut rng), 1);
    assert_eq!(rng.next_u64(), 0x5555_5557);
}
