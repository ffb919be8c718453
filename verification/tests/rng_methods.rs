use rand::distributions::fraction::{
    gen_bool_scaled, next_fraction, next_ziggurat_draw, with_exponent, ziggurat_draw,
};
use rand::distributions::{
    Distribution, IndependentSample, Rand, Range, Sample, Uniform, Weighted, WeightedChoice,
};
use rand::mock::StepRng;
use rand::sequences::{Choose, Shuffle};
use rand::{sample, EntropySource, Error, Rng, RngCore, SeedableRng, StdRng};

pub struct TestRng<R> {
    inner: R,
}

// The view and the functions that describe the source are read by the
// verifier only; nothing calls them.
impl<R: RngCore> rand::View for TestRng<R> {
    type V = ();

    fn view(&self) {}
}

impl<R: RngCore> EntropySource for TestRng<R> {
    fn wf(&self) -> bool {
        true
    }

    fn try_fill_bytes_spec(
        _: (),
        _: rand::Length,
    ) -> (Result<rand::Bytes, Error>, ()) {
        unreachable!()
    }

    fn try_fill_bytes(&mut self, dest: &mut [u8]) -> Result<(), Error> {
        self.inner.try_fill_bytes(dest)
    }
}

impl<R: RngCore> RngCore for TestRng<R> {
    fn next_u32_spec(_: ()) -> (u32, ()) {
        unreachable!()
    }

    fn next_u64_spec(_: ()) -> (u64, ()) {
        unreachable!()
    }

    fn fill_bytes_spec(_: (), _: rand::Length) -> (rand::Bytes, ()) {
        unreachable!()
    }

    fn next_u32(&mut self) -> u32 {
        self.inner.next_u32()
    }

    fn next_u64(&mut self) -> u64 {
        self.inner.next_u64()
    }

    fn fill_bytes(&mut self, dest: &mut [u8]) {
        self.inner.fill_bytes(dest)
    }
}

pub fn rng(seed: u64) -> TestRng<StdRng> {
    let mut state = seed;
    let mut seed = [0u8; 32];
    for x in seed.iter_mut() {
        // PCG algorithm
        const MUL: u64 = 6364136223846793005;
        const INC: u64 = 11634580027462260723;
        let oldstate = state;
        state = oldstate.wrapping_mul(MUL).wrapping_add(INC);

        let xorshifted = (((oldstate >> 18) ^ oldstate) >> 27) as u32;
        let rot = (oldstate >> 59) as u32;
        *x = xorshifted.rotate_right(rot) as u8;
    }
    TestRng { inner: StdRng::from_seed(seed).unwrap() }
}

#[test]
fn test_fill_bytes_default() {
    let mut r = StepRng::new(0x11_22_33_44_55_66_77_88, 0);

    // check every remainder mod 8, both in small and big vectors.
    let lengths = [0, 1, 2, 3, 4, 5, 6, 7, 80, 81, 82, 83, 84, 85, 86, 87];
    for &n in lengths.iter() {
        let mut buffer = [0u8; 87];
        let v = &mut buffer[0..n];
        r.fill_bytes(v);

        // use this to get nicer error messages.
        for (i, &byte) in v.iter().enumerate() {
            if byte == 0 {
                panic!("byte {} of {} is zero", i, n)
            }
        }
    }
}

#[test]
fn test_fill() {
    let x = 9041086907909331047; // a random u64
    let mut rng = StepRng::new(x, 0);

    // Convert to byte sequence and back to u64; byte-swap twice if BE.
    let mut array = [0u64; 2];
    rng.fill(&mut array[..]);
    assert_eq!(array, [x, x]);
    assert_eq!(rng.next_u64(), x);

    // Convert to bytes then u32 in LE order
    let mut array = [0u32; 2];
    rng.fill(&mut array[..]);
    assert_eq!(array, [x as u32, (x >> 32) as u32]);
    assert_eq!(rng.next_u32(), x as u32);
}

#[test]
fn try_fill_fills_bytes_and_words() {
    let mut rng = StepRng::new(0x0807_0605_0403_0201, 0x0808_0808_0808_0808);
    let mut bytes = [0u8; 11];
    rng.try_fill(&mut bytes[..]).unwrap();
    assert_eq!(bytes, [1, 2, 3, 4, 5, 6, 7, 8, 9, 10, 11]);
    let mut words = [0u32; 3];
    rng.try_fill(&mut words[..]).unwrap();
    assert_eq!(words, [0x1413_1211, 0x1817_1615, 0x1c1b_1a19]);
}

#[test]
fn fill_makes_numbers_of_little_endian_bytes() {
    // the bytes of the stream are 1, 2, 3, ...
    let source = || StepRng::new(0x0807_0605_0403_0201, 0x0808_0808_0808_0808);
    let mut a = [0u16; 3];
    source().fill(&mut a[..]);
    assert_eq!(a, [0x0201, 0x0403, 0x0605]);
    let mut a = [0i8; 3];
    StepRng::new(0x0000_0000_0080_ff01, 0).fill(&mut a[..]);
    assert_eq!(a, [1, -1, -128]);
    let mut a = [0i16; 2];
    StepRng::new(0x0000_0000_8000_fffe, 0).fill(&mut a[..]);
    assert_eq!(a, [-2, i16::MIN]);
    let mut a = [0i32; 3];
    StepRng::new(0x8000_0000_ffff_fffd, 0).fill(&mut a[..]);
    assert_eq!(a, [-3, i32::MIN, -3]);
    let mut a = [0i64; 2];
    StepRng::new(0xffff_ffff_ffff_fffc, 5).fill(&mut a[..]);
    assert_eq!(a, [-4, 1]);
    let mut a = [0u64; 2];
    source().fill(&mut a[..]);
    assert_eq!(a, [0x0807_0605_0403_0201, 0x100f_0e0d_0c0b_0a09]);
    let mut none: [u32; 0] = [];
    source().fill(&mut none[..]);
}

#[test]
fn test_gen_range() {
    let mut r = rng(101);
    for _ in 0..1000 {
        let a = r.gen_range(-3, 42);
        assert!(a >= -3 && a < 42);
        assert_eq!(r.gen_range(0, 1), 0);
        assert_eq!(r.gen_range(-12, -11), -12);
    }

    for _ in 0..1000 {
        let a = r.gen_range(10, 42);
        assert!(a >= 10 && a < 42);
        assert_eq!(r.gen_range(0, 1), 0);
        assert_eq!(r.gen_range(3_000_000, 3_000_001), 3_000_000);
    }
}

#[test]
fn test_gen_weighted_bool() {
    let mut r = rng(104);
    assert_eq!(r.gen_weighted_bool(0), true);
    assert_eq!(r.gen_weighted_bool(1), true);
}

#[test]
fn gen_weighted_bool_is_one_in_n() {
    let mut r = rng(114);
    let mut hits = 0;
    for _ in 0..40_000 {
        if r.gen_weighted_bool(4) {
            hits += 1;
        }
    }
    assert!(9_000 < hits && hits < 11_000);
    // a drawn value of zero is a hit
    let mut s = StepRng::new(0, 1 << 30);
    assert_eq!(s.gen_weighted_bool(4), true);
    assert_eq!(s.gen_weighted_bool(4), false);
}

fn gen_bool<R: RngCore>(r: &mut R, p: f64) -> bool {
    assert!(p >= 0.0 && p <= 1.0);
    let p_int = (p * f64::from(core::u32::MAX)) as u32;
    gen_bool_scaled(r, p_int)
}

#[test]
fn test_gen_bool() {
    let mut r = rng(105);
    for _ in 0..5 {
        assert_eq!(gen_bool(&mut r, 0.0), false);
        assert_eq!(gen_bool(&mut r, 1.0), true);
    }
}

#[test]
fn gen_bool_by_known_words() {
    let mut r = StepRng::new(0x7fff_ffff, 1);
    assert_eq!(gen_bool_scaled(&mut r, 0x7fff_ffff), true);
    assert_eq!(gen_bool_scaled(&mut r, 0x7fff_ffff), false);
    let mut hits = 0;
    let mut r = rng(115);
    for _ in 0..40_000 {
        if gen_bool(&mut r, 0.25) {
            hits += 1;
        }
    }
    assert!(9_000 < hits && hits < 11_000);
}

#[test]
fn fractions_of_real_numbers() {
    assert_eq!(ziggurat_draw(0x1234_5678_9abc_def0), (0xf0, 0x1234_5678_9abc_d));
    assert_eq!(ziggurat_draw(u64::MAX), (255, (1 << 52) - 1));
    let mut r = StepRng::new(0x1234_5678_9abc_def0, 0);
    assert_eq!(next_ziggurat_draw(&mut r), (0xf0, 0x1234_5678_9abc_d));
    assert_eq!(next_fraction(&mut r), 0x1234_5678_9abc_d);
    // one and a half, and three
    assert_eq!(f64::from_bits(with_exponent(1 << 51, 0)), 1.5);
    assert_eq!(f64::from_bits(with_exponent(1 << 51, 1)), 3.0);
    assert_eq!(f64::from_bits(with_exponent(0, 0)), 1.0);
    assert!(f64::from_bits(with_exponent((1 << 52) - 1, 1)) < 4.0);
}

#[test]
fn lib_test_choose() {
    let mut r = rng(107);
    assert_eq!(r.pick(&[1, 1, 1]).map(|&x| x), Some(1));

    let v: &[isize] = &[];
    assert_eq!(r.pick(v), None);
}

#[test]
fn pick_by_known_words() {
    let values = [10, 11, 12, 13, 14, 15, 16, 17, 18, 19];
    let mut rng = StepRng::new(5, 0x9e37_79b9_7f4a_7c15);
    let got: Vec<i32> = (0..12).map(|_| *rng.pick(&values).unwrap()).collect();
    assert_eq!(got, [10, 16, 12, 18, 14, 10, 17, 13, 19, 15, 11, 17]);
}

#[test]
fn pick_mut_gives_the_element_to_change() {
    let mut values = [10, 11, 12, 13, 14, 15, 16, 17, 18, 19];
    let mut rng = StepRng::new(5, 0x9e37_79b9_7f4a_7c15);
    *rng.pick_mut(&mut values).unwrap() += 100;
    *rng.pick_mut(&mut values).unwrap() += 100;
    assert_eq!(values, [110, 11, 12, 13, 14, 15, 116, 17, 18, 19]);
    let mut none: [u8; 0] = [];
    assert!(rng.pick_mut(&mut none).is_none());
}

#[test]
fn lib_test_shuffle() {
    let mut r = rng(108);
    let empty: &mut [isize] = &mut [];
    r.shuffle(empty);
    let mut one = [1];
    r.shuffle(&mut one);
    let b: &[_] = &[1];
    assert_eq!(one, b);

    let mut two = [1, 2];
    r.shuffle(&mut two);
    assert!(two == [1, 2] || two == [2, 1]);

    let mut x = [1, 1, 1];
    r.shuffle(&mut x);
    let b: &[_] = &[1, 1, 1];
    assert_eq!(x, b);
}

#[test]
fn shuffle_is_a_permutation() {
    let mut r = rng(118);
    for n in 0..40usize {
        let mut v: Vec<usize> = (0..n).collect();
        r.shuffle(&mut v);
        let mut sorted = v.clone();
        sorted.sort();
        assert_eq!(sorted, (0..n).collect::<Vec<usize>>());
    }
}

#[test]
fn shuffle_by_known_words() {
    // the draws for the places 4, 3, 2, 1 are 0, 3, 1, 0
    let mut v = ['a', 'b', 'c', 'd', 'e'];
    let mut rng = StepRng::new(0, 0xd000_0000_0000_0000);
    rng.shuffle(&mut v);
    assert_eq!(v, ['c', 'e', 'b', 'd', 'a']);
}

#[test]
fn mod_test_choose() {
    let mut r = rng(127);
    assert_eq!([1, 1, 1][..].pick(&mut r).map(|&x| x), Some(1));

    let v: &[isize] = &[];
    assert_eq!(v.pick(&mut r), None);
}

#[test]
fn choose_from_a_vector() {
    let mut rng = StepRng::new(5, 0x9e37_79b9_7f4a_7c15);
    assert_eq!(vec![10, 11, 12, 13, 14, 15, 16, 17, 18, 19].pick(&mut rng), Some(10));
    assert_eq!(vec![10, 11, 12, 13, 14, 15, 16, 17, 18, 19].pick(&mut rng), Some(16));
    assert_eq!(Vec::<u8>::new().pick(&mut rng), None);
}

#[test]
fn mod_test_shuffle() {
    let mut r = rng(128);
    let empty: &mut [isize] = &mut [];
    empty.shuffle(&mut r);
    let mut one = [1];
    one[..].shuffle(&mut r);
    let b: &[_] = &[1];
    assert_eq!(one, b);

    let mut two = [1, 2];
    two[..].shuffle(&mut r);
    assert!(two == [1, 2] || two == [2, 1]);

    let mut x = [1, 1, 1];
    x[..].shuffle(&mut r);
    let b: &[_] = &[1, 1, 1];
    assert_eq!(x, b);

    let mut v = vec![1, 2, 3, 4, 5, 6];
    (&mut v).shuffle(&mut r);
    v.sort();
    assert_eq!(v, [1, 2, 3, 4, 5, 6]);
}

#[test]
fn dyn_dispatch() {
    let r = &mut rng(129);

    assert_eq!([7, 7][..].pick(r), Some(&7));

    let mut x = [6, 2];
    x[..].shuffle(r);
    assert!(x == [6, 2] || x == [2, 6]);
}

#[test]
fn test_backwards_compat_sample() {
    struct Constant<T> {
        val: T,
    }
    impl<T: Copy, R: RngCore> Sample<T, R> for Constant<T> {
        fn sample_wf(&self) -> bool {
            true
        }
        fn sample(&mut self, _: &mut R) -> T {
            self.val
        }
    }
    impl<T: Copy, R: RngCore> IndependentSample<T, R> for Constant<T> {
        fn ind_sample(&self, _: &mut R) -> T {
            self.val
        }
    }

    let mut sampler = Constant { val: 293 };
    assert_eq!(sampler.sample(&mut rng(233)), 293);
    assert_eq!(sampler.ind_sample(&mut rng(234)), 293);
}

#[test]
fn samplers_agree_with_distributions() {
    let mut a = rng(235);
    let mut b = rng(235);
    let mut range = Range::<i32>::new(-5, 5000).unwrap();
    for _ in 0..100 {
        let x = Distribution::sample(&range, &mut a);
        assert_eq!(Sample::sample(&mut range, &mut b), x);
        let y = Distribution::sample(&range, &mut a);
        assert_eq!(range.ind_sample(&mut b), y);
    }
    let mut items = [Weighted { weight: 3, item: 'x' }, Weighted { weight: 1, item: 'y' }];
    let mut wc = WeightedChoice::new(&mut items).unwrap();
    for _ in 0..100 {
        let x = Distribution::sample(&wc, &mut a);
        assert_eq!(Sample::sample(&mut wc, &mut b), x);
        let y = Distribution::sample(&wc, &mut a);
        assert_eq!(wc.ind_sample(&mut b), y);
    }
}

#[test]
fn test_random() {
    // not sure how to test this aside from just getting some values
    let mut r = rng(100);
    let _n: usize = r.gen();
    let _o: Option<Option<i8>> = r.gen();
    let _many: ((), (usize, isize, Option<(u32, (bool,))>), (u8, i8, u16)) = r.gen();
    let _ints: (i16, u32, i32) = r.gen();
    let _wide: (u64, i64, char) = r.gen();
    let twelve: (u8, u8, u8, u8, u8, u8, u8, u8, u8, u8, u8, u8) = StepRng::new(1, 1).gen();
    assert_eq!(twelve, (1, 2, 3, 4, 5, 6, 7, 8, 9, 10, 11, 12));
    let seven: (u64, bool, u8, (), i8, u16, Option<u32>) = StepRng::new(255, 1).gen();
    assert_eq!(seven, (255, false, 1, (), 2, 259, None));
}

#[test]
fn standard_values_by_known_words() {
    let mut r = StepRng::new(0x1122_3344_5566_7788, 0);
    assert_eq!(r.gen::<u8>(), 0x88);
    assert_eq!(r.gen::<i8>(), 0x88u8 as i8);
    assert_eq!(r.gen::<u16>(), 0x7788);
    assert_eq!(r.gen::<i16>(), 0x7788);
    assert_eq!(r.gen::<u32>(), 0x5566_7788);
    assert_eq!(r.gen::<i32>(), 0x5566_7788);
    assert_eq!(r.gen::<u64>(), 0x1122_3344_5566_7788);
    assert_eq!(r.gen::<i64>(), 0x1122_3344_5566_7788);
    assert_eq!(r.gen::<usize>(), 0x1122_3344_5566_7788u64 as usize);
    assert_eq!(r.gen::<bool>(), false);
    assert_eq!(r.gen::<Option<u8>>(), None);
    assert_eq!(r.gen::<(u8, u16)>(), (0x88, 0x7788));
    // the low 21 bits are 0x067788
    assert_eq!(r.gen::<char>(), '\u{67788}');

    let mut r = StepRng::new(0x1122_3344_5566_7789, 0);
    assert_eq!(r.gen::<bool>(), true);
    assert_eq!(r.gen::<Option<u8>>(), Some(0x89));
    let one: (u8,) = Uniform.sample(&mut r);
    assert_eq!(one, (0x89u8,));
    assert_eq!(<u16 as Rand<StepRng>>::rand(&mut r), 0x7789);
}

#[test]
fn chars_are_scalar_values() {
    // the word 0xD800 is a surrogate and is passed over
    let mut r = StepRng::new(0xd800, 0x0800);
    assert_eq!(r.gen::<char>(), '\u{e000}');
    // a word above the last scalar value is passed over too
    let mut r = StepRng::new(0x1f_ffff, 1);
    assert_eq!(r.gen::<char>(), '\u{0}');
    let mut r = rng(140);
    for _ in 0..10_000 {
        let c: char = r.gen();
        assert!((c as u32) < 0xD800 || (c as u32) > 0xDFFF);
    }
}

#[test]
fn generators_of_items_and_characters() {
    let mut r = StepRng::new(0, 0x0421_0842_1084_2108);
    {
        let mut g = r.gen_ascii_chars();
        let s: String = (0..8).map(|_| g.next().unwrap()).collect();
        assert_eq!(s, "ABCDEFGH");
    }
    let mut r = rng(150);
    {
        let mut g = r.gen_ascii_chars();
        for _ in 0..1000 {
            let c = g.next().unwrap();
            assert!(c.is_ascii_alphanumeric());
        }
    }
    let mut r = StepRng::new(7, 1);
    let mut g = r.gen_iter::<u32>();
    assert_eq!(g.next(), Some(7));
    assert_eq!(g.next(), Some(8));
}

#[test]
fn sample_keeps_a_reservoir() {
    let values: Vec<u32> = (1..100).collect();
    let mut r = rng(160);
    let s = sample(&mut r, &values, 5);
    assert_eq!(s.len(), 5);
    for x in s.iter() {
        assert!(values.contains(x));
    }
    // fewer elements than wanted: the sample is the slice
    assert_eq!(sample(&mut r, &values[..3], 5), [1, 2, 3]);
    assert_eq!(sample(&mut r, &values, 0), Vec::<u32>::new());
    // the element 3 of five takes the place drawn for it
    let five = [1, 2, 3, 4, 5];
    let mut s = StepRng::new(0, 1 << 63);
    // draws: element 2 (of 3 places): 0, element 3 (of 4): 2, element 4 (of 5): 0
    assert_eq!(sample(&mut s, &five, 2), [5, 2]);
}
