//! The library beside `rand_core`: the same cores and the same calls give
//! the same words and bytes.

use rand::block::{BlockRng, BlockRngCore};
use rand::mock::StepRng;
use rand::{RngCore, SeedFromRng, SeedableRng, StdRng, XorShiftRng};

const BLOCK_WORDS: usize = 16;

/// A core whose block `k` holds words that are made of `16 * k + i`.
#[derive(Clone)]
struct Counting {
    next: u32,
}

fn word(k: u32) -> u32 {
    k.wrapping_mul(0x9e37_79b9).rotate_left(7) ^ 0x5bd1_e995
}

impl Counting {
    fn fill(&mut self, results: &mut [u32]) {
        for r in results.iter_mut() {
            *r = word(self.next);
            self.next = self.next.wrapping_add(1);
        }
    }
}

// The view and the functions that describe the core are read by the
// verifier only; nothing calls them.
impl rand::View for Counting {
    type V = ();

    fn view(&self) {}
}

impl BlockRngCore for Counting {
    fn wf(&self) -> bool {
        true
    }

    fn block_len() -> rand::Length {
        unreachable!()
    }

    fn generate_spec(_: ()) -> (rand::Words, ()) {
        unreachable!()
    }

    fn lemma_block_len(_: ()) {}

    fn block_size() -> usize {
        BLOCK_WORDS
    }

    fn generate(&mut self, results: &mut [u32]) {
        self.fill(results)
    }
}

impl rand_core::block::BlockRngCore for Counting {
    type Item = u32;
    type Results = [u32; BLOCK_WORDS];

    fn generate(&mut self, results: &mut [u32; BLOCK_WORDS]) {
        self.fill(results)
    }
}

/// A small generator that decides which call comes next.
struct Choice(u64);

impl Choice {
    fn next(&mut self, below: u64) -> u64 {
        self.0 = self.0.wrapping_mul(6364136223846793005).wrapping_add(1442695040888963407);
        (self.0 >> 33) % below
    }
}

#[test]
fn block_rng_agrees_with_rand_core() {
    for run in 0..200u64 {
        let mut ours = BlockRng::new(Counting { next: 0 });
        let mut theirs = rand_core::block::BlockRng::new(Counting { next: 0 });
        let mut choice = Choice(run);
        for _ in 0..60 {
            match choice.next(4) {
                0 => assert_eq!(ours.next_u32(), rand_core::RngCore::next_u32(&mut theirs)),
                1 => assert_eq!(ours.next_u64(), rand_core::RngCore::next_u64(&mut theirs)),
                2 => {
                    let len = choice.next(150) as usize;
                    let mut a = vec![0u8; len];
                    let mut b = vec![0u8; len];
                    ours.fill_bytes(&mut a);
                    rand_core::RngCore::fill_bytes(&mut theirs, &mut b);
                    assert_eq!(a, b);
                }
                _ => {
                    let len = choice.next(9) as usize;
                    let mut a = vec![0u8; len];
                    let mut b = vec![0u8; len];
                    rand::EntropySource::try_fill_bytes(&mut ours, &mut a).unwrap();
                    rand_core::RngCore::try_fill_bytes(&mut theirs, &mut b).unwrap();
                    assert_eq!(a, b);
                }
            }
            assert_eq!(ours.index(), theirs.index());
        }
    }
}

#[test]
fn block_rng_generate_and_set_agrees_with_rand_core() {
    let mut ours = BlockRng::new(Counting { next: 0 });
    let mut theirs = rand_core::block::BlockRng::new(Counting { next: 0 });
    for index in [3usize, 15, 0, 7] {
        ours.generate_and_set(index);
        theirs.generate_and_set(index);
        assert_eq!(ours.index(), theirs.index());
        assert_eq!(ours.next_u64(), rand_core::RngCore::next_u64(&mut theirs));
    }
    ours.reset();
    theirs.reset();
    assert_eq!(ours.index(), theirs.index());
    assert_eq!(ours.next_u32(), rand_core::RngCore::next_u32(&mut theirs));
}

/// A generator of `rand_core` that takes its words from a generator of the
/// library and makes the rest of them as `rand_core` does.
struct ViaRandCore<R>(R);

impl rand_core::RngCore for ViaRandCore<XorShiftRng> {
    fn next_u32(&mut self) -> u32 {
        self.0.next_u32()
    }

    fn next_u64(&mut self) -> u64 {
        rand_core::impls::next_u64_via_u32(self)
    }

    fn fill_bytes(&mut self, dest: &mut [u8]) {
        rand_core::impls::fill_bytes_via_next(self, dest)
    }

    fn try_fill_bytes(&mut self, dest: &mut [u8]) -> Result<(), rand_core::Error> {
        Ok(self.fill_bytes(dest))
    }
}

impl rand_core::RngCore for ViaRandCore<StepRng> {
    fn next_u32(&mut self) -> u32 {
        self.0.next_u64() as u32
    }

    fn next_u64(&mut self) -> u64 {
        self.0.next_u64()
    }

    fn fill_bytes(&mut self, dest: &mut [u8]) {
        rand_core::impls::fill_bytes_via_next(self, dest)
    }

    fn try_fill_bytes(&mut self, dest: &mut [u8]) -> Result<(), rand_core::Error> {
        Ok(self.fill_bytes(dest))
    }
}

#[test]
fn xorshift_agrees_with_the_helpers_of_rand_core() {
    for len in 0..70usize {
        let mut ours = XorShiftRng::new_unseeded();
        let mut theirs = ViaRandCore(XorShiftRng::new_unseeded());
        assert_eq!(ours.next_u64(), rand_core::RngCore::next_u64(&mut theirs));
        let mut a = vec![0u8; len];
        let mut b = vec![0u8; len];
        ours.fill_bytes(&mut a);
        rand_core::RngCore::fill_bytes(&mut theirs, &mut b);
        assert_eq!(a, b);
        assert_eq!(ours.next_u32(), rand_core::RngCore::next_u32(&mut theirs));
    }
}

#[test]
fn step_rng_agrees_with_the_helpers_of_rand_core() {
    for len in 0..70usize {
        let mut ours = StepRng::new(0x0123_4567_89ab_cdef, 0x1111_1111_1111_1111);
        let mut theirs = ViaRandCore(StepRng::new(0x0123_4567_89ab_cdef, 0x1111_1111_1111_1111));
        let mut a = vec![0u8; len];
        let mut b = vec![0u8; len];
        ours.fill_bytes(&mut a);
        rand_core::RngCore::fill_bytes(&mut theirs, &mut b);
        assert_eq!(a, b);
        assert_eq!(ours.next_u32(), rand_core::RngCore::next_u32(&mut theirs));
        assert_eq!(ours.next_u64(), rand_core::RngCore::next_u64(&mut theirs));
    }
}

/// A seedable generator of `rand_core` that keeps its seed.
struct Seed32([u8; 32]);

impl rand_core::SeedableRng for Seed32 {
    type Seed = [u8; 32];

    fn from_seed(seed: [u8; 32]) -> Seed32 {
        Seed32(seed)
    }
}

struct Seed16([u8; 16]);

impl rand_core::SeedableRng for Seed16 {
    type Seed = [u8; 16];

    fn from_seed(seed: [u8; 16]) -> Seed16 {
        Seed16(seed)
    }
}

#[test]
fn seed_from_a_number_agrees_with_rand_core() {
    for &n in [0u64, 1, 2, 3, 4, 8, 16, u64::MAX, 0x0123_4567_89ab_cdef].iter() {
        let seed = <Seed32 as rand_core::SeedableRng>::seed_from_u64(n).0;
        let mut a = StdRng::seed_from_u64(n).unwrap();
        let mut b = StdRng::from_seed(seed).unwrap();
        for _ in 0..20 {
            assert_eq!(a.next_u64(), b.next_u64());
        }
        let seed = <Seed16 as rand_core::SeedableRng>::seed_from_u64(n).0;
        let mut a = XorShiftRng::seed_from_u64(n).unwrap();
        let mut b = XorShiftRng::from_seed(seed).unwrap();
        for _ in 0..20 {
            assert_eq!(a.next_u64(), b.next_u64());
        }
    }
}

#[test]
fn seed_from_a_number_by_value() {
    // the first eight bytes of the seed of zero, as a number
    let seed = <Seed16 as rand_core::SeedableRng>::seed_from_u64(0).0;
    let mut first = [0u8; 8];
    first.copy_from_slice(&seed[..8]);
    assert_eq!(u64::from_le_bytes(first), 5029875928683246316);
    let mut a = XorShiftRng::seed_from_u64(0).unwrap();
    let mut b = XorShiftRng::from_seed(seed).unwrap();
    assert_eq!(a.next_u32(), b.next_u32());
}
