use rand::{EntropySource, Error, ErrorKind, RngCore, SeedFromRng, SeedableRng, XorShiftRng};

/// A source that hands out one byte value for ever and counts the requests.
struct Fixed {
    byte: u8,
    calls: u32,
}

// The view and the two functions that describe the source are read by the
// verifier only; nothing calls them.
impl rand::View for Fixed {
    type V = ();

    fn view(&self) {}
}

impl EntropySource for Fixed {
    fn wf(&self) -> bool {
        true
    }

    fn try_fill_bytes_spec(
        _: (),
        _: rand::Length,
    ) -> (Result<rand::Bytes, Error>, ()) {
        unreachable!()
    }

    fn try_fill_bytes(&mut self, dest: &mut [u8]) -> Result<(), Error> {
        self.calls += 1;
        for b in dest.iter_mut() {
            *b = self.byte;
        }
        Ok(())
    }
}

fn xorshift_reference(state: &mut [u32; 4]) -> u32 {
    let x = state[0];
    let t = x ^ (x << 11);
    state[0] = state[1];
    state[1] = state[2];
    state[2] = state[3];
    let w = state[3];
    state[3] = w ^ (w >> 19) ^ (t ^ (t >> 8));
    state[3]
}

#[test]
fn xorshift_unseeded_stream() {
    let mut rng = XorShiftRng::new_unseeded();
    let mut state = [0x193a6754u32, 0xa8a7d469, 0x97830e05, 0x113ba7bb];
    for _ in 0..1000 {
        assert_eq!(rng.next_u32(), xorshift_reference(&mut state));
    }
}

#[test]
fn xorshift_unseeded_first_word() {
    let mut rng = XorShiftRng::new_unseeded();
    // t = x ^ (x << 11) with x = 0x193a6754; w = 0x113ba7bb
    assert_eq!(rng.next_u32(), 0xdbf1620f);
}

#[test]
fn xorshift_seed_is_read_little_endian() {
    let seed = [1u8, 0, 0, 0, 2, 0, 0, 0, 3, 0, 0, 0, 4, 0, 0, 0];
    let mut rng = XorShiftRng::from_seed(seed).unwrap();
    let mut state = [1u32, 2, 3, 4];
    for _ in 0..16 {
        assert_eq!(rng.next_u32(), xorshift_reference(&mut state));
    }
}

#[test]
fn xorshift_next_u64_joins_two_words() {
    let mut a = XorShiftRng::new_unseeded();
    let mut b = XorShiftRng::new_unseeded();
    let lo = a.next_u32() as u64;
    let hi = a.next_u32() as u64;
    assert_eq!(b.next_u64(), (hi << 32) | lo);
}

#[test]
fn xorshift_fill_bytes_is_words_in_little_endian() {
    for len in 0..40usize {
        let mut a = XorShiftRng::new_unseeded();
        let mut b = XorShiftRng::new_unseeded();
        let mut buf = vec![0u8; len];
        a.fill_bytes(&mut buf);
        let mut expected = Vec::new();
        while expected.len() < len {
            let w = b.next_u32();
            for k in 0..4 {
                if expected.len() < len {
                    expected.push((w >> (8 * k)) as u8);
                }
            }
        }
        assert_eq!(buf, expected);
        // both generators have used the same number of words
        assert_eq!(a.next_u32(), b.next_u32());
    }
}

#[test]
fn xorshift_zero_seed_is_refused() {
    match XorShiftRng::from_seed([0u8; 16]) {
        Ok(_) => panic!("the seed of zeros was accepted"),
        Err(e) => {
            assert_eq!(e.kind, ErrorKind::Unexpected);
            assert_eq!(e.msg, "seed is degenerate");
        }
    }
}

#[test]
fn xorshift_almost_zero_seed_is_accepted() {
    let mut seed = [0u8; 16];
    seed[15] = 1;
    assert!(XorShiftRng::from_seed(seed).is_ok());
}

#[test]
fn from_rng_gives_up_on_zero_seeds() {
    let mut src = Fixed { byte: 0, calls: 0 };
    let r = XorShiftRng::from_rng(&mut src);
    assert!(r.is_err());
    assert_eq!(src.calls, 8);
}

#[test]
fn from_rng_agrees_with_from_seed() {
    let mut src = Fixed { byte: 7, calls: 0 };
    let mut a = XorShiftRng::from_rng(&mut src).unwrap();
    let mut b = XorShiftRng::from_seed([7u8; 16]).unwrap();
    for _ in 0..100 {
        assert_eq!(a.next_u32(), b.next_u32());
    }
    assert_eq!(src.calls, 1);
}

#[test]
fn weak_rng_is_seeded_from_its_source() {
    let mut src = Fixed { byte: 9, calls: 0 };
    let mut a = rand::weak_rng(&mut src).unwrap();
    let mut b = XorShiftRng::from_seed([9u8; 16]).unwrap();
    assert_eq!(a.next_u64(), b.next_u64());
}
