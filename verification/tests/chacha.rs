use rand::chacha::guts::{
    diagonalize, init_chacha_x, refill_narrow_rounds, round, undiagonalize, ChaCha, State,
};
use rand::chacha::{ChaChaCore, ChaChaRng};
use rand::block::BlockRngCore;
use rand::{RngCore, SeedableRng, StdRng};

fn key() -> [u8; 32] {
    let mut k = [0u8; 32];
    for i in 0..32 {
        k[i] = (i + 1) as u8;
    }
    k
}

#[test]
fn chacha_true_values_of_the_zero_key() {
    // The first two blocks of ChaCha20 for the key and nonce of zeros.
    let mut rng = ChaChaRng::from_seed([0u8; 32]).unwrap();
    let expected: [u32; 32] = [
        0xade0b876, 0x903df1a0, 0xe56a5d40, 0x28bd8653,
        0xb819d2bd, 0x1aed8da0, 0xccef36a8, 0xc70d778b,
        0x7c5941da, 0x8d485751, 0x3fe02477, 0x374ad8b8,
        0xf4b8436a, 0x1ca11815, 0x69b687c3, 0x8665eeb2,
        0xbee7079f, 0x7a385155, 0x7c97ba98, 0x0d082d73,
        0xa0290fcb, 0x6965e348, 0x3e53c612, 0xed7aee32,
        0x7621b729, 0x434ee69c, 0xb03371d5, 0xd539d874,
        0x281fed31, 0x45fb0a51, 0x1f0ae1ac, 0x6f4d794b,
    ];
    for &w in expected.iter() {
        assert_eq!(rng.next_u32(), w);
    }
}

#[test]
fn chacha_block_of_the_standard() {
    // The block function test vector of RFC 7539, section 2.3.2: key
    // 00..1f, block counter 1, nonce 00 00 00 09 00 00 00 4a 00 00 00 00.
    let mut k = [0u8; 32];
    for i in 0..32 {
        k[i] = i as u8;
    }
    let nonce = [0u8, 0, 0, 9, 0, 0, 0, 0x4a, 0, 0, 0, 0];
    let mut state = ChaCha::new(&k, &nonce);
    assert_eq!(state.get_stream_param(0), 0x0900_0000_0000_0000);
    assert_eq!(state.get_stream_param(1), 0x0000_0000_4a00_0000);
    state.set_stream_param(0, 0x0900_0000_0000_0001);
    let mut out = [0u8; 256];
    state.refill4(10, &mut out);
    let expected: [u32; 16] = [
        0xe4e7f110, 0x15593bd1, 0x1fdd0f50, 0xc47120a3,
        0xc7f4d1c7, 0x0368c033, 0x9aaa2204, 0x4e6cd4c3,
        0x466482d2, 0x09aa9f07, 0x05d7c214, 0xa2028bd9,
        0xd19c12b5, 0xb94e16de, 0xe883d0cb, 0x4e3c50a2,
    ];
    for (i, &w) in expected.iter().enumerate() {
        let got = u32::from_le_bytes([out[4 * i], out[4 * i + 1], out[4 * i + 2], out[4 * i + 3]]);
        assert_eq!(got, w);
    }
    // the counter has moved on by the four blocks of the refill
    assert_eq!(state.get_stream_param(0), 0x0900_0000_0000_0005);
}

#[test]
fn chacha_eight_rounds() {
    let zero = [0u8; 32];
    let mut state = ChaCha::new(&zero, &[0u8; 8]);
    let mut out = [0u8; 256];
    state.refill4(4, &mut out);
    assert_eq!(&out[..16], &[
        0x3e, 0x00, 0xef, 0x2f, 0x89, 0x5f, 0x40, 0xd6,
        0x7f, 0x5b, 0xb8, 0xe8, 0x1f, 0x09, 0xa5, 0xa1,
    ]);
}

#[test]
fn chacha_refill_is_four_blocks_in_order() {
    let k = key();
    let mut whole = ChaCha::new(&k, &[0u8; 8]);
    let mut out = [0u8; 256];
    whole.refill4(10, &mut out);
    for j in 0..4u64 {
        let mut one = ChaCha::new(&k, &[0u8; 8]);
        one.set_stream_param(0, j);
        let mut block = [0u8; 256];
        one.refill4(10, &mut block);
        assert_eq!(&out[64 * j as usize..64 * (j as usize + 1)], &block[..64]);
    }
}

#[test]
fn chacha_counter_wraps() {
    let k = key();
    let mut state = ChaCha::new(&k, &[0u8; 8]);
    state.set_stream_param(0, u64::MAX);
    let mut out = [0u8; 256];
    state.refill4(10, &mut out);
    let word = |i: usize| u32::from_le_bytes([out[4 * i], out[4 * i + 1], out[4 * i + 2], out[4 * i + 3]]);
    assert_eq!([word(0), word(1), word(2), word(3)], [0x40824f23, 0x5793d882, 0x9bca2a4b, 0x3daae259]);
    assert_eq!([word(16), word(17), word(18), word(19)], [0x9f7e69b1, 0x191e46c6, 0xcf31d183, 0xa11c6969]);
    assert_eq!(state.get_stream_param(0), 3);
}

#[test]
fn chacha_nonce_of_eight_bytes_is_the_stream() {
    let k = key();
    let state = ChaCha::new(&k, &[1, 2, 3, 4, 5, 6, 7, 8]);
    assert_eq!(state.get_stream_param(0), 0);
    assert_eq!(state.get_stream_param(1), 0x0807_0605_0403_0201);
}

#[test]
fn chacha_stream64_eq_ignores_the_position() {
    let k = key();
    let a = ChaCha::new(&k, &[0u8; 8]);
    let mut b = ChaCha::new(&k, &[0u8; 8]);
    assert!(a.stream64_eq(&b));
    b.set_stream_param(0, 77);
    assert!(a.stream64_eq(&b));
    b.set_stream_param(1, 1);
    assert!(!a.stream64_eq(&b));
    let mut other = k;
    other[31] ^= 1;
    assert!(!a.stream64_eq(&ChaCha::new(&other, &[0u8; 8])));
}

#[test]
fn chacha_round_and_diagonals() {
    let x = State {
        a: (0x6170_7865u32, 0x3320_646e, 0x7962_2d32, 0x6b20_6574),
        b: (1u32, 2, 3, 4),
        c: (5u32, 6, 7, 8),
        d: (9u32, 10, 11, 12),
    };
    let d = diagonalize(x);
    assert_eq!(d.a, x.a);
    assert_eq!(d.b, (2, 3, 4, 1));
    assert_eq!(d.c, (7, 8, 5, 6));
    assert_eq!(d.d, (12, 9, 10, 11));
    let u = undiagonalize(d);
    assert_eq!((u.a, u.b, u.c, u.d), (x.a, x.b, x.c, x.d));

    // the first column after one round, by the quarter round on its words
    let qr = |mut a: u32, mut b: u32, mut c: u32, mut d: u32| {
        a = a.wrapping_add(b);
        d = (d ^ a).rotate_left(16);
        c = c.wrapping_add(d);
        b = (b ^ c).rotate_left(12);
        a = a.wrapping_add(b);
        d = (d ^ a).rotate_left(8);
        c = c.wrapping_add(d);
        b = (b ^ c).rotate_left(7);
        (a, b, c, d)
    };
    let r = round(x);
    assert_eq!((r.a.0, r.b.0, r.c.0, r.d.0), qr(x.a.0, x.b.0, x.c.0, x.d.0));
    assert_eq!((r.a.3, r.b.3, r.c.3, r.d.3), qr(x.a.3, x.b.3, x.c.3, x.d.3));
}

#[test]
fn chacha_core_generates_sixty_four_words() {
    let mut core = ChaChaCore::from_seed(key());
    assert_eq!(ChaChaCore::block_size(), 64);
    let mut results = vec![0u32; 64];
    core.generate(&mut results);
    assert_eq!(&results[..4], &[0x9f7e69b1, 0x191e46c6, 0xcf31d183, 0xa11c6969]);
    assert_eq!(&results[53..57], &[0x503b302c, 0xaec487ac, 0x36e29238, 0x6d3cb142]);
}

#[test]
fn chacha_word_pos() {
    let mut rng = ChaChaRng::from_seed(key()).unwrap();
    assert_eq!(rng.get_word_pos(), 0);
    rng.next_u32();
    assert_eq!(rng.get_word_pos(), 1);
    for _ in 0..99 {
        rng.next_u32();
    }
    assert_eq!(rng.get_word_pos(), 100);

    rng.set_word_pos(53);
    assert_eq!(rng.get_word_pos(), 53);
    let got = [rng.next_u32(), rng.next_u32(), rng.next_u32(), rng.next_u32()];
    assert_eq!(got, [0x503b302c, 0xaec487ac, 0x36e29238, 0x6d3cb142]);
    assert_eq!(rng.get_word_pos(), 57);

    rng.set_word_pos(0);
    assert_eq!(rng.next_u32(), 0x9f7e69b1);

    // the last word of the stream, and the wrap to its first
    rng.set_word_pos((1u128 << 68) - 1);
    assert_eq!(rng.get_word_pos(), (1u128 << 68) - 1);
    rng.next_u32();
    assert_eq!(rng.get_word_pos(), 0);
    assert_eq!(rng.next_u32(), 0x9f7e69b1);

    // what is above 68 bits is dropped
    rng.set_word_pos((1u128 << 68) + 53);
    assert_eq!(rng.get_word_pos(), 53);
    assert_eq!(rng.next_u32(), 0x503b302c);
}

#[test]
fn chacha_set_stream() {
    let mut rng = ChaChaRng::from_seed(key()).unwrap();
    // before the first word: the buffer is empty and stays so
    rng.set_stream(7);
    assert_eq!(rng.get_word_pos(), 0);
    assert_eq!(rng.next_u32(), 0x9131e5db);

    // in the middle of a block: the position is kept
    let mut rng = ChaChaRng::from_seed(key()).unwrap();
    for _ in 0..53 {
        rng.next_u32();
    }
    rng.set_stream(7);
    assert_eq!(rng.get_word_pos(), 53);
    let got = [rng.next_u32(), rng.next_u32(), rng.next_u32(), rng.next_u32()];
    assert_eq!(got, [0x3d58e795, 0x7422863a, 0xce98a2b7, 0x13cea741]);
    rng.set_stream(0);
    assert_eq!(rng.get_word_pos(), 57);
    assert_eq!(rng.next_u32(), 0x56806c5c);
}

#[test]
fn std_rng_is_chacha() {
    let mut std = StdRng::from_seed(key()).unwrap();
    let mut chacha = ChaChaRng::from_seed(key()).unwrap();
    for _ in 0..200 {
        assert_eq!(std.next_u64(), chacha.next_u64());
    }
    let mut a = [0u8; 77];
    let mut b = [0u8; 77];
    std.fill_bytes(&mut a);
    chacha.fill_bytes(&mut b);
    assert_eq!(a[..], b[..]);
}

#[test]
fn chacha_key_of_a_long_nonce() {
    // The test vector of HChaCha20: key 00..1f and the sixteen bytes
    // 00 00 00 09 00 00 00 4a 00 00 00 00 31 41 59 27.
    let mut k = [0u8; 32];
    for i in 0..32 {
        k[i] = i as u8;
    }
    let nonce: [u8; 24] = [
        0, 0, 0, 9, 0, 0, 0, 0x4a, 0, 0, 0, 0, 0x31, 0x41, 0x59, 0x27, 1, 2, 3, 4, 5, 6, 7, 8,
    ];
    let state = init_chacha_x(&k, &nonce, 10);
    assert_eq!(state.b, (0x423b4182, 0xfe7bb227, 0x50420ed3, 0x737d878a));
    assert_eq!(state.c, (0xd5e4f9a0, 0x53a8748a, 0x13c42ec1, 0xdcecd326));
    assert_eq!(state.d, (0, 0, 0x04030201, 0x08070605));

    // the rounds alone, on the state of the key and the sixteen bytes
    let before = ChaCha {
        b: (0x03020100, 0x07060504, 0x0b0a0908, 0x0f0e0d0c),
        c: (0x13121110, 0x17161514, 0x1b1a1918, 0x1f1e1d1c),
        d: (0x09000000, 0x4a000000, 0x00000000, 0x27594131),
    };
    let x = refill_narrow_rounds(&before, 10);
    assert_eq!(x.a, state.b);
    assert_eq!(x.d, state.c);
    // no rounds: the square as it was set up
    let x = refill_narrow_rounds(&before, 0);
    assert_eq!(x.a, (0x6170_7865, 0x3320_646e, 0x7962_2d32, 0x6b20_6574));
    assert_eq!((x.b, x.c, x.d), (before.b, before.c, before.d));
}
