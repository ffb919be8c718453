//! The ChaCha block function and the state of its stream.
//!
//! The state of the cipher is a square of sixteen words in four rows: the
//! constants, two rows of key, and a row with the block counter and the
//! nonce. A double round mixes the columns of the square and then its
//! diagonals; a block of output is the square after the rounds, added word by
//! word to the square before them.

use vstd::prelude::*;
use crate::le::{
    bytes_le, join_u32, put_words, read_u32_into, read_u32le, u32_le, u64_halves, words_le,
};

verus! {

/// The bytes of one block.
pub const BLOCK: usize = 64;

/// The blocks that one refill generates.
pub const BUFBLOCKS: u64 = 4;

/// The bytes that one refill generates.
pub const BUFSZ: usize = 256;

/// A row of the square: four words.
pub type Row = (u32, u32, u32, u32);

/// The square of the cipher, as its four rows.
#[derive(Clone, Copy)]
pub struct State<V> {
    /// The first row.
    pub a: V,
    /// The second row.
    pub b: V,
    /// The third row.
    pub c: V,
    /// The fourth row.
    pub d: V,
}

/// The row of constants.
pub open spec fn constants() -> Row {
    (0x6170_7865u32, 0x3320_646eu32, 0x7962_2d32u32, 0x6b20_6574u32)
}

/// `x` rotated right by `n` bits.
pub open spec fn rotr(x: u32, n: u32) -> u32 {
    (x >> n) | (x << ((32 - n) as u32))
}

/// The sums of the words of two rows, each without its carry.
pub open spec fn row_add(x: Row, y: Row) -> Row {
    (x.0.wrapping_add(y.0), x.1.wrapping_add(y.1), x.2.wrapping_add(y.2), x.3.wrapping_add(y.3))
}

/// The words of two rows, combined bit by bit with exclusive or.
pub open spec fn row_xor(x: Row, y: Row) -> Row {
    (x.0 ^ y.0, x.1 ^ y.1, x.2 ^ y.2, x.3 ^ y.3)
}

/// Each word of the row rotated right by `n` bits.
pub open spec fn row_rotr(x: Row, n: u32) -> Row {
    (rotr(x.0, n), rotr(x.1, n), rotr(x.2, n), rotr(x.3, n))
}

/// One round on the four columns of the square at once.
pub open spec fn round_spec(x: State<Row>) -> State<Row> {
    let a1 = row_add(x.a, x.b);
    let d1 = row_rotr(row_xor(x.d, a1), 16);
    let c1 = row_add(x.c, d1);
    let b1 = row_rotr(row_xor(x.b, c1), 20);
    let a2 = row_add(a1, b1);
    let d2 = row_rotr(row_xor(d1, a2), 24);
    let c2 = row_add(c1, d2);
    let b2 = row_rotr(row_xor(b1, c2), 25);
    State { a: a2, b: b2, c: c2, d: d2 }
}

/// The square with its diagonals turned into columns: the second row moved
/// left by one word, the third by two, the fourth by three.
pub open spec fn diagonalize_spec(x: State<Row>) -> State<Row> {
    State {
        a: x.a,
        b: (x.b.1, x.b.2, x.b.3, x.b.0),
        c: (x.c.2, x.c.3, x.c.0, x.c.1),
        d: (x.d.3, x.d.0, x.d.1, x.d.2),
    }
}

/// The inverse of `diagonalize_spec`.
pub open spec fn undiagonalize_spec(x: State<Row>) -> State<Row> {
    State {
        a: x.a,
        b: (x.b.3, x.b.0, x.b.1, x.b.2),
        c: (x.c.2, x.c.3, x.c.0, x.c.1),
        d: (x.d.1, x.d.2, x.d.3, x.d.0),
    }
}

/// A round on the columns followed by a round on the diagonals.
pub open spec fn double_round(x: State<Row>) -> State<Row> {
    undiagonalize_spec(round_spec(diagonalize_spec(round_spec(x))))
}

/// The square after `n` double rounds.
pub open spec fn rounds(x: State<Row>, n: nat) -> State<Row>
    decreases n,
{
    if n == 0 {
        x
    } else {
        double_round(rounds(x, (n - 1) as nat))
    }
}

/// The sixteen words of a square, row by row.
#[verifier::opaque]
pub open spec fn state_words(x: State<Row>) -> Seq<u32> {
    seq![
        x.a.0, x.a.1, x.a.2, x.a.3,
        x.b.0, x.b.1, x.b.2, x.b.3,
        x.c.0, x.c.1, x.c.2, x.c.3,
        x.d.0, x.d.1, x.d.2, x.d.3,
    ]
}

/// The square of the block that the rows `b`, `c`, `d` give after `drounds`
/// double rounds: the square after the rounds, added to the square before
/// them.
pub open spec fn block_state(b: Row, c: Row, d: Row, drounds: nat) -> State<Row> {
    let x = rounds(State { a: constants(), b, c, d }, drounds);
    State {
        a: row_add(x.a, constants()),
        b: row_add(x.b, b),
        c: row_add(x.c, c),
        d: row_add(x.d, d),
    }
}

/// The sixteen words of the block that the rows `b`, `c`, `d` give after
/// `drounds` double rounds.
pub open spec fn block_words(b: Row, c: Row, d: Row, drounds: nat) -> Seq<u32> {
    state_words(block_state(b, c, d, drounds))
}

/// The block counter that the fourth row holds in its first two words.
pub open spec fn pos_of(d: Row) -> u64 {
    u64_halves(d.0, d.1)
}

/// The row `d` with the block counter `pos` in its first two words.
pub open spec fn with_pos(d: Row, pos: u64) -> Row {
    ((pos as int % 0x1_0000_0000) as u32, (pos as int / 0x1_0000_0000) as u32, d.2, d.3)
}

/// The row `d` with `value` in the pair of words that `param` names: the
/// block counter for 0, the stream number for 1.
pub open spec fn with_param(d: Row, param: u32, value: u64) -> Row {
    let lo = (value as int % 0x1_0000_0000) as u32;
    let hi = (value as int / 0x1_0000_0000) as u32;
    if param == 0 {
        (lo, hi, d.2, d.3)
    } else {
        (d.0, d.1, lo, hi)
    }
}

/// The value in the pair of words of `d` that `param` names.
pub open spec fn param_of(d: Row, param: u32) -> u64 {
    if param == 0 {
        u64_halves(d.0, d.1)
    } else {
        u64_halves(d.2, d.3)
    }
}

/// The sum of `pos` and `k`, without its carry.
pub open spec fn pos_add(pos: u64, k: int) -> u64 {
    ((pos + k) % 0x1_0000_0000_0000_0000) as u64
}

/// The words of the block `k` blocks after the one that the counter of `s`
/// names.
pub open spec fn block_at(s: ChaCha, k: int, drounds: nat) -> Seq<u32> {
    block_words(s.b, s.c, with_pos(s.d, pos_add(pos_of(s.d), k)), drounds)
}

/// The words of the four blocks that a refill generates: the block that the
/// counter names and the three after it, in order.
pub open spec fn refill_words(s: ChaCha, drounds: nat) -> Seq<u32> {
    block_at(s, 0, drounds) + block_at(s, 1, drounds) + block_at(s, 2, drounds) + block_at(
        s,
        3,
        drounds,
    )
}

/// A block has sixteen words.
pub proof fn lemma_block_words_len(b: Row, c: Row, d: Row, drounds: nat)
    ensures
        block_words(b, c, d, drounds).len() == 16,
{
    reveal(state_words);
}

/// A refill has sixty-four words.
pub proof fn lemma_refill_words_len(s: ChaCha, drounds: nat)
    ensures
        refill_words(s, drounds).len() == 64,
{
    lemma_block_words_len(s.b, s.c, with_pos(s.d, pos_add(pos_of(s.d), 0)), drounds);
    lemma_block_words_len(s.b, s.c, with_pos(s.d, pos_add(pos_of(s.d), 1)), drounds);
    lemma_block_words_len(s.b, s.c, with_pos(s.d, pos_add(pos_of(s.d), 2)), drounds);
    lemma_block_words_len(s.b, s.c, with_pos(s.d, pos_add(pos_of(s.d), 3)), drounds);
}

/// The block counter that was put into a row is read back from it.
pub proof fn lemma_pos_of_with_pos(d: Row, pos: u64)
    ensures
        pos_of(with_pos(d, pos)) == pos,
        with_pos(d, pos).2 == d.2,
        with_pos(d, pos).3 == d.3,
{
}

/// A parameter that was put into a row is read back from it, and the other
/// parameter is as it was.
pub proof fn lemma_param_of_with_param(d: Row, param: u32, value: u64)
    requires
        param < 2,
    ensures
        param_of(with_param(d, param, value), param) == value,
        param_of(with_param(d, param, value), (1 - param) as u32) == param_of(
            d,
            (1 - param) as u32,
        ),
{
}

/// Moving the block counter on and back by the same number of blocks gives
/// the counter as it was.
pub proof fn lemma_pos_add_back(pos: u64, k: int)
    requires
        0 <= k < 0x1_0000_0000,
    ensures
        pos_add(pos_add(pos, k), -k) == pos,
        pos_add(pos, 0) == pos,
{
}

/// The state after a refill: the block counter has moved on by four.
pub open spec fn refilled(s: ChaCha) -> ChaCha {
    ChaCha { b: s.b, c: s.c, d: with_pos(s.d, pos_add(pos_of(s.d), 4)) }
}

/// The four little-endian words of sixteen bytes of `bytes`, from `at` on.
pub open spec fn row_le(bytes: Seq<u8>, at: int) -> Row {
    (
        u32_le(bytes[at], bytes[at + 1], bytes[at + 2], bytes[at + 3]),
        u32_le(bytes[at + 4], bytes[at + 5], bytes[at + 6], bytes[at + 7]),
        u32_le(bytes[at + 8], bytes[at + 9], bytes[at + 10], bytes[at + 11]),
        u32_le(bytes[at + 12], bytes[at + 13], bytes[at + 14], bytes[at + 15]),
    )
}

/// The state that a key and a nonce give. The block counter starts at zero.
/// A nonce of twelve bytes fills the three words after the first counter
/// word; of any other nonce the last eight bytes are the stream number.
pub open spec fn init_spec(key: Seq<u8>, nonce: Seq<u8>) -> ChaCha {
    let n = nonce.len() as int;
    ChaCha {
        b: row_le(key, 0),
        c: row_le(key, 16),
        d: (
            0u32,
            if n == 12 {
                u32_le(nonce[0], nonce[1], nonce[2], nonce[3])
            } else {
                0u32
            },
            u32_le(nonce[n - 8], nonce[n - 7], nonce[n - 6], nonce[n - 5]),
            u32_le(nonce[n - 4], nonce[n - 3], nonce[n - 2], nonce[n - 1]),
        ),
    }
}

fn rotate_right(x: u32, n: u32) -> (r: u32)
    requires
        0 < n < 32,
    ensures
        r == rotr(x, n),
{
    (x >> n) | (x << (32 - n))
}

fn add_rows(x: Row, y: Row) -> (r: Row)
    ensures
        r == row_add(x, y),
{
    (x.0.wrapping_add(y.0), x.1.wrapping_add(y.1), x.2.wrapping_add(y.2), x.3.wrapping_add(y.3))
}

fn mix_rows(x: Row, y: Row, n: u32) -> (r: Row)
    requires
        0 < n < 32,
    ensures
        r == row_rotr(row_xor(x, y), n),
{
    (
        rotate_right(x.0 ^ y.0, n),
        rotate_right(x.1 ^ y.1, n),
        rotate_right(x.2 ^ y.2, n),
        rotate_right(x.3 ^ y.3, n),
    )
}

/// One round on the four columns of the square at once.
pub fn round(x: State<Row>) -> (r: State<Row>)
    ensures
        r == round_spec(x),
{
    let mut x = x;
    x.a = add_rows(x.a, x.b);
    x.d = mix_rows(x.d, x.a, 16);
    x.c = add_rows(x.c, x.d);
    x.b = mix_rows(x.b, x.c, 20);
    x.a = add_rows(x.a, x.b);
    x.d = mix_rows(x.d, x.a, 24);
    x.c = add_rows(x.c, x.d);
    x.b = mix_rows(x.b, x.c, 25);
    x
}

/// Turns the diagonals of the square into its columns.
pub fn diagonalize(x: State<Row>) -> (r: State<Row>)
    ensures
        r == diagonalize_spec(x),
{
    let mut x = x;
    x.b = (x.b.1, x.b.2, x.b.3, x.b.0);
    x.c = (x.c.2, x.c.3, x.c.0, x.c.1);
    x.d = (x.d.3, x.d.0, x.d.1, x.d.2);
    x
}

/// Turns the columns of the square back into its diagonals.
pub fn undiagonalize(x: State<Row>) -> (r: State<Row>)
    ensures
        r == undiagonalize_spec(x),
{
    let mut x = x;
    x.b = (x.b.3, x.b.0, x.b.1, x.b.2);
    x.c = (x.c.2, x.c.3, x.c.0, x.c.1);
    x.d = (x.d.1, x.d.2, x.d.3, x.d.0);
    x
}

/// Undoing the turn of the diagonals gives the square back.
pub proof fn lemma_undiagonalize(x: State<Row>)
    ensures
        undiagonalize_spec(diagonalize_spec(x)) == x,
        diagonalize_spec(undiagonalize_spec(x)) == x,
{
}

/// The low and the high half of `w`.
fn halves(w: u64) -> (r: (u32, u32))
    ensures
        r.0 == (w as int % 0x1_0000_0000) as u32,
        r.1 == (w as int / 0x1_0000_0000) as u32,
{
    assert((w & 0xffff_ffff) == w % 0x1_0000_0000) by (bit_vector);
    assert((w >> 32) == w / 0x1_0000_0000) by (bit_vector);
    ((w & 0xffff_ffff) as u32, (w >> 32) as u32)
}

fn set_pos(d: Row, pos: u64) -> (r: Row)
    ensures
        r == with_pos(d, pos),
{
    let (lo, hi) = halves(pos);
    (lo, hi, d.2, d.3)
}

/// The square `x` after `drounds` double rounds.
fn run_rounds(x: State<Row>, drounds: u32) -> (r: State<Row>)
    ensures
        r == rounds(x, drounds as nat),
{
    let mut y: State<Row> = x;
    let mut i: u32 = 0;
    while i < drounds
        invariant
            i <= drounds,
            y == rounds(x, i as nat),
        decreases drounds - i,
    {
        y = round(y);
        y = undiagonalize(round(diagonalize(y)));
        i += 1;
    }
    y
}

/// The square of one block: the square after the rounds, added to the
/// square before them.
fn block(b: Row, c: Row, d: Row, drounds: u32) -> (r: State<Row>)
    ensures
        r == block_state(b, c, d, drounds as nat),
{
    let k: Row = (0x6170_7865, 0x3320_646e, 0x7962_2d32, 0x6b20_6574);
    let x: State<Row> = run_rounds(State { a: k, b, c, d }, drounds);
    State { a: add_rows(x.a, k), b: add_rows(x.b, b), c: add_rows(x.c, c), d: add_rows(x.d, d) }
}

/// The sixteen words of `x`, row by row.
fn words_of(x: State<Row>) -> (w: [u32; 16])
    ensures
        w@ == state_words(x),
{
    let w: [u32; 16] = [
        x.a.0, x.a.1, x.a.2, x.a.3,
        x.b.0, x.b.1, x.b.2, x.b.3,
        x.c.0, x.c.1, x.c.2, x.c.3,
        x.d.0, x.d.1, x.d.2, x.d.3,
    ];
    assert(w@ =~= state_words(x)) by {
        reveal(state_words);
    }
    w
}

/// The state of a ChaCha stream: the key and, in the last row, the block
/// counter and the stream number.
#[derive(Clone, Copy, PartialEq, Eq)]
pub struct ChaCha {
    /// The first half of the key.
    pub b: Row,
    /// The second half of the key.
    pub c: Row,
    /// The block counter in the first two words, the stream number in the
    /// last two.
    pub d: Row,
}

impl ChaCha {
    /// The state for `key` and `nonce`, with the block counter at zero. The
    /// nonce has eight or twelve bytes; of a longer one the last eight bytes
    /// are used.
    pub fn new(key: &[u8; 32], nonce: &[u8]) -> (r: ChaCha)
        requires
            nonce@.len() >= 8,
        ensures
            r == init_spec(key@, nonce@),
    {
        init_chacha(key, nonce)
    }

    fn pos64(&self) -> (pos: u64)
        ensures
            pos == pos_of(self.d),
    {
        join_u32(self.d.0, self.d.1)
    }

    /// Produce 4 blocks of output, advancing the state
    pub fn refill4(&mut self, drounds: u32, out: &mut [u8; BUFSZ])
        ensures
            final(out)@ == bytes_le(refill_words(*old(self), drounds as nat)),
            *final(self) == refilled(*old(self)),
    {
        refill_wide(self, drounds, out)
    }

    /// Sets the block counter (`param` 0) or the stream number (`param` 1)
    /// to `value`.
    pub fn set_stream_param(&mut self, param: u32, value: u64)
        requires
            param < 2,
        ensures
            *final(self) == (ChaCha {
                b: old(self).b,
                c: old(self).c,
                d: with_param(old(self).d, param, value),
            }),
    {
        let (lo, hi) = halves(value);
        if param == 0 {
            self.d = (lo, hi, self.d.2, self.d.3);
        } else {
            self.d = (self.d.0, self.d.1, lo, hi);
        }
    }

    /// The block counter (`param` 0) or the stream number (`param` 1).
    pub fn get_stream_param(&self, param: u32) -> (value: u64)
        requires
            param < 2,
        ensures
            value == param_of(self.d, param),
    {
        if param == 0 {
            join_u32(self.d.0, self.d.1)
        } else {
            join_u32(self.d.2, self.d.3)
        }
    }

    /// Return whether rhs is equal in all parameters except current 64-bit position.
    pub fn stream64_eq(&self, rhs: &Self) -> (eq: bool)
        ensures
            eq <==> self.b == rhs.b && self.c == rhs.c && self.d.2 == rhs.d.2 && self.d.3
                == rhs.d.3,
    {
        self.b.0 == rhs.b.0 && self.b.1 == rhs.b.1 && self.b.2 == rhs.b.2 && self.b.3 == rhs.b.3
            && self.c.0 == rhs.c.0 && self.c.1 == rhs.c.1 && self.c.2 == rhs.c.2 && self.c.3
            == rhs.c.3 && self.d.3 == rhs.d.3 && self.d.2 == rhs.d.2
    }
}

/// The words of the block `k` blocks after the one that the counter names.
fn block_after(state: &ChaCha, k: u64, drounds: u32) -> (w: [u32; 16])
    requires
        k < 4,
    ensures
        w@ == block_at(*state, k as int, drounds as nat),
{
    let pos: u64 = state.pos64();
    let d: Row = set_pos(state.d, pos.wrapping_add(k));
    words_of(block(state.b, state.c, d, drounds))
}

/// The words of four blocks in one array.
fn gather(w0: &[u32; 16], w1: &[u32; 16], w2: &[u32; 16], w3: &[u32; 16]) -> (words: [u32; 64])
    ensures
        words@ == w0@ + w1@ + w2@ + w3@,
{
    let mut words: [u32; 64] = [0u32; 64];
    let mut i: usize = 0;
    while i < 64
        invariant
            i <= 64,
            forall|k: int| 0 <= k < i ==> words@[k] == (w0@ + w1@ + w2@ + w3@)[k],
        decreases 64 - i,
    {
        let w: u32 = if i < 16 {
            w0[i]
        } else if i < 32 {
            w1[i - 16]
        } else if i < 48 {
            w2[i - 32]
        } else {
            w3[i - 48]
        };
        words[i] = w;
        i += 1;
    }
    assert(words@ =~= w0@ + w1@ + w2@ + w3@);
    words
}

/// The words of the four blocks of a refill.
fn refill_blocks(state: &ChaCha, drounds: u32) -> (words: [u32; 64])
    ensures
        words@ == refill_words(*state, drounds as nat),
{
    let w0: [u32; 16] = block_after(state, 0, drounds);
    let w1: [u32; 16] = block_after(state, 1, drounds);
    let w2: [u32; 16] = block_after(state, 2, drounds);
    let w3: [u32; 16] = block_after(state, 3, drounds);
    gather(&w0, &w1, &w2, &w3)
}

/// Writes the bytes of the four blocks of a refill.
#[verifier::rlimit(50)]
fn write_blocks(state: &ChaCha, drounds: u32, out: &mut [u8; 256])
    ensures
        final(out)@ == bytes_le(refill_words(*state, drounds as nat)),
{
    let words: [u32; 64] = refill_blocks(state, drounds);
    put_words(out, 0, &words);
}

/// Moves the block counter on by the four blocks of a refill.
fn skip_blocks(state: &mut ChaCha)
    ensures
        *final(state) == refilled(*old(state)),
{
    let pos: u64 = state.pos64();
    state.d = set_pos(state.d, pos.wrapping_add(4));
}

#[verifier::rlimit(50)]
fn refill_wide(state: &mut ChaCha, drounds: u32, out: &mut [u8; 256])
    ensures
        final(out)@ == bytes_le(refill_words(*old(state), drounds as nat)),
        *final(state) == refilled(*old(state)),
{
    write_blocks(state, drounds, out);
    skip_blocks(state);
}

fn init_chacha(key: &[u8; 32], nonce: &[u8]) -> (r: ChaCha)
    requires
        nonce@.len() >= 8,
    ensures
        r == init_spec(key@, nonce@),
{
    let n: usize = nonce.len();
    let first: u32 = if n == 12 {
        read_u32le(vstd::slice::slice_subrange(nonce, 0, 4))
    } else {
        0
    };
    let ctr_nonce: Row = (
        0,
        first,
        read_u32le(vstd::slice::slice_subrange(nonce, n - 8, n - 4)),
        read_u32le(vstd::slice::slice_subrange(nonce, n - 4, n)),
    );
    let mut words: [u32; 8] = [0u32; 8];
    read_u32_into(key, &mut words);
    assert(words@ == words_le(key@));
    ChaCha {
        b: (words[0], words[1], words[2], words[3]),
        c: (words[4], words[5], words[6], words[7]),
        d: ctr_nonce,
    }
}

/// The state for a key and a nonce of 24 bytes: the first sixteen bytes of
/// the nonce are mixed with the key by `rounds` double rounds, which gives a
/// key of its own to each of them; the last eight bytes are the stream
/// number. The block counter starts at zero.
pub open spec fn init_x_spec(key: Seq<u8>, nonce: Seq<u8>, rounds: nat) -> ChaCha {
    let mixed = self::rounds(
        State { a: constants(), b: row_le(key, 0), c: row_le(key, 16), d: row_le(nonce, 0) },
        rounds,
    );
    ChaCha {
        b: mixed.a,
        c: mixed.d,
        d: (
            0u32,
            0u32,
            u32_le(nonce[16], nonce[17], nonce[18], nonce[19]),
            u32_le(nonce[20], nonce[21], nonce[22], nonce[23]),
        ),
    }
}

/// The square of one block after the rounds alone: the square before them
/// is not added.
pub fn refill_narrow_rounds(state: &ChaCha, drounds: u32) -> (r: State<Row>)
    ensures
        r == rounds(State { a: constants(), b: state.b, c: state.c, d: state.d }, drounds as nat),
{
    let k: Row = (0x6170_7865, 0x3320_646e, 0x7962_2d32, 0x6b20_6574);
    run_rounds(State { a: k, b: state.b, c: state.c, d: state.d }, drounds)
}

/// The state for `key` and a nonce of 24 bytes, with the block counter at
/// zero.
pub fn init_chacha_x(key: &[u8; 32], nonce: &[u8; 24], rounds: u32) -> (r: ChaCha)
    ensures
        r == init_x_spec(key@, nonce@, rounds as nat),
{
    let mut words: [u32; 8] = [0u32; 8];
    read_u32_into(key, &mut words);
    assert(words@ == words_le(key@));
    let mut first: [u32; 4] = [0u32; 4];
    read_u32_into(vstd::slice::slice_subrange(nonce, 0, 16), &mut first);
    assert(first@ == words_le(nonce@.subrange(0, 16)));
    let mut state = ChaCha {
        b: (words[0], words[1], words[2], words[3]),
        c: (words[4], words[5], words[6], words[7]),
        d: (first[0], first[1], first[2], first[3]),
    };
    let x: State<Row> = refill_narrow_rounds(&state, rounds);
    let ctr_nonce1: Row = (
        0,
        0,
        read_u32le(vstd::slice::slice_subrange(nonce, 16, 20)),
        read_u32le(vstd::slice::slice_subrange(nonce, 20, 24)),
    );
    state.b = x.a;
    state.c = x.d;
    state.d = ctr_nonce1;
    state
}

} // verus!
