//! Little-endian layout of words in byte sequences.
//!
//! Every conversion between words and bytes in this crate puts the least
//! significant byte first, whatever the byte order of the machine, so that one
//! seed gives one stream everywhere.

use vstd::prelude::*;

verus! {

/// The word whose little-endian bytes are `b0, b1, b2, b3`.
pub open spec fn u32_le(b0: u8, b1: u8, b2: u8, b3: u8) -> u32 {
    (b0 as int + b1 as int * 0x100 + b2 as int * 0x1_0000 + b3 as int * 0x100_0000) as u32
}

/// Byte `i` of `w`, counted from the least significant one.
pub open spec fn u32_byte(w: u32, i: int) -> u8 {
    if i == 0 {
        (w as int % 0x100) as u8
    } else if i == 1 {
        (w as int / 0x100 % 0x100) as u8
    } else if i == 2 {
        (w as int / 0x1_0000 % 0x100) as u8
    } else {
        (w as int / 0x100_0000 % 0x100) as u8
    }
}

/// Byte `i` of `w`, counted from the least significant one.
pub open spec fn u64_byte(w: u64, i: int) -> u8 {
    if i < 4 {
        u32_byte((w as int % 0x1_0000_0000) as u32, i)
    } else {
        u32_byte((w as int / 0x1_0000_0000) as u32, i - 4)
    }
}

/// The 64-bit word with low half `lo` and high half `hi`.
pub open spec fn u64_halves(lo: u32, hi: u32) -> u64 {
    (lo as int + hi as int * 0x1_0000_0000) as u64
}

/// The words that `bytes` hold, four bytes to a word; bytes beyond the last
/// full group are left out.
pub open spec fn words_le(bytes: Seq<u8>) -> Seq<u32> {
    Seq::new(
        bytes.len() / 4,
        |i: int| u32_le(bytes[4 * i], bytes[4 * i + 1], bytes[4 * i + 2], bytes[4 * i + 3]),
    )
}

/// The 64-bit words that `bytes` hold, eight bytes to a word.
pub open spec fn words64_le(bytes: Seq<u8>) -> Seq<u64> {
    Seq::new(
        bytes.len() / 8,
        |i: int|
            u64_halves(
                u32_le(bytes[8 * i], bytes[8 * i + 1], bytes[8 * i + 2], bytes[8 * i + 3]),
                u32_le(bytes[8 * i + 4], bytes[8 * i + 5], bytes[8 * i + 6], bytes[8 * i + 7]),
            ),
    )
}

/// The bytes of `words`, four to a word.
pub open spec fn bytes_le(words: Seq<u32>) -> Seq<u8> {
    Seq::new(4 * words.len(), |i: int| u32_byte(words[i / 4], i % 4))
}

/// The first `n` bytes of `w`.
pub open spec fn u32_bytes(w: u32, n: nat) -> Seq<u8> {
    Seq::new(n, |i: int| u32_byte(w, i))
}

/// The first `n` bytes of `w`.
pub open spec fn u64_bytes(w: u64, n: nat) -> Seq<u8> {
    Seq::new(n, |i: int| u64_byte(w, i))
}

/// Bytes and word are two writings of one number.
pub proof fn lemma_u32_le_bytes(w: u32)
    ensures
        u32_le(u32_byte(w, 0), u32_byte(w, 1), u32_byte(w, 2), u32_byte(w, 3)) == w,
{
}

/// Serialising words and reading them back gives the words.
pub proof fn lemma_words_of_bytes(words: Seq<u32>)
    ensures
        words_le(bytes_le(words)) =~= words,
{
    assert forall|i: int| 0 <= i < words.len() implies #[trigger] words_le(bytes_le(words))[i]
        == words[i] by {
        lemma_u32_le_bytes(words[i]);
    }
}

/// Reads one word from four little-endian bytes.
pub fn read_u32le(xs: &[u8]) -> (w: u32)
    requires
        xs@.len() == 4,
    ensures
        w == u32_le(xs@[0], xs@[1], xs@[2], xs@[3]),
{
    let b0: u32 = xs[0] as u32;
    let b1: u32 = xs[1] as u32;
    let b2: u32 = xs[2] as u32;
    let b3: u32 = xs[3] as u32;
    assert(b0 | (b1 << 8) | (b2 << 16) | (b3 << 24) == b0 + b1 * 0x100 + b2 * 0x1_0000 + b3
        * 0x100_0000) by (bit_vector)
        requires
            b0 < 0x100,
            b1 < 0x100,
            b2 < 0x100,
            b3 < 0x100,
    ;
    b0 | (b1 << 8) | (b2 << 16) | (b3 << 24)
}

/// The 16-bit word whose little-endian bytes are `b0, b1`.
pub open spec fn u16_le(b0: u8, b1: u8) -> u16 {
    (b0 as int + b1 as int * 0x100) as u16
}

/// The 16-bit words that `bytes` hold, two bytes to a word.
pub open spec fn words16_le(bytes: Seq<u8>) -> Seq<u16> {
    Seq::new(bytes.len() / 2, |i: int| u16_le(bytes[2 * i], bytes[2 * i + 1]))
}

/// Reads one 16-bit word from two little-endian bytes.
pub fn read_u16le(b0: u8, b1: u8) -> (w: u16)
    ensures
        w == u16_le(b0, b1),
{
    let x: u16 = b0 as u16;
    let y: u16 = b1 as u16;
    assert(x | (y << 8) == x + y * 0x100) by (bit_vector)
        requires
            x < 0x100,
            y < 0x100,
    ;
    x | (y << 8)
}

/// Joins two 32-bit words into one 64-bit word, `lo` in the low half.
pub fn join_u32(lo: u32, hi: u32) -> (w: u64)
    ensures
        w == u64_halves(lo, hi),
{
    let x: u64 = lo as u64;
    let y: u64 = hi as u64;
    assert((y << 32) | x == x + y * 0x1_0000_0000) by (bit_vector)
        requires
            x < 0x1_0000_0000,
            y < 0x1_0000_0000,
    ;
    (y << 32) | x
}

/// Byte `i` of `w`, counted from the least significant one.
pub fn byte_of_u32(w: u32, i: usize) -> (b: u8)
    requires
        i < 4,
    ensures
        b == u32_byte(w, i as int),
{
    let s: u32 = (i as u32) * 8;
    assert(((w >> s) & 0xff) == if s == 0 {
        w % 0x100
    } else if s == 8 {
        w / 0x100 % 0x100
    } else if s == 16 {
        w / 0x1_0000 % 0x100
    } else {
        w / 0x100_0000 % 0x100
    }) by (bit_vector)
        requires
            s == 0 || s == 8 || s == 16 || s == 24,
    ;
    ((w >> s) & 0xff) as u8
}

/// Byte `i` of `w`, counted from the least significant one.
pub fn byte_of_u64(w: u64, i: usize) -> (b: u8)
    requires
        i < 8,
    ensures
        b == u64_byte(w, i as int),
{
    let lo: u32 = (w & 0xffff_ffff) as u32;
    let hi: u32 = (w >> 32) as u32;
    assert((w & 0xffff_ffff) == w % 0x1_0000_0000) by (bit_vector);
    assert((w >> 32) == w / 0x1_0000_0000) by (bit_vector);
    if i < 4 {
        byte_of_u32(lo, i)
    } else {
        byte_of_u32(hi, i - 4)
    }
}

/// Writes the first `k` bytes of `w` to `dest`, from position `at` on.
pub fn put_u32(dest: &mut [u8], at: usize, w: u32, k: usize)
    requires
        k <= 4,
        at + k <= old(dest)@.len(),
    ensures
        final(dest)@ == old(dest)@.take(at as int) + u32_bytes(w, k as nat) + old(dest)@.skip(
            at + k,
        ),
{
    let n: usize = dest.len();
    let mut i: usize = 0;
    while i < k
        invariant
            i <= k <= 4,
            at + k <= n == dest@.len(),
            dest@.len() == old(dest)@.len(),
            dest@ == old(dest)@.take(at as int) + u32_bytes(w, i as nat) + old(dest)@.skip(at + i),
        decreases k - i,
    {
        let b: u8 = byte_of_u32(w, i);
        let ghost prev = dest@;
        dest[at + i] = b;
        assert(dest@ =~= old(dest)@.take(at as int) + u32_bytes(w, (i + 1) as nat) + old(
            dest,
        )@.skip(at + i + 1));
        i += 1;
    }
}

/// Writes the first `k` bytes of `w` to `dest`, from position `at` on.
pub fn put_u64(dest: &mut [u8], at: usize, w: u64, k: usize)
    requires
        k <= 8,
        at + k <= old(dest)@.len(),
    ensures
        final(dest)@ == old(dest)@.take(at as int) + u64_bytes(w, k as nat) + old(dest)@.skip(
            at + k,
        ),
{
    let n: usize = dest.len();
    let mut i: usize = 0;
    while i < k
        invariant
            i <= k <= 8,
            at + k <= n == dest@.len(),
            dest@.len() == old(dest)@.len(),
            dest@ == old(dest)@.take(at as int) + u64_bytes(w, i as nat) + old(dest)@.skip(at + i),
        decreases k - i,
    {
        let b: u8 = byte_of_u64(w, i);
        let ghost prev = dest@;
        dest[at + i] = b;
        assert(dest@ =~= old(dest)@.take(at as int) + u64_bytes(w, (i + 1) as nat) + old(
            dest,
        )@.skip(at + i + 1));
        i += 1;
    }
}

/// Writes the bytes of `words` to `dest`, from position `at` on, four bytes
/// to a word.
pub fn put_words(dest: &mut [u8], at: usize, words: &[u32])
    requires
        at + 4 * words@.len() <= old(dest)@.len(),
    ensures
        final(dest)@.len() == old(dest)@.len(),
        forall|i: int|
            0 <= i < old(dest)@.len() ==> #[trigger] final(dest)@[i] == if at <= i < at + 4
                * words@.len() {
                u32_byte(words@[(i - at) / 4], (i - at) % 4)
            } else {
                old(dest)@[i]
            },
        at == 0 && 4 * words@.len() == old(dest)@.len() ==> final(dest)@ == bytes_le(words@),
{
    let n: usize = dest.len();
    let count: usize = words.len();
    let mut k: usize = 0;
    while k < count
        invariant
            k <= count == words@.len(),
            at + 4 * count <= n == dest@.len(),
            n == old(dest)@.len(),
            forall|i: int|
                0 <= i < n ==> #[trigger] dest@[i] == if at <= i < at + 4 * k {
                    u32_byte(words@[(i - at) / 4], (i - at) % 4)
                } else {
                    old(dest)@[i]
                },
        decreases count - k,
    {
        let ghost prev = dest@;
        let w: u32 = words[k];
        put_u32(dest, at + 4 * k, w, 4);
        assert forall|i: int| 0 <= i < n implies #[trigger] dest@[i] == if at <= i < at + 4 * (k
            + 1) {
            u32_byte(words@[(i - at) / 4], (i - at) % 4)
        } else {
            old(dest)@[i]
        } by {
            let p = at + 4 * k;
            if i < p {
                assert(dest@[i] == prev.take(p)[i]);
            } else if i < p + 4 {
                assert(dest@[i] == u32_bytes(w, 4)[i - p]);
                assert((i - at) / 4 == k as int);
                assert((i - at) % 4 == i - p);
            } else {
                assert(dest@[i] == prev.skip(p + 4)[i - p - 4]);
            }
        }
        k += 1;
    }
    if at == 0 && 4 * count == n {
        assert(dest@ =~= bytes_le(words@));
    }
}

/// Reads `dst.len()` words from `src`, each from four little-endian bytes.
///
/// This is `rand_core::le::read_u32_into`. It is taken on trust that the
/// call stores in `dst` the words that `src` holds, in order, and that it
/// returns whenever `src` is four times as long as `dst`.
#[verifier::external_body]
pub(crate) fn read_u32_into(src: &[u8], dst: &mut [u32])
    requires
        src@.len() == 4 * old(dst)@.len(),
    ensures
        final(dst)@ == words_le(src@),
{
    rand_core::le::read_u32_into(src, dst)
}

/// Reads `dst.len()` 64-bit words from `src`, each from eight little-endian
/// bytes.
///
/// This is `rand_core::le::read_u64_into`. It is taken on trust that the
/// call stores in `dst` the words that `src` holds, in order, and that it
/// returns whenever `src` is eight times as long as `dst`.
#[verifier::external_body]
pub(crate) fn read_u64_into(src: &[u8], dst: &mut [u64])
    requires
        src@.len() == 8 * old(dst)@.len(),
    ensures
        final(dst)@ == words64_le(src@),
{
    rand_core::le::read_u64_into(src, dst)
}

/// Copies the bytes of the words of `src` to the front of `dest`, as many as
/// both can take, and returns how many words were used and how many bytes
/// were written.
///
/// This is `rand_core::impls::fill_via_u32_chunks`. It is taken on trust that
/// the call writes `min(4 * src.len(), dest.len())` bytes, the little-endian
/// bytes of the words of `src` in order, leaves the rest of `dest` as it was,
/// and returns the number of words touched (the bytes written divided by
/// four, rounded up) and the number of bytes written.
#[verifier::external_body]
pub(crate) fn fill_via_u32_chunks(src: &[u32], dest: &mut [u8]) -> (r: (usize, usize))
    requires
        4 * src@.len() + 4 <= usize::MAX,
    ensures
        r.1 == vstd::math::min(4 * src@.len() as int, old(dest)@.len() as int),
        r.0 == (r.1 + 3) / 4,
        final(dest)@ == bytes_le(src@).take(r.1 as int) + old(dest)@.skip(r.1 as int),
{
    rand_core::impls::fill_via_u32_chunks(src, dest)
}

} // verus!
