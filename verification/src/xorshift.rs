//! The Xorshift generator.

use vstd::prelude::*;
use crate::error::Error;
use crate::le::{join_u32, put_u32, read_u32_into, u32_bytes, u64_halves, words_le};
use crate::rng::{degenerate_seed, EntropySource, RngCore, SeedableRng};

verus! {

/// An Xorshift random number generator (Marsaglia 2003, the 128-bit variant).
///
/// It is fast and not fit for cryptographic use. Its state is four words; the
/// state of four zeros is a fixed point of the step and is never entered.
/// The state cannot be printed.
#[derive(Clone)]
pub struct XorShiftRng {
    x: u32,
    y: u32,
    z: u32,
    w: u32,
}

impl View for XorShiftRng {
    type V = (u32, u32, u32, u32);

    open spec fn view(&self) -> (u32, u32, u32, u32) {
        self.words()
    }
}

/// One step of the generator: the word handed out and the state after.
pub open spec fn xorshift_step(s: (u32, u32, u32, u32)) -> (u32, (u32, u32, u32, u32)) {
    let t: u32 = s.0 ^ (s.0 << 11u32);
    let w: u32 = s.3 ^ (s.3 >> 19u32) ^ (t ^ (t >> 8u32));
    (w, (s.1, s.2, s.3, w))
}

/// Two steps joined into a 64-bit word, the first word in the low half.
pub open spec fn xorshift_step64(s: (u32, u32, u32, u32)) -> (u64, (u32, u32, u32, u32)) {
    let (lo, s1) = xorshift_step(s);
    let (hi, s2) = xorshift_step(s1);
    (u64_halves(lo, hi), s2)
}

/// The `len` bytes that the generator writes from state `s`, and the state
/// after: four bytes of each word, least significant first; of the last
/// word only the bytes still wanted.
pub open spec fn xorshift_fill(s: (u32, u32, u32, u32), len: nat) -> (
    Seq<u8>,
    (u32, u32, u32, u32),
)
    decreases len,
{
    if len == 0 {
        (Seq::empty(), s)
    } else {
        let (w, s1) = xorshift_step(s);
        let k: nat = if len < 4 {
            len
        } else {
            4
        };
        let (rest, s2) = xorshift_fill(s1, (len - k) as nat);
        (u32_bytes(w, k) + rest, s2)
    }
}

impl XorShiftRng {
    /// The four words of the state.
    pub closed spec fn words(&self) -> (u32, u32, u32, u32) {
        (self.x, self.y, self.z, self.w)
    }

    /// A generator that is not seeded: it starts from fixed constants, so
    /// every generator made here yields the same stream.
    pub fn new_unseeded() -> (g: XorShiftRng)
        ensures
            g@ == (0x193a6754u32, 0xa8a7d469u32, 0x97830e05u32, 0x113ba7bbu32),
            g.wf(),
    {
        XorShiftRng { x: 0x193a6754, y: 0xa8a7d469, z: 0x97830e05, w: 0x113ba7bb }
    }
}

impl XorShiftRng {
    fn step(&mut self) -> (r: u32)
        ensures
            (r, final(self)@) == xorshift_step(old(self)@),
    {
        let x: u32 = self.x;
        let t: u32 = x ^ (x << 11);
        self.x = self.y;
        self.y = self.z;
        self.z = self.w;
        let w_: u32 = self.w;
        self.w = w_ ^ (w_ >> 19) ^ (t ^ (t >> 8));
        self.w
    }
}

impl EntropySource for XorShiftRng {
    open spec fn wf(&self) -> bool {
        true
    }

    open spec fn try_fill_bytes_spec(s: (u32, u32, u32, u32), len: nat) -> (
        Result<Seq<u8>, Error>,
        (u32, u32, u32, u32),
    ) {
        (Ok(xorshift_fill(s, len).0), xorshift_fill(s, len).1)
    }

    fn try_fill_bytes(&mut self, dest: &mut [u8]) -> (r: Result<(), Error>) {
        self.fill_bytes(dest);
        Ok(())
    }
}

impl RngCore for XorShiftRng {
    open spec fn next_u32_spec(s: (u32, u32, u32, u32)) -> (u32, (u32, u32, u32, u32)) {
        xorshift_step(s)
    }

    open spec fn next_u64_spec(s: (u32, u32, u32, u32)) -> (u64, (u32, u32, u32, u32)) {
        xorshift_step64(s)
    }

    open spec fn fill_bytes_spec(s: (u32, u32, u32, u32), len: nat) -> (
        Seq<u8>,
        (u32, u32, u32, u32),
    ) {
        xorshift_fill(s, len)
    }

    fn next_u32(&mut self) -> (r: u32) {
        self.step()
    }

    fn next_u64(&mut self) -> (r: u64) {
        let lo: u32 = self.step();
        let hi: u32 = self.step();
        join_u32(lo, hi)
    }

    fn fill_bytes(&mut self, dest: &mut [u8]) {
        let n: usize = dest.len();
        let mut at: usize = 0;
        while at < n
            invariant
                at <= n,
                n == dest@.len(),
                n == old(dest)@.len(),
                xorshift_fill(old(self)@, n as nat) == ({
                    let (rest, s) = xorshift_fill(self@, (n - at) as nat);
                    (dest@.take(at as int) + rest, s)
                }),
            decreases n - at,
        {
            let w: u32 = self.step();
            let k: usize = if n - at < 4 {
                n - at
            } else {
                4
            };
            let ghost prev = dest@;
            put_u32(dest, at, w, k);
            proof {
                let (rest, s2) = xorshift_fill(self@, (n - at - k) as nat);
                assert(dest@.take(at + k) =~= prev.take(at as int) + u32_bytes(w, k as nat));
                assert((prev.take(at as int) + u32_bytes(w, k as nat)) + rest =~= prev.take(
                    at as int,
                ) + (u32_bytes(w, k as nat) + rest));
            }
            at += k;
        }
        assert(dest@.take(n as int) =~= dest@);
        assert(dest@ + Seq::<u8>::empty() =~= dest@);
    }
}

/// True if every byte of `seed` is zero.
fn all_zero(seed: &[u8; 16]) -> (b: bool)
    ensures
        b <==> forall|i: int| 0 <= i < 16 ==> seed@[i] == 0,
{
    let mut i: usize = 0;
    while i < 16
        invariant
            i <= 16,
            forall|j: int| 0 <= j < i ==> seed@[j] == 0,
        decreases 16 - i,
    {
        if seed[i] != 0 {
            return false;
        }
        i += 1;
    }
    true
}

impl SeedableRng for XorShiftRng {
    type Seed = [u8; 16];

    open spec fn seed_len() -> nat {
        16
    }

    open spec fn seed_bytes(seed: [u8; 16]) -> Seq<u8> {
        seed@
    }

    /// The seed of sixteen zero bytes, which would give the fixed point.
    open spec fn degenerate(bytes: Seq<u8>) -> bool {
        forall|i: int| 0 <= i < 16 ==> bytes[i] == 0
    }

    /// The four words of the state are the four little-endian words of the
    /// seed, in order.
    open spec fn seeded(bytes: Seq<u8>) -> (u32, u32, u32, u32) {
        (words_le(bytes)[0], words_le(bytes)[1], words_le(bytes)[2], words_le(bytes)[3])
    }

    fn seed_size() -> (n: usize) {
        16
    }

    fn seed_from_slice(bytes: &[u8]) -> (seed: [u8; 16]) {
        let mut seed: [u8; 16] = [0u8; 16];
        let mut i: usize = 0;
        while i < 16
            invariant
                i <= 16,
                bytes@.len() == 16,
                forall|j: int| 0 <= j < i ==> seed@[j] == bytes@[j],
            decreases 16 - i,
        {
            seed[i] = bytes[i];
            i += 1;
        }
        assert(seed@ =~= bytes@);
        seed
    }

    fn from_seed(seed: [u8; 16]) -> (r: Result<Self, Error>) {
        if all_zero(&seed) {
            return Err(degenerate_seed());
        }
        let mut words: [u32; 4] = [0u32; 4];
        read_u32_into(&seed, &mut words);
        Ok(XorShiftRng { x: words[0], y: words[1], z: words[2], w: words[3] })
    }
}

} // verus!
