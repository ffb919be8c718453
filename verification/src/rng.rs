//! The contracts of random sources: of a source of bytes that may fail, of
//! a source of words that never fails, and of a source that is built from a
//! seed.

use vstd::prelude::*;
use crate::error::{Error, ErrorKind};
use crate::le::{put_u32, u32_byte, u32_bytes};

verus! {

/// A sequence of bytes as a mathematical value.
pub type Bytes = Seq<u8>;

/// A sequence of words as a mathematical value.
pub type Words = Seq<u32>;

/// A length as a mathematical value.
pub type Length = nat;

/// A source of random bytes that may fail: a source of entropy, or any
/// random source.
///
/// The view of a source is its state as a mathematical value, and what the
/// source hands out is a function of that state. A source that draws on its
/// surroundings counts them into its state.
pub trait EntropySource: View + Sized {
    /// The invariant of the source. Every method needs and keeps it.
    spec fn wf(&self) -> bool;

    /// What `try_fill_bytes` does in state `s` on a destination of `len`
    /// bytes: the bytes written or the failure, and the state after.
    spec fn try_fill_bytes_spec(s: Self::V, len: Length) -> (Result<Bytes, Error>, Self::V);

    /// Fills every byte of `dest` with random data, or reports why it could
    /// not. After a failure `dest` holds nothing of use.
    fn try_fill_bytes(&mut self, dest: &mut [u8]) -> (r: Result<(), Error>)
        requires
            old(self).wf(),
        ensures
            final(self).wf(),
            final(dest)@.len() == old(dest)@.len(),
            final(self)@ == Self::try_fill_bytes_spec(old(self)@, old(dest)@.len()).1,
            match Self::try_fill_bytes_spec(old(self)@, old(dest)@.len()).0 {
                Ok(bytes) => r is Ok && final(dest)@ == bytes,
                Err(e) => r == Err::<(), Error>(e),
            },
    ;
}

/// A source of random words that never fails.
///
/// Each method is a function of the state of the source: the spec functions
/// give, for a state, what the method hands out and the state it leaves.
pub trait RngCore: EntropySource {
    /// The word that `next_u32` returns in state `s`, and the state after.
    spec fn next_u32_spec(s: Self::V) -> (u32, Self::V);

    /// The word that `next_u64` returns in state `s`, and the state after.
    spec fn next_u64_spec(s: Self::V) -> (u64, Self::V);

    /// The `len` bytes that `fill_bytes` writes in state `s`, and the state
    /// after.
    spec fn fill_bytes_spec(s: Self::V, len: Length) -> (Bytes, Self::V);

    /// Returns the next random 32-bit word.
    fn next_u32(&mut self) -> (r: u32)
        requires
            old(self).wf(),
        ensures
            final(self).wf(),
            (r, final(self)@) == Self::next_u32_spec(old(self)@),
    ;

    /// Returns the next random 64-bit word.
    fn next_u64(&mut self) -> (r: u64)
        requires
            old(self).wf(),
        ensures
            final(self).wf(),
            (r, final(self)@) == Self::next_u64_spec(old(self)@),
    ;

    /// Fills every byte of `dest` with random data.
    fn fill_bytes(&mut self, dest: &mut [u8])
        requires
            old(self).wf(),
        ensures
            final(self).wf(),
            final(dest)@.len() == old(dest)@.len(),
            (final(dest)@, final(self)@) == Self::fill_bytes_spec(
                old(self)@,
                old(dest)@.len(),
            ),
    ;
}

/// A source whose output is fit for cryptographic use. The trait makes no
/// promise that this crate could check; it records the implementor's claim.
pub trait CryptoRng {

}

/// How often `from_rng` draws a seed before it gives up on a source that
/// keeps handing out degenerate seeds.
pub const SEED_ATTEMPTS: u32 = 8;

/// The failure that a degenerate seed is answered with.
pub open spec fn degenerate_seed_spec() -> Error {
    Error { kind: ErrorKind::Unexpected, msg: "seed is degenerate" }
}

/// The failure that a degenerate seed is answered with.
pub fn degenerate_seed() -> (e: Error)
    ensures
        e == degenerate_seed_spec(),
{
    Error::new(ErrorKind::Unexpected, "seed is degenerate")
}

/// The state of the generator that spreads a number over a seed, after
/// `n` steps from the number `state`: a linear congruential generator.
pub open spec fn spread_state(state: u64, n: nat) -> u64
    decreases n,
{
    if n == 0 {
        state
    } else {
        spread_state(state, (n - 1) as nat).wrapping_mul(6364136223846793005u64).wrapping_add(
            11634580027462260723u64,
        )
    }
}

/// The word that the generator hands out in state `state`: the high bits
/// of the state, folded and rotated by an amount that the highest bits give.
pub open spec fn spread_word(state: u64) -> u32 {
    let xorshifted = ((((state >> 18u64) ^ state) >> 27u64) & 0xffff_ffff) as u32;
    let rot = (state >> 59u64) as u32;
    if rot == 0 {
        xorshifted
    } else {
        (xorshifted >> rot) | (xorshifted << ((32 - rot) as u32))
    }
}

/// The seed of `len` bytes that the number `state` is spread to: the bytes
/// of the words that the generator hands out, least significant first. The
/// state is advanced before the first word is taken.
pub open spec fn spread_seed(state: u64, len: nat) -> Seq<u8> {
    Seq::new(len, |j: int| u32_byte(spread_word(spread_state(state, (j / 4 + 1) as nat)), j % 4))
}

/// A source that can be built from a seed: a byte array of a length that the
/// source fixes.
///
/// One seed gives one state. A source may call some seeds degenerate (those
/// that would give a stream of no use) and then refuses them.
pub trait SeedableRng: RngCore {
    /// The seed: a byte array.
    type Seed;

    /// The length of a seed in bytes.
    spec fn seed_len() -> Length;

    /// The bytes of a seed.
    spec fn seed_bytes(seed: Self::Seed) -> Bytes;

    /// The seeds that the source refuses.
    spec fn degenerate(bytes: Bytes) -> bool;

    /// The state that the seed `bytes` gives.
    spec fn seeded(bytes: Bytes) -> Self::V;

    /// The length of a seed in bytes.
    fn seed_size() -> (n: usize)
        ensures
            n == Self::seed_len(),
    ;

    /// The seed that holds `bytes`.
    fn seed_from_slice(bytes: &[u8]) -> (seed: Self::Seed)
        requires
            bytes@.len() == Self::seed_len(),
        ensures
            Self::seed_bytes(seed) == bytes@,
    ;

    /// Builds the source from `seed`; fails on a degenerate seed and on no
    /// other.
    fn from_seed(seed: Self::Seed) -> (r: Result<Self, Error>)
        ensures
            Self::seed_bytes(seed).len() == Self::seed_len(),
            match r {
                Ok(g) => !Self::degenerate(Self::seed_bytes(seed)) && g.wf() && g@ == Self::seeded(
                    Self::seed_bytes(seed),
                ),
                Err(e) => Self::degenerate(Self::seed_bytes(seed)) && e == degenerate_seed_spec(),
            },
    ;
}

/// The word that the generator of seeds hands out in state `state`.
pub fn spread(state: u64) -> (x: u32)
    ensures
        x == spread_word(state),
{
    let xorshifted: u32 = ((((state >> 18) ^ state) >> 27) & 0xffff_ffff) as u32;
    let rot: u32 = (state >> 59) as u32;
    assert(state >> 59 < 32) by (bit_vector);
    if rot == 0 {
        xorshifted
    } else {
        (xorshifted >> rot) | (xorshifted << (32 - rot))
    }
}

/// What `from_rng` gives for a source in state `s` when `attempts` draws are
/// left: the state of the new generator or the failure, and the state that
/// the source is left in.
pub open spec fn from_rng_spec<S: SeedableRng, R: EntropySource>(s: R::V, attempts: nat) -> (
    Result<S::V, Error>,
    R::V,
)
    decreases attempts,
{
    let (drawn, s1) = R::try_fill_bytes_spec(s, S::seed_len());
    match drawn {
        Err(e) => (Err(e), s1),
        Ok(bytes) => if !S::degenerate(bytes) {
            (Ok(S::seeded(bytes)), s1)
        } else if attempts <= 1 {
            (Err(degenerate_seed_spec()), s1)
        } else {
            from_rng_spec::<S, R>(s1, (attempts - 1) as nat)
        },
    }
}

/// Seeding from another source, and from a number. Every seedable source
/// has both.
pub trait SeedFromRng: SeedableRng {
    /// Builds the source from a seed drawn from `rng` with
    /// `try_fill_bytes`: exactly as many bytes as the seed has. A failure of
    /// `rng` is handed on. A degenerate seed is drawn again, up to
    /// `SEED_ATTEMPTS` draws in all; after that the failure of `from_seed`
    /// is returned.
    fn from_rng<R: EntropySource>(rng: &mut R) -> (r: Result<Self, Error>)
        requires
            old(rng).wf(),
        ensures
            final(rng).wf(),
            final(rng)@ == from_rng_spec::<Self, R>(old(rng)@, SEED_ATTEMPTS as nat).1,
            match from_rng_spec::<Self, R>(old(rng)@, SEED_ATTEMPTS as nat).0 {
                Ok(v) => r matches Ok(g) && g.wf() && g@ == v,
                Err(e) => r matches Err(f) && f == e,
            },
    {
        let n: usize = Self::seed_size();
        let mut buf: Vec<u8> = vec![0u8; n];
        let mut left: u32 = SEED_ATTEMPTS;
        loop
            invariant
                1 <= left <= SEED_ATTEMPTS,
                rng.wf(),
                buf@.len() == Self::seed_len(),
                from_rng_spec::<Self, R>(old(rng)@, SEED_ATTEMPTS as nat) == from_rng_spec::<
                    Self,
                    R,
                >(rng@, left as nat),
            decreases left,
        {
            match rng.try_fill_bytes(buf.as_mut_slice()) {
                Err(e) => {
                    return Err(e);
                },
                Ok(()) => {},
            }
            let seed = Self::seed_from_slice(buf.as_slice());
            match Self::from_seed(seed) {
                Ok(g) => {
                    return Ok(g);
                },
                Err(e) => {
                    if left == 1 {
                        return Err(e);
                    }
                },
            }
            left -= 1;
        }
    }

    /// Builds the source from a number: the number is spread over a seed
    /// by a small generator, so that numbers with few bits set give seeds
    /// that differ in many bits. Fails if the seed made is a degenerate one.
    fn seed_from_u64(state: u64) -> (r: Result<Self, Error>)
        ensures
            match r {
                Ok(g) => !Self::degenerate(spread_seed(state, Self::seed_len())) && g.wf() && g@
                    == Self::seeded(spread_seed(state, Self::seed_len())),
                Err(e) => Self::degenerate(spread_seed(state, Self::seed_len())) && e
                    == degenerate_seed_spec(),
            },
    {
        let n: usize = Self::seed_size();
        let mut buf: Vec<u8> = vec![0u8; n];
        let mut current: u64 = state;
        let mut at: usize = 0;
        while at < n
            invariant
                at <= n == buf@.len(),
                n == Self::seed_len(),
                at < n ==> at % 4 == 0,
                current == spread_state(state, ((at + 3) / 4) as nat),
                forall|j: int| 0 <= j < at ==> buf@[j] == spread_seed(state, n as nat)[j],
            decreases n - at,
        {
            // We advance the state first (to get away from the input value,
            // in case it has low Hamming Weight).
            current = current.wrapping_mul(6364136223846793005).wrapping_add(11634580027462260723);
            let x: u32 = spread(current);
            let k: usize = if n - at < 4 {
                n - at
            } else {
                4
            };
            let ghost before = buf@;
            put_u32(buf.as_mut_slice(), at, x, k);
            proof {
                assert forall|j: int| 0 <= j < at + k implies buf@[j] == spread_seed(
                    state,
                    n as nat,
                )[j] by {
                    if j < at {
                        assert(buf@[j] == before.take(at as int)[j]);
                    } else {
                        assert(buf@[j] == u32_bytes(x, k as nat)[j - at]);
                        assert(j / 4 == at / 4);
                        assert(j % 4 == j - at);
                    }
                }
            }
            at += k;
        }
        assert(buf@ =~= spread_seed(state, n as nat));
        let seed = Self::seed_from_slice(buf.as_slice());
        Self::from_seed(seed)
    }
}

impl<S: SeedableRng> SeedFromRng for S {

}

/// Seeding from a source agrees with seeding from the bytes it hands out:
/// where the source in state `s` yields the seed `bytes` and the generator
/// accepts it, `from_rng` builds the state that `from_seed` builds from
/// `bytes`, so both generators give the same stream.
pub proof fn lemma_from_rng_is_from_seed<S: SeedableRng, R: EntropySource>(
    s: R::V,
    bytes: Seq<u8>,
    attempts: nat,
)
    requires
        R::try_fill_bytes_spec(s, S::seed_len()).0 == Ok::<Seq<u8>, Error>(bytes),
        !S::degenerate(bytes),
    ensures
        from_rng_spec::<S, R>(s, attempts).0 == Ok::<S::V, Error>(S::seeded(bytes)),
        from_rng_spec::<S, R>(s, attempts).1 == R::try_fill_bytes_spec(s, S::seed_len()).1,
{
}

} // verus!
