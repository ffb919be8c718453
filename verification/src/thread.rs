//! The generator that a thread keeps for itself.

use vstd::prelude::*;
use crate::block::BlockState;
use crate::chacha::guts::ChaCha;
use crate::error::Error;
use crate::reseeding::{ReseedingRng, ReseedingState};
use crate::rng::{from_rng_spec, EntropySource, SeedFromRng, SEED_ATTEMPTS};
use crate::std_rng::StdRng;

verus! {

/// The number of bytes after which the generator of a thread is reseeded:
/// 32 MiB.
pub const THREAD_RNG_RESEED_THRESHOLD: u64 = 0x200_0000;

/// The generator of a thread: the standard generator, seeded from a source
/// of entropy and reseeded from it after every 32 MiB of output.
///
/// The reseeding is a precaution against a state that has leaked; it is not
/// needed for the quality of the output.
pub struct ThreadRng<E: EntropySource> {
    rng: ReseedingRng<StdRng, E>,
}

impl<E: EntropySource> View for ThreadRng<E> {
    type V = ReseedingState<BlockState<ChaCha>, E::V>;

    closed spec fn view(&self) -> ReseedingState<BlockState<ChaCha>, E::V> {
        self.rng@
    }
}

impl<E: EntropySource> ThreadRng<E> {
    /// The invariant of the generator.
    pub closed spec fn valid(&self) -> bool {
        self.rng.valid()
    }

    /// Whether a request for `len` bytes would be served by a reseeded
    /// generator.
    pub fn is_reseed_due(&self, len: usize) -> (due: bool)
        ensures
            due == crate::reseeding::reseed_due(self@, len as nat),
    {
        self.rng.is_reseed_due(len)
    }

    /// The source of entropy, to be changed: for instance to hand it
    /// entropy that was gathered for the next reseeding.
    pub fn reseeder_mut(&mut self) -> (r: &mut E)
        requires
            old(self).valid(),
        ensures
            r.wf(),
            final(r).wf() ==> final(self).valid(),
            final(self)@ == (ReseedingState::<BlockState<ChaCha>, E::V> {
                inner: old(self)@.inner,
                reseeder: final(r)@,
                threshold: old(self)@.threshold,
                bytes_generated: old(self)@.bytes_generated,
            }),
            r@ == old(self)@.reseeder,
    {
        self.rng.reseeder_mut()
    }

    /// Returns the next random 32-bit word, or the failure of a reseeding
    /// that was due.
    pub fn try_next_u32(&mut self) -> (r: Result<u32, Error>)
        requires
            old(self).valid(),
        ensures
            final(self).valid(),
            (r, final(self)@) == crate::reseeding::try_next_u32_spec::<StdRng, E>(old(self)@),
    {
        self.rng.try_next_u32()
    }

    /// Returns the next random 64-bit word, or the failure of a reseeding
    /// that was due.
    pub fn try_next_u64(&mut self) -> (r: Result<u64, Error>)
        requires
            old(self).valid(),
        ensures
            final(self).valid(),
            (r, final(self)@) == crate::reseeding::try_next_u64_spec::<StdRng, E>(old(self)@),
    {
        self.rng.try_next_u64()
    }
}

impl<E: EntropySource> EntropySource for ThreadRng<E> {
    open spec fn wf(&self) -> bool {
        self.valid()
    }

    open spec fn try_fill_bytes_spec(s: ReseedingState<BlockState<ChaCha>, E::V>, len: nat) -> (
        Result<Seq<u8>, Error>,
        ReseedingState<BlockState<ChaCha>, E::V>,
    ) {
        crate::reseeding::try_fill_spec::<StdRng, E>(s, len)
    }

    fn try_fill_bytes(&mut self, dest: &mut [u8]) -> (r: Result<(), Error>) {
        self.rng.try_fill_bytes(dest)
    }
}

/// Makes the generator of a thread: the standard generator, seeded from
/// `entropy`, which it keeps for reseeding. Fails, with the failure of the
/// source, if the source cannot give the first seed.
///
/// A thread makes its generator once, on first use, and keeps it.
pub fn thread_rng<E: EntropySource>(entropy: E) -> (r: Result<ThreadRng<E>, Error>)
    requires
        entropy.wf(),
    ensures
        match from_rng_spec::<StdRng, E>(entropy@, SEED_ATTEMPTS as nat).0 {
            Ok(inner) => r matches Ok(t) && t.valid() && t@ == (ReseedingState::<
                BlockState<ChaCha>,
                E::V,
            > {
                inner,
                reseeder: from_rng_spec::<StdRng, E>(entropy@, SEED_ATTEMPTS as nat).1,
                threshold: THREAD_RNG_RESEED_THRESHOLD,
                bytes_generated: 0,
            }),
            Err(e) => r matches Err(f) && f == e,
        },
{
    let mut entropy = entropy;
    match StdRng::from_rng(&mut entropy) {
        Ok(inner) => Ok(
            ThreadRng { rng: ReseedingRng::new(inner, THREAD_RNG_RESEED_THRESHOLD, entropy) },
        ),
        Err(e) => Err(e),
    }
}

} // verus!
