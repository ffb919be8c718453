//! A wrapper around another generator that reseeds it after it has
//! generated a certain number of random bytes.

use vstd::prelude::*;
use crate::error::Error;
use crate::rng::{
    from_rng_spec, CryptoRng, EntropySource, RngCore, SeedFromRng, SeedableRng, SEED_ATTEMPTS,
};

verus! {

/// The state of a `ReseedingRng` as a mathematical value.
pub struct ReseedingState<I, E> {
    /// The state of the inner generator.
    pub inner: I,
    /// The state of the source of fresh seeds.
    pub reseeder: E,
    /// The number of bytes after which the inner generator is reseeded.
    pub threshold: u64,
    /// The bytes generated since the inner generator was seeded last.
    pub bytes_generated: u64,
}

/// Whether a request for `len` bytes in state `s` is served by a reseeded
/// generator: whether it would take the count of bytes to the threshold or
/// beyond.
pub open spec fn reseed_due<I, E>(s: ReseedingState<I, E>, len: nat) -> bool {
    s.bytes_generated + len >= s.threshold
}

/// What reseeding does in state `s`: either the inner generator is replaced
/// by one seeded from the source and the count of bytes starts again at
/// zero, or the source fails, the failure is handed on, and the inner
/// generator and the count are as they were.
pub open spec fn reseed_spec<R: SeedableRng, Rsdr: EntropySource>(
    s: ReseedingState<R::V, Rsdr::V>,
) -> (Result<(), Error>, ReseedingState<R::V, Rsdr::V>) {
    let (made, reseeder) = from_rng_spec::<R, Rsdr>(s.reseeder, SEED_ATTEMPTS as nat);
    match made {
        Ok(inner) => (
            Ok(()),
            ReseedingState { inner, reseeder, threshold: s.threshold, bytes_generated: 0 },
        ),
        Err(e) => (
            Err(e),
            ReseedingState {
                inner: s.inner,
                reseeder,
                threshold: s.threshold,
                bytes_generated: s.bytes_generated,
            },
        ),
    }
}

/// What happens in state `s` before a request for `len` bytes is served:
/// the generator is reseeded if that is due, and once only.
pub open spec fn prepare_spec<R: SeedableRng, Rsdr: EntropySource>(
    s: ReseedingState<R::V, Rsdr::V>,
    len: nat,
) -> (Result<(), Error>, ReseedingState<R::V, Rsdr::V>) {
    if reseed_due(s, len) {
        reseed_spec::<R, Rsdr>(s)
    } else {
        (Ok(()), s)
    }
}

/// The state `s` after the inner generator, now in state `inner`, has served
/// `len` bytes.
pub open spec fn served<I, E>(s: ReseedingState<I, E>, inner: I, len: nat) -> ReseedingState<I, E> {
    ReseedingState {
        inner,
        reseeder: s.reseeder,
        threshold: s.threshold,
        bytes_generated: (s.bytes_generated + len) as u64,
    }
}

/// What `try_next_u32` does in state `s`.
pub open spec fn try_next_u32_spec<R: SeedableRng, Rsdr: EntropySource>(
    s: ReseedingState<R::V, Rsdr::V>,
) -> (Result<u32, Error>, ReseedingState<R::V, Rsdr::V>) {
    let (ready, s1) = prepare_spec::<R, Rsdr>(s, 4);
    match ready {
        Err(e) => (Err(e), s1),
        Ok(()) => (Ok(R::next_u32_spec(s1.inner).0), served(s1, R::next_u32_spec(s1.inner).1, 4)),
    }
}

/// What `try_next_u64` does in state `s`.
pub open spec fn try_next_u64_spec<R: SeedableRng, Rsdr: EntropySource>(
    s: ReseedingState<R::V, Rsdr::V>,
) -> (Result<u64, Error>, ReseedingState<R::V, Rsdr::V>) {
    let (ready, s1) = prepare_spec::<R, Rsdr>(s, 8);
    match ready {
        Err(e) => (Err(e), s1),
        Ok(()) => (Ok(R::next_u64_spec(s1.inner).0), served(s1, R::next_u64_spec(s1.inner).1, 8)),
    }
}

/// What `try_fill_bytes` does in state `s` on a destination of `len` bytes.
pub open spec fn try_fill_spec<R: SeedableRng, Rsdr: EntropySource>(
    s: ReseedingState<R::V, Rsdr::V>,
    len: nat,
) -> (Result<Seq<u8>, Error>, ReseedingState<R::V, Rsdr::V>) {
    let (ready, s1) = prepare_spec::<R, Rsdr>(s, len);
    match ready {
        Err(e) => (Err(e), s1),
        Ok(()) => (
            Ok(R::fill_bytes_spec(s1.inner, len).0),
            served(s1, R::fill_bytes_spec(s1.inner, len).1, len),
        ),
    }
}

/// A request that is served leaves the count of bytes below the threshold,
/// unless the request alone reaches the threshold; and where the request
/// crossed the threshold, the inner generator was seeded afresh from the
/// source before it served the request, and the count is the size of the
/// request. A request that fails leaves the inner generator and the count
/// as they were.
pub proof fn lemma_exposure_bounded<R: SeedableRng, Rsdr: EntropySource>(
    s: ReseedingState<R::V, Rsdr::V>,
    len: nat,
)
    requires
        len <= u64::MAX,
    ensures
        ({
            let (out, t) = try_fill_spec::<R, Rsdr>(s, len);
            let (made, reseeder) = from_rng_spec::<R, Rsdr>(s.reseeder, SEED_ATTEMPTS as nat);
            &&& t.threshold == s.threshold
            &&& out is Ok ==> t.bytes_generated < t.threshold || len >= t.threshold
            &&& out is Ok && reseed_due(s, len) ==> made is Ok && t.bytes_generated == len
                && t.inner == R::fill_bytes_spec(made->Ok_0, len).1 && out->Ok_0
                == R::fill_bytes_spec(made->Ok_0, len).0
            &&& out is Ok && !reseed_due(s, len) ==> t.bytes_generated == s.bytes_generated + len
                && t.reseeder == s.reseeder
            &&& out is Err ==> reseed_due(s, len) && t.inner == s.inner && t.bytes_generated
                == s.bytes_generated
        }),
{
}

/// A wrapper around any PRNG that can be seeded, which reseeds the PRNG
/// after it has generated a certain number of random bytes.
///
/// Reseeding replaces the state of the inner generator, so that a state
/// that leaked is of use for the bytes up to the threshold only. The
/// threshold counts bytes of output. It is looked at once for each request,
/// before the request is served: a request greater than the threshold is
/// served whole by the generator seeded for it.
///
/// If the source of seeds fails, the request that called for the reseeding
/// fails with the failure of the source, and the generator is as it was.
pub struct ReseedingRng<R: SeedableRng, Rsdr: EntropySource> {
    inner: R,
    reseeder: Rsdr,
    threshold: u64,
    bytes_generated: u64,
}

impl<R: SeedableRng, Rsdr: EntropySource> View for ReseedingRng<R, Rsdr> {
    type V = ReseedingState<R::V, Rsdr::V>;

    closed spec fn view(&self) -> ReseedingState<R::V, Rsdr::V> {
        ReseedingState {
            inner: self.inner@,
            reseeder: self.reseeder@,
            threshold: self.threshold,
            bytes_generated: self.bytes_generated,
        }
    }
}

impl<R: SeedableRng, Rsdr: EntropySource> ReseedingRng<R, Rsdr> {
    /// The invariant: inner generator and source are well formed.
    pub closed spec fn valid(&self) -> bool {
        self.inner.wf() && self.reseeder.wf()
    }

    /// Create a new `ReseedingRng` with the given parameters.
    ///
    /// # Arguments
    ///
    /// * `rng`: the random number generator to use.
    /// * `threshold`: the number of generated bytes after which to reseed the RNG.
    /// * `reseeder`: the RNG to use for reseeding.
    pub fn new(rng: R, threshold: u64, reseeder: Rsdr) -> (r: Self)
        requires
            rng.wf(),
            reseeder.wf(),
        ensures
            r.valid(),
            r@ == (ReseedingState::<R::V, Rsdr::V> {
                inner: rng@,
                reseeder: reseeder@,
                threshold,
                bytes_generated: 0,
            }),
    {
        ReseedingRng { inner: rng, reseeder, threshold, bytes_generated: 0 }
    }

    /// The source of fresh seeds, to be changed: for instance to hand it
    /// entropy that was gathered for the next reseeding.
    pub fn reseeder_mut(&mut self) -> (r: &mut Rsdr)
        requires
            old(self).valid(),
        ensures
            r@ == old(self)@.reseeder,
            r.wf(),
            final(r).wf() ==> final(self).valid(),
            final(self)@ == (ReseedingState::<R::V, Rsdr::V> {
                inner: old(self)@.inner,
                reseeder: final(r)@,
                threshold: old(self)@.threshold,
                bytes_generated: old(self)@.bytes_generated,
            }),
    {
        &mut self.reseeder
    }

    /// The number of bytes after which the generator is reseeded.
    pub fn threshold(&self) -> (t: u64)
        ensures
            t == self@.threshold,
    {
        self.threshold
    }

    /// The bytes generated since the generator was seeded last.
    pub fn bytes_generated(&self) -> (n: u64)
        ensures
            n == self@.bytes_generated,
    {
        self.bytes_generated
    }

    /// Reseed the internal PRNG.
    pub fn reseed(&mut self) -> (r: Result<(), Error>)
        requires
            old(self).valid(),
        ensures
            final(self).valid(),
            (r, final(self)@) == reseed_spec::<R, Rsdr>(old(self)@),
    {
        match R::from_rng(&mut self.reseeder) {
            Ok(inner) => {
                self.inner = inner;
                self.bytes_generated = 0;
                Ok(())
            },
            Err(e) => Err(e),
        }
    }

    /// Whether a request for `len` bytes would be served by a reseeded
    /// generator.
    pub fn is_reseed_due(&self, len: usize) -> (due: bool)
        ensures
            due == reseed_due(self@, len as nat),
    {
        self.bytes_generated as u128 + len as u128 >= self.threshold as u128
    }

    /// Reseeds if a request for `len` bytes calls for it.
    fn prepare(&mut self, len: usize) -> (r: Result<(), Error>)
        requires
            old(self).valid(),
        ensures
            final(self).valid(),
            (r, final(self)@) == prepare_spec::<R, Rsdr>(old(self)@, len as nat),
            r is Ok ==> final(self)@.bytes_generated + len <= u64::MAX,
    {
        if self.is_reseed_due(len) {
            self.reseed()
        } else {
            Ok(())
        }
    }

    /// Returns the next random 32-bit word, from a reseeded generator if
    /// that is due, or the failure of the reseeding.
    pub fn try_next_u32(&mut self) -> (r: Result<u32, Error>)
        requires
            old(self).valid(),
        ensures
            final(self).valid(),
            (r, final(self)@) == try_next_u32_spec::<R, Rsdr>(old(self)@),
    {
        match self.prepare(4) {
            Err(e) => Err(e),
            Ok(()) => {
                let w: u32 = self.inner.next_u32();
                self.bytes_generated = self.bytes_generated + 4;
                Ok(w)
            },
        }
    }

    /// Returns the next random 64-bit word, from a reseeded generator if
    /// that is due, or the failure of the reseeding.
    pub fn try_next_u64(&mut self) -> (r: Result<u64, Error>)
        requires
            old(self).valid(),
        ensures
            final(self).valid(),
            (r, final(self)@) == try_next_u64_spec::<R, Rsdr>(old(self)@),
    {
        match self.prepare(8) {
            Err(e) => Err(e),
            Ok(()) => {
                let w: u64 = self.inner.next_u64();
                self.bytes_generated = self.bytes_generated + 8;
                Ok(w)
            },
        }
    }
}

impl<R: SeedableRng + CryptoRng, Rsdr: EntropySource + CryptoRng> CryptoRng for ReseedingRng<
    R,
    Rsdr,
> {

}

impl<R: SeedableRng, Rsdr: EntropySource> EntropySource for ReseedingRng<R, Rsdr> {
    open spec fn wf(&self) -> bool {
        self.valid()
    }

    open spec fn try_fill_bytes_spec(s: ReseedingState<R::V, Rsdr::V>, len: nat) -> (
        Result<Seq<u8>, Error>,
        ReseedingState<R::V, Rsdr::V>,
    ) {
        try_fill_spec::<R, Rsdr>(s, len)
    }

    fn try_fill_bytes(&mut self, dest: &mut [u8]) -> (r: Result<(), Error>) {
        let n: usize = dest.len();
        match self.prepare(n) {
            Err(e) => Err(e),
            Ok(()) => {
                self.inner.fill_bytes(dest);
                self.bytes_generated = self.bytes_generated + n as u64;
                Ok(())
            },
        }
    }
}

} // verus!
