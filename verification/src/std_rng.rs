//! The standard generator.

use vstd::prelude::*;
use crate::block::BlockState;
use crate::chacha::guts::ChaCha;
use crate::chacha::ChaChaRng;
use crate::error::Error;
use crate::rng::{CryptoRng, EntropySource, RngCore, SeedableRng};

verus! {

/// The standard RNG. The algorithm is one that is fit for cryptographic use
/// and fast on the machines of the day: ChaCha with 20 rounds.
///
/// The stream of a seed is that of `ChaChaRng` for the same seed.
#[derive(Clone)]
pub struct StdRng(pub ChaChaRng);

impl View for StdRng {
    type V = BlockState<ChaCha>;

    open spec fn view(&self) -> BlockState<ChaCha> {
        self.0@
    }
}

impl EntropySource for StdRng {
    open spec fn wf(&self) -> bool {
        self.0.wf()
    }

    open spec fn try_fill_bytes_spec(s: BlockState<ChaCha>, len: nat) -> (
        Result<Seq<u8>, Error>,
        BlockState<ChaCha>,
    ) {
        ChaChaRng::try_fill_bytes_spec(s, len)
    }

    fn try_fill_bytes(&mut self, dest: &mut [u8]) -> (r: Result<(), Error>) {
        self.0.try_fill_bytes(dest)
    }
}

impl RngCore for StdRng {
    open spec fn next_u32_spec(s: BlockState<ChaCha>) -> (u32, BlockState<ChaCha>) {
        ChaChaRng::next_u32_spec(s)
    }

    open spec fn next_u64_spec(s: BlockState<ChaCha>) -> (u64, BlockState<ChaCha>) {
        ChaChaRng::next_u64_spec(s)
    }

    open spec fn fill_bytes_spec(s: BlockState<ChaCha>, len: nat) -> (Seq<u8>, BlockState<ChaCha>) {
        ChaChaRng::fill_bytes_spec(s, len)
    }

    fn next_u32(&mut self) -> (r: u32) {
        self.0.next_u32()
    }

    fn next_u64(&mut self) -> (r: u64) {
        self.0.next_u64()
    }

    fn fill_bytes(&mut self, dest: &mut [u8]) {
        self.0.fill_bytes(dest);
    }
}

impl SeedableRng for StdRng {
    type Seed = [u8; 32];

    open spec fn seed_len() -> nat {
        32
    }

    open spec fn seed_bytes(seed: [u8; 32]) -> Seq<u8> {
        seed@
    }

    open spec fn degenerate(bytes: Seq<u8>) -> bool {
        false
    }

    open spec fn seeded(bytes: Seq<u8>) -> BlockState<ChaCha> {
        ChaChaRng::seeded(bytes)
    }

    fn seed_size() -> (n: usize) {
        32
    }

    fn seed_from_slice(bytes: &[u8]) -> (seed: [u8; 32]) {
        ChaChaRng::seed_from_slice(bytes)
    }

    fn from_seed(seed: [u8; 32]) -> (r: Result<Self, Error>) {
        match ChaChaRng::from_seed(seed) {
            Ok(rng) => Ok(StdRng(rng)),
            Err(e) => Err(e),
        }
    }
}

impl CryptoRng for StdRng {

}

} // verus!
