//! The ChaCha random number generator.

use vstd::prelude::*;
use crate::block::{
    block_advance, block_bytes, block_step, block_word, fresh_block_state, BlockRng,
    BlockRngCore, BlockState,
};
use crate::chacha::guts::{
    init_spec, lemma_param_of_with_param, lemma_pos_add_back, lemma_pos_of_with_pos,
    lemma_refill_words_len, pos_add, pos_of, refill_words, refilled, with_param, ChaCha,
};
use crate::error::Error;
use crate::le::{lemma_words_of_bytes, read_u32_into, u64_halves};
use crate::rng::{CryptoRng, EntropySource, RngCore, SeedableRng};

pub mod guts;

verus! {

/// The double rounds of the cipher: ChaCha with 20 rounds.
pub const DOUBLE_ROUNDS: u32 = 10;

/// The words that one refill generates: four blocks of sixteen.
pub const BUF_WORDS: usize = 64;

/// The parameter of the stream that is the block counter.
pub const STREAM_PARAM_BLOCK: u32 = 0;

/// The parameter of the stream that is the stream number.
pub const STREAM_PARAM_NONCE: u32 = 1;

/// The block core of the generator: the state of a ChaCha stream.
#[derive(Clone)]
pub struct ChaChaCore {
    /// The state of the stream.
    pub state: ChaCha,
}

impl View for ChaChaCore {
    type V = ChaCha;

    open spec fn view(&self) -> ChaCha {
        self.state
    }
}

impl BlockRngCore for ChaChaCore {
    open spec fn wf(&self) -> bool {
        true
    }

    open spec fn block_len() -> nat {
        64
    }

    open spec fn generate_spec(s: ChaCha) -> (Seq<u32>, ChaCha) {
        (refill_words(s, DOUBLE_ROUNDS as nat), refilled(s))
    }

    proof fn lemma_block_len(s: ChaCha) {
        lemma_refill_words_len(s, DOUBLE_ROUNDS as nat);
    }

    fn block_size() -> (n: usize) {
        64
    }

    fn generate(&mut self, results: &mut [u32]) {
        proof {
            Self::lemma_block_len(self.state);
            lemma_words_of_bytes(refill_words(self.state, DOUBLE_ROUNDS as nat));
        }
        let mut buf: [u8; 256] = [0u8; 256];
        self.state.refill4(DOUBLE_ROUNDS, &mut buf);
        read_u32_into(&buf, results);
    }
}

impl ChaChaCore {
    /// The core for the key `seed`, with block counter and stream number
    /// at zero.
    pub fn from_seed(seed: [u8; 32]) -> (core: ChaChaCore)
        ensures
            core@ == init_spec(seed@, Seq::new(8, |i: int| 0u8)),
    {
        let nonce: [u8; 8] = [0u8, 0u8, 0u8, 0u8, 0u8, 0u8, 0u8, 0u8];
        assert(nonce@ =~= Seq::new(8, |i: int| 0u8));
        ChaChaCore { state: ChaCha::new(&seed, &nonce) }
    }
}

/// The position in the stream, in words from its start, of a generator in
/// state `s`: the blocks before the one that the cursor is in, sixteen
/// words each, and the words of that block before the cursor. The block
/// counter of the core is four blocks ahead of the start of the buffer.
pub open spec fn word_pos(s: BlockState<ChaCha>) -> int {
    let start = pos_add(pos_of(s.core.d), -4);
    let block = pos_add(start, s.index as int / 16);
    block * 16 + s.index % 16
}

/// The state in which the stream of the core `core` stands at word
/// `word_offset`: the buffer holds the four blocks from the one of that word
/// on, and the cursor is at the word.
pub open spec fn at_word_pos(core: ChaCha, word_offset: int) -> BlockState<ChaCha> {
    let block = ((word_offset / 16) % 0x1_0000_0000_0000_0000) as u64;
    let moved = ChaCha { b: core.b, c: core.c, d: with_param(core.d, 0, block) };
    BlockState {
        core: refilled(moved),
        results: refill_words(moved, DOUBLE_ROUNDS as nat),
        index: (word_offset % 16) as nat,
    }
}

/// A word offset is sixteen times its block, taken up to 2^64 blocks, and
/// the word in the block.
proof fn lemma_offset_parts(word_offset: int)
    requires
        0 <= word_offset,
    ensures
        ((word_offset / 16) % 0x1_0000_0000_0000_0000) * 16 + word_offset % 16 == word_offset
            % 0x10_0000_0000_0000_0000,
{
    let q = word_offset / 16;
    let r = word_offset % 16;
    let m: int = 0x1_0000_0000_0000_0000;
    let t = q / m;
    let b = q % m;
    assert(word_offset == 16 * q + r);
    assert(q == m * t + b) by {
        vstd::arithmetic::div_mod::lemma_fundamental_div_mod(q, m);
    }
    assert(word_offset == t * (16 * m) + (16 * b + r)) by (nonlinear_arith)
        requires
            word_offset == 16 * q + r,
            q == m * t + b,
    ;
    assert(0 <= 16 * b + r < 16 * m);
    vstd::arithmetic::div_mod::lemma_fundamental_div_mod_converse(
        word_offset,
        16 * m,
        t,
        16 * b + r,
    );
}

/// A generator set to a word position stands at that position.
#[verifier::rlimit(50)]
pub proof fn lemma_word_pos_set(core: ChaCha, word_offset: int)
    requires
        0 <= word_offset,
    ensures
        word_pos(at_word_pos(core, word_offset)) == word_offset % 0x10_0000_0000_0000_0000,
{
    let block = ((word_offset / 16) % 0x1_0000_0000_0000_0000) as u64;
    let moved = ChaCha { b: core.b, c: core.c, d: with_param(core.d, 0, block) };
    let s = at_word_pos(core, word_offset);
    lemma_param_of_with_param(core.d, 0, block);
    assert(pos_of(moved.d) == block);
    lemma_pos_of_with_pos(moved.d, pos_add(block, 4));
    assert(pos_of(s.core.d) == pos_add(block, 4));
    lemma_pos_add_back(block, 4);
    assert(s.index < 16);
    assert(s.index as int / 16 == 0);
    assert(word_pos(s) == block * 16 + word_offset % 16);
    lemma_offset_parts(word_offset);
}

/// The state of a generator in state `s` after its stream number was set to
/// `stream`. Where the buffer holds words of the old stream, it is filled
/// again from the new one, at the same word position.
pub open spec fn with_stream(s: BlockState<ChaCha>, stream: u64) -> BlockState<ChaCha> {
    let core = ChaCha { b: s.core.b, c: s.core.c, d: with_param(s.core.d, 1, stream) };
    if s.index == 64 {
        BlockState { core, results: s.results, index: s.index }
    } else {
        at_word_pos(core, word_pos(s))
    }
}

/// Setting the stream number keeps the word position.
pub proof fn lemma_with_stream_keeps_pos(s: BlockState<ChaCha>, stream: u64)
    ensures
        word_pos(with_stream(s, stream)) == word_pos(s),
{
    let core = ChaCha { b: s.core.b, c: s.core.c, d: with_param(s.core.d, 1, stream) };
    lemma_param_of_with_param(s.core.d, 1, stream);
    assert(pos_of(core.d) == pos_of(s.core.d));
    if s.index != 64 {
        lemma_word_pos_bound(s);
        lemma_word_pos_set(core, word_pos(s));
        vstd::arithmetic::div_mod::lemma_small_mod(
            word_pos(s) as nat,
            0x10_0000_0000_0000_0000nat,
        );
    }
}

/// The word position is a number of 68 bits.
pub proof fn lemma_word_pos_bound(s: BlockState<ChaCha>)
    ensures
        0 <= word_pos(s) < 0x10_0000_0000_0000_0000,
{
}

/// A cryptographically secure random number generator that uses the ChaCha
/// algorithm.
///
/// The stream of one key has 2^64 blocks of sixteen words, and there are
/// 2^64 streams to a key, told apart by the stream number.
#[derive(Clone)]
pub struct ChaChaRng {
    /// The buffered generator.
    pub rng: BlockRng<ChaChaCore>,
}

impl View for ChaChaRng {
    type V = BlockState<ChaCha>;

    open spec fn view(&self) -> BlockState<ChaCha> {
        self.rng@
    }
}

impl EntropySource for ChaChaRng {
    open spec fn wf(&self) -> bool {
        self.rng.wf()
    }

    open spec fn try_fill_bytes_spec(s: BlockState<ChaCha>, len: nat) -> (
        Result<Seq<u8>, Error>,
        BlockState<ChaCha>,
    ) {
        (Ok(block_bytes::<ChaChaCore>(s, len)), block_advance::<ChaChaCore>(s, (len + 3) / 4))
    }

    fn try_fill_bytes(&mut self, dest: &mut [u8]) -> (r: Result<(), Error>) {
        self.rng.try_fill_bytes(dest)
    }
}

impl RngCore for ChaChaRng {
    open spec fn next_u32_spec(s: BlockState<ChaCha>) -> (u32, BlockState<ChaCha>) {
        block_step::<ChaChaCore>(s)
    }

    open spec fn next_u64_spec(s: BlockState<ChaCha>) -> (u64, BlockState<ChaCha>) {
        (
            u64_halves(block_word::<ChaChaCore>(s, 0), block_word::<ChaChaCore>(s, 1)),
            block_advance::<ChaChaCore>(s, 2),
        )
    }

    open spec fn fill_bytes_spec(s: BlockState<ChaCha>, len: nat) -> (Seq<u8>, BlockState<ChaCha>) {
        (block_bytes::<ChaChaCore>(s, len), block_advance::<ChaChaCore>(s, (len + 3) / 4))
    }

    fn next_u32(&mut self) -> (r: u32) {
        self.rng.next_u32()
    }

    fn next_u64(&mut self) -> (r: u64) {
        self.rng.next_u64()
    }

    fn fill_bytes(&mut self, dest: &mut [u8]) {
        self.rng.fill_bytes(dest)
    }
}

impl CryptoRng for ChaChaCore {

}

impl CryptoRng for ChaChaRng {

}

impl SeedableRng for ChaChaRng {
    type Seed = [u8; 32];

    open spec fn seed_len() -> nat {
        32
    }

    open spec fn seed_bytes(seed: [u8; 32]) -> Seq<u8> {
        seed@
    }

    /// Every seed is a key of the cipher: none is refused.
    open spec fn degenerate(bytes: Seq<u8>) -> bool {
        false
    }

    /// The seed is the key; block counter and stream number start at zero.
    open spec fn seeded(bytes: Seq<u8>) -> BlockState<ChaCha> {
        fresh_block_state::<ChaChaCore>(init_spec(bytes, Seq::new(8, |i: int| 0u8)))
    }

    fn seed_size() -> (n: usize) {
        32
    }

    fn seed_from_slice(bytes: &[u8]) -> (seed: [u8; 32]) {
        let mut seed: [u8; 32] = [0u8; 32];
        let mut i: usize = 0;
        while i < 32
            invariant
                i <= 32,
                bytes@.len() == 32,
                forall|j: int| 0 <= j < i ==> seed@[j] == bytes@[j],
            decreases 32 - i,
        {
            seed[i] = bytes[i];
            i += 1;
        }
        assert(seed@ =~= bytes@);
        seed
    }

    fn from_seed(seed: [u8; 32]) -> (r: Result<Self, Error>) {
        Ok(ChaChaRng { rng: BlockRng::new(ChaChaCore::from_seed(seed)) })
    }
}

/// The block of a word offset, taken up to 2^64 blocks, and the word in the
/// block.
fn split_word_pos(word_offset: u128) -> (r: (u64, usize))
    ensures
        r.0 == (word_offset as int / 16) % 0x1_0000_0000_0000_0000,
        r.1 == word_offset as int % 16,
{
    let block: u128 = (word_offset / 16) % 0x1_0000_0000_0000_0000;
    let word: u128 = word_offset % 16;
    (block as u64, word as usize)
}

impl ChaChaRng {
    /// Get the offset from the start of the stream, in 32-bit words.
    ///
    /// Since the generated blocks are 16 words long and the counter is 64
    /// bits, the offset is a number of 68 bits.
    pub fn get_word_pos(&self) -> (pos: u128)
        ensures
            pos == word_pos(self@),
    {
        let buf_end_block: u64 = self.rng.core.state.get_stream_param(STREAM_PARAM_BLOCK);
        let buf_start_block: u64 = buf_end_block.wrapping_sub(4);
        let buf_offset_words: u64 = self.rng.index as u64;
        let blocks_part: u64 = buf_offset_words / 16;
        let words_part: u64 = buf_offset_words % 16;
        let pos_block: u64 = buf_start_block.wrapping_add(blocks_part);
        (pos_block as u128) * 16 + (words_part as u128)
    }

    /// Set the offset from the start of the stream, in 32-bit words.
    ///
    /// As with `get_word_pos`, the offset is a number of 68 bits: what
    /// `word_offset` has above them is dropped.
    #[verifier::rlimit(50)]
    pub fn set_word_pos(&mut self, word_offset: u128)
        requires
            old(self).wf(),
        ensures
            final(self).wf(),
            final(self)@ == at_word_pos(old(self)@.core, word_offset as int),
            word_pos(final(self)@) == word_offset % 0x10_0000_0000_0000_0000,
    {
        proof {
            lemma_word_pos_set(self@.core, word_offset as int);
        }
        let (block, word) = split_word_pos(word_offset);
        self.rng.core.state.set_stream_param(STREAM_PARAM_BLOCK, block);
        self.rng.generate_and_set(word);
    }

    /// Set the stream number.
    ///
    /// This is initialized to zero; 2^64 unique streams of output are
    /// available per seed. The generator stays at its word position.
    #[verifier::rlimit(50)]
    pub fn set_stream(&mut self, stream: u64)
        requires
            old(self).wf(),
        ensures
            final(self).wf(),
            final(self)@ == with_stream(old(self)@, stream),
            word_pos(final(self)@) == word_pos(old(self)@),
    {
        proof {
            lemma_with_stream_keeps_pos(self@, stream);
            lemma_param_of_with_param(self@.core.d, 1, stream);
        }
        let wp: u128 = self.get_word_pos();
        self.rng.core.state.set_stream_param(STREAM_PARAM_NONCE, stream);
        if self.rng.index != BUF_WORDS {
            self.set_word_pos(wp);
        }
    }
}

} // verus!
