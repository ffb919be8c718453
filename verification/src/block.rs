//! Generators that produce their output in blocks.
//!
//! A block core is an algorithm that yields a fixed number of words at each
//! advance of its state. `BlockRng` keeps the last block and a cursor into
//! it, and hands the words out one by one, in order and without discarding a
//! whole word: the next block is generated when the cursor has reached the
//! end of this one.

use vstd::prelude::*;
use crate::error::Error;
use crate::le::{bytes_le, fill_via_u32_chunks, join_u32, u32_byte, u64_halves};
use crate::rng::{EntropySource, Length, RngCore, Words};

verus! {

/// An algorithm that generates random words in blocks.
pub trait BlockRngCore: View + Sized {
    /// The invariant of the core. `generate` needs and keeps it.
    spec fn wf(&self) -> bool;

    /// The number of words in a block.
    spec fn block_len() -> Length;

    /// The block that `generate` writes in state `s`, and the state after.
    spec fn generate_spec(s: Self::V) -> (Words, Self::V);

    /// A block has `block_len()` words, and at least one.
    proof fn lemma_block_len(s: Self::V)
        ensures
            Self::generate_spec(s).0.len() == Self::block_len(),
            0 < Self::block_len(),
            4 * Self::block_len() + 4 <= usize::MAX,
    ;

    /// The number of words in a block.
    fn block_size() -> (n: usize)
        ensures
            n == Self::block_len(),
    ;

    /// Generates a new block of results.
    fn generate(&mut self, results: &mut [u32])
        requires
            old(self).wf(),
            old(results)@.len() == Self::block_len(),
        ensures
            final(self).wf(),
            (final(results)@, final(self)@) == Self::generate_spec(old(self)@),
    ;
}

/// The state of a `BlockRng` as a mathematical value.
pub struct BlockState<V> {
    /// The state of the core.
    pub core: V,
    /// The block generated last.
    pub results: Seq<u32>,
    /// The cursor: the words of `results` before it are used up.
    pub index: nat,
}

/// The state of a `BlockRng` that was just made of a core in state `core`:
/// its block is used up.
pub open spec fn fresh_block_state<C: BlockRngCore>(core: C::V) -> BlockState<C::V> {
    BlockState {
        core,
        results: Seq::new(C::block_len(), |i: int| 0u32),
        index: C::block_len(),
    }
}

/// The next word of the stream, and the state after it was taken: the word
/// under the cursor or, if the block is used up, the first word of a new
/// block.
pub open spec fn block_step<C: BlockRngCore>(s: BlockState<C::V>) -> (u32, BlockState<C::V>) {
    if s.index >= s.results.len() {
        let (block, core) = C::generate_spec(s.core);
        (block[0], BlockState { core, results: block, index: 1 })
    } else {
        (s.results[s.index as int], BlockState { core: s.core, results: s.results, index: s.index + 1 })
    }
}

/// The state after `k` words were taken.
pub open spec fn block_advance<C: BlockRngCore>(s: BlockState<C::V>, k: nat) -> BlockState<C::V>
    decreases k,
{
    if k == 0 {
        s
    } else {
        block_step::<C>(block_advance::<C>(s, (k - 1) as nat)).1
    }
}

/// Word `k` of the stream that starts in state `s`.
pub open spec fn block_word<C: BlockRngCore>(s: BlockState<C::V>, k: nat) -> u32 {
    block_step::<C>(block_advance::<C>(s, k)).0
}

/// The first `len` bytes of the stream that starts in state `s`: the bytes
/// of its words, least significant first.
pub open spec fn block_bytes<C: BlockRngCore>(s: BlockState<C::V>, len: nat) -> Seq<u8> {
    Seq::new(len, |i: int| u32_byte(block_word::<C>(s, (i / 4) as nat), i % 4))
}

/// The cursor lies in the block, which has the length that the core gives.
pub open spec fn block_state_wf<C: BlockRngCore>(s: BlockState<C::V>) -> bool {
    s.results.len() == C::block_len() && s.index <= s.results.len()
}

/// Taking words keeps the state well formed.
pub proof fn lemma_block_advance_wf<C: BlockRngCore>(s: BlockState<C::V>, k: nat)
    requires
        block_state_wf::<C>(s),
    ensures
        block_state_wf::<C>(block_advance::<C>(s, k)),
    decreases k,
{
    if k > 0 {
        lemma_block_advance_wf::<C>(s, (k - 1) as nat);
        let t = block_advance::<C>(s, (k - 1) as nat);
        C::lemma_block_len(t.core);
    }
}

/// Taking `a` words and then `b` is taking `a + b`.
pub proof fn lemma_block_advance_add<C: BlockRngCore>(s: BlockState<C::V>, a: nat, b: nat)
    ensures
        block_advance::<C>(block_advance::<C>(s, a), b) == block_advance::<C>(s, a + b),
    decreases b,
{
    if b > 0 {
        lemma_block_advance_add::<C>(s, a, (b - 1) as nat);
    }
}

/// Word `k` after `a` words were taken is word `a + k`.
pub proof fn lemma_block_word_add<C: BlockRngCore>(s: BlockState<C::V>, a: nat, k: nat)
    ensures
        block_word::<C>(block_advance::<C>(s, a), k) == block_word::<C>(s, a + k),
{
    lemma_block_advance_add::<C>(s, a, k);
}

/// While the block lasts, taking words moves the cursor and nothing else,
/// and the words taken are those under the cursor.
pub proof fn lemma_block_within<C: BlockRngCore>(s: BlockState<C::V>, k: nat)
    requires
        s.index + k <= s.results.len(),
    ensures
        block_advance::<C>(s, k) == (BlockState::<C::V> {
            core: s.core,
            results: s.results,
            index: s.index + k,
        }),
        s.index + k < s.results.len() ==> block_word::<C>(s, k) == s.results[(s.index + k) as int],
    decreases k,
{
    if k > 0 {
        lemma_block_within::<C>(s, (k - 1) as nat);
    }
}

/// Filling a destination in two calls, the first for a whole number of
/// words, gives the bytes and leaves the state that one call for all of it
/// gives: for `a` a multiple of four, `a` bytes and then `b` bytes are the
/// `a + b` bytes of one call.
///
/// After a call for a number of bytes that is no multiple of four the rest of
/// the last word is dropped, so that the bytes of a second call do not go on
/// where those of the first ended.
pub proof fn lemma_fill_in_parts<C: BlockRngCore>(s: BlockState<C::V>, a: nat, b: nat)
    requires
        a % 4 == 0,
    ensures
        ({
            let (first, s1) = BlockRng::<C>::fill_bytes_spec(s, a);
            let (second, s2) = BlockRng::<C>::fill_bytes_spec(s1, b);
            BlockRng::<C>::fill_bytes_spec(s, a + b) == (first + second, s2)
        }),
{
    let words = a / 4;
    let s1 = block_advance::<C>(s, words);
    lemma_block_advance_add::<C>(s, words, (b + 3) / 4);
    assert((a + b + 3) / 4 == words + (b + 3) / 4);
    assert forall|i: int| 0 <= i < a + b implies #[trigger] block_bytes::<C>(s, a + b)[i] == (
    block_bytes::<C>(s, a) + block_bytes::<C>(s1, b))[i] by {
        if i >= a {
            let j = i - a;
            assert(i / 4 == words + j / 4);
            assert(i % 4 == j % 4);
            lemma_block_word_add::<C>(s, words, (j / 4) as nat);
        }
    }
    assert(block_bytes::<C>(s, a + b) =~= block_bytes::<C>(s, a) + block_bytes::<C>(s1, b));
}

/// The words that `next_u32` hands out one after the other are the words
/// that `fill_bytes` writes: word by word and byte by byte the stream is
/// one.
pub proof fn lemma_words_are_bytes<C: BlockRngCore>(s: BlockState<C::V>, k: nat, i: int)
    requires
        0 <= i < 4,
    ensures
        BlockRng::<C>::fill_bytes_spec(s, 4 * (k + 1)).0[4 * k + i] == u32_byte(
            BlockRng::<C>::next_u32_spec(block_advance::<C>(s, k)).0,
            i,
        ),
{
    assert((4 * k + i) / 4 == k as int);
    assert((4 * k + i) % 4 == i);
}

/// A wrapper that makes a source of a block core: it implements `RngCore`
/// from the core's `generate` alone.
///
/// `next_u32` takes the next word. `next_u64` joins the next two words, the
/// first in the low half. `fill_bytes` uses a whole number of words, each as
/// four bytes with the least significant first; where the length asked for
/// is no multiple of four, the bytes left of the last word are dropped.
#[derive(Clone)]
pub struct BlockRng<C: BlockRngCore> {
    /// The block generated last.
    pub results: Vec<u32>,
    /// The cursor into `results`.
    pub index: usize,
    /// The core, which generates the blocks.
    pub core: C,
}

impl<C: BlockRngCore> View for BlockRng<C> {
    type V = BlockState<C::V>;

    open spec fn view(&self) -> BlockState<C::V> {
        BlockState { core: self.core@, results: self.results@, index: self.index as nat }
    }
}

impl<C: BlockRngCore> BlockRng<C> {
    /// Create a new `BlockRng` from an existing core. The first block is
    /// generated on first use.
    pub fn new(core: C) -> (r: BlockRng<C>)
        requires
            core.wf(),
        ensures
            r.wf(),
            r@ == fresh_block_state::<C>(core@),
            r.core == core,
    {
        let n: usize = C::block_size();
        let r = BlockRng { results: vec![0u32; n], index: n, core };
        assert(r@.results =~= Seq::new(C::block_len(), |i: int| 0u32));
        r
    }

    /// The cursor.
    pub open spec fn spec_index(&self) -> usize {
        self.index
    }

    /// Get the index into the result buffer.
    ///
    /// If this is equal to the size of the result buffer then the buffer is
    /// used up and the next use generates a new block.
    #[verifier::when_used_as_spec(spec_index)]
    pub fn index(&self) -> (i: usize)
        ensures
            i == self.spec_index(),
            i == self@.index,
    {
        self.index
    }

    /// Reset the number of available results.
    /// This will force a new set of results to be generated on next use.
    pub fn reset(&mut self)
        requires
            old(self).wf(),
        ensures
            final(self).wf(),
            final(self)@ == (BlockState::<C::V> {
                core: old(self)@.core,
                results: old(self)@.results,
                index: C::block_len(),
            }),
            final(self).core == old(self).core,
    {
        self.index = self.results.len();
    }

    /// Generate a new set of results immediately, setting the index to the
    /// given value.
    pub fn generate_and_set(&mut self, index: usize)
        requires
            old(self).wf(),
            index < C::block_len(),
        ensures
            final(self).wf(),
            final(self)@ == (BlockState::<C::V> {
                core: C::generate_spec(old(self)@.core).1,
                results: C::generate_spec(old(self)@.core).0,
                index: index as nat,
            }),
    {
        proof {
            C::lemma_block_len(self.core@);
        }
        self.core.generate(self.results.as_mut_slice());
        self.index = index;
    }

    fn step(&mut self) -> (r: u32)
        requires
            old(self).wf(),
        ensures
            final(self).wf(),
            (r, final(self)@) == block_step::<C>(old(self)@),
    {
        proof {
            C::lemma_block_len(self.core@);
        }
        if self.index >= self.results.len() {
            self.generate_and_set(0);
        }
        let value: u32 = self.results[self.index];
        self.index += 1;
        value
    }
}

impl<C: BlockRngCore> EntropySource for BlockRng<C> {
    open spec fn wf(&self) -> bool {
        &&& self.core.wf()
        &&& block_state_wf::<C>(self@)
    }

    open spec fn try_fill_bytes_spec(s: BlockState<C::V>, len: nat) -> (
        Result<Seq<u8>, Error>,
        BlockState<C::V>,
    ) {
        (Ok(block_bytes::<C>(s, len)), block_advance::<C>(s, (len + 3) / 4))
    }

    fn try_fill_bytes(&mut self, dest: &mut [u8]) -> (r: Result<(), Error>) {
        self.fill_bytes(dest);
        Ok(())
    }
}

impl<C: BlockRngCore> RngCore for BlockRng<C> {
    open spec fn next_u32_spec(s: BlockState<C::V>) -> (u32, BlockState<C::V>) {
        block_step::<C>(s)
    }

    open spec fn next_u64_spec(s: BlockState<C::V>) -> (u64, BlockState<C::V>) {
        (u64_halves(block_word::<C>(s, 0), block_word::<C>(s, 1)), block_advance::<C>(s, 2))
    }

    open spec fn fill_bytes_spec(s: BlockState<C::V>, len: nat) -> (Seq<u8>, BlockState<C::V>) {
        (block_bytes::<C>(s, len), block_advance::<C>(s, (len + 3) / 4))
    }

    fn next_u32(&mut self) -> (r: u32) {
        self.step()
    }

    fn next_u64(&mut self) -> (r: u64) {
        let x: u32 = self.step();
        let y: u32 = self.step();
        proof {
            reveal_with_fuel(block_advance, 3);
        }
        join_u32(x, y)
    }

    #[verifier::rlimit(50)]
    fn fill_bytes(&mut self, dest: &mut [u8]) {
        let ghost s0 = self@;
        let n: usize = dest.len();
        let mut read_len: usize = 0;
        proof {
            assert(dest@.take(0) =~= block_bytes::<C>(s0, 0));
        }
        while read_len < n
            invariant
                self.wf(),
                read_len <= n == dest@.len(),
                read_len < n ==> read_len % 4 == 0,
                self@ == block_advance::<C>(s0, ((read_len + 3) / 4) as nat),
                dest@.take(read_len as int) == block_bytes::<C>(s0, read_len as nat),
            decreases n - read_len,
        {
            proof {
                C::lemma_block_len(self.core@);
            }
            let ghost s1 = self@;
            if self.index >= self.results.len() {
                self.generate_and_set(0);
            }
            let ghost s2 = self@;
            let ghost before = dest@;
            let len: usize = self.results.len();
            let src: &[u32] = vstd::slice::slice_subrange(self.results.as_slice(), self.index, len);
            let (head, tail) = dest.split_at_mut(read_len);
            let (consumed_u32, filled_u8) = fill_via_u32_chunks(src, tail);
            proof {
                let words = ((read_len + 3) / 4) as nat;
                let avail = (len - self.index) as nat;
                // the words of the block that are still there are words of the stream
                assert forall|k: nat| k < avail implies #[trigger] block_word::<C>(s0, words + k)
                    == src@[k as int] by {
                    lemma_block_word_add::<C>(s0, words, k);
                    if s1.index >= s1.results.len() {
                        lemma_block_within::<C>(s2, k);
                        // s2 is s1 after generation with the cursor at 0
                        assert(block_step::<C>(s1).1 == (BlockState::<C::V> {
                            core: s2.core,
                            results: s2.results,
                            index: 1,
                        }));
                        if k == 0 {
                            assert(block_word::<C>(s1, 0) == s2.results[0]);
                        } else {
                            lemma_block_within::<C>(block_step::<C>(s1).1, (k - 1) as nat);
                            lemma_block_advance_add::<C>(s1, 1, (k - 1) as nat);
                            reveal_with_fuel(block_advance, 2);
                            assert(block_advance::<C>(s1, 1) == block_step::<C>(s1).1);
                            assert(block_advance::<C>(s1, k) == block_advance::<C>(
                                block_step::<C>(s1).1,
                                (k - 1) as nat,
                            ));
                        }
                    } else {
                        lemma_block_within::<C>(s1, k);
                    }
                }
                // the state after the words used
                let used = consumed_u32 as nat;
                lemma_block_advance_add::<C>(s0, words, used);
                if s1.index >= s1.results.len() {
                    if used > 0 {
                        lemma_block_within::<C>(block_step::<C>(s1).1, (used - 1) as nat);
                        lemma_block_advance_add::<C>(s1, 1, (used - 1) as nat);
                        reveal_with_fuel(block_advance, 2);
                        assert(block_advance::<C>(s1, 1) == block_step::<C>(s1).1);
                    }
                } else {
                    lemma_block_within::<C>(s1, used);
                }
            }
            self.index += consumed_u32;
            read_len += filled_u8;
            proof {
                assert(dest@ =~= before.take(read_len - filled_u8) + tail@);
                assert forall|i: int| 0 <= i < read_len implies #[trigger] dest@[i] == block_bytes::<
                    C,
                >(s0, read_len as nat)[i] by {
                    let start = read_len - filled_u8;
                    if i < start {
                        assert(dest@[i] == before.take(start)[i]);
                    } else {
                        let j = i - start;
                        assert(dest@[i] == bytes_le(src@)[j]);
                        assert(start % 4 == 0);
                        assert(i / 4 == start / 4 + j / 4);
                        assert(i % 4 == j % 4);
                    }
                }
                assert(dest@.take(read_len as int) =~= block_bytes::<C>(s0, read_len as nat));
            }
        }
        proof {
            assert(dest@.take(n as int) =~= dest@);
        }
    }
}

} // verus!
