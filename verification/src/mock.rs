//! A source for tests, with a stream that is known in advance.

use vstd::prelude::*;
use crate::error::Error;
use crate::le::{put_u64, u64_bytes};
use crate::rng::{EntropySource, RngCore};

verus! {

/// A simple implementation of `RngCore` for testing purposes.
///
/// This generates an arithmetic sequence (i.e. adds a constant each step)
/// over a `u64` number, using wrapping arithmetic. If the increment is 0
/// the generator yields a constant.
#[derive(Clone, Debug)]
pub struct StepRng {
    v: u64,
    a: u64,
}

impl View for StepRng {
    type V = (u64, u64);

    closed spec fn view(&self) -> (u64, u64) {
        (self.v, self.a)
    }
}

/// One step: the value handed out and the state after. The state is the
/// next value and the increment.
pub open spec fn step_next(s: (u64, u64)) -> (u64, (u64, u64)) {
    (s.0, (s.0.wrapping_add(s.1), s.1))
}

/// The `len` bytes that the generator writes from state `s`, and the state
/// after: eight bytes of each value, least significant first; of the last
/// value only the bytes still wanted.
pub open spec fn step_fill(s: (u64, u64), len: nat) -> (Seq<u8>, (u64, u64))
    decreases len,
{
    if len == 0 {
        (Seq::empty(), s)
    } else {
        let (w, s1) = step_next(s);
        let k: nat = if len < 8 {
            len
        } else {
            8
        };
        let (rest, s2) = step_fill(s1, (len - k) as nat);
        (u64_bytes(w, k) + rest, s2)
    }
}

impl StepRng {
    /// Create a `StepRng`, yielding an arithmetic sequence starting with
    /// `initial` and incremented by `increment` each time.
    pub fn new(initial: u64, increment: u64) -> (r: StepRng)
        ensures
            r@ == (initial, increment),
            r.wf(),
    {
        StepRng { v: initial, a: increment }
    }

    fn step(&mut self) -> (r: u64)
        ensures
            (r, final(self)@) == step_next(old(self)@),
    {
        let result: u64 = self.v;
        self.v = self.v.wrapping_add(self.a);
        result
    }
}

impl EntropySource for StepRng {
    open spec fn wf(&self) -> bool {
        true
    }

    open spec fn try_fill_bytes_spec(s: (u64, u64), len: nat) -> (
        Result<Seq<u8>, Error>,
        (u64, u64),
    ) {
        (Ok(step_fill(s, len).0), step_fill(s, len).1)
    }

    fn try_fill_bytes(&mut self, dest: &mut [u8]) -> (r: Result<(), Error>) {
        self.fill_bytes(dest);
        Ok(())
    }
}

impl RngCore for StepRng {
    /// The low half of the next value.
    open spec fn next_u32_spec(s: (u64, u64)) -> (u32, (u64, u64)) {
        ((step_next(s).0 as int % 0x1_0000_0000) as u32, step_next(s).1)
    }

    open spec fn next_u64_spec(s: (u64, u64)) -> (u64, (u64, u64)) {
        step_next(s)
    }

    open spec fn fill_bytes_spec(s: (u64, u64), len: nat) -> (Seq<u8>, (u64, u64)) {
        step_fill(s, len)
    }

    fn next_u32(&mut self) -> (r: u32) {
        let w: u64 = self.step();
        assert((w & 0xffff_ffff) == w % 0x1_0000_0000) by (bit_vector);
        (w & 0xffff_ffff) as u32
    }

    fn next_u64(&mut self) -> (r: u64) {
        self.step()
    }

    fn fill_bytes(&mut self, dest: &mut [u8]) {
        let n: usize = dest.len();
        let mut at: usize = 0;
        while at < n
            invariant
                at <= n,
                n == dest@.len(),
                n == old(dest)@.len(),
                step_fill(old(self)@, n as nat) == ({
                    let (rest, s) = step_fill(self@, (n - at) as nat);
                    (dest@.take(at as int) + rest, s)
                }),
            decreases n - at,
        {
            let w: u64 = self.step();
            let k: usize = if n - at < 8 {
                n - at
            } else {
                8
            };
            let ghost prev = dest@;
            put_u64(dest, at, w, k);
            proof {
                let (rest, s2) = step_fill(self@, (n - at - k) as nat);
                assert(dest@.take(at + k) =~= prev.take(at as int) + u64_bytes(w, k as nat));
                assert((prev.take(at as int) + u64_bytes(w, k as nat)) + rest =~= prev.take(
                    at as int,
                ) + (u64_bytes(w, k as nat) + rest));
            }
            at += k;
        }
        assert(dest@.take(n as int) =~= dest@);
        assert(dest@ + Seq::<u8>::empty() =~= dest@);
    }
}

} // verus!
