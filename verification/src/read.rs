//! A source that hands out the bytes of a sequence that it was given.

use vstd::prelude::*;
use crate::error::{Error, ErrorKind};
use crate::le::{u32_le, u64_halves};
use crate::rng::EntropySource;

verus! {

/// The state of a `ReadRng` as a mathematical value.
pub struct ReadState {
    /// The bytes of the source.
    pub data: Seq<u8>,
    /// The number of bytes handed out.
    pub pos: nat,
}

/// The failure of a request for more bytes than the source has left.
pub open spec fn end_of_source_spec() -> Error {
    Error {
        kind: ErrorKind::Unavailable,
        msg: "not enough bytes available, reached end of source",
    }
}

/// What a request for `len` bytes gives in state `s`: the next `len` bytes
/// of the source, or a failure that leaves the source as it was, if it has
/// fewer bytes left. A request for no bytes is always served.
pub open spec fn read_spec(s: ReadState, len: nat) -> (Result<Seq<u8>, Error>, ReadState) {
    if s.pos + len <= s.data.len() {
        (
            Ok(s.data.subrange(s.pos as int, (s.pos + len) as int)),
            ReadState { data: s.data, pos: s.pos + len },
        )
    } else {
        (Err(end_of_source_spec()), s)
    }
}

/// An RNG that reads random bytes straight from a sequence of bytes,
/// for instance the content of a file that its user has read.
///
/// The words it hands out are made of the bytes in little-endian order.
#[derive(Clone, Debug)]
pub struct ReadRng {
    data: Vec<u8>,
    pos: usize,
}

impl View for ReadRng {
    type V = ReadState;

    closed spec fn view(&self) -> ReadState {
        ReadState { data: self.data@, pos: self.pos as nat }
    }
}

impl ReadRng {
    /// The invariant: the bytes handed out are bytes of the source.
    pub closed spec fn valid(&self) -> bool {
        self.pos <= self.data@.len()
    }

    /// Create a new `ReadRng` from the bytes of a source.
    pub fn new(r: Vec<u8>) -> (rng: ReadRng)
        ensures
            rng.valid(),
            rng@ == (ReadState { data: r@, pos: 0 }),
    {
        ReadRng { data: r, pos: 0 }
    }

    /// Adds `bytes` at the end of the source.
    pub fn extend(&mut self, bytes: &[u8])
        requires
            old(self).valid(),
        ensures
            final(self).valid(),
            final(self)@ == (ReadState { data: old(self)@.data + bytes@, pos: old(self)@.pos }),
    {
        let n: usize = bytes.len();
        let mut i: usize = 0;
        while i < n
            invariant
                i <= n == bytes@.len(),
                self.valid(),
                self.pos == old(self).pos,
                self.data@ == old(self).data@ + bytes@.take(i as int),
            decreases n - i,
        {
            self.data.push(bytes[i]);
            assert(self.data@ =~= old(self).data@ + bytes@.take(i + 1));
            i += 1;
        }
        assert(bytes@.take(n as int) =~= bytes@);
    }

    /// The number of bytes that are left.
    pub fn remaining(&self) -> (n: usize)
        requires
            self.valid(),
        ensures
            n == self@.data.len() - self@.pos,
    {
        self.data.len() - self.pos
    }

    /// The next word, made of the next four bytes, or the failure of the
    /// request for them.
    pub fn try_next_u32(&mut self) -> (r: Result<u32, Error>)
        requires
            old(self).valid(),
        ensures
            final(self).valid(),
            final(self)@ == read_spec(old(self)@, 4).1,
            match read_spec(old(self)@, 4).0 {
                Ok(b) => r == Ok::<u32, Error>(u32_le(b[0], b[1], b[2], b[3])),
                Err(e) => r == Err::<u32, Error>(e),
            },
    {
        let mut buf: [u8; 4] = [0u8; 4];
        match self.try_fill_bytes(&mut buf) {
            Err(e) => Err(e),
            Ok(()) => Ok(crate::le::read_u32le(&buf)),
        }
    }

    /// The next word, made of the next eight bytes, or the failure of the
    /// request for them.
    pub fn try_next_u64(&mut self) -> (r: Result<u64, Error>)
        requires
            old(self).valid(),
        ensures
            final(self).valid(),
            final(self)@ == read_spec(old(self)@, 8).1,
            match read_spec(old(self)@, 8).0 {
                Ok(b) => r == Ok::<u64, Error>(
                    u64_halves(u32_le(b[0], b[1], b[2], b[3]), u32_le(b[4], b[5], b[6], b[7])),
                ),
                Err(e) => r == Err::<u64, Error>(e),
            },
    {
        let mut buf: [u8; 8] = [0u8; 8];
        match self.try_fill_bytes(&mut buf) {
            Err(e) => Err(e),
            Ok(()) => {
                let lo: u32 = crate::le::read_u32le(vstd::slice::slice_subrange(&buf, 0, 4));
                let hi: u32 = crate::le::read_u32le(vstd::slice::slice_subrange(&buf, 4, 8));
                Ok(crate::le::join_u32(lo, hi))
            },
        }
    }
}

impl EntropySource for ReadRng {
    open spec fn wf(&self) -> bool {
        self.valid()
    }

    open spec fn try_fill_bytes_spec(s: ReadState, len: nat) -> (Result<Seq<u8>, Error>, ReadState) {
        read_spec(s, len)
    }

    fn try_fill_bytes(&mut self, dest: &mut [u8]) -> (r: Result<(), Error>) {
        let n: usize = dest.len();
        let total: usize = self.data.len();
        if n > total - self.pos {
            return Err(
                Error::new(
                    ErrorKind::Unavailable,
                    "not enough bytes available, reached end of source",
                ),
            );
        }
        let mut i: usize = 0;
        while i < n
            invariant
                i <= n == dest@.len(),
                self.pos + n <= total == self.data@.len(),
                *self == *old(self),
                forall|j: int| 0 <= j < i ==> dest@[j] == self.data@[self.pos + j],
            decreases n - i,
        {
            dest[i] = self.data[self.pos + i];
            i += 1;
        }
        assert(dest@ =~= self.data@.subrange(self.pos as int, self.pos + n));
        self.pos = self.pos + n;
        Ok(())
    }
}

} // verus!
