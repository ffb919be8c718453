//! Failures of random sources.
//!
//! A failure carries a kind, by which a caller decides whether to try again,
//! and a fixed message.

use vstd::prelude::*;

verus! {

/// How permanent a failure is.
#[derive(Clone, Copy, Debug, PartialEq, Eq, Structural)]
pub enum ErrorKind {
    /// The source does not exist here; trying again will not help.
    Unavailable,
    /// A failure with no more specific kind; a retry may succeed.
    Unexpected,
    /// A failure that is likely to go away on an immediate retry.
    Transient,
    /// The source needs more time; try again a little later.
    NotReady,
}

impl ErrorKind {
    /// True if this kind of failure may resolve itself on retry.
    pub fn should_retry(self) -> (b: bool)
        ensures
            b <==> !(self is Unavailable),
    {
        match self {
            ErrorKind::Unavailable => false,
            _ => true,
        }
    }

    /// True if the caller should wait before retrying. Implies `should_retry`.
    pub fn should_wait(self) -> (b: bool)
        ensures
            b <==> self is NotReady,
    {
        match self {
            ErrorKind::NotReady => true,
            _ => false,
        }
    }

    /// The text of `description`.
    pub open spec fn description_spec(self) -> Seq<char> {
        match self {
            ErrorKind::Unavailable => "permanently unavailable"@,
            ErrorKind::Unexpected => "unexpected failure"@,
            ErrorKind::Transient => "transient failure"@,
            ErrorKind::NotReady => "not ready yet"@,
        }
    }

    /// A short description of this kind of failure.
    pub fn description(self) -> (s: &'static str)
        ensures
            s@ == self.description_spec(),
    {
        match self {
            ErrorKind::Unavailable => "permanently unavailable",
            ErrorKind::Unexpected => "unexpected failure",
            ErrorKind::Transient => "transient failure",
            ErrorKind::NotReady => "not ready yet",
        }
    }
}

/// The failure of a random source: a kind and a message.
#[derive(Clone, Copy, Debug)]
pub struct Error {
    /// The kind of failure.
    pub kind: ErrorKind,
    /// What failed.
    pub msg: &'static str,
}

impl Error {
    /// A failure of the given kind with the given message.
    pub fn new(kind: ErrorKind, msg: &'static str) -> (e: Error)
        ensures
            e == (Error { kind, msg }),
    {
        Error { kind, msg }
    }
}

} // verus!
