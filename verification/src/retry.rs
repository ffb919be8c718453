//! What to do when the random source of the operating system fails.
//!
//! A request that cannot report a failure tries again: after a wait while
//! the source is not ready, at once after a passing failure. The tries are
//! counted, so that the request ends: with the bytes, or with the last
//! failure.

use vstd::prelude::*;
use crate::error::ErrorKind;

verus! {

/// The longest time that a request waits for the source, in seconds.
pub const MAX_RETRY_PERIOD: u32 = 10;

/// The time between two tries while the source is not ready, in
/// milliseconds.
pub const WAIT_DUR_MS: u32 = 100;

/// The failures after which a request gives up: as many as tries fit in the
/// longest wait.
pub const RETRY_LIMIT: u32 = 100;

/// The tries that a request makes after failures that are passing.
pub const TRANSIENT_RETRIES: u32 = 8;

/// What a request does after a failure.
#[derive(Clone, Copy, Debug, PartialEq, Eq, Structural)]
pub enum Retry {
    /// Wait `WAIT_DUR_MS` milliseconds, then try again.
    Wait,
    /// Try again at once.
    Again,
    /// Give up: the source has failed too many times.
    GiveUp,
    /// Give up: the failure will not pass.
    Fatal,
}

/// What a request does after a failure of kind `kind` when the failures so
/// far count `err_count`, and the count after it. A wait counts one; a try
/// at once counts as much as makes `TRANSIENT_RETRIES` of them reach the
/// limit.
pub open spec fn retry_spec(err_count: u32, kind: ErrorKind) -> (Retry, u32) {
    if err_count >= RETRY_LIMIT {
        (Retry::GiveUp, err_count)
    } else if kind is NotReady {
        (Retry::Wait, (err_count + 1) as u32)
    } else if !(kind is Unavailable) {
        (
            Retry::Again,
            (err_count + (RETRY_LIMIT + TRANSIENT_RETRIES - 1) / (TRANSIENT_RETRIES as int)) as u32,
        )
    } else {
        (Retry::Fatal, err_count)
    }
}

/// Says what to do after a failure of kind `kind`, and counts it.
pub fn after_failure(err_count: &mut u32, kind: ErrorKind) -> (r: Retry)
    ensures
        (r, *final(err_count)) == retry_spec(*old(err_count), kind),
        (r == Retry::Wait || r == Retry::Again) ==> *final(err_count) > *old(err_count),
{
    if *err_count >= RETRY_LIMIT {
        Retry::GiveUp
    } else if kind.should_wait() {
        *err_count = *err_count + 1;
        Retry::Wait
    } else if kind.should_retry() {
        *err_count = *err_count + (RETRY_LIMIT + TRANSIENT_RETRIES - 1) / TRANSIENT_RETRIES;
        Retry::Again
    } else {
        Retry::Fatal
    }
}

/// A request ends: the failures after which it still tries again are fewer
/// than the limit, whatever their kinds. After `n` failures that were each
/// answered with a new try, the count is at least `n`; at the limit the
/// answer is to give up.
pub proof fn lemma_retries_are_bounded(err_count: u32, kind: ErrorKind)
    ensures
        err_count >= RETRY_LIMIT ==> retry_spec(err_count, kind).0 == Retry::GiveUp,
        (retry_spec(err_count, kind).0 == Retry::Wait || retry_spec(err_count, kind).0
            == Retry::Again) ==> err_count < RETRY_LIMIT && retry_spec(err_count, kind).1
            > err_count,
{
}

} // verus!
