//! The chain of entropy sources: the source of the operating system first,
//! and the jitter of the clock where that fails.
//!
//! The sources themselves are outside this library. `EntropyRng` holds the
//! decisions: which source is asked next, and how a request ends. Its user
//! performs each action and hands back what came of it.

use vstd::prelude::*;
use crate::error::Error;

verus! {

/// One of the two sources of entropy.
#[derive(Clone, Copy, Debug, PartialEq, Eq, Structural)]
pub enum Source {
    /// No source has served a request yet.
    Unused,
    /// The source of the operating system.
    Os,
    /// The jitter of the clock.
    Jitter,
}

/// What the user of the chain has to do next.
#[derive(Clone, Copy, Debug)]
pub enum Action {
    /// Fill the destination from the source of the operating system, then
    /// report with `Event::OsDone`.
    FillFromOs,
    /// Fill the destination from the jitter of the clock, then report with
    /// `Event::JitterDone`.
    FillFromJitter,
    /// The request has ended: with the destination filled, or with the
    /// failure to return.
    Finish(Result<(), Error>),
}

/// What the user of the chain reports.
#[derive(Clone, Copy, Debug)]
pub enum Event {
    /// A request to fill a destination has come in.
    Start,
    /// The source of the operating system was asked, with this outcome.
    OsDone(Result<(), Error>),
    /// The jitter of the clock was asked, with this outcome.
    JitterDone(Result<(), Error>),
}

/// How far a request has got.
#[derive(Clone, Copy, Debug)]
pub enum Phase {
    /// No request is under way.
    Idle,
    /// The source of the operating system is being asked.
    AwaitingOs,
    /// The jitter of the clock is being asked; the source of the operating
    /// system has failed with this error.
    AwaitingJitter(Error),
}

/// The state of the chain.
#[derive(Clone, Copy, Debug)]
pub struct EntropyRng {
    source: Source,
    phase: Phase,
}

/// The failure that an event is answered with which the phase does not
/// expect.
pub open spec fn out_of_order_spec() -> Error {
    Error { kind: crate::error::ErrorKind::Unexpected, msg: "entropy source reported out of order" }
}

/// The step of the chain: for a source that served last, a phase and an
/// event, the action to take, the source that has served last after it, and
/// the phase after it.
///
/// A request asks the operating system first, whichever source served
/// before. If that fails, it asks the jitter of the clock. If that fails
/// too, the request fails with the first failure, that of the operating
/// system, so that its kind tells whether to try again. Nothing that a
/// source handed out is kept for a later request.
pub open spec fn chain_step(source: Source, phase: Phase, event: Event) -> (Action, Source, Phase) {
    match (phase, event) {
        (Phase::Idle, Event::Start) => (Action::FillFromOs, source, Phase::AwaitingOs),
        (Phase::AwaitingOs, Event::OsDone(Ok(()))) => (
            Action::Finish(Ok(())),
            Source::Os,
            Phase::Idle,
        ),
        (Phase::AwaitingOs, Event::OsDone(Err(e))) => (
            Action::FillFromJitter,
            source,
            Phase::AwaitingJitter(e),
        ),
        (Phase::AwaitingJitter(first), Event::JitterDone(Ok(()))) => (
            Action::Finish(Ok(())),
            Source::Jitter,
            Phase::Idle,
        ),
        (Phase::AwaitingJitter(first), Event::JitterDone(Err(e))) => (
            Action::Finish(Err(first)),
            source,
            Phase::Idle,
        ),
        _ => (Action::Finish(Err(out_of_order_spec())), source, Phase::Idle),
    }
}

impl EntropyRng {
    /// The source that served the last request that was served.
    pub closed spec fn spec_source(&self) -> Source {
        self.source
    }

    /// How far the request under way has got.
    pub closed spec fn spec_phase(&self) -> Phase {
        self.phase
    }

    /// Create a new `EntropyRng`.
    ///
    /// This method will do no system calls or other initialization routines,
    /// those are done on first use.
    pub fn new() -> (r: EntropyRng)
        ensures
            r.spec_source() == Source::Unused,
            r.spec_phase() == Phase::Idle,
    {
        EntropyRng { source: Source::Unused, phase: Phase::Idle }
    }

    /// The source that served the last request that was served.
    pub fn source(&self) -> (s: Source)
        ensures
            s == self.spec_source(),
    {
        self.source
    }

    /// How far the request under way has got.
    pub fn phase(&self) -> (p: Phase)
        ensures
            p == self.spec_phase(),
    {
        self.phase
    }

    /// Takes note of `event` and says what to do next.
    pub fn step(&mut self, event: Event) -> (action: Action)
        ensures
            (action, final(self).spec_source(), final(self).spec_phase()) == chain_step(
                old(self).spec_source(),
                old(self).spec_phase(),
                event,
            ),
    {
        let phase: Phase = self.phase;
        match (phase, event) {
            (Phase::Idle, Event::Start) => {
                self.phase = Phase::AwaitingOs;
                Action::FillFromOs
            },
            (Phase::AwaitingOs, Event::OsDone(Ok(()))) => {
                self.source = Source::Os;
                self.phase = Phase::Idle;
                Action::Finish(Ok(()))
            },
            (Phase::AwaitingOs, Event::OsDone(Err(e))) => {
                self.phase = Phase::AwaitingJitter(e);
                Action::FillFromJitter
            },
            (Phase::AwaitingJitter(_), Event::JitterDone(Ok(()))) => {
                self.source = Source::Jitter;
                self.phase = Phase::Idle;
                Action::Finish(Ok(()))
            },
            (Phase::AwaitingJitter(first), Event::JitterDone(Err(_))) => {
                self.phase = Phase::Idle;
                Action::Finish(Err(first))
            },
            _ => {
                self.phase = Phase::Idle;
                Action::Finish(
                    Err(
                        Error::new(
                            crate::error::ErrorKind::Unexpected,
                            "entropy source reported out of order",
                        ),
                    ),
                )
            },
        }
    }
}

/// A request ends well exactly if one of the two sources served it, and the
/// jitter of the clock is asked only after the operating system has failed:
/// from the start of a request, the outcomes `os` and `jitter` of the two
/// sources lead to the end that this lemma states.
pub proof fn lemma_chain_outcome(source: Source, os: Result<(), Error>, jitter: Result<(), Error>)
    ensures
        ({
            let (a1, s1, p1) = chain_step(source, Phase::Idle, Event::Start);
            let (a2, s2, p2) = chain_step(s1, p1, Event::OsDone(os));
            let (a3, s3, p3) = chain_step(s2, p2, Event::JitterDone(jitter));
            &&& a1 == Action::FillFromOs
            &&& os is Ok ==> a2 == Action::Finish(Ok(())) && s2 == Source::Os && p2 == Phase::Idle
            &&& os is Err ==> a2 == Action::FillFromJitter
            &&& os is Err && jitter is Ok ==> a3 == Action::Finish(Ok(())) && s3 == Source::Jitter
            &&& os is Err && jitter is Err ==> a3 == Action::Finish(Err(os->Err_0)) && s3 == source
            &&& os is Err ==> p3 == Phase::Idle
        }),
{
}

} // verus!
