//! The pipe endpoint: resolving a path to an open, write-only FIFO handle
//! (creating the special file on demand, with a bounded number of retries),
//! and the producer's per-iteration payload logic.
//!
//! Opening, creating and writing are blocking system calls that the
//! unverified driver performs; it reports each outcome here and carries out
//! the step this module decides on.

use vstd::prelude::*;

use crate::errors::{FileKind, IoKind, PipeError};

verus! {

/// How many create-and-retry rounds the resolver may perform before it
/// gives up with `PipeError::CreateExhausted`.
pub const MAX_CREATE_ATTEMPTS: u8 = 3;

/// Permission bits a newly created FIFO is given.
pub const FIFO_MODE: u32 = 0o660;

/// The fixed terminator appended to every payload.
pub const LINE_TERMINATOR: u8 = 0x0a;

/// The exact size of every payload: one value byte plus the terminator.
pub const PAYLOAD_LEN: usize = 2;

/// What one open attempt reported back.
#[derive(Clone, Copy, Debug, PartialEq, Eq, Structural)]
pub enum OpenOutcome {
    /// The open succeeded; the object under the new handle has this kind.
    Opened { kind: FileKind },
    /// The open failed with an error of this category.
    Failed { cause: IoKind },
}

/// What the driver must do next while resolving the pipe path.
#[derive(Clone, Copy, Debug, PartialEq, Eq, Structural)]
pub enum OpenStep {
    /// The handle just opened is a FIFO: use it.
    Ready,
    /// Create a FIFO at the path with the given permission bits (always
    /// `FIFO_MODE`), then open again.
    CreateAndRetry { mode: u32 },
    /// Give up; the error is fatal to the producer.
    Fail { error: PipeError },
}

/// The step taken after an open attempt, given how many create-and-retry
/// rounds were already spent.
///
/// - An opened FIFO is ready; an opened object of any other kind is
///   rejected as `NotAFifo`, and nothing is created, written or deleted.
/// - A missing object is created and the open retried, at most
///   `MAX_CREATE_ATTEMPTS` times; past that bound the resolver fails with
///   `CreateExhausted` instead of retrying without end.
/// - Any other open failure is surfaced at once as `OpenFailed`.
pub open spec fn open_step_spec(creates_done: u8, outcome: OpenOutcome) -> OpenStep {
    match outcome {
        OpenOutcome::Opened { kind } => {
            if kind == FileKind::Fifo {
                OpenStep::Ready
            } else {
                OpenStep::Fail { error: PipeError::NotAFifo { actual: kind } }
            }
        },
        OpenOutcome::Failed { cause } => {
            if cause == IoKind::NotFound {
                if creates_done < MAX_CREATE_ATTEMPTS {
                    OpenStep::CreateAndRetry { mode: FIFO_MODE }
                } else {
                    OpenStep::Fail { error: PipeError::CreateExhausted }
                }
            } else {
                OpenStep::Fail { error: PipeError::OpenFailed { cause } }
            }
        },
    }
}

/// Decides the next step of the open-or-create protocol from the outcome of
/// the last open attempt. `creates_done` counts the create-and-retry rounds
/// performed so far; the driver starts it at zero and adds one after each
/// `CreateAndRetry`.
pub fn open_step(creates_done: u8, outcome: OpenOutcome) -> (step: OpenStep)
    ensures
        step == open_step_spec(creates_done, outcome),
{
    match outcome {
        OpenOutcome::Opened { kind } => {
            if kind == FileKind::Fifo {
                OpenStep::Ready
            } else {
                OpenStep::Fail { error: PipeError::NotAFifo { actual: kind } }
            }
        },
        OpenOutcome::Failed { cause } => {
            if cause == IoKind::NotFound {
                if creates_done < MAX_CREATE_ATTEMPTS {
                    OpenStep::CreateAndRetry { mode: FIFO_MODE }
                } else {
                    OpenStep::Fail { error: PipeError::CreateExhausted }
                }
            } else {
                OpenStep::Fail { error: PipeError::OpenFailed { cause } }
            }
        },
    }
}

/// How many FIFO creations a driver performs in the run its successive
/// open attempts report as `outcomes`, starting with `creates_done` rounds
/// already spent: one per `CreateAndRetry` step, stopping at the first
/// step that is not one — `Ready` and `Fail` both end the run.
pub open spec fn creations_in_run(outcomes: Seq<OpenOutcome>, creates_done: u8) -> int
    decreases outcomes.len(),
{
    if outcomes.len() == 0 {
        0
    } else if open_step_spec(creates_done, outcomes[0]) == (OpenStep::CreateAndRetry {
        mode: FIFO_MODE,
    }) {
        1 + creations_in_run(outcomes.skip(1), (creates_done + 1) as u8)
    } else {
        0
    }
}

/// Creation is bounded over whole runs: whatever the operating system
/// reports at each attempt, a run started fresh performs at most
/// `MAX_CREATE_ATTEMPTS` creations, and one resumed after `creates_done`
/// rounds at most the remainder.
pub proof fn lemma_run_creations_bounded(outcomes: Seq<OpenOutcome>, creates_done: u8)
    requires
        creates_done <= MAX_CREATE_ATTEMPTS,
    ensures
        creations_in_run(outcomes, creates_done) <= MAX_CREATE_ATTEMPTS - creates_done,
    decreases outcomes.len(),
{
    if outcomes.len() > 0 && open_step_spec(creates_done, outcomes[0]) == (OpenStep::CreateAndRetry {
        mode: FIFO_MODE,
    }) {
        lemma_run_creations_bounded(outcomes.skip(1), (creates_done + 1) as u8);
    }
}

/// A path with no object behind it is resolved by exactly one creation:
/// the first attempt's `NotFound` makes the resolver create the FIFO and
/// retry, and the retry, now handed the FIFO just created, takes the
/// handle without creating anything further.
pub proof fn lemma_fresh_path_created_once(outcomes: Seq<OpenOutcome>)
    requires
        outcomes.len() >= 2,
        outcomes[0] == (OpenOutcome::Failed { cause: IoKind::NotFound }),
        outcomes[1] == (OpenOutcome::Opened { kind: FileKind::Fifo }),
    ensures
        creations_in_run(outcomes, 0) == 1,
{
    assert(outcomes.skip(1)[0] == outcomes[1]);
    assert(creations_in_run(outcomes.skip(1), 1) == 0);
}

/// A path already occupied by a FIFO is taken as-is: whatever the round,
/// an opened FIFO is never recreated.
pub proof fn lemma_existing_fifo_not_recreated(creates_done: u8)
    ensures
        open_step_spec(creates_done, OpenOutcome::Opened { kind: FileKind::Fifo })
            == OpenStep::Ready,
{
}

/// A path occupied by anything that is not a FIFO is rejected with
/// `NotAFifo` naming the offending kind; the step neither creates nor
/// touches the existing object.
pub proof fn lemma_non_fifo_rejected(creates_done: u8, kind: FileKind)
    requires
        kind != FileKind::Fifo,
    ensures
        open_step_spec(creates_done, OpenOutcome::Opened { kind })
            == (OpenStep::Fail { error: PipeError::NotAFifo { actual: kind } }),
{
}

/// Relied upon for the producer's value bytes: `rand::random` draws a value
/// from the thread-local generator. Nothing is promised of the value drawn.
pub assume_specification<T>[ rand::random::<T> ]() -> (r: T)
    where
        rand::distributions::Standard: rand::distributions::Distribution<T>,
;

/// Builds the producer's payload for one value byte: exactly the value
/// followed by the fixed line terminator, two bytes in all.
pub fn make_payload(value: u8) -> (p: [u8; 2])
    ensures
        p@.len() == PAYLOAD_LEN,
        p@[0] == value,
        p@[1] == LINE_TERMINATOR,
{
    [value, LINE_TERMINATOR]
}

/// Draws one fresh pseudo-random value byte and builds its payload. The
/// value byte is arbitrary; the shape is not: two bytes, terminator last.
pub fn next_payload() -> (p: [u8; 2])
    ensures
        p@.len() == PAYLOAD_LEN,
        p@[1] == LINE_TERMINATOR,
{
    let value: u8 = rand::random::<u8>();
    make_payload(value)
}

/// What the producer concludes from the number of bytes one write call
/// accepted: only a write of the whole payload lets the loop go on; any
/// partial acceptance ends it with `ShortWrite`.
pub open spec fn write_check_spec(written: usize) -> Result<(), PipeError> {
    if written == PAYLOAD_LEN {
        Ok(())
    } else {
        Err(PipeError::ShortWrite)
    }
}

/// Checks the count returned by a write of one payload. Returns `Ok` if and
/// only if both bytes were accepted atomically; otherwise `ShortWrite`,
/// on which the producer loop terminates rather than go on with a partial
/// payload.
pub fn check_write(written: usize) -> (r: Result<(), PipeError>)
    ensures
        r == write_check_spec(written),
        r is Ok <==> written == PAYLOAD_LEN,
{
    if written == PAYLOAD_LEN {
        Ok(())
    } else {
        Err(PipeError::ShortWrite)
    }
}

/// Creation is bounded: once `MAX_CREATE_ATTEMPTS` rounds are spent, a
/// still-missing object ends the protocol with `CreateExhausted` rather
/// than another retry.
pub proof fn lemma_creation_bounded(creates_done: u8)
    requires
        creates_done >= MAX_CREATE_ATTEMPTS,
    ensures
        open_step_spec(creates_done, OpenOutcome::Failed { cause: IoKind::NotFound })
            == (OpenStep::Fail { error: PipeError::CreateExhausted }),
{
}

} // verus!
