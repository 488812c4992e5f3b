//! Carrying out a rendered sequence, one operation at a time.
//!
//! The sequence is order dependent and the multiplexer is the only record of
//! what has been done, so execution is strictly sequential: an operation is
//! issued when the one before it has succeeded, the first failure ends the
//! run, nothing is retried and nothing is undone. Performing an operation is
//! the caller's part; what to do next is decided here.

use crate::error::Error;
use vstd::prelude::*;

verus! {

/// How far the execution of a sequence has come.
#[derive(Clone, Copy, Debug, PartialEq, Eq, Structural)]
pub enum Progress {
    /// Nothing has been issued.
    Ready,
    /// The operation at this position has been issued; its outcome is
    /// awaited.
    Awaiting(usize),
    /// Every operation has succeeded.
    Finished,
    /// The operation at this position has failed.
    Aborted(usize),
}

/// What the caller does next.
#[derive(Clone, Copy, Debug, PartialEq, Eq, Structural)]
pub enum Step {
    /// Perform the operation at this position and report its outcome.
    Issue(usize),
    /// Stop: the session stands.
    Finish,
    /// Stop with this error; what was created stays as it is.
    Abort(Error),
}

/// The step that follows, in a sequence of a given length, from a state of
/// progress and the outcome of the awaited operation.
pub open spec fn following(progress: Progress, succeeded: bool, length: nat) -> (Progress, Step) {
    match progress {
        Progress::Ready => if length > 0 {
            (Progress::Awaiting(0), Step::Issue(0))
        } else {
            (Progress::Finished, Step::Finish)
        },
        Progress::Awaiting(position) => if !succeeded {
            (Progress::Aborted(position), Step::Abort(Error::ControlOperationFailed(position)))
        } else if position + 1 < length {
            (Progress::Awaiting((position + 1) as usize), Step::Issue((position + 1) as usize))
        } else {
            (Progress::Finished, Step::Finish)
        },
        Progress::Finished => (Progress::Finished, Step::Finish),
        Progress::Aborted(position) => (
            Progress::Aborted(position),
            Step::Abort(Error::ControlOperationFailed(position)),
        ),
    }
}

/// Decides the next step. `succeeded` is the outcome of the operation that
/// is awaited, and is not looked at in any other state.
pub fn advance(progress: Progress, succeeded: bool, length: usize) -> (next: (Progress, Step))
    ensures
        next == following(progress, succeeded, length as nat),
{
    match progress {
        Progress::Ready => if length > 0 {
            (Progress::Awaiting(0), Step::Issue(0))
        } else {
            (Progress::Finished, Step::Finish)
        },
        Progress::Awaiting(position) => if !succeeded {
            (Progress::Aborted(position), Step::Abort(Error::ControlOperationFailed(position)))
        } else if position < length && position + 1 < length {
            (Progress::Awaiting(position + 1), Step::Issue(position + 1))
        } else {
            (Progress::Finished, Step::Finish)
        },
        Progress::Finished => (Progress::Finished, Step::Finish),
        Progress::Aborted(position) => (
            Progress::Aborted(position),
            Step::Abort(Error::ControlOperationFailed(position)),
        ),
    }
}

/// The state of progress once the first operations of a sequence have been
/// issued, one after the other, and have met these outcomes.
pub open spec fn progress_after(length: nat, outcomes: Seq<bool>) -> Progress
    decreases outcomes.len(),
{
    if outcomes.len() == 0 {
        following(Progress::Ready, true, length).0
    } else {
        following(progress_after(length, outcomes.drop_last()), outcomes.last(), length).0
    }
}

/// Whether the first outcomes of a run are all successes.
pub open spec fn all_succeeded(outcomes: Seq<bool>, count: int) -> bool {
    forall|i: int| 0 <= i < count ==> outcomes[i]
}

/// Operations are issued in the order of the sequence, each one only when
/// all before it have succeeded. The first failure aborts the run at that
/// operation and nothing is issued after it; when every operation has
/// succeeded the run is finished.
pub proof fn lemma_run(length: nat, outcomes: Seq<bool>)
    requires
        length <= usize::MAX,
    ensures
        all_succeeded(outcomes, outcomes.len() as int) && outcomes.len() < length
            ==> progress_after(length, outcomes) == Progress::Awaiting(outcomes.len() as usize),
        all_succeeded(outcomes, outcomes.len() as int) && outcomes.len() >= length
            ==> progress_after(length, outcomes) == Progress::Finished,
        forall|failed: int|
            0 <= failed < outcomes.len() && failed < length && !outcomes[failed] && all_succeeded(
                outcomes,
                failed,
            ) ==> progress_after(length, outcomes) == Progress::Aborted(failed as usize),
    decreases outcomes.len(),
{
    if outcomes.len() > 0 {
        let before = outcomes.drop_last();
        lemma_run(length, before);
        assert(all_succeeded(outcomes, outcomes.len() as int) ==> all_succeeded(
            before,
            before.len() as int,
        ));
        assert forall|failed: int|
            0 <= failed < outcomes.len() && failed < length && !outcomes[failed] && all_succeeded(
                outcomes,
                failed,
            ) implies progress_after(length, outcomes) == Progress::Aborted(failed as usize) by {
            if failed < before.len() {
                assert(!before[failed]);
                assert(all_succeeded(before, failed));
            } else {
                assert(all_succeeded(before, before.len() as int));
            }
        }
    }
}

} // verus!
