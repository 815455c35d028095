//! Decisions taken on the result of one channel read or write.
use vstd::prelude::*;

verus! {

/// What one attempt to move a byte over the channel came to.
#[derive(Clone, Copy, PartialEq, Eq, Structural, Debug)]
pub enum IoOutcome {
    /// The call returned this many bytes.
    Transferred(isize),
    /// The call was interrupted before it moved anything.
    Interrupted,
    /// The call failed for any other reason.
    Failed,
}

/// What to do after one attempt to write a command byte.
#[derive(Clone, Copy, PartialEq, Eq, Structural, Debug)]
pub enum WriteStep {
    /// Try the same write again.
    Retry,
    /// The byte was written.
    Written,
    /// The command is dropped; the failure is reported and the loop goes on.
    Dropped,
}

/// What to do after one attempt to read a command byte.
#[derive(Clone, Copy, PartialEq, Eq, Structural, Debug)]
pub enum ReadStep<T> {
    /// Try the same read again.
    Retry,
    /// The read is over, with a command or with nothing.
    Done(Option<T>),
}

/// An interrupted write is retried; a one-byte write is done; anything else
/// drops the command.
pub open spec fn write_step_spec(o: IoOutcome) -> WriteStep {
    match o {
        IoOutcome::Interrupted => WriteStep::Retry,
        IoOutcome::Transferred(n) => if n == 1 {
            WriteStep::Written
        } else {
            WriteStep::Dropped
        },
        IoOutcome::Failed => WriteStep::Dropped,
    }
}

/// Decides how a write of a command byte goes on after one attempt.
pub fn write_step(o: IoOutcome) -> (r: WriteStep)
    ensures
        r == write_step_spec(o),
{
    match o {
        IoOutcome::Interrupted => WriteStep::Retry,
        IoOutcome::Transferred(n) => {
            if n == 1 {
                WriteStep::Written
            } else {
                WriteStep::Dropped
            }
        },
        IoOutcome::Failed => WriteStep::Dropped,
    }
}

} // verus!
