//! The words that the engine and its driver exchange.
//!
//! The engine never touches a filesystem. It names one [`Action`] at a time;
//! the driver performs it and reports back with a [`Reply`]; at the end the
//! engine hands out a [`SwapOutcome`].

use vstd::prelude::*;

verus! {

/// What a probe found at a path.
#[derive(Clone, Copy, Debug, PartialEq, Eq, Structural)]
pub enum EntryKind {
    File,
    Directory,
}

/// One of the three locations that a staged swap moves content between.
#[derive(Clone, Copy, Debug, PartialEq, Eq, Structural)]
pub enum Place {
    /// The first operand.
    A,
    /// The second operand.
    B,
    /// The holding slot.
    Slot,
}

/// One filesystem operation that the engine asks its driver to perform.
#[derive(Debug, PartialEq, Eq)]
pub enum Action {
    /// Ask the operating system to exchange the two entries in one
    /// indivisible step.
    Exchange { a: String, b: String },
    /// Look up what, if anything, lies at `path`.
    Probe { path: String },
    /// Remove the file at `path`.
    RemoveFile { path: String },
    /// Remove the directory at `path` with all that it holds.
    RemoveTree { path: String },
    /// Rename `from` to `to`.
    Rename { from: String, to: String },
}

/// An [`Action`] with its paths as sequences of characters.
pub enum Operation {
    Exchange { a: Seq<char>, b: Seq<char> },
    Probe { path: Seq<char> },
    RemoveFile { path: Seq<char> },
    RemoveTree { path: Seq<char> },
    Rename { from: Seq<char>, to: Seq<char> },
}

impl View for Action {
    type V = Operation;

    open spec fn view(&self) -> Operation {
        match *self {
            Action::Exchange { a, b } => Operation::Exchange { a: a@, b: b@ },
            Action::Probe { path } => Operation::Probe { path: path@ },
            Action::RemoveFile { path } => Operation::RemoveFile { path: path@ },
            Action::RemoveTree { path } => Operation::RemoveTree { path: path@ },
            Action::Rename { from, to } => Operation::Rename { from: from@, to: to@ },
        }
    }
}

/// What the driver reports after performing an [`Action`]. `E` is the
/// driver's own error type, which the engine carries and never inspects.
#[derive(Debug, PartialEq, Eq)]
pub enum Reply<E> {
    /// Answer to `Exchange`: `true` where the operating system exchanged the
    /// pair, `false` where it has no such primitive for this pair.
    Exchanged(bool),
    /// Answer to `Probe`: an entry of this kind lies at the path.
    Found(EntryKind),
    /// Answer to a removal or a rename: it went through.
    Done,
    /// The action failed with `cause`; `not_found` tells whether the failure
    /// means that no entry lies at the path.
    Failed { not_found: bool, cause: E },
}

impl Operation {
    /// Whether `reply` is an answer to this operation: a verdict to an
    /// exchange, a finding to a probe, completion to a removal or a rename,
    /// or a failure to any of them.
    pub open spec fn answered_by<E>(self, reply: Reply<E>) -> bool {
        match reply {
            Reply::Exchanged(_) => self is Exchange,
            Reply::Found(_) => self is Probe,
            Reply::Done => self is RemoveFile || self is RemoveTree || self is Rename,
            Reply::Failed { .. } => true,
        }
    }
}

/// The step of a swap at which a failure arose.
#[derive(Clone, Copy, Debug, PartialEq, Eq, Structural)]
pub enum Stage {
    /// The attempt at an indivisible exchange.
    AtomicExchange,
    /// Finding a directory for the holding slot.
    LocateSlot,
    /// Clearing what an earlier swap may have left in the holding slot.
    ClearSlot,
    /// Renaming the first operand into the holding slot.
    EvacuateA,
    /// Clearing what is left at the first operand's path.
    ClearA,
    /// Renaming the second operand to the first operand's path.
    RelocateB,
    /// Clearing what is left at the second operand's path.
    ClearB,
    /// Renaming the holding slot to the second operand's path.
    FillB,
}

/// Whether the engine tried to undo its renames after a failure, and how
/// that went.
#[derive(Clone, Copy, Debug, PartialEq, Eq, Structural)]
pub enum Rollback {
    NotAttempted,
    Succeeded,
    Failed,
}

/// Why a swap failed.
#[derive(Debug, PartialEq, Eq)]
pub enum SwapError<E> {
    /// Neither operand has a parent directory to hold the slot.
    NoParentDirectory,
    /// The driver reported this failure.
    Io(E),
}

/// How a swap ended.
#[derive(Debug, PartialEq, Eq)]
pub enum SwapOutcome<E> {
    Success,
    /// The swap failed at `stage`. Where `rollback` is `Failed`, `error` is
    /// the failure of the rollback, which takes the place of the failure
    /// that set it off; otherwise `error` is the failure of `stage` itself.
    Failure { stage: Stage, rollback: Rollback, error: SwapError<E> },
}

impl<E> SwapOutcome<E> {
    /// The outcome as a `Result`, without stage and rollback.
    pub open spec fn result(self) -> Result<(), SwapError<E>> {
        match self {
            SwapOutcome::Success => Ok(()),
            SwapOutcome::Failure { error, .. } => Err(error),
        }
    }

    /// Drops stage and rollback, and keeps success or the error.
    pub fn into_result(self) -> (r: Result<(), SwapError<E>>)
        ensures
            r == self.result(),
    {
        match self {
            SwapOutcome::Success => Ok(()),
            SwapOutcome::Failure { stage: _, rollback: _, error } => Err(error),
        }
    }
}

} // verus!
