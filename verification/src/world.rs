//! A model of the filesystem that a swap works on, and of a swap's run on
//! it.
//!
//! The model is a map from paths to what lies there. It treats the entries
//! that it names as independent of each other: an operation on one path
//! leaves every other path as it was. That is so of a real filesystem where
//! no operand lies inside the other.
//!
//! A rename in the model leaves nothing at its source. On such a
//! filesystem the probes that the engine makes after a rename find nothing
//! to clear; they are there for systems that leave an entry behind.

use vstd::prelude::*;
use crate::engine::{Next, State};
use crate::protocol::{EntryKind, Operation, Reply, SwapOutcome};

verus! {

/// What lies at a path: a file with its bytes, or a directory with what it
/// holds under each name.
pub enum Node {
    File(Seq<u8>),
    Directory(Map<Seq<char>, Node>),
}

impl Node {
    /// What a probe reports of this entry.
    pub open spec fn kind(self) -> EntryKind {
        match self {
            Node::File(_) => EntryKind::File,
            Node::Directory(_) => EntryKind::Directory,
        }
    }
}

/// The filesystem: the paths at which something lies, each with its entry.
pub type World = Map<Seq<char>, Node>;

/// Whether `reply` may answer `operation` performed on `before`, leaving
/// `after`.
///
/// - An exchange that the system handles needs both entries and trades
///   them; one that it does not handle, or that fails, changes nothing.
/// - A probe changes nothing; it finds an entry only where one lies, of the
///   kind reported, and reports a missing entry only where none lies.
/// - A removal that goes through leaves nothing at the path. A failed
///   removal of a file changes nothing; a failed removal of a directory may
///   leave anything at the path, and changes nothing elsewhere.
/// - A rename that goes through needs an entry at its source and moves it
///   to the target, replacing what lay there; a failed one changes nothing.
pub open spec fn follows<E>(
    before: World,
    operation: Operation,
    reply: Reply<E>,
    after: World,
) -> bool {
    operation.answered_by(reply) && match operation {
        Operation::Exchange { a, b } => match reply {
            Reply::Exchanged(true) => {
                &&& before.dom().contains(a)
                &&& before.dom().contains(b)
                &&& after == before.insert(a, before[b]).insert(b, before[a])
            },
            Reply::Exchanged(false) => after == before,
            Reply::Failed { .. } => after == before,
            _ => false,
        },
        Operation::Probe { path } => after == before && match reply {
            Reply::Found(kind) => before.dom().contains(path) && before[path].kind() == kind,
            Reply::Failed { not_found, .. } => not_found ==> !before.dom().contains(path),
            _ => false,
        },
        Operation::RemoveFile { path } => match reply {
            Reply::Done => after == before.remove(path),
            Reply::Failed { .. } => after == before,
            _ => false,
        },
        Operation::RemoveTree { path } => match reply {
            Reply::Done => after == before.remove(path),
            Reply::Failed { .. } => after.remove(path) == before.remove(path),
            _ => false,
        },
        Operation::Rename { from, to } => match reply {
            Reply::Done => {
                &&& before.dom().contains(from)
                &&& after == before.remove(from).insert(to, before[from])
            },
            Reply::Failed { .. } => after == before,
            _ => false,
        },
    }
}

/// One turn of a run: what the driver reported, and the filesystem after
/// the action.
pub struct Step<E> {
    pub reply: Reply<E>,
    pub after: World,
}

/// How a run ended: the outcome, and the filesystem left behind.
pub struct Ending<E> {
    pub outcome: SwapOutcome<E>,
    pub world: World,
}

/// The ending of the run `steps` of the engine from `state` on `world`.
/// It is `Some` exactly where every step answers the action that the
/// engine then waits on as [`follows`] allows, and the last step, and no
/// step before it, ends the swap.
pub open spec fn run<E>(state: State<E>, world: World, steps: Seq<Step<E>>) -> Option<Ending<E>>
    decreases steps.len(),
{
    if steps.len() == 0 {
        None
    } else if !follows(world, state.pending(), steps[0].reply, steps[0].after) {
        None
    } else {
        match state.next(steps[0].reply) {
            Next::Finished(outcome) => if steps.len() == 1 {
                Some(Ending { outcome, world: steps[0].after })
            } else {
                None
            },
            Next::Pending(next) => run(next, steps[0].after, steps.drop_first()),
        }
    }
}

} // verus!
