//! The staged swap as a state machine.
//!
//! A swap of `a` and `b` through the holding slot is three renames, `a` to
//! the slot, `b` to `a`, the slot to `b`, each of which may fail. The engine
//! decides what to do next from what the driver reports: which entry to clear
//! before a rename, when to give up, and which renames to take back so that
//! the operands are left as they were found.
//!
//! The engine cannot be cancelled halfway to any good: a driver that stops
//! before the engine has finished leaves the filesystem between two renames.

use vstd::prelude::*;
use crate::protocol::{
    Action, EntryKind, Operation, Place, Reply, Rollback, Stage, SwapError, SwapOutcome,
};

verus! {

/// The action that the engine is waiting on.
#[derive(Debug, PartialEq, Eq)]
pub enum Phase<E> {
    /// The indivisible exchange of `a` and `b`.
    Exchanging,
    /// A probe of the place, before it is cleared.
    Probing(Place),
    /// The removal of an entry of this kind from the place.
    Removing(Place, EntryKind),
    /// The rename of `a` to the slot.
    Evacuating,
    /// The rename of `b` to `a`.
    Relocating,
    /// The rename of the slot to `b`.
    Filling,
    /// The rename of the slot back to `a`, after `Relocating` failed with
    /// the error held here.
    Restoring(E),
    /// The rename of `a` back to `b`, after `Filling` failed with the error
    /// held here.
    UndoingB(E),
    /// The rename of the slot back to `a`, after `UndoingB` went through.
    UndoingA(E),
}

/// The stage that clearing a place belongs to.
pub open spec fn clearing_stage(place: Place) -> Stage {
    match place {
        Place::Slot => Stage::ClearSlot,
        Place::A => Stage::ClearA,
        Place::B => Stage::ClearB,
    }
}

/// The rename that follows once a place is clear.
pub open spec fn rename_into<E>(place: Place) -> Phase<E> {
    match place {
        Place::Slot => Phase::Evacuating,
        Place::A => Phase::Relocating,
        Place::B => Phase::Filling,
    }
}

/// The failure of a swap at `stage`, reported with the driver's error
/// `cause`.
pub open spec fn failure<E>(stage: Stage, rollback: Rollback, cause: E) -> SwapOutcome<E> {
    SwapOutcome::Failure { stage, rollback, error: SwapError::Io(cause) }
}

/// The failure of a swap for want of a directory to hold the slot.
pub open spec fn no_parent<E>() -> SwapOutcome<E> {
    SwapOutcome::Failure {
        stage: Stage::LocateSlot,
        rollback: Rollback::NotAttempted,
        error: SwapError::NoParentDirectory,
    }
}

/// What a reply leads to: the next phase, or the end of the swap.
#[derive(Debug, PartialEq, Eq)]
pub enum Turn<E> {
    Continue(Phase<E>),
    Finish(SwapOutcome<E>),
}

/// The transition table of the engine: where `reply` leads from `phase`.
/// `has_slot` tells whether a holding slot was found for the pair.
///
/// - A handled exchange is success; an unsupported one leads to the staged
///   swap, or fails where there is no slot; a failed one is final.
/// - A probe that finds an entry leads to its removal; one that finds none
///   leads on to the rename; any other failure of a probe is final, and so
///   is every failure of a removal.
/// - A failed first rename is final. A failed second rename is taken back
///   by one rename, a failed third by two. Where taking back goes through,
///   the swap fails with the error of the rename that failed first; where
///   it fails, with the error of the rename that failed last.
/// - A reply that does not answer the action of `phase` leaves the phase
///   as it is.
pub open spec fn turn<E>(phase: Phase<E>, has_slot: bool, reply: Reply<E>) -> Turn<E> {
    match phase {
        Phase::Exchanging => match reply {
            Reply::Exchanged(true) => Turn::Finish(SwapOutcome::Success),
            Reply::Exchanged(false) => if has_slot {
                Turn::Continue(Phase::Probing(Place::Slot))
            } else {
                Turn::Finish(no_parent())
            },
            Reply::Failed { cause, .. } => Turn::Finish(
                failure(Stage::AtomicExchange, Rollback::NotAttempted, cause),
            ),
            _ => Turn::Continue(phase),
        },
        Phase::Probing(place) => match reply {
            Reply::Found(kind) => Turn::Continue(Phase::Removing(place, kind)),
            Reply::Failed { not_found: true, .. } => Turn::Continue(rename_into(place)),
            Reply::Failed { not_found: false, cause } => Turn::Finish(
                failure(clearing_stage(place), Rollback::NotAttempted, cause),
            ),
            _ => Turn::Continue(phase),
        },
        Phase::Removing(place, _) => match reply {
            Reply::Done => Turn::Continue(rename_into(place)),
            Reply::Failed { cause, .. } => Turn::Finish(
                failure(clearing_stage(place), Rollback::NotAttempted, cause),
            ),
            _ => Turn::Continue(phase),
        },
        Phase::Evacuating => match reply {
            Reply::Done => Turn::Continue(Phase::Probing(Place::A)),
            Reply::Failed { cause, .. } => Turn::Finish(
                failure(Stage::EvacuateA, Rollback::NotAttempted, cause),
            ),
            _ => Turn::Continue(phase),
        },
        Phase::Relocating => match reply {
            Reply::Done => Turn::Continue(Phase::Probing(Place::B)),
            Reply::Failed { cause, .. } => Turn::Continue(Phase::Restoring(cause)),
            _ => Turn::Continue(phase),
        },
        Phase::Restoring(primary) => match reply {
            Reply::Done => Turn::Finish(failure(Stage::RelocateB, Rollback::Succeeded, primary)),
            Reply::Failed { cause, .. } => Turn::Finish(
                failure(Stage::RelocateB, Rollback::Failed, cause),
            ),
            _ => Turn::Continue(phase),
        },
        Phase::Filling => match reply {
            Reply::Done => Turn::Finish(SwapOutcome::Success),
            Reply::Failed { cause, .. } => Turn::Continue(Phase::UndoingB(cause)),
            _ => Turn::Continue(phase),
        },
        Phase::UndoingB(primary) => match reply {
            Reply::Done => Turn::Continue(Phase::UndoingA(primary)),
            Reply::Failed { cause, .. } => Turn::Finish(
                failure(Stage::FillB, Rollback::Failed, cause),
            ),
            _ => Turn::Continue(phase),
        },
        Phase::UndoingA(primary) => match reply {
            Reply::Done => Turn::Finish(failure(Stage::FillB, Rollback::Succeeded, primary)),
            Reply::Failed { cause, .. } => Turn::Finish(
                failure(Stage::FillB, Rollback::Failed, cause),
            ),
            _ => Turn::Continue(phase),
        },
    }
}

/// The engine as a mathematical value.
pub struct State<E> {
    pub a: Seq<char>,
    pub b: Seq<char>,
    pub slot: Option<Seq<char>>,
    pub phase: Phase<E>,
}

/// What comes after a reply: the engine in its next state, or the outcome.
pub enum Next<E> {
    Pending(State<E>),
    Finished(SwapOutcome<E>),
}

impl<E> State<E> {
    /// Every phase but the exchange works on a holding slot.
    pub open spec fn wf(self) -> bool {
        self.phase !is Exchanging ==> self.slot is Some
    }

    /// The path of a place.
    pub open spec fn path(self, place: Place) -> Seq<char> {
        match place {
            Place::A => self.a,
            Place::B => self.b,
            Place::Slot => self.slot.unwrap(),
        }
    }

    /// The operation that the engine is waiting on.
    pub open spec fn pending(self) -> Operation {
        match self.phase {
            Phase::Exchanging => Operation::Exchange { a: self.a, b: self.b },
            Phase::Probing(place) => Operation::Probe { path: self.path(place) },
            Phase::Removing(place, EntryKind::File) => Operation::RemoveFile {
                path: self.path(place),
            },
            Phase::Removing(place, EntryKind::Directory) => Operation::RemoveTree {
                path: self.path(place),
            },
            Phase::Evacuating => Operation::Rename {
                from: self.path(Place::A),
                to: self.path(Place::Slot),
            },
            Phase::Relocating => Operation::Rename {
                from: self.path(Place::B),
                to: self.path(Place::A),
            },
            Phase::Filling => Operation::Rename {
                from: self.path(Place::Slot),
                to: self.path(Place::B),
            },
            Phase::Restoring(_) => Operation::Rename {
                from: self.path(Place::Slot),
                to: self.path(Place::A),
            },
            Phase::UndoingB(_) => Operation::Rename {
                from: self.path(Place::A),
                to: self.path(Place::B),
            },
            Phase::UndoingA(_) => Operation::Rename {
                from: self.path(Place::Slot),
                to: self.path(Place::A),
            },
        }
    }

    /// The state after `reply`, or the outcome that `reply` ends the swap
    /// with.
    pub open spec fn next(self, reply: Reply<E>) -> Next<E> {
        match turn(self.phase, self.slot is Some, reply) {
            Turn::Continue(phase) => Next::Pending(State { phase, ..self }),
            Turn::Finish(outcome) => Next::Finished(outcome),
        }
    }
}

/// The most actions that the engine may still ask for from `phase`, the
/// pending one among them.
pub open spec fn budget<E>(phase: Phase<E>) -> nat {
    match phase {
        Phase::Exchanging => 12,
        Phase::Probing(Place::Slot) => 11,
        Phase::Removing(Place::Slot, _) => 10,
        Phase::Evacuating => 9,
        Phase::Probing(Place::A) => 8,
        Phase::Removing(Place::A, _) => 7,
        Phase::Relocating => 6,
        Phase::Probing(Place::B) => 5,
        Phase::Removing(Place::B, _) => 4,
        Phase::Filling => 3,
        Phase::UndoingB(_) => 2,
        Phase::Restoring(_) | Phase::UndoingA(_) => 1,
    }
}

/// Every answer brings the end nearer: it ends the swap, or leaves the
/// engine with a smaller budget of actions.
pub proof fn lemma_answer_uses_budget<E>(state: State<E>, reply: Reply<E>)
    requires
        state.pending().answered_by(reply),
    ensures
        state.next(reply) matches Next::Pending(next) ==> budget(next.phase) < budget(state.phase),
{
}

/// A reply that does not answer the pending action changes nothing.
pub proof fn lemma_stray_reply_is_ignored<E>(state: State<E>, reply: Reply<E>)
    requires
        !state.pending().answered_by(reply),
    ensures
        state.next(reply) == Next::Pending(state),
{
}

/// The operands and the slot of a swap never change, and a state that
/// works on a slot has one.
pub proof fn lemma_paths_are_fixed<E>(state: State<E>, reply: Reply<E>)
    ensures
        state.next(reply) matches Next::Pending(next) ==> {
            &&& next.a == state.a
            &&& next.b == state.b
            &&& next.slot == state.slot
            &&& state.wf() ==> next.wf()
        },
{
}

/// Decides where `reply` leads from `phase`.
pub fn decide<E>(phase: Phase<E>, has_slot: bool, reply: Reply<E>) -> (r: Turn<E>)
    ensures
        r == turn(phase, has_slot, reply),
{
    match phase {
        Phase::Exchanging => match reply {
            Reply::Exchanged(true) => Turn::Finish(SwapOutcome::Success),
            Reply::Exchanged(false) => if has_slot {
                Turn::Continue(Phase::Probing(Place::Slot))
            } else {
                Turn::Finish(
                    SwapOutcome::Failure {
                        stage: Stage::LocateSlot,
                        rollback: Rollback::NotAttempted,
                        error: SwapError::NoParentDirectory,
                    },
                )
            },
            Reply::Failed { not_found: _, cause } => give_up(Stage::AtomicExchange, cause),
            _ => Turn::Continue(Phase::Exchanging),
        },
        Phase::Probing(place) => match reply {
            Reply::Found(kind) => Turn::Continue(Phase::Removing(place, kind)),
            Reply::Failed { not_found, cause } => if not_found {
                Turn::Continue(rename_after(place))
            } else {
                give_up(stage_of(place), cause)
            },
            _ => Turn::Continue(Phase::Probing(place)),
        },
        Phase::Removing(place, kind) => match reply {
            Reply::Done => Turn::Continue(rename_after(place)),
            Reply::Failed { not_found: _, cause } => give_up(stage_of(place), cause),
            _ => Turn::Continue(Phase::Removing(place, kind)),
        },
        Phase::Evacuating => match reply {
            Reply::Done => Turn::Continue(Phase::Probing(Place::A)),
            Reply::Failed { not_found: _, cause } => give_up(Stage::EvacuateA, cause),
            _ => Turn::Continue(Phase::Evacuating),
        },
        Phase::Relocating => match reply {
            Reply::Done => Turn::Continue(Phase::Probing(Place::B)),
            Reply::Failed { not_found: _, cause } => Turn::Continue(Phase::Restoring(cause)),
            _ => Turn::Continue(Phase::Relocating),
        },
        Phase::Restoring(primary) => match reply {
            Reply::Done => end_rollback(Stage::RelocateB, Rollback::Succeeded, primary),
            Reply::Failed { not_found: _, cause } => end_rollback(
                Stage::RelocateB,
                Rollback::Failed,
                cause,
            ),
            _ => Turn::Continue(Phase::Restoring(primary)),
        },
        Phase::Filling => match reply {
            Reply::Done => Turn::Finish(SwapOutcome::Success),
            Reply::Failed { not_found: _, cause } => Turn::Continue(Phase::UndoingB(cause)),
            _ => Turn::Continue(Phase::Filling),
        },
        Phase::UndoingB(primary) => match reply {
            Reply::Done => Turn::Continue(Phase::UndoingA(primary)),
            Reply::Failed { not_found: _, cause } => end_rollback(
                Stage::FillB,
                Rollback::Failed,
                cause,
            ),
            _ => Turn::Continue(Phase::UndoingB(primary)),
        },
        Phase::UndoingA(primary) => match reply {
            Reply::Done => end_rollback(Stage::FillB, Rollback::Succeeded, primary),
            Reply::Failed { not_found: _, cause } => end_rollback(
                Stage::FillB,
                Rollback::Failed,
                cause,
            ),
            _ => Turn::Continue(Phase::UndoingA(primary)),
        },
    }
}

fn give_up<E>(stage: Stage, cause: E) -> (r: Turn<E>)
    ensures
        r == Turn::Finish(failure(stage, Rollback::NotAttempted, cause)),
{
    Turn::Finish(
        SwapOutcome::Failure {
            stage,
            rollback: Rollback::NotAttempted,
            error: SwapError::Io(cause),
        },
    )
}

fn end_rollback<E>(stage: Stage, rollback: Rollback, cause: E) -> (r: Turn<E>)
    ensures
        r == Turn::Finish(failure(stage, rollback, cause)),
{
    Turn::Finish(SwapOutcome::Failure { stage, rollback, error: SwapError::Io(cause) })
}

fn stage_of(place: Place) -> (r: Stage)
    ensures
        r == clearing_stage(place),
{
    match place {
        Place::Slot => Stage::ClearSlot,
        Place::A => Stage::ClearA,
        Place::B => Stage::ClearB,
    }
}

fn rename_after<E>(place: Place) -> (r: Phase<E>)
    ensures
        r == rename_into::<E>(place),
{
    match place {
        Place::Slot => Phase::Evacuating,
        Place::A => Phase::Relocating,
        Place::B => Phase::Filling,
    }
}

/// A swap in progress: the two operands, the holding slot, and the action
/// that the driver is to perform next.
#[derive(Debug)]
pub struct Engine<E> {
    a: String,
    b: String,
    slot: Option<String>,
    phase: Phase<E>,
}

/// What [`Engine::advance`] hands back: the engine, waiting on its next
/// action, or the outcome of the swap.
#[derive(Debug)]
pub enum Progress<E> {
    Pending(Engine<E>),
    Finished(SwapOutcome<E>),
}

impl<E> View for Engine<E> {
    type V = State<E>;

    closed spec fn view(&self) -> State<E> {
        State {
            a: self.a@,
            b: self.b@,
            slot: match self.slot {
                Some(slot) => Some(slot@),
                None => None,
            },
            phase: self.phase,
        }
    }
}

impl<E> View for Progress<E> {
    type V = Next<E>;

    open spec fn view(&self) -> Next<E> {
        match *self {
            Progress::Pending(engine) => Next::Pending(engine@),
            Progress::Finished(outcome) => Next::Finished(outcome),
        }
    }
}

impl<E> Engine<E> {
    #[verifier::type_invariant]
    spec fn inv(self) -> bool {
        self@.wf()
    }

    /// An engine that first asks for the indivisible exchange of `a` and
    /// `b`, and stages the swap through `slot` where the operating system
    /// has no such exchange for the pair.
    pub(crate) fn exchanging(a: String, b: String, slot: Option<String>) -> (r: Self)
        ensures
            r@ == (State {
                a: a@,
                b: b@,
                slot: match slot {
                    Some(slot) => Some(slot@),
                    None => None,
                },
                phase: Phase::<E>::Exchanging,
            }),
    {
        Engine { a, b, slot, phase: Phase::Exchanging }
    }

    /// An engine that stages the swap of `a` and `b` through `slot` at once.
    pub(crate) fn staging(a: String, b: String, slot: String) -> (r: Self)
        ensures
            r@ == (State {
                a: a@,
                b: b@,
                slot: Some(slot@),
                phase: Phase::<E>::Probing(Place::Slot),
            }),
    {
        Engine { a, b, slot: Some(slot), phase: Phase::Probing(Place::Slot) }
    }

    /// The path of the holding slot, where the pair has one.
    pub fn slot(&self) -> (r: Option<&str>)
        ensures
            match r {
                Some(slot) => self@.slot == Some(slot@),
                None => self@.slot is None,
            },
    {
        match &self.slot {
            Some(slot) => Some(slot.as_str()),
            None => None,
        }
    }

    /// Whether the engine is taking renames back after a failure.
    pub fn recovering(&self) -> (r: bool)
        ensures
            r == (self@.phase is Restoring || self@.phase is UndoingB || self@.phase is UndoingA),
    {
        match &self.phase {
            Phase::Restoring(_) => true,
            Phase::UndoingB(_) => true,
            Phase::UndoingA(_) => true,
            _ => false,
        }
    }

    fn path(&self, place: Place) -> (r: String)
        requires
            place == Place::Slot ==> self@.slot is Some,
        ensures
            r@ == self@.path(place),
    {
        match place {
            Place::A => self.a.clone(),
            Place::B => self.b.clone(),
            Place::Slot => match &self.slot {
                Some(slot) => slot.clone(),
                None => String::new(),
            },
        }
    }

    /// The action that the driver is to perform now.
    pub fn action(&self) -> (r: Action)
        ensures
            r@ == self@.pending(),
    {
        proof {
            use_type_invariant(self);
        }
        match &self.phase {
            Phase::Exchanging => Action::Exchange { a: self.a.clone(), b: self.b.clone() },
            Phase::Probing(place) => Action::Probe { path: self.path(*place) },
            Phase::Removing(place, EntryKind::File) => Action::RemoveFile {
                path: self.path(*place),
            },
            Phase::Removing(place, EntryKind::Directory) => Action::RemoveTree {
                path: self.path(*place),
            },
            Phase::Evacuating => Action::Rename {
                from: self.path(Place::A),
                to: self.path(Place::Slot),
            },
            Phase::Relocating => Action::Rename {
                from: self.path(Place::B),
                to: self.path(Place::A),
            },
            Phase::Filling => Action::Rename {
                from: self.path(Place::Slot),
                to: self.path(Place::B),
            },
            Phase::Restoring(_) => Action::Rename {
                from: self.path(Place::Slot),
                to: self.path(Place::A),
            },
            Phase::UndoingB(_) => Action::Rename {
                from: self.path(Place::A),
                to: self.path(Place::B),
            },
            Phase::UndoingA(_) => Action::Rename {
                from: self.path(Place::Slot),
                to: self.path(Place::A),
            },
        }
    }

    /// Takes the driver's report on the pending action and moves on. A
    /// reply that does not answer the pending action changes nothing.
    pub fn advance(self, reply: Reply<E>) -> (r: Progress<E>)
        ensures
            r@ == self@.next(reply),
    {
        proof {
            use_type_invariant(&self);
        }
        let Engine { a, b, slot, phase } = self;
        match decide(phase, slot.is_some(), reply) {
            Turn::Continue(phase) => Progress::Pending(Engine { a, b, slot, phase }),
            Turn::Finish(outcome) => Progress::Finished(outcome),
        }
    }
}

} // verus!
