//! Where the filesystem stands at each phase of a swap.
//!
//! A swap that started on some filesystem leaves it in one of a few shapes:
//! as it was, with the slot cleared, with the first operand in the slot,
//! with the second operand moved as well, or with the two traded. This
//! module names those shapes, says which of them goes with which phase and
//! with which outcome, and proves it of every run.

use vstd::prelude::*;
use crate::engine::{Next, Phase, State};
use crate::protocol::{Place, Rollback, Stage, SwapOutcome};
use crate::world::{follows, run, Ending, Step, World};

verus! {

/// The holding slot, where there is one, is neither operand.
pub open spec fn apart<E>(state: State<E>) -> bool {
    state.slot matches Some(slot) ==> state.a != slot && state.b != slot
}

/// `world` with the entries at `a` and `b` traded.
pub open spec fn traded(world: World, a: Seq<char>, b: Seq<char>) -> World {
    world.insert(a, world[b]).insert(b, world[a])
}

/// `world` with nothing at the slot.
pub open spec fn cleared<E>(state: State<E>, world: World) -> World {
    world.remove(state.slot.unwrap())
}

/// `world` after the first rename: nothing at `a`, its entry in the slot.
pub open spec fn evacuated<E>(state: State<E>, world: World) -> World {
    cleared(state, world).remove(state.a).insert(state.slot.unwrap(), world[state.a])
}

/// `world` after the second rename: the entry of `b` at `a`, nothing at
/// `b`, the entry of `a` in the slot.
pub open spec fn relocated<E>(state: State<E>, world: World) -> World {
    evacuated(state, world).remove(state.b).insert(state.a, world[state.b])
}

/// How the filesystem `now` relates to the filesystem `origin` on which the
/// swap started, by the phase that the engine is in.
pub open spec fn on_course<E>(state: State<E>, origin: World, now: World) -> bool {
    match state.phase {
        Phase::Exchanging => now == origin,
        Phase::Probing(Place::Slot) => now == origin,
        Phase::Removing(Place::Slot, _) => now == origin,
        Phase::Evacuating => now == cleared(state, origin),
        Phase::Probing(Place::A) | Phase::Relocating | Phase::Restoring(_) => {
            &&& origin.dom().contains(state.a)
            &&& now == evacuated(state, origin)
        },
        Phase::UndoingA(_) => {
            &&& origin.dom().contains(state.a)
            &&& origin.dom().contains(state.b)
            &&& state.a != state.b
            &&& now == evacuated(state, origin)
        },
        Phase::Probing(Place::B) | Phase::Filling | Phase::UndoingB(_) => {
            &&& origin.dom().contains(state.a)
            &&& origin.dom().contains(state.b)
            &&& state.a != state.b
            &&& now == relocated(state, origin)
        },
        Phase::Removing(Place::A, _) | Phase::Removing(Place::B, _) => false,
    }
}

/// What an ending says of the filesystem, by its outcome, for a swap of the
/// operands of `state` that started on `origin`.
pub open spec fn accounted<E>(state: State<E>, origin: World, ending: Ending<E>) -> bool {
    match ending.outcome {
        SwapOutcome::Success => {
            &&& origin.dom().contains(state.a)
            &&& origin.dom().contains(state.b)
            &&& {
                ||| ending.world == traded(origin, state.a, state.b)
                ||| state.slot is Some && ending.world == cleared(
                    state,
                    traded(origin, state.a, state.b),
                )
            }
        },
        SwapOutcome::Failure { stage, rollback, .. } => {
            &&& stage != Stage::AtomicExchange && stage != Stage::LocateSlot ==> state.slot is Some
            &&& rollback !is NotAttempted ==> stage == Stage::RelocateB || stage == Stage::FillB
            &&& match stage {
                Stage::AtomicExchange | Stage::LocateSlot => ending.world == origin,
                Stage::ClearSlot => cleared(state, ending.world) == cleared(state, origin),
                Stage::EvacuateA => ending.world == cleared(state, origin),
                Stage::ClearA => {
                    &&& origin.dom().contains(state.a)
                    &&& ending.world == evacuated(state, origin)
                },
                Stage::RelocateB => match rollback {
                    Rollback::Succeeded => ending.world == cleared(state, origin),
                    _ => {
                        &&& origin.dom().contains(state.a)
                        &&& ending.world == evacuated(state, origin)
                    },
                },
                Stage::ClearB => {
                    &&& origin.dom().contains(state.a)
                    &&& origin.dom().contains(state.b)
                    &&& ending.world == relocated(state, origin)
                },
                Stage::FillB => match rollback {
                    Rollback::Succeeded => ending.world == cleared(state, origin),
                    _ => {
                        &&& origin.dom().contains(state.a)
                        &&& origin.dom().contains(state.b)
                        &&& {
                            ||| ending.world == relocated(state, origin)
                            ||| ending.world == evacuated(state, origin)
                        }
                    },
                },
            }
        },
    }
}

/// Every run that is on course ends as [`accounted`] says.
pub proof fn lemma_run_is_accounted<E>(
    state: State<E>,
    origin: World,
    now: World,
    steps: Seq<Step<E>>,
)
    requires
        state.wf(),
        apart(state),
        on_course(state, origin, now),
        run(state, now, steps) is Some,
    ensures
        accounted(state, origin, run(state, now, steps).unwrap()),
        state.phase !is Exchanging && run(state, now, steps).unwrap().outcome is Success ==> run(
            state,
            now,
            steps,
        ).unwrap().world == cleared(state, traded(origin, state.a, state.b)),
    decreases steps.len(),
{
    let reply = steps[0].reply;
    let after = steps[0].after;
    assert(follows(now, state.pending(), reply, after));
    match state.next(reply) {
        Next::Finished(outcome) => {
            let ending = Ending { outcome, world: after };
            assert(run(state, now, steps) == Some(ending));
            if state.phase is Filling {
                assert(after =~= cleared(state, traded(origin, state.a, state.b)));
            }
            if reply is Done && (state.phase is Restoring || state.phase is UndoingA) {
                assert(after =~= cleared(state, origin));
            }
        },
        Next::Pending(next) => {
            assert(run(state, now, steps) == run(next, after, steps.drop_first()));
            assert(next.a == state.a && next.b == state.b && next.slot == state.slot);
            match state.phase {
                Phase::Probing(Place::Slot) => {
                    if reply is Failed {
                        assert(after =~= cleared(state, origin));
                    }
                },
                Phase::Evacuating => {
                    assert(after =~= evacuated(state, origin));
                },
                Phase::Relocating => {
                    if reply is Done {
                        assert(after =~= relocated(state, origin));
                    }
                },
                Phase::UndoingB(_) => {
                    assert(after =~= evacuated(state, origin));
                },
                _ => {},
            }
            assert(on_course(next, origin, after));
            lemma_run_is_accounted(next, origin, after, steps.drop_first());
            let ending = run(next, after, steps.drop_first()).unwrap();
            assert(accounted(next, origin, ending));
            assert(cleared(next, origin) == cleared(state, origin));
            assert(evacuated(next, origin) == evacuated(state, origin));
            assert(relocated(next, origin) == relocated(state, origin));
        },
    }
}

/// How a staged swap stands whose slot is one of its operands: clearing
/// the slot has destroyed that operand, and a rename will find its source
/// gone.
pub open spec fn doomed<E>(state: State<E>, now: World) -> bool {
    let slot = state.slot.unwrap();
    match state.phase {
        Phase::Exchanging => false,
        Phase::Probing(Place::Slot) | Phase::Removing(Place::Slot, _) => !apart(state),
        Phase::Evacuating => !apart(state) && !now.dom().contains(slot),
        Phase::Probing(Place::A) | Phase::Removing(Place::A, _) | Phase::Relocating => {
            state.a != slot && state.b == slot
        },
        Phase::Probing(Place::B) | Phase::Filling => state.b == slot && !now.dom().contains(slot),
        Phase::Removing(Place::B, _) => false,
        Phase::Restoring(_) | Phase::UndoingB(_) | Phase::UndoingA(_) => true,
    }
}

/// A doomed swap fails.
pub proof fn lemma_doomed_swap_fails<E>(state: State<E>, now: World, steps: Seq<Step<E>>)
    requires
        state.wf(),
        doomed(state, now),
        run(state, now, steps) is Some,
    ensures
        run(state, now, steps).unwrap().outcome is Failure,
    decreases steps.len(),
{
    match state.next(steps[0].reply) {
        Next::Finished(_) => {},
        Next::Pending(next) => {
            lemma_doomed_swap_fails(next, steps[0].after, steps.drop_first());
        },
    }
}

} // verus!
