//! What holds of every run of a swap on the model filesystem.

use vstd::prelude::*;
use crate::course::{
    apart, cleared, evacuated, lemma_doomed_swap_fails, lemma_run_is_accounted, relocated, traded,
};
use crate::engine::{budget, lemma_answer_uses_budget, no_parent, Next, Phase, State};
use crate::protocol::{Place, Reply, Rollback, Stage, SwapOutcome};
use crate::world::{follows, run, Ending, Node, Step, World};

verus! {

/// The state is one in which a swap starts: waiting on the exchange, or on
/// the probe of a holding slot.
pub open spec fn fresh<E>(state: State<E>) -> bool {
    ||| state.phase is Exchanging
    ||| state.phase == Phase::<E>::Probing(Place::Slot) && state.slot is Some
}

/// A swap succeeds by renames only where the slot is neither operand:
/// where it is one of them, the swap succeeds only by the exchange.
pub proof fn lemma_success_needs_room<E>(state: State<E>, origin: World, steps: Seq<Step<E>>)
    requires
        fresh(state),
        run(state, origin, steps) matches Some(ending) && ending.outcome is Success,
    ensures
        apart(state) || (state.phase is Exchanging && steps[0].reply == Reply::<E>::Exchanged(
            true,
        )),
{
    if !apart(state) {
        match state.next(steps[0].reply) {
            Next::Finished(_) => {},
            Next::Pending(next) => {
                if state.phase is Exchanging {
                    lemma_doomed_swap_fails(next, steps[0].after, steps.drop_first());
                } else {
                    lemma_doomed_swap_fails(state, origin, steps);
                }
            },
        }
    }
}

/// Symmetry. After a swap that succeeded, each operand holds what the
/// other held before, and every path but the operands and the holding slot
/// is as it was.
pub proof fn lemma_success_trades_content<E>(state: State<E>, origin: World, steps: Seq<Step<E>>)
    requires
        fresh(state),
        run(state, origin, steps) matches Some(ending) && ending.outcome is Success,
    ensures
        origin.dom().contains(state.a),
        origin.dom().contains(state.b),
        ({
            let end = run(state, origin, steps).unwrap().world;
            &&& end.dom().contains(state.a) && end[state.a] == origin[state.b]
            &&& end.dom().contains(state.b) && end[state.b] == origin[state.a]
            &&& forall|path: Seq<char>|
                path != state.a && path != state.b && state.slot != Some(path) ==> {
                    &&& #[trigger] end.dom().contains(path) == origin.dom().contains(path)
                    &&& end[path] == origin[path]
                }
        }),
{
    lemma_success_needs_room(state, origin, steps);
    if apart(state) {
        lemma_run_is_accounted(state, origin, origin, steps);
    }
}

/// Round trip. Two swaps of the same pair that both succeeded, one after
/// the other, leave each operand with what it held at first.
pub proof fn lemma_round_trip<E>(
    first: State<E>,
    second: State<E>,
    origin: World,
    there: Seq<Step<E>>,
    back: Seq<Step<E>>,
)
    requires
        fresh(first),
        fresh(second),
        first.a == second.a,
        first.b == second.b,
        run(first, origin, there) matches Some(ending) && ending.outcome is Success,
        run(second, run(first, origin, there).unwrap().world, back) matches Some(ending)
            && ending.outcome is Success,
    ensures
        origin.dom().contains(first.a),
        origin.dom().contains(first.b),
        ({
            let midway = run(first, origin, there).unwrap().world;
            let end = run(second, midway, back).unwrap().world;
            &&& end.dom().contains(first.a) && end[first.a] == origin[first.a]
            &&& end.dom().contains(first.b) && end[first.b] == origin[first.b]
            &&& forall|path: Seq<char>|
                first.slot != Some(path) && second.slot != Some(path) ==> {
                    &&& #[trigger] end.dom().contains(path) == origin.dom().contains(path)
                    &&& end[path] == origin[path]
                }
        }),
{
    let midway = run(first, origin, there).unwrap().world;
    lemma_success_trades_content(first, origin, there);
    lemma_success_trades_content(second, midway, back);
}

/// Without a parent directory nothing is touched. Where neither operand
/// has a parent, a swap asks for the exchange and for nothing else; where
/// the system has no exchange for the pair, the swap fails for want of a
/// parent directory; and unless the system made the exchange, the
/// filesystem is as it was.
pub proof fn lemma_no_parent_touches_nothing<E>(state: State<E>, origin: World, steps: Seq<Step<E>>)
    requires
        state.phase is Exchanging,
        state.slot is None,
        run(state, origin, steps) is Some,
    ensures
        steps.len() == 1,
        steps[0].reply == Reply::<E>::Exchanged(false) ==> run(state, origin, steps) == Some(
            Ending { outcome: no_parent::<E>(), world: origin },
        ),
        steps[0].reply != Reply::<E>::Exchanged(true) ==> run(state, origin, steps).unwrap().world
            == origin,
{
}

/// A stale slot is cleared. After a staged swap that succeeded, nothing
/// lies at the holding slot, whatever lay there before.
pub proof fn lemma_stale_slot_is_gone<E>(state: State<E>, origin: World, steps: Seq<Step<E>>)
    requires
        state.phase == Phase::<E>::Probing(Place::Slot),
        state.slot is Some,
        run(state, origin, steps) matches Some(ending) && ending.outcome is Success,
    ensures
        !run(state, origin, steps).unwrap().world.dom().contains(state.slot.unwrap()),
        run(state, origin, steps).unwrap().world == cleared(
            state,
            traded(origin, state.a, state.b),
        ),
{
    lemma_success_needs_room(state, origin, steps);
    lemma_run_is_accounted(state, origin, origin, steps);
}

/// The swap failed at `stage`.
pub open spec fn failed_at<E>(outcome: SwapOutcome<E>, stage: Stage) -> bool {
    outcome matches SwapOutcome::Failure { stage: at, .. } && at == stage
}

/// The swap failed, and the renames made until then were taken back.
pub open spec fn rolled_back<E>(outcome: SwapOutcome<E>) -> bool {
    outcome matches SwapOutcome::Failure { rollback: Rollback::Succeeded, .. }
}

/// A failed evacuation is clean. Where the first rename fails, the swap
/// ends there, both operands are as they were, and nothing lies at the
/// holding slot.
pub proof fn lemma_failed_evacuation_is_clean<E>(
    state: State<E>,
    origin: World,
    steps: Seq<Step<E>>,
)
    requires
        fresh(state),
        apart(state),
        run(state, origin, steps) matches Some(ending) && failed_at(
            ending.outcome,
            Stage::EvacuateA,
        ),
    ensures
        state.slot is Some,
        ({
            let end = run(state, origin, steps).unwrap().world;
            &&& end == origin.remove(state.slot.unwrap())
            &&& !end.dom().contains(state.slot.unwrap())
            &&& end.dom().contains(state.a) == origin.dom().contains(state.a)
            &&& end[state.a] == origin[state.a]
            &&& end.dom().contains(state.b) == origin.dom().contains(state.b)
            &&& end[state.b] == origin[state.b]
        }),
{
    lemma_run_is_accounted(state, origin, origin, steps);
}

/// A rollback that went through restores the operands. Where a later
/// rename failed and the renames before it were taken back, every path but
/// the holding slot is as it was, and nothing lies at the slot.
pub proof fn lemma_rollback_restores<E>(state: State<E>, origin: World, steps: Seq<Step<E>>)
    requires
        fresh(state),
        apart(state),
        run(state, origin, steps) matches Some(ending) && rolled_back(ending.outcome),
    ensures
        state.slot is Some,
        run(state, origin, steps).unwrap().world == origin.remove(state.slot.unwrap()),
{
    lemma_run_is_accounted(state, origin, origin, steps);
}

/// Runs are short. A run asks for no more actions than the budget of the
/// state it starts in: twelve for a swap that begins with the exchange,
/// eleven for a staged one.
pub proof fn lemma_runs_are_short<E>(state: State<E>, world: World, steps: Seq<Step<E>>)
    requires
        run(state, world, steps) is Some,
    ensures
        1 <= steps.len() <= budget(state.phase),
    decreases steps.len(),
{
    lemma_answer_uses_budget(state, steps[0].reply);
    match state.next(steps[0].reply) {
        Next::Pending(next) => lemma_runs_are_short(next, steps[0].after, steps.drop_first()),
        Next::Finished(_) => {},
    }
}

/// The entry `node` lies at one of the three places of `state` in `world`.
pub open spec fn kept<E>(state: State<E>, world: World, node: Node) -> bool {
    ||| world.dom().contains(state.a) && world[state.a] == node
    ||| world.dom().contains(state.b) && world[state.b] == node
    ||| state.slot matches Some(slot) && world.dom().contains(slot) && world[slot] == node
}

/// No content is lost. However a swap ends, what each operand held at
/// first still lies at one of the three places: at either operand or in
/// the holding slot.
pub proof fn lemma_content_survives<E>(state: State<E>, origin: World, steps: Seq<Step<E>>)
    requires
        fresh(state),
        apart(state),
        run(state, origin, steps) is Some,
    ensures
        origin.dom().contains(state.a) ==> kept(
            state,
            run(state, origin, steps).unwrap().world,
            origin[state.a],
        ),
        origin.dom().contains(state.b) ==> kept(
            state,
            run(state, origin, steps).unwrap().world,
            origin[state.b],
        ),
{
    lemma_run_is_accounted(state, origin, origin, steps);
    let ending = run(state, origin, steps).unwrap();
    if ending.outcome matches SwapOutcome::Failure { stage: Stage::ClearSlot, .. } {
        let slot = state.slot.unwrap();
        let was = origin.remove(slot);
        let now = ending.world.remove(slot);
        assert(now.dom().contains(state.a) == was.dom().contains(state.a));
        assert(now[state.a] == was[state.a]);
        assert(now.dom().contains(state.b) == was.dom().contains(state.b));
        assert(now[state.b] == was[state.b]);
    }
}

proof fn lemma_run_last<E>(state: State<E>, world: World, step: Step<E>)
    requires
        follows(world, state.pending(), step.reply, step.after),
        state.next(step.reply) is Finished,
    ensures
        run(state, world, seq![step]) == Some(
            Ending { outcome: state.next(step.reply)->Finished_0, world: step.after },
        ),
{
}

proof fn lemma_run_prepend<E>(state: State<E>, world: World, step: Step<E>, rest: Seq<Step<E>>)
    requires
        follows(world, state.pending(), step.reply, step.after),
        state.next(step.reply) is Pending,
    ensures
        run(state, world, seq![step] + rest) == run(
            state.next(step.reply)->Pending_0,
            step.after,
            rest,
        ),
{
    let steps = seq![step] + rest;
    assert(steps[0] == step);
    assert(steps.drop_first() =~= rest);
}

/// The exchange can succeed. Where both operands exist, a swap that
/// begins with the exchange has a run that succeeds: the one step in which
/// the system trades the two entries.
pub proof fn lemma_exchange_can_succeed<E>(state: State<E>, origin: World) -> (steps: Seq<Step<E>>)
    requires
        state.phase is Exchanging,
        origin.dom().contains(state.a),
        origin.dom().contains(state.b),
    ensures
        run(state, origin, steps) == Some(
            Ending { outcome: SwapOutcome::<E>::Success, world: traded(origin, state.a, state.b) },
        ),
{
    let step = Step { reply: Reply::<E>::Exchanged(true), after: traded(origin, state.a, state.b) };
    lemma_run_last(state, origin, step);
    seq![step]
}

/// A stale slot does not stand in the way. Where both operands exist and
/// are two paths, a staged swap has a run that succeeds, whatever lies at
/// the holding slot: the run in which every action goes through. `absent`
/// is the error with which a probe reports that nothing lies at a path.
pub proof fn lemma_staged_swap_can_succeed<E>(state: State<E>, origin: World, absent: E) -> (steps:
    Seq<Step<E>>)
    requires
        state.phase == Phase::<E>::Probing(Place::Slot),
        state.slot is Some,
        apart(state),
        state.a != state.b,
        origin.dom().contains(state.a),
        origin.dom().contains(state.b),
    ensures
        run(state, origin, steps) matches Some(ending) && ending.outcome is Success,
{
    let slot = state.slot.unwrap();
    let missing = Reply::Failed { not_found: true, cause: absent };
    let empty = cleared(state, origin);
    let held = evacuated(state, origin);
    let moved = relocated(state, origin);
    let end = moved.remove(slot).insert(state.b, moved[slot]);

    let fill = Step { reply: Reply::<E>::Done, after: end };
    let at_fill = State { phase: Phase::Filling, ..state };
    lemma_run_last(at_fill, moved, fill);
    let tail = seq![fill];

    let probe_b = Step { reply: missing, after: moved };
    let at_probe_b = State { phase: Phase::Probing(Place::B), ..state };
    lemma_run_prepend(at_probe_b, moved, probe_b, tail);
    let tail = seq![probe_b] + tail;

    let relocate = Step { reply: Reply::<E>::Done, after: moved };
    let at_relocate = State { phase: Phase::Relocating, ..state };
    lemma_run_prepend(at_relocate, held, relocate, tail);
    let tail = seq![relocate] + tail;

    let probe_a = Step { reply: missing, after: held };
    let at_probe_a = State { phase: Phase::Probing(Place::A), ..state };
    lemma_run_prepend(at_probe_a, held, probe_a, tail);
    let tail = seq![probe_a] + tail;

    let evacuate = Step { reply: Reply::<E>::Done, after: held };
    let at_evacuate = State { phase: Phase::Evacuating, ..state };
    lemma_run_prepend(at_evacuate, empty, evacuate, tail);
    let tail = seq![evacuate] + tail;

    if origin.dom().contains(slot) {
        let kind = origin[slot].kind();
        let remove = Step { reply: Reply::<E>::Done, after: empty };
        let at_remove = State { phase: Phase::Removing(Place::Slot, kind), ..state };
        lemma_run_prepend(at_remove, origin, remove, tail);
        let tail = seq![remove] + tail;

        let probe = Step { reply: Reply::<E>::Found(kind), after: origin };
        lemma_run_prepend(state, origin, probe, tail);
        seq![probe] + tail
    } else {
        assert(empty =~= origin);
        let probe = Step { reply: missing, after: origin };
        lemma_run_prepend(state, origin, probe, tail);
        seq![probe] + tail
    }
}

} // verus!
