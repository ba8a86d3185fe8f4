//! The engine's transition table, entry by entry.

use fs_swap::engine::{decide, Engine, Phase, Progress, Turn};
use fs_swap::protocol::{Action, EntryKind, Place, Reply, Rollback, Stage, SwapError, SwapOutcome};
use fs_swap::{swap, swap_nonatomic};

fn failed(code: i32) -> Reply<i32> {
    Reply::Failed { not_found: false, cause: code }
}

fn missing() -> Reply<i32> {
    Reply::Failed { not_found: true, cause: 2 }
}

fn failure(stage: Stage, rollback: Rollback, code: i32) -> SwapOutcome<i32> {
    SwapOutcome::Failure { stage, rollback, error: SwapError::Io(code) }
}

/// Where `reply` leads from `phase`, for a pair that has a slot.
fn after(phase: Phase<i32>, reply: Reply<i32>) -> Turn<i32> {
    decide(phase, true, reply)
}

fn goes_on(phase: Phase<i32>) -> Turn<i32> {
    Turn::Continue(phase)
}

fn ends(outcome: SwapOutcome<i32>) -> Turn<i32> {
    Turn::Finish(outcome)
}

fn step(engine: Engine<i32>, reply: Reply<i32>) -> Engine<i32> {
    match engine.advance(reply) {
        Progress::Pending(engine) => engine,
        Progress::Finished(outcome) => panic!("ended early: {:?}", outcome),
    }
}

fn probe(path: &str) -> Action {
    Action::Probe { path: path.to_string() }
}

fn rename(from: &str, to: &str) -> Action {
    Action::Rename { from: from.to_string(), to: to.to_string() }
}

#[test]
fn handled_exchange_is_success() {
    for has_slot in [true, false] {
        assert_eq!(
            decide::<i32>(Phase::Exchanging, has_slot, Reply::Exchanged(true)),
            ends(SwapOutcome::Success)
        );
    }
}

#[test]
fn unsupported_exchange_leads_to_the_slot() {
    assert_eq!(
        after(Phase::Exchanging, Reply::Exchanged(false)),
        goes_on(Phase::Probing(Place::Slot))
    );
}

#[test]
fn unsupported_exchange_without_slot_is_no_parent_directory() {
    assert_eq!(
        decide::<i32>(Phase::Exchanging, false, Reply::Exchanged(false)),
        ends(SwapOutcome::Failure {
            stage: Stage::LocateSlot,
            rollback: Rollback::NotAttempted,
            error: SwapError::NoParentDirectory,
        })
    );
}

#[test]
fn failed_exchange_is_final_even_where_nothing_was_found() {
    assert_eq!(
        after(Phase::Exchanging, failed(13)),
        ends(failure(Stage::AtomicExchange, Rollback::NotAttempted, 13))
    );
    assert_eq!(
        after(Phase::Exchanging, missing()),
        ends(failure(Stage::AtomicExchange, Rollback::NotAttempted, 2))
    );
}

#[test]
fn found_entry_is_removed_by_its_kind() {
    for place in [Place::Slot, Place::A, Place::B] {
        for kind in [EntryKind::File, EntryKind::Directory] {
            assert_eq!(
                after(Phase::Probing(place), Reply::Found(kind)),
                goes_on(Phase::Removing(place, kind))
            );
        }
    }
}

#[test]
fn absent_entry_needs_no_removal() {
    assert_eq!(after(Phase::Probing(Place::Slot), missing()), goes_on(Phase::Evacuating));
    assert_eq!(after(Phase::Probing(Place::A), missing()), goes_on(Phase::Relocating));
    assert_eq!(after(Phase::Probing(Place::B), missing()), goes_on(Phase::Filling));
}

#[test]
fn failed_probe_ends_the_swap_at_its_stage() {
    assert_eq!(
        after(Phase::Probing(Place::Slot), failed(5)),
        ends(failure(Stage::ClearSlot, Rollback::NotAttempted, 5))
    );
    assert_eq!(
        after(Phase::Probing(Place::A), failed(5)),
        ends(failure(Stage::ClearA, Rollback::NotAttempted, 5))
    );
    assert_eq!(
        after(Phase::Probing(Place::B), failed(5)),
        ends(failure(Stage::ClearB, Rollback::NotAttempted, 5))
    );
}

#[test]
fn removal_leads_to_the_rename() {
    assert_eq!(
        after(Phase::Removing(Place::Slot, EntryKind::File), Reply::Done),
        goes_on(Phase::Evacuating)
    );
    assert_eq!(
        after(Phase::Removing(Place::A, EntryKind::Directory), Reply::Done),
        goes_on(Phase::Relocating)
    );
    assert_eq!(
        after(Phase::Removing(Place::B, EntryKind::File), Reply::Done),
        goes_on(Phase::Filling)
    );
}

#[test]
fn failed_removal_ends_the_swap_even_where_nothing_was_found() {
    assert_eq!(
        after(Phase::Removing(Place::Slot, EntryKind::Directory), missing()),
        ends(failure(Stage::ClearSlot, Rollback::NotAttempted, 2))
    );
    assert_eq!(
        after(Phase::Removing(Place::A, EntryKind::File), failed(13)),
        ends(failure(Stage::ClearA, Rollback::NotAttempted, 13))
    );
    assert_eq!(
        after(Phase::Removing(Place::B, EntryKind::File), failed(13)),
        ends(failure(Stage::ClearB, Rollback::NotAttempted, 13))
    );
}

#[test]
fn renames_follow_each_other() {
    assert_eq!(after(Phase::Evacuating, Reply::Done), goes_on(Phase::Probing(Place::A)));
    assert_eq!(after(Phase::Relocating, Reply::Done), goes_on(Phase::Probing(Place::B)));
    assert_eq!(after(Phase::Filling, Reply::Done), ends(SwapOutcome::Success));
}

#[test]
fn failed_renames_are_taken_back() {
    assert_eq!(
        after(Phase::Evacuating, failed(13)),
        ends(failure(Stage::EvacuateA, Rollback::NotAttempted, 13))
    );
    assert_eq!(after(Phase::Relocating, failed(18)), goes_on(Phase::Restoring(18)));
    assert_eq!(after(Phase::Filling, failed(18)), goes_on(Phase::UndoingB(18)));
}

#[test]
fn rollback_reports_the_first_failure_where_it_goes_through() {
    assert_eq!(
        after(Phase::Restoring(18), Reply::Done),
        ends(failure(Stage::RelocateB, Rollback::Succeeded, 18))
    );
    assert_eq!(after(Phase::UndoingB(18), Reply::Done), goes_on(Phase::UndoingA(18)));
    assert_eq!(
        after(Phase::UndoingA(18), Reply::Done),
        ends(failure(Stage::FillB, Rollback::Succeeded, 18))
    );
}

#[test]
fn rollback_reports_its_own_failure_where_it_fails() {
    assert_eq!(
        after(Phase::Restoring(18), failed(13)),
        ends(failure(Stage::RelocateB, Rollback::Failed, 13))
    );
    assert_eq!(
        after(Phase::UndoingB(18), failed(13)),
        ends(failure(Stage::FillB, Rollback::Failed, 13))
    );
    assert_eq!(
        after(Phase::UndoingA(18), missing()),
        ends(failure(Stage::FillB, Rollback::Failed, 2))
    );
}

#[test]
fn stray_replies_change_nothing() {
    assert_eq!(after(Phase::Exchanging, Reply::Done), goes_on(Phase::Exchanging));
    assert_eq!(after(Phase::Exchanging, Reply::Found(EntryKind::File)), goes_on(Phase::Exchanging));
    assert_eq!(after(Phase::Probing(Place::A), Reply::Done), goes_on(Phase::Probing(Place::A)));
    assert_eq!(
        after(Phase::Removing(Place::B, EntryKind::File), Reply::Exchanged(true)),
        goes_on(Phase::Removing(Place::B, EntryKind::File))
    );
    assert_eq!(after(Phase::Evacuating, Reply::Exchanged(true)), goes_on(Phase::Evacuating));
    assert_eq!(after(Phase::Relocating, Reply::Found(EntryKind::File)), goes_on(Phase::Relocating));
    assert_eq!(after(Phase::Filling, Reply::Found(EntryKind::Directory)), goes_on(Phase::Filling));
    assert_eq!(after(Phase::Restoring(18), Reply::Exchanged(false)), goes_on(Phase::Restoring(18)));
    assert_eq!(after(Phase::UndoingB(18), Reply::Exchanged(true)), goes_on(Phase::UndoingB(18)));
    assert_eq!(after(Phase::UndoingA(18), Reply::Exchanged(true)), goes_on(Phase::UndoingA(18)));
}

#[test]
fn engine_ignores_a_stray_reply() {
    let engine = step(swap::<i32>("left/file_a", "left/file_b"), Reply::Done);
    assert_eq!(
        engine.action(),
        Action::Exchange { a: "left/file_a".to_string(), b: "left/file_b".to_string() }
    );
}

#[test]
fn engine_names_each_action_by_its_paths() {
    let engine = swap_nonatomic::<i32>("left/a", "right/b").unwrap();
    assert_eq!(engine.action(), probe("left/tmp.fs_swap"));
    let engine = step(engine, Reply::Found(EntryKind::Directory));
    assert_eq!(engine.action(), Action::RemoveTree { path: "left/tmp.fs_swap".to_string() });
    let engine = step(engine, Reply::Done);
    assert_eq!(engine.action(), rename("left/a", "left/tmp.fs_swap"));
    let engine = step(engine, Reply::Done);
    assert_eq!(engine.action(), probe("left/a"));
    let engine = step(engine, Reply::Found(EntryKind::File));
    assert_eq!(engine.action(), Action::RemoveFile { path: "left/a".to_string() });
    let engine = step(engine, Reply::Done);
    assert_eq!(engine.action(), rename("right/b", "left/a"));
    let engine = step(engine, Reply::Done);
    assert_eq!(engine.action(), probe("right/b"));
    let engine = step(engine, Reply::Found(EntryKind::Directory));
    assert_eq!(engine.action(), Action::RemoveTree { path: "right/b".to_string() });
    let engine = step(engine, Reply::Done);
    assert_eq!(engine.action(), rename("left/tmp.fs_swap", "right/b"));
    assert!(!engine.recovering());
    let engine = step(engine, failed(18));
    assert!(engine.recovering());
    assert_eq!(engine.action(), rename("left/a", "right/b"));
    let engine = step(engine, Reply::Done);
    assert!(engine.recovering());
    assert_eq!(engine.action(), rename("left/tmp.fs_swap", "left/a"));
    match engine.advance(Reply::Done) {
        Progress::Finished(outcome) => {
            assert_eq!(outcome, failure(Stage::FillB, Rollback::Succeeded, 18))
        }
        Progress::Pending(engine) => panic!("went on after the undo: {:?}", engine),
    }
}

#[test]
fn engine_restores_the_first_operand_from_the_slot() {
    let mut engine = swap_nonatomic::<i32>("left/a", "right/b").unwrap();
    for reply in [missing(), Reply::Done, missing(), failed(18)] {
        engine = step(engine, reply);
    }
    assert!(engine.recovering());
    assert_eq!(engine.action(), rename("left/tmp.fs_swap", "left/a"));
}

#[test]
fn engine_falls_back_where_the_exchange_is_unsupported() {
    let engine = step(swap::<i32>("left/a", "right/b"), Reply::Exchanged(false));
    assert_eq!(engine.action(), probe("left/tmp.fs_swap"));
    assert_eq!(engine.action(), swap_nonatomic::<i32>("left/a", "right/b").unwrap().action());
}

#[test]
fn outcome_as_a_result_keeps_the_error() {
    assert_eq!(SwapOutcome::<i32>::Success.into_result(), Ok(()));
    assert_eq!(failure(Stage::FillB, Rollback::Failed, 13).into_result(), Err(SwapError::Io(13)));
    let no_parent: SwapOutcome<i32> = SwapOutcome::Failure {
        stage: Stage::LocateSlot,
        rollback: Rollback::NotAttempted,
        error: SwapError::NoParentDirectory,
    };
    assert_eq!(no_parent.into_result(), Err(SwapError::NoParentDirectory));
}
