//! Swapping the content of two paths, a file or a directory each.
//!
//! The library decides; it performs no filesystem operation itself. A swap
//! is an [`Engine`](engine::Engine) that names one action at a time, takes
//! the driver's report on it, and ends with an outcome. [`swap`] first asks
//! for the operating system's indivisible exchange and falls back on staged
//! renames through a holding slot; [`swap_nonatomic`] stages at once.

use vstd::prelude::*;
use crate::engine::{no_parent, Engine, Next, Phase, State};
use crate::path::{holding_slot, slot_for};
use crate::protocol::{Place, Reply, SwapError};

pub mod course;
pub mod engine;
pub mod laws;
pub mod path;
pub mod protocol;
pub mod world;

verus! {

/// The state in which [`swap`] starts on the pair `a`, `b`.
pub open spec fn swap_start<E>(a: Seq<char>, b: Seq<char>) -> State<E> {
    State { a, b, slot: slot_for(a, b), phase: Phase::Exchanging }
}

/// The state in which [`swap_nonatomic`] starts on the pair `a`, `b`, where
/// the pair has a holding slot.
pub open spec fn staged_start<E>(a: Seq<char>, b: Seq<char>) -> State<E> {
    State { a, b, slot: slot_for(a, b), phase: Phase::Probing(Place::Slot) }
}

/// Begins a swap of the content of `a` and `b` that prefers the operating
/// system's indivisible exchange. The engine's first action is that
/// exchange; where the driver reports that the pair is not supported, the
/// engine goes on as [`swap_nonatomic`] does.
pub fn swap<E>(a: &str, b: &str) -> (r: Engine<E>)
    ensures
        r@ == swap_start::<E>(a@, b@),
{
    Engine::exchanging(a.to_owned(), b.to_owned(), holding_slot(a, b))
}

/// Begins a swap of the content of `a` and `b` by three renames through the
/// holding slot. Fails, with nothing asked of the driver, where neither
/// path has a parent directory.
pub fn swap_nonatomic<E>(a: &str, b: &str) -> (r: Result<Engine<E>, SwapError<E>>)
    ensures
        match r {
            Ok(engine) => slot_for(a@, b@) is Some && engine@ == staged_start::<E>(a@, b@),
            Err(error) => slot_for(a@, b@) is None && error == SwapError::<E>::NoParentDirectory,
        },
{
    match holding_slot(a, b) {
        Some(slot) => Ok(Engine::staging(a.to_owned(), b.to_owned(), slot)),
        None => Err(SwapError::NoParentDirectory),
    }
}

/// Fallback. Where the driver reports that the operating system has no
/// exchange for the pair, a swap that began with [`swap`] goes on exactly
/// as one that began with [`swap_nonatomic`]: in the same state where the
/// pair has a holding slot, and with the same failure where it has none.
pub proof fn lemma_swap_falls_back<E>(a: Seq<char>, b: Seq<char>)
    ensures
        swap_start::<E>(a, b).next(Reply::Exchanged(false)) == match slot_for(a, b) {
            Some(_) => Next::Pending(staged_start::<E>(a, b)),
            None => Next::Finished(no_parent()),
        },
{
}

} // verus!
