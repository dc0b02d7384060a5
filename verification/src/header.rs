//! The state word where tasks share it between threads: one round of each
//! of a handle's transitions on an atomic word. A round reads nothing but
//! the word it is given; whether its exchange succeeds is up to the other
//! threads, and a caller repeats the round with the word that was seen.

use vstd::prelude::*;
use std::sync::atomic::{AtomicU64, Ordering};
use crate::proc_handle::{
    cancel_step, drop_fast_path, drop_step, last_action, poll_step, CancelStep, DropStep,
    LastAction, PollStep,
};
use crate::state::{initial_state, state_view};

verus! {

/// How one round of a cancellation ended.
#[derive(Clone, Copy, Debug, PartialEq, Eq)]
pub enum CancelRound {
    /// The cancellation is over; the caller hands the task to the executor
    /// if `schedule` and wakes the registered awaiter if `notify`.
    Done { schedule: bool, notify: bool },
    /// Another thread changed the word to `seen`: go round again.
    Retry { seen: u64 },
    /// The reference count is saturated: the process must abort.
    Abort,
}

/// How one round of a handle's departure ended.
#[derive(Clone, Copy, Debug, PartialEq, Eq)]
pub enum DropRound {
    /// The unread output was claimed: the caller reads it for disposal and
    /// goes round again from `state`.
    TakeOutput { state: u64 },
    /// The handle flag is cleared; the caller performs `last`.
    Done { last: LastAction },
    /// Another thread changed the word to `seen`: go round again.
    Retry { seen: u64 },
}

/// How one round of a poll ended.
#[derive(Clone, Copy, Debug, PartialEq, Eq)]
pub enum PollRound {
    /// The task is closed: wake a foreign awaiter and resolve to nothing.
    Cancelled,
    /// Store the caller's wake-up, read the word again and go round with
    /// `registered` set.
    Register,
    /// The caller is registered and the task is not complete: stay pending.
    Pending,
    /// The output was claimed: wake a foreign awaiter if `notify` and move
    /// the output out.
    Take { notify: bool },
    /// Another thread changed the word to `seen`: go round again, not
    /// registered.
    Retry { seen: u64 },
}

/// Reads the state word.
pub fn load_state(word: &AtomicU64) -> u64 {
    word.load(Ordering::Acquire)
}

/// One round of a cancellation on a word last seen as `seen`.
///
/// A task seen completed or closed is left alone. Otherwise the round tries
/// to close it and reports what the canceller owes on success.
pub fn cancel_round(word: &AtomicU64, seen: u64) -> (r: CancelRound)
    ensures
        state_view(seen).completed || state_view(seen).closed ==> r == (CancelRound::Done {
            schedule: false,
            notify: false,
        }),
        (r is Abort) == (!state_view(seen).completed && !state_view(seen).closed
            && !state_view(seen).scheduled && !state_view(seen).running && state_view(seen).refs
            > crate::state::max_refs()),
        !state_view(seen).completed && !state_view(seen).closed ==> (r is Abort || r is Retry
            || r == (CancelRound::Done {
            schedule: !state_view(seen).scheduled && !state_view(seen).running,
            notify: state_view(seen).awaiter,
        })),
{
    match cancel_step(seen) {
        CancelStep::Nothing => CancelRound::Done { schedule: false, notify: false },
        CancelStep::Abort => CancelRound::Abort,
        CancelStep::Swap { new, schedule, notify } => {
            match word.compare_exchange_weak(seen, new, Ordering::AcqRel, Ordering::Acquire) {
                Ok(_) => CancelRound::Done { schedule, notify },
                Err(s) => CancelRound::Retry { seen: s },
            }
        },
    }
}

/// The single exchange that a departing handle tries first: it expects a
/// task that is exactly as it was born and takes the handle flag from it.
/// Where the exchange succeeds the departure is over and nothing remains to
/// do; otherwise the departure goes round from the word that was seen.
pub fn drop_fast_round(word: &AtomicU64) -> (r: DropRound)
    ensures
        r is Retry || r == (DropRound::Done { last: LastAction::Keep }),
{
    let born = initial_state();
    match drop_fast_path(born) {
        Some(new) => {
            let exchanged = word.compare_exchange_weak(
                born,
                new,
                Ordering::AcqRel,
                Ordering::Acquire,
            );
            drop_settle(DropStep::Release { new, last: LastAction::Keep }, exchanged)
        },
        None => DropRound::Retry { seen: born },
    }
}

/// One round of a handle's departure on a word last seen as `seen`.
///
/// An unread output is claimed first; otherwise the handle flag is cleared
/// and the round reports what remains to do for the task.
pub fn drop_round(word: &AtomicU64, seen: u64) -> (r: DropRound)
    ensures
        r matches DropRound::TakeOutput { state } ==> {
            &&& state_view(seen).completed && !state_view(seen).closed
            &&& state_view(state) == (crate::state::StateView {
                closed: true,
                ..state_view(seen)
            })
        },
        r matches DropRound::Done { last } ==> {
            &&& !(state_view(seen).completed && !state_view(seen).closed)
            &&& last == last_action(state_view(seen))
        },
{
    let step = drop_step(seen);
    let new = match step {
        DropStep::TakeOutput { new } => new,
        DropStep::Release { new, .. } => new,
    };
    let exchanged = word.compare_exchange_weak(seen, new, Ordering::AcqRel, Ordering::Acquire);
    drop_settle(step, exchanged)
}

/// One round of a poll on a word last seen as `seen`.
pub fn poll_round(word: &AtomicU64, seen: u64, registered: bool) -> (r: PollRound)
    ensures
        (r is Cancelled) == state_view(seen).closed,
        (r is Register) == (!state_view(seen).closed && !state_view(seen).completed
            && !registered),
        (r is Pending) == (!state_view(seen).closed && !state_view(seen).completed && registered),
        r matches PollRound::Take { notify } ==> notify == state_view(seen).awaiter,
{
    match poll_step(seen, registered) {
        PollStep::Cancelled => PollRound::Cancelled,
        PollStep::Register => PollRound::Register,
        PollStep::Pending => PollRound::Pending,
        PollStep::Take { new, notify } => {
            match word.compare_exchange(seen, new, Ordering::AcqRel, Ordering::Acquire) {
                Ok(_) => PollRound::Take { notify },
                Err(s) => PollRound::Retry { seen: s },
            }
        },
    }
}

/// What a round of a departure reports for a step and the answer of its
/// exchange: on success what the step decided, on failure the word that
/// was seen in place of the expected one.
pub open spec fn drop_settled(step: DropStep, exchanged: Result<u64, u64>) -> DropRound {
    match exchanged {
        Err(seen) => DropRound::Retry { seen },
        Ok(_) => match step {
            DropStep::TakeOutput { new } => DropRound::TakeOutput { state: new },
            DropStep::Release { last, .. } => DropRound::Done { last },
        },
    }
}

/// Settles a round of a departure once the exchange of its step has
/// answered.
pub fn drop_settle(step: DropStep, exchanged: Result<u64, u64>) -> (r: DropRound)
    ensures
        r == drop_settled(step, exchanged),
{
    match exchanged {
        Err(seen) => DropRound::Retry { seen },
        Ok(_) => match step {
            DropStep::TakeOutput { new } => DropRound::TakeOutput { state: new },
            DropStep::Release { new: _, last } => DropRound::Done { last },
        },
    }
}

} // verus!
