//! The executing side of a task: what a worker does to the state word when
//! it picks a task up and when the poll of its computation returns.

use vstd::prelude::*;
use crate::state::{
    consistent, lemma_clear_flag, lemma_set_flag, state_view, StateView, AWAITER, CLOSED,
    COMPLETED, RUNNING, SCHEDULED,
};

verus! {

/// The meaning of the word a worker installs when it starts to poll.
pub open spec fn started_view(v: StateView) -> StateView {
    StateView { scheduled: false, running: true, ..v }
}

/// The meaning of the word a worker installs after a poll that is pending.
/// `woken` says whether a wake-up asked for the task during the poll.
pub open spec fn suspended_view(v: StateView, woken: bool) -> StateView {
    StateView { running: false, scheduled: woken, ..v }
}

/// The meaning of the word a worker installs after a poll that is ready.
pub open spec fn completed_view(v: StateView) -> StateView {
    StateView { running: false, completed: true, ..v }
}

/// A worker picks the task up. A task that is closed or complete is not
/// polled; otherwise the result is the word that gives the worker the
/// exclusive right to poll: no longer scheduled, running.
pub fn begin_run(state: u64) -> (new: Option<u64>)
    ensures
        (new is None) == (state_view(state).closed || state_view(state).completed),
        new matches Some(n) ==> state_view(n) == started_view(state_view(state)),
{
    proof {
        assert((state & (8u64 | 4u64) != 0) == (state & 4 != 0 || state & 8 != 0))
            by (bit_vector);
    }
    if state & (CLOSED | COMPLETED) != 0 {
        return None;
    }
    proof {
        lemma_clear_flag(state, 1);
        lemma_set_flag(state & !1, 2);
    }
    Some((state & !SCHEDULED) | RUNNING)
}

/// The poll was pending: the task stops running, and is scheduled again
/// exactly if a wake-up asked for it during the poll. The second part of the
/// result says whether the task is to be handed to the executor again.
pub fn end_run_pending(state: u64, woken: bool) -> (r: (u64, bool))
    ensures
        state_view(r.0) == suspended_view(state_view(state), woken),
        r.1 == woken,
{
    proof {
        lemma_clear_flag(state, 2);
        lemma_clear_flag(state & !2, 1);
        lemma_set_flag(state & !2 & !1, 1);
    }
    let idle: u64 = state & !RUNNING & !SCHEDULED;
    if woken {
        (idle | SCHEDULED, true)
    } else {
        (idle, false)
    }
}

/// The poll was ready and the output is in its slot: the task stops running
/// and is complete. The second part of the result says whether an awaiter is
/// registered and has to be woken.
pub fn end_run_ready(state: u64) -> (r: (u64, bool))
    ensures
        state_view(r.0) == completed_view(state_view(state)),
        r.1 == state_view(state).awaiter,
{
    proof {
        lemma_clear_flag(state, 2);
        lemma_set_flag(state & !2, 4);
    }
    ((state & !RUNNING) | COMPLETED, state & AWAITER != 0)
}

/// A worker's transitions never leave a task running and complete at once:
/// it starts to run only a task that is not complete, and completing ends
/// the run.
pub proof fn lemma_run_keeps_consistency(v: StateView, woken: bool)
    requires
        consistent(v),
    ensures
        !v.completed ==> consistent(started_view(v)),
        consistent(suspended_view(v, woken)),
        consistent(completed_view(v)),
{
}

} // verus!
