use lightbus::header::{
    cancel_round, drop_fast_round, drop_round, drop_settle, load_state, poll_round, CancelRound,
    DropRound, PollRound,
};
use lightbus::proc_handle::{DropStep, LastAction};
use lightbus::state::{AWAITER, CLOSED, COMPLETED, HANDLE, REFERENCE, RUNNING, SCHEDULED};
use std::sync::atomic::AtomicU64;

fn cancel_until_done(word: &AtomicU64) -> CancelRound {
    let mut state = load_state(word);
    loop {
        match cancel_round(word, state) {
            CancelRound::Retry { seen } => state = seen,
            other => return other,
        }
    }
}

fn drop_until_settled(word: &AtomicU64, from: u64) -> DropRound {
    let mut state = from;
    loop {
        match drop_round(word, state) {
            DropRound::Retry { seen } => state = seen,
            other => return other,
        }
    }
}

fn poll_until_settled(word: &AtomicU64, registered: bool) -> PollRound {
    let mut state = load_state(word);
    loop {
        match poll_round(word, state, registered) {
            PollRound::Retry { seen } => state = seen,
            other => return other,
        }
    }
}

#[test]
fn cancelling_an_idle_task_on_a_shared_word() {
    let word = AtomicU64::new(HANDLE | AWAITER);
    assert_eq!(cancel_until_done(&word), CancelRound::Done { schedule: true, notify: true });
    assert_eq!(load_state(&word), SCHEDULED | CLOSED | HANDLE | AWAITER | REFERENCE);
    assert_eq!(cancel_until_done(&word), CancelRound::Done { schedule: false, notify: false });
    assert_eq!(load_state(&word), SCHEDULED | CLOSED | HANDLE | AWAITER | REFERENCE);
}

#[test]
fn cancelling_a_running_task_on_a_shared_word() {
    let word = AtomicU64::new(RUNNING | HANDLE | REFERENCE);
    assert_eq!(cancel_until_done(&word), CancelRound::Done { schedule: false, notify: false });
    assert_eq!(load_state(&word), RUNNING | CLOSED | HANDLE | REFERENCE);
}

#[test]
fn cancelling_a_completed_task_leaves_the_shared_word() {
    let word = AtomicU64::new(COMPLETED | HANDLE);
    assert_eq!(cancel_until_done(&word), CancelRound::Done { schedule: false, notify: false });
    assert_eq!(load_state(&word), COMPLETED | HANDLE);
}

#[test]
fn cancelling_with_a_saturated_count_asks_for_an_abort() {
    let word = AtomicU64::new(HANDLE | (1u64 << 63));
    assert_eq!(cancel_until_done(&word), CancelRound::Abort);
    assert_eq!(load_state(&word), HANDLE | (1u64 << 63));
}

#[test]
fn a_stale_word_makes_the_round_report_what_it_saw() {
    let word = AtomicU64::new(RUNNING | HANDLE | 2 * REFERENCE);
    assert_eq!(
        cancel_round(&word, SCHEDULED | HANDLE | REFERENCE),
        CancelRound::Retry { seen: RUNNING | HANDLE | 2 * REFERENCE }
    );
    assert_eq!(
        drop_round(&word, SCHEDULED | HANDLE | REFERENCE),
        DropRound::Retry { seen: RUNNING | HANDLE | 2 * REFERENCE }
    );
    let done = AtomicU64::new(COMPLETED | CLOSED | HANDLE);
    assert_eq!(
        poll_round(&done, COMPLETED | HANDLE, false),
        PollRound::Retry { seen: COMPLETED | CLOSED | HANDLE }
    );
}

#[test]
fn the_fast_departure_succeeds_only_on_a_task_as_born() {
    let word = AtomicU64::new(SCHEDULED | HANDLE | REFERENCE);
    let mut left = drop_fast_round(&word);
    while left == (DropRound::Retry { seen: SCHEDULED | HANDLE | REFERENCE }) {
        left = drop_fast_round(&word);
    }
    assert_eq!(left, DropRound::Done { last: LastAction::Keep });
    assert_eq!(load_state(&word), SCHEDULED | REFERENCE);
    let other = AtomicU64::new(RUNNING | HANDLE | REFERENCE);
    assert_eq!(drop_fast_round(&other), DropRound::Retry { seen: RUNNING | HANDLE | REFERENCE });
    assert_eq!(load_state(&other), RUNNING | HANDLE | REFERENCE);
}

#[test]
fn departing_from_a_completed_task_claims_the_output_then_destroys() {
    let word = AtomicU64::new(COMPLETED | HANDLE);
    let first = drop_until_settled(&word, COMPLETED | HANDLE);
    assert_eq!(first, DropRound::TakeOutput { state: COMPLETED | CLOSED | HANDLE });
    let second = drop_until_settled(&word, COMPLETED | CLOSED | HANDLE);
    assert_eq!(second, DropRound::Done { last: LastAction::Destroy });
    assert_eq!(load_state(&word), COMPLETED | CLOSED);
}

#[test]
fn departing_from_an_idle_task_hands_it_to_the_executor() {
    let word = AtomicU64::new(HANDLE);
    assert_eq!(drop_until_settled(&word, HANDLE), DropRound::Done { last: LastAction::Schedule });
    assert_eq!(load_state(&word), SCHEDULED | CLOSED | REFERENCE);
}

#[test]
fn polling_a_shared_word() {
    let word = AtomicU64::new(SCHEDULED | HANDLE | REFERENCE);
    assert_eq!(poll_until_settled(&word, false), PollRound::Register);
    assert_eq!(poll_until_settled(&word, true), PollRound::Pending);
    let done = AtomicU64::new(COMPLETED | HANDLE | AWAITER);
    assert_eq!(poll_until_settled(&done, false), PollRound::Take { notify: true });
    assert_eq!(load_state(&done), COMPLETED | CLOSED | HANDLE | AWAITER);
    assert_eq!(poll_until_settled(&done, false), PollRound::Cancelled);
}

#[test]
fn a_round_of_departure_settles_by_the_answer_of_its_exchange() {
    let claim = DropStep::TakeOutput { new: COMPLETED | CLOSED | HANDLE };
    let leave = DropStep::Release { new: COMPLETED | CLOSED, last: LastAction::Destroy };
    assert_eq!(
        drop_settle(claim, Ok(COMPLETED | HANDLE)),
        DropRound::TakeOutput { state: COMPLETED | CLOSED | HANDLE }
    );
    assert_eq!(drop_settle(claim, Err(RUNNING)), DropRound::Retry { seen: RUNNING });
    assert_eq!(
        drop_settle(leave, Ok(COMPLETED | CLOSED | HANDLE)),
        DropRound::Done { last: LastAction::Destroy }
    );
    assert_eq!(drop_settle(leave, Err(7)), DropRound::Retry { seen: 7 });
}
