use lightbus::proc_handle::{
    cancel_step, drop_fast_path, drop_step, poll_step, CancelEffect, CancelStep, DropStep,
    HandlePoll, LastAction, PollStep, ProcHandle,
};
use lightbus::run::{begin_run, end_run_pending, end_run_ready};
use lightbus::stack::ProcStack;
use lightbus::state::{
    initial_state, AWAITER, CLOSED, COMPLETED, HANDLE, REFERENCE, RUNNING, SCHEDULED,
};

#[test]
fn born_state_is_scheduled_with_handle_and_one_reference() {
    assert_eq!(initial_state(), SCHEDULED | HANDLE | REFERENCE);
    let h: ProcHandle<u32> = ProcHandle::new(ProcStack::new(7));
    assert_eq!(h.state(), 1 | 16 | 128);
    assert_eq!(h.stack().get_pid(), 7);
}

#[test]
fn completion_resolves_to_the_output_once() {
    let mut h: ProcHandle<u32> = ProcHandle::new(ProcStack::new(1));
    let ran = h.run(Some(42));
    assert!(ran.polled);
    assert_eq!(ran.woken, None);
    assert_eq!(h.state(), COMPLETED | HANDLE);
    let first = h.poll(9);
    assert!(matches!(first.result, HandlePoll::Ready(Some(42))));
    assert_eq!(h.state(), COMPLETED | CLOSED | HANDLE);
    let second = h.poll(9);
    assert!(matches!(second.result, HandlePoll::Ready(None)));
}

#[test]
fn cancel_before_run_drops_the_computation_unpolled() {
    let mut h: ProcHandle<u32> = ProcHandle::new(ProcStack::new(1));
    let effect = h.cancel();
    assert_eq!(effect, CancelEffect { schedule: false, woken: None });
    assert_eq!(h.state(), SCHEDULED | CLOSED | HANDLE | REFERENCE);
    let ran = h.run(Some(7));
    assert!(!ran.polled);
    assert_eq!(h.state(), CLOSED | HANDLE);
    let polled = h.poll(3);
    assert!(matches!(polled.result, HandlePoll::Ready(None)));
}

#[test]
fn cancel_after_completion_changes_nothing() {
    let mut h: ProcHandle<String> = ProcHandle::new(ProcStack::new(1));
    h.run(Some("x".to_string()));
    let before = h.state();
    let effect = h.cancel();
    assert_eq!(effect, CancelEffect { schedule: false, woken: None });
    assert_eq!(h.state(), before);
    let polled = h.poll(3);
    match polled.result {
        HandlePoll::Ready(Some(s)) => assert_eq!(s, "x"),
        _ => panic!("the output was lost"),
    }
}

#[test]
fn cancel_of_an_idle_task_schedules_it_again() {
    let mut h: ProcHandle<u32> = ProcHandle::new(ProcStack::new(1));
    let first = h.poll(5);
    assert!(matches!(first.result, HandlePoll::Pending));
    let ran = h.run(None);
    assert!(ran.polled);
    assert_eq!(h.state(), HANDLE | AWAITER);
    let effect = h.cancel();
    assert_eq!(effect, CancelEffect { schedule: true, woken: Some(5) });
    assert_eq!(h.state(), SCHEDULED | CLOSED | HANDLE | REFERENCE);
    let ran = h.run(Some(1));
    assert!(!ran.polled);
    let released = h.release();
    assert_eq!(released.last, LastAction::Destroy);
    assert_eq!(released.output, None);
}

#[test]
fn handle_dropped_right_after_spawn_takes_the_fast_path() {
    let h: ProcHandle<u32> = ProcHandle::new(ProcStack::new(1));
    let released = h.release();
    assert_eq!(released.state, SCHEDULED | REFERENCE);
    assert_eq!(released.output, None);
    assert_eq!(released.last, LastAction::Keep);
}

#[test]
fn handle_dropped_with_unread_output_hands_it_back_for_disposal() {
    let mut h: ProcHandle<Vec<u8>> = ProcHandle::new(ProcStack::new(1));
    h.run(Some(vec![1, 2, 3]));
    let released = h.release();
    assert_eq!(released.output, Some(vec![1, 2, 3]));
    assert_eq!(released.state, COMPLETED | CLOSED);
    assert_eq!(released.last, LastAction::Destroy);
}

#[test]
fn handle_dropped_after_reading_leaves_nothing_to_dispose() {
    let mut h: ProcHandle<u32> = ProcHandle::new(ProcStack::new(1));
    h.run(Some(5));
    let polled = h.poll(1);
    assert!(matches!(polled.result, HandlePoll::Ready(Some(5))));
    let released = h.release();
    assert_eq!(released.output, None);
    assert_eq!(released.last, LastAction::Destroy);
}

#[test]
fn handle_dropped_while_idle_closes_and_schedules() {
    let mut h: ProcHandle<u32> = ProcHandle::new(ProcStack::new(1));
    h.run(None);
    assert_eq!(h.state(), HANDLE);
    let released = h.release();
    assert_eq!(released.state, SCHEDULED | CLOSED | REFERENCE);
    assert_eq!(released.last, LastAction::Schedule);
}

#[test]
fn poll_registers_the_latest_waker_and_completion_wakes_it() {
    let mut h: ProcHandle<u32> = ProcHandle::new(ProcStack::new(1));
    let a = h.poll(10);
    assert!(matches!(a.result, HandlePoll::Pending));
    assert_eq!(a.woken, None);
    assert_eq!(h.state(), SCHEDULED | HANDLE | AWAITER | REFERENCE);
    let b = h.poll(11);
    assert!(matches!(b.result, HandlePoll::Pending));
    let ran = h.run(Some(8));
    assert_eq!(ran.woken, Some(11));
    assert_eq!(h.state(), COMPLETED | HANDLE);
}

#[test]
fn a_resolving_poll_wakes_only_a_foreign_awaiter() {
    let mut h: ProcHandle<u32> = ProcHandle::new(ProcStack::new(1));
    h.poll(10);
    h.cancel();
    h.poll(10);
    let own = h.poll(10);
    assert_eq!(own.woken, None);
    let mut g: ProcHandle<u32> = ProcHandle::new(ProcStack::new(2));
    g.run(None);
    g.poll(20);
    let effect = g.cancel();
    assert_eq!(effect.woken, Some(20));
}

#[test]
fn cancel_step_on_each_kind_of_state() {
    assert_eq!(cancel_step(COMPLETED | HANDLE), CancelStep::Nothing);
    assert_eq!(cancel_step(CLOSED | HANDLE), CancelStep::Nothing);
    assert_eq!(
        cancel_step(HANDLE | AWAITER),
        CancelStep::Swap {
            new: SCHEDULED | CLOSED | HANDLE | AWAITER | REFERENCE,
            schedule: true,
            notify: true
        }
    );
    assert_eq!(
        cancel_step(RUNNING | HANDLE | REFERENCE),
        CancelStep::Swap {
            new: RUNNING | CLOSED | HANDLE | REFERENCE,
            schedule: false,
            notify: false
        }
    );
    assert_eq!(
        cancel_step(SCHEDULED | HANDLE | 3 * REFERENCE),
        CancelStep::Swap {
            new: SCHEDULED | CLOSED | HANDLE | 3 * REFERENCE,
            schedule: false,
            notify: false
        }
    );
}

#[test]
fn cancel_step_aborts_on_a_saturated_count() {
    assert_eq!(cancel_step(HANDLE | (1u64 << 63)), CancelStep::Abort);
    assert_eq!(
        cancel_step(HANDLE | (1u64 << 62)),
        CancelStep::Swap {
            new: (SCHEDULED | CLOSED | HANDLE | (1u64 << 62)) + REFERENCE,
            schedule: true,
            notify: false
        }
    );
}

#[test]
fn drop_step_on_each_kind_of_state() {
    assert_eq!(
        drop_step(COMPLETED | HANDLE),
        DropStep::TakeOutput { new: COMPLETED | CLOSED | HANDLE }
    );
    assert_eq!(
        drop_step(COMPLETED | CLOSED | HANDLE),
        DropStep::Release { new: COMPLETED | CLOSED, last: LastAction::Destroy }
    );
    assert_eq!(
        drop_step(HANDLE | AWAITER),
        DropStep::Release { new: SCHEDULED | CLOSED | REFERENCE, last: LastAction::Schedule }
    );
    assert_eq!(
        drop_step(RUNNING | HANDLE | 2 * REFERENCE),
        DropStep::Release { new: RUNNING | 2 * REFERENCE, last: LastAction::Keep }
    );
    assert_eq!(
        drop_step(SCHEDULED | CLOSED | HANDLE | REFERENCE),
        DropStep::Release { new: SCHEDULED | CLOSED | REFERENCE, last: LastAction::Keep }
    );
}

#[test]
fn drop_fast_path_only_on_the_born_state() {
    assert_eq!(drop_fast_path(SCHEDULED | HANDLE | REFERENCE), Some(SCHEDULED | REFERENCE));
    assert_eq!(drop_fast_path(SCHEDULED | HANDLE | AWAITER | REFERENCE), None);
    assert_eq!(drop_fast_path(RUNNING | HANDLE | REFERENCE), None);
    assert_eq!(drop_fast_path(SCHEDULED | HANDLE | 2 * REFERENCE), None);
}

#[test]
fn poll_step_on_each_kind_of_state() {
    assert_eq!(poll_step(CLOSED | HANDLE, false), PollStep::Cancelled);
    assert_eq!(poll_step(COMPLETED | CLOSED | HANDLE, true), PollStep::Cancelled);
    assert_eq!(poll_step(SCHEDULED | HANDLE | REFERENCE, false), PollStep::Register);
    assert_eq!(poll_step(SCHEDULED | HANDLE | REFERENCE, true), PollStep::Pending);
    assert_eq!(
        poll_step(COMPLETED | HANDLE | AWAITER, false),
        PollStep::Take { new: COMPLETED | CLOSED | HANDLE | AWAITER, notify: true }
    );
    assert_eq!(
        poll_step(COMPLETED | HANDLE, true),
        PollStep::Take { new: COMPLETED | CLOSED | HANDLE, notify: false }
    );
}

#[test]
fn no_step_sets_running_and_completed_together() {
    let flags = [SCHEDULED, RUNNING, COMPLETED, CLOSED, HANDLE, AWAITER];
    for bits in 0u64..64 {
        let mut state = 5 * REFERENCE;
        for (i, f) in flags.iter().enumerate() {
            if bits & (1 << i) != 0 {
                state |= *f;
            }
        }
        if state & RUNNING != 0 && state & COMPLETED != 0 {
            continue;
        }
        let mut nexts = vec![];
        if let CancelStep::Swap { new, .. } = cancel_step(state) {
            nexts.push(new);
        }
        match drop_step(state) {
            DropStep::TakeOutput { new } => nexts.push(new),
            DropStep::Release { new, .. } => nexts.push(new),
        }
        if let PollStep::Take { new, .. } = poll_step(state, false) {
            nexts.push(new);
        }
        for n in nexts {
            assert!(!(n & RUNNING != 0 && n & COMPLETED != 0));
        }
    }
}

#[test]
fn a_worker_starts_only_an_open_unfinished_task() {
    assert_eq!(begin_run(SCHEDULED | HANDLE | REFERENCE), Some(RUNNING | HANDLE | REFERENCE));
    assert_eq!(begin_run(SCHEDULED | CLOSED | HANDLE | REFERENCE), None);
    assert_eq!(begin_run(COMPLETED | HANDLE), None);
}

#[test]
fn a_pending_poll_reschedules_only_a_woken_task() {
    assert_eq!(end_run_pending(RUNNING | HANDLE | REFERENCE, false), (HANDLE | REFERENCE, false));
    assert_eq!(
        end_run_pending(RUNNING | SCHEDULED | HANDLE | REFERENCE, true),
        (SCHEDULED | HANDLE | REFERENCE, true)
    );
    assert_eq!(
        end_run_pending(RUNNING | HANDLE | REFERENCE, true),
        (SCHEDULED | HANDLE | REFERENCE, true)
    );
}

#[test]
fn a_ready_poll_completes_the_task_and_asks_to_wake_the_awaiter() {
    assert_eq!(
        end_run_ready(RUNNING | HANDLE | AWAITER | REFERENCE),
        (COMPLETED | HANDLE | AWAITER | REFERENCE, true)
    );
    assert_eq!(end_run_ready(RUNNING | HANDLE), (COMPLETED | HANDLE, false));
}

#[test]
fn a_cancelled_task_is_refused_by_the_next_worker() {
    for state in [HANDLE, SCHEDULED | HANDLE | REFERENCE, RUNNING | HANDLE | REFERENCE] {
        match cancel_step(state) {
            CancelStep::Swap { new, .. } => assert_eq!(begin_run(new), None),
            _ => panic!("an open task can be cancelled"),
        }
    }
}

#[test]
fn cancel_of_a_running_task_closes_it_in_place() {
    let mut h: ProcHandle<u32> = ProcHandle::new(ProcStack::new(1));
    let picked = h.start();
    assert!(picked.polled);
    assert_eq!(h.state(), RUNNING | HANDLE | REFERENCE);
    let effect = h.cancel();
    assert_eq!(effect, CancelEffect { schedule: false, woken: None });
    assert_eq!(h.state(), RUNNING | CLOSED | HANDLE | REFERENCE);
    let polled = h.poll(2);
    assert!(matches!(polled.result, HandlePoll::Ready(None)));
    let ended = h.finish(Some(9));
    assert!(ended.polled);
    assert!(!ended.resubmit);
    assert_eq!(h.state(), CLOSED | HANDLE);
    let after = h.poll(2);
    assert!(matches!(after.result, HandlePoll::Ready(None)));
    let released = h.release();
    assert_eq!(released.output, None);
    assert_eq!(released.last, LastAction::Destroy);
}

#[test]
fn a_poll_during_the_run_is_woken_by_the_completion() {
    let mut h: ProcHandle<u32> = ProcHandle::new(ProcStack::new(1));
    h.start();
    let waiting = h.poll(6);
    assert!(matches!(waiting.result, HandlePoll::Pending));
    assert_eq!(h.state(), RUNNING | HANDLE | AWAITER | REFERENCE);
    let ended = h.finish(Some(12));
    assert_eq!(ended.woken, Some(6));
    assert_eq!(h.state(), COMPLETED | HANDLE);
    let ready = h.poll(6);
    assert!(matches!(ready.result, HandlePoll::Ready(Some(12))));
}

#[test]
fn a_pending_turn_gives_up_its_reference() {
    let mut h: ProcHandle<u32> = ProcHandle::new(ProcStack::new(1));
    h.start();
    let ended = h.finish(None);
    assert!(ended.polled);
    assert!(!ended.resubmit);
    assert_eq!(ended.woken, None);
    assert_eq!(h.state(), HANDLE);
}

#[test]
fn a_handle_dropped_during_the_run_leaves_the_worker_its_reference() {
    let mut h: ProcHandle<u32> = ProcHandle::new(ProcStack::new(1));
    h.start();
    let released = h.release();
    assert_eq!(released.state, RUNNING | REFERENCE);
    assert_eq!(released.last, LastAction::Keep);
    assert_eq!(released.output, None);
}

#[test]
fn a_closed_task_is_dropped_at_the_start_of_its_turn() {
    let mut h: ProcHandle<u32> = ProcHandle::new(ProcStack::new(1));
    h.poll(8);
    h.cancel();
    h.poll(8);
    h.poll(9);
    let picked = h.start();
    assert!(!picked.polled);
    assert_eq!(h.state(), CLOSED | HANDLE);
}
