//! The observer side of a task: what a handle decides from the state word.

use vstd::prelude::*;
use crate::run::{
    begin_run, completed_view, end_run_pending, end_run_ready, started_view, suspended_view,
};
use crate::stack::ProcStack;
use crate::state::{
    born, consistent, initial_state, lemma_add_reference, lemma_clear_flag, lemma_count_bounds,
    lemma_literal_view, lemma_set_flag, lemma_sub_reference, lemma_view_injective, max_refs,
    state_view, StateView, AWAITER, CLOSED, COMPLETED, FLAGS, HANDLE, REFERENCE, RUNNING,
    SATURATED, SCHEDULED,
};

verus! {

/// What a canceller does after reading a state word.
#[derive(Clone, Copy, Debug, PartialEq, Eq)]
pub enum CancelStep {
    /// The task is completed or closed already: nothing changes.
    Nothing,
    /// The reference count is saturated: the process must abort.
    Abort,
    /// Replace the word by `new`; on success, hand the task to the executor
    /// if `schedule`, and wake the registered awaiter if `notify`.
    Swap { new: u64, schedule: bool, notify: bool },
}

/// The meaning of the word a canceller installs over `v`.
pub open spec fn cancelled_view(v: StateView) -> StateView {
    if v.scheduled || v.running {
        StateView { closed: true, ..v }
    } else {
        StateView { closed: true, scheduled: true, refs: v.refs + 1, ..v }
    }
}

/// Whether a cancellation of `v` adds a reference: the task is open and in
/// nobody's hands, so the canceller hands it to the executor.
pub open spec fn adds_reference(v: StateView) -> bool {
    !v.completed && !v.closed && !v.scheduled && !v.running
}

/// Decides one round of a cancellation from the state word just read.
pub fn cancel_step(state: u64) -> (step: CancelStep)
    ensures
        (step is Nothing) == (state_view(state).completed || state_view(state).closed),
        (step is Abort) == (!state_view(state).completed && !state_view(state).closed
            && !state_view(state).scheduled && !state_view(state).running
            && state_view(state).refs > max_refs()),
        step matches CancelStep::Swap { new, schedule, notify } ==> {
            &&& state_view(new) == cancelled_view(state_view(state))
            &&& schedule == (!state_view(state).scheduled && !state_view(state).running)
            &&& notify == state_view(state).awaiter
            &&& (consistent(state_view(state)) ==> consistent(state_view(new)))
        },
{
    proof {
        assert((state & (4u64 | 8u64) != 0) == (state & 4 != 0 || state & 8 != 0))
            by (bit_vector);
    }
    if state & (COMPLETED | CLOSED) != 0 {
        return CancelStep::Nothing;
    }
    proof {
        assert((state & (1u64 | 2u64) == 0) == (!(state & 1 != 0) && !(state & 2 != 0))) by (bit_vector);
        lemma_count_bounds(state);
    }
    let idle = state & (SCHEDULED | RUNNING) == 0;
    let notify = state & AWAITER != 0;
    if idle {
        if state > SATURATED {
            return CancelStep::Abort;
        }
        let marked: u64 = state | SCHEDULED | CLOSED;
        proof {
            lemma_set_flag(state, 1);
            lemma_set_flag(state | 1, 8);
            assert(state <= 0x7fff_ffff_ffff_ffffu64 ==> (state | 1 | 8) <= 0x7fff_ffff_ffff_ffffu64) by (bit_vector);
            lemma_add_reference(marked);
        }
        let new: u64 = marked + REFERENCE;
        CancelStep::Swap { new, schedule: true, notify }
    } else {
        let new: u64 = state | CLOSED;
        proof {
            lemma_set_flag(state, 8);
        }
        CancelStep::Swap { new, schedule: false, notify }
    }
}

/// What is left to do once a handle has given up its flag.
#[derive(Clone, Copy, Debug, PartialEq, Eq)]
pub enum LastAction {
    /// Other references remain: nothing more to do.
    Keep,
    /// This was the last reference of an open task: hand it to the executor
    /// one more time so that its computation gets dropped.
    Schedule,
    /// This was the last reference of a closed task: tear it down.
    Destroy,
}

/// What a departing handle does after reading a state word.
#[derive(Clone, Copy, Debug, PartialEq, Eq)]
pub enum DropStep {
    /// The output is complete and unread: replace the word by `new`, then
    /// read the output for disposal and decide again from `new`.
    TakeOutput { new: u64 },
    /// Replace the word by `new`; on success perform `last` and stop.
    Release { new: u64, last: LastAction },
}

/// The meaning of the word a departing handle installs over `v`.
pub open spec fn released_view(v: StateView) -> StateView {
    if v.refs == 0 && !v.closed {
        StateView {
            scheduled: true,
            running: false,
            completed: false,
            closed: true,
            handle: false,
            awaiter: false,
            locked: false,
            refs: 1,
        }
    } else {
        StateView { handle: false, ..v }
    }
}

/// What remains to do after the handle flag of `v` has been cleared.
pub open spec fn last_action(v: StateView) -> LastAction {
    if v.refs != 0 {
        LastAction::Keep
    } else if !v.closed {
        LastAction::Schedule
    } else {
        LastAction::Destroy
    }
}

/// Decides one round of a handle's departure from the state word just read.
pub fn drop_step(state: u64) -> (step: DropStep)
    ensures
        (step is TakeOutput) == (state_view(state).completed && !state_view(state).closed),
        step matches DropStep::TakeOutput { new } ==> state_view(new) == (StateView {
            closed: true,
            ..state_view(state)
        }),
        step matches DropStep::Release { new, last } ==> {
            &&& state_view(new) == released_view(state_view(state))
            &&& last == last_action(state_view(state))
        },
        consistent(state_view(state)) ==> consistent(state_view(drop_target(step))),
{
    if state & COMPLETED != 0 && state & CLOSED == 0 {
        proof {
            lemma_set_flag(state, 8);
        }
        return DropStep::TakeOutput { new: state | CLOSED };
    }
    proof {
        lemma_count_bounds(state);
        assert((state & (!127u64 | 8u64) == 0) == (state & !127u64 == 0 && !(state & 8 != 0)))
            by (bit_vector);
        lemma_clear_flag(state, 16);
        lemma_literal_view(137);
        assert(1u64 | 8u64 | 128u64 == 137u64) by (bit_vector);
    }
    let new: u64 = if state & (!FLAGS | CLOSED) == 0 {
        SCHEDULED | CLOSED | REFERENCE
    } else {
        state & !HANDLE
    };
    let last = if state & !FLAGS == 0 {
        if state & CLOSED == 0 {
            LastAction::Schedule
        } else {
            LastAction::Destroy
        }
    } else {
        LastAction::Keep
    };
    DropStep::Release { new, last }
}

/// The word that a step of a departure installs.
pub open spec fn drop_target(step: DropStep) -> u64 {
    match step {
        DropStep::TakeOutput { new } => new,
        DropStep::Release { new, .. } => new,
    }
}

/// The single exchange tried first by a departing handle: a task that is
/// exactly as it was born loses its handle flag at once, as it would by the
/// general path, and nothing remains to do.
pub fn drop_fast_path(state: u64) -> (new: Option<u64>)
    ensures
        (new is Some) == (state_view(state) == born()),
        new matches Some(n) ==> {
            &&& state_view(n) == (StateView { handle: false, ..born() })
            &&& state_view(n) == released_view(claimed_view(state_view(state)))
            &&& last_action(claimed_view(state_view(state))) == LastAction::Keep
        },
{
    proof {
        lemma_literal_view(145);
        lemma_literal_view(129);
        assert(1u64 | 16u64 | 128u64 == 145u64) by (bit_vector);
        assert(1u64 | 128u64 == 129u64) by (bit_vector);
        if state_view(state) == born() {
            lemma_view_injective(state, 145);
        }
    }
    if state == SCHEDULED | HANDLE | REFERENCE {
        Some(SCHEDULED | REFERENCE)
    } else {
        None
    }
}

/// What a polling handle does after reading a state word.
#[derive(Clone, Copy, Debug, PartialEq, Eq)]
pub enum PollStep {
    /// The task is closed: wake a foreign awaiter and resolve to nothing.
    Cancelled,
    /// The task is not complete: store the caller's wake-up in the awaiter
    /// slot, read the word again and decide with `registered` set.
    Register,
    /// The task is not complete and the caller is registered: stay pending.
    Pending,
    /// The output is ready: replace the word by `new`; on success wake a
    /// foreign awaiter if `notify`, and move the output out.
    Take { new: u64, notify: bool },
}

/// Decides one round of a poll from the state word just read. `registered`
/// says whether the caller's wake-up was stored since the last failed exchange.
pub fn poll_step(state: u64, registered: bool) -> (step: PollStep)
    ensures
        (step is Cancelled) == state_view(state).closed,
        (step is Register) == (!state_view(state).closed && !state_view(state).completed
            && !registered),
        (step is Pending) == (!state_view(state).closed && !state_view(state).completed
            && registered),
        step matches PollStep::Take { new, notify } ==> {
            &&& state_view(new) == (StateView { closed: true, ..state_view(state) })
            &&& notify == state_view(state).awaiter
            &&& (consistent(state_view(state)) ==> consistent(state_view(new)))
        },
{
    if state & CLOSED != 0 {
        return PollStep::Cancelled;
    }
    if state & COMPLETED == 0 {
        if registered {
            return PollStep::Pending;
        }
        return PollStep::Register;
    }
    proof {
        lemma_set_flag(state, 8);
    }
    PollStep::Take { new: state | CLOSED, notify: state & AWAITER != 0 }
}

/// A handle's transitions never leave a task running and complete at once.
pub proof fn lemma_handle_keeps_consistency(v: StateView)
    requires
        consistent(v),
    ensures
        consistent(cancelled_view(v)),
        consistent(released_view(v)),
        consistent(claimed_view(v)),
{
}

/// The output leaves its slot at most once: whoever claims it closes the
/// task, a closed task stays closed under every transition of a handle, and
/// no such transition makes an output unread that was not.
pub proof fn lemma_output_leaves_once(v: StateView)
    ensures
        !output_unread(claimed_view(v)),
        v.closed ==> cancelled_view(v).closed && released_view(v).closed && claimed_view(v).closed,
        output_unread(cancelled_view(v)) ==> output_unread(v),
        output_unread(released_view(v)) ==> output_unread(v),
{
}

/// A cancelled task is closed and in the executor's hands: the worker that
/// picks it up next finds it closed and does not poll its computation.
pub proof fn lemma_cancelled_is_not_polled(v: StateView)
    ensures
        cancelled_view(v).closed,
        cancelled_view(v).scheduled || cancelled_view(v).running,
{
}

/// Teardown is asked for by the last holder only: a departing handle asks
/// for it exactly when the task is closed and no reference is left, and then
/// neither a handle nor a reference remains that could ask again. Where an
/// open task is left without a reference, the executor gets the one claim.
pub proof fn lemma_destroy_by_last_holder(v: StateView)
    ensures
        (last_action(v) == LastAction::Destroy) == (v.refs == 0 && v.closed),
        last_action(v) == LastAction::Destroy ==> released_view(v).refs == 0 && !released_view(
            v,
        ).handle,
        last_action(v) == LastAction::Schedule ==> released_view(v).refs == 1 && released_view(
            v,
        ).scheduled && released_view(v).closed && !released_view(v).handle,
        last_action(v) == LastAction::Keep ==> released_view(v).refs == v.refs && v.refs >= 1,
{
}

/// The output is in its slot and nobody has taken it.
pub open spec fn output_unread(v: StateView) -> bool {
    v.completed && !v.closed
}

/// The state of a task whose unread output, if any, has just been claimed.
pub open spec fn claimed_view(v: StateView) -> StateView {
    if output_unread(v) {
        StateView { closed: true, ..v }
    } else {
        v
    }
}

/// The stored wake-up, unless it is the caller's own.
pub open spec fn foreign(stored: Option<u64>, current: u64) -> Option<u64> {
    match stored {
        Some(w) => if w != current {
            Some(w)
        } else {
            None
        },
        None => None,
    }
}

/// What a handle stands for: the task's state, its output slot and its
/// awaiter slot.
pub struct HandleView<R> {
    pub state: StateView,
    pub output: Option<R>,
    pub awaiter: Option<u64>,
}

/// What a poll of a handle resolves to.
#[derive(Debug)]
pub enum HandlePoll<R> {
    /// The task is neither complete nor closed.
    Pending,
    /// The task's output, or nothing if the task was cancelled.
    Ready(Option<R>),
}

/// A poll's result, with the wake-up that has to be invoked.
#[derive(Debug)]
pub struct Polled<R> {
    pub result: HandlePoll<R>,
    pub woken: Option<u64>,
}

/// What a cancellation asks of its caller.
#[derive(Clone, Copy, Debug, PartialEq, Eq)]
pub struct CancelEffect {
    /// Hand the task to the executor so that it drops the computation.
    pub schedule: bool,
    /// The wake-up to invoke.
    pub woken: Option<u64>,
}

/// What one turn of the executor did.
#[derive(Clone, Copy, Debug, PartialEq, Eq)]
pub struct RunEffect {
    /// Whether the computation was polled.
    pub polled: bool,
    /// The wake-up to invoke.
    pub woken: Option<u64>,
    /// Whether the task is to be handed to the executor again.
    pub resubmit: bool,
}

/// What a departed handle leaves behind.
#[derive(Debug)]
pub struct Released<R> {
    /// The state word after the departure.
    pub state: u64,
    /// The unread output, to be disposed of by the caller.
    pub output: Option<R>,
    /// What remains to do for the task.
    pub last: LastAction,
}

/// A handle that awaits the result of a task, together with the task's
/// header as one thread of control sees it.
///
/// Polling resolves to `None` when the task was cancelled and to `Some(res)`
/// when it completed with `res` and this poll is the one that takes it.
#[derive(Debug)]
pub struct ProcHandle<R> {
    state: u64,
    slot: Option<R>,
    awaiter: Option<u64>,
    stack: ProcStack,
}

impl<R> View for ProcHandle<R> {
    type V = HandleView<R>;

    closed spec fn view(&self) -> HandleView<R> {
        HandleView { state: state_view(self.state), output: self.slot, awaiter: self.awaiter }
    }
}

impl<R> ProcHandle<R> {
    /// The handle exists, the task is not running and complete at once, the
    /// awaiter flag tells whether a wake-up is stored, a complete task is not
    /// scheduled, a task that is scheduled or running is counted as a
    /// reference, and the slot holds exactly an unread output.
    pub open spec fn wf(&self) -> bool {
        let v = self@.state;
        &&& v.handle
        &&& consistent(v)
        &&& !v.locked
        &&& !(v.completed && v.scheduled)
        &&& (v.scheduled || v.running ==> v.refs >= 1)
        &&& v.awaiter == self@.awaiter.is_some()
        &&& self@.output.is_some() == output_unread(v)
    }

    /// The side-table the task was made with.
    pub closed spec fn spec_stack(&self) -> ProcStack {
        self.stack
    }

    /// A handle to a task as it is born.
    pub fn new(stack: ProcStack) -> (h: Self)
        ensures
            h.wf(),
            h@ == (HandleView::<R> { state: born(), output: None, awaiter: None }),
            h.spec_stack() == stack,
    {
        ProcHandle { state: initial_state(), slot: None, awaiter: None, stack }
    }

    /// The task's state word.
    pub fn state(&self) -> (s: u64)
        ensures
            state_view(s) == self@.state,
    {
        self.state
    }

    /// Returns a reference to the side-table stored inside the task.
    pub fn stack(&self) -> (s: &ProcStack)
        ensures
            *s == self.spec_stack(),
    {
        &self.stack
    }

    /// Takes the stored wake-up out of the awaiter slot and returns it for
    /// invocation unless it is the caller's own.
    fn notify_unless(&mut self, current: u64) -> (woken: Option<u64>)
        ensures
            final(self)@.state == (StateView { awaiter: false, ..old(self)@.state }),
            final(self)@.output == old(self)@.output,
            final(self)@.awaiter is None,
            final(self).spec_stack() == old(self).spec_stack(),
            woken == foreign(old(self)@.awaiter, current),
    {
        proof {
            lemma_clear_flag(self.state, 32);
        }
        self.state = self.state & !AWAITER;
        match self.awaiter.take() {
            Some(w) => if w != current {
                Some(w)
            } else {
                None
            },
            None => None,
        }
    }

    /// Takes the stored wake-up out of the awaiter slot for invocation.
    fn notify(&mut self) -> (woken: Option<u64>)
        ensures
            final(self)@.state == (StateView { awaiter: false, ..old(self)@.state }),
            final(self)@.output == old(self)@.output,
            final(self)@.awaiter is None,
            final(self).spec_stack() == old(self).spec_stack(),
            woken == old(self)@.awaiter,
    {
        proof {
            lemma_clear_flag(self.state, 32);
        }
        self.state = self.state & !AWAITER;
        self.awaiter.take()
    }

    /// Cancels the task.
    ///
    /// A completed or closed task is left as it is. Otherwise the task is
    /// closed; a scheduled or running task is closed in place, and a task
    /// that is neither gains a reference and is to be scheduled once more, so
    /// that the executor drops its computation; the registered awaiter is
    /// taken out to be woken. Only where a reference is added must the count
    /// have room for it.
    pub fn cancel(&mut self) -> (effect: CancelEffect)
        requires
            old(self).wf(),
            adds_reference(old(self)@.state) ==> old(self)@.state.refs <= max_refs(),
        ensures
            final(self).wf(),
            final(self).spec_stack() == old(self).spec_stack(),
            final(self)@.output == old(self)@.output,
            old(self)@.state.completed || old(self)@.state.closed ==> {
                &&& final(self)@ == old(self)@
                &&& effect == (CancelEffect { schedule: false, woken: None })
            },
            !old(self)@.state.completed && !old(self)@.state.closed ==> {
                &&& final(self)@.state == (StateView {
                    awaiter: false,
                    ..cancelled_view(old(self)@.state)
                })
                &&& final(self)@.awaiter is None
                &&& effect.schedule == adds_reference(old(self)@.state)
                &&& effect.woken == old(self)@.awaiter
            },
    {
        match cancel_step(self.state) {
            CancelStep::Nothing => CancelEffect { schedule: false, woken: None },
            CancelStep::Abort => CancelEffect { schedule: false, woken: None },
            CancelStep::Swap { new, schedule, notify } => {
                self.state = new;
                let woken = self.notify();
                CancelEffect { schedule, woken }
            },
        }
    }

    /// Polls the handle on behalf of the observer whose wake-up is `waker`.
    ///
    /// A closed task resolves to nothing. A task that is not complete stores
    /// the wake-up, replacing any other, and stays pending. A complete task
    /// is closed and its output moved out. Whenever the poll resolves, a
    /// stored wake-up other than the caller's own is taken out to be woken.
    pub fn poll(&mut self, waker: u64) -> (p: Polled<R>)
        requires
            old(self).wf(),
        ensures
            final(self).wf(),
            final(self).spec_stack() == old(self).spec_stack(),
            old(self)@.state.closed ==> {
                &&& p.result == HandlePoll::<R>::Ready(None)
                &&& p.woken == foreign(old(self)@.awaiter, waker)
                &&& final(self)@ == (HandleView::<R> {
                    state: StateView { awaiter: false, ..old(self)@.state },
                    output: None,
                    awaiter: None,
                })
            },
            !old(self)@.state.closed && !old(self)@.state.completed ==> {
                &&& p.result == HandlePoll::<R>::Pending
                &&& p.woken is None
                &&& final(self)@ == (HandleView::<R> {
                    state: StateView { awaiter: true, ..old(self)@.state },
                    output: None,
                    awaiter: Some(waker),
                })
            },
            output_unread(old(self)@.state) ==> {
                &&& p.result == HandlePoll::<R>::Ready(old(self)@.output)
                &&& old(self)@.output is Some
                &&& p.woken == foreign(old(self)@.awaiter, waker)
                &&& final(self)@ == (HandleView::<R> {
                    state: StateView { closed: true, awaiter: false, ..old(self)@.state },
                    output: None,
                    awaiter: None,
                })
            },
    {
        match poll_step(self.state, false) {
            PollStep::Cancelled => {
                let woken = self.notify_unless(waker);
                Polled { result: HandlePoll::Ready(None), woken }
            },
            PollStep::Take { new, notify } => {
                self.state = new;
                let woken = self.notify_unless(waker);
                let output = self.slot.take();
                Polled { result: HandlePoll::Ready(output), woken }
            },
            _ => {
                proof {
                    lemma_set_flag(self.state, 32);
                }
                self.awaiter = Some(waker);
                self.state = self.state | AWAITER;
                Polled { result: HandlePoll::Pending, woken: None }
            },
        }
    }

    /// A worker picks the scheduled task up.
    ///
    /// A closed task is not polled: its computation is dropped, the turn
    /// gives up its reference and the awaiter is taken out to be woken.
    /// Otherwise the task is no longer scheduled and runs.
    pub fn start(&mut self) -> (effect: RunEffect)
        requires
            old(self).wf(),
            old(self)@.state.scheduled,
            !old(self)@.state.running,
        ensures
            final(self).wf(),
            final(self).spec_stack() == old(self).spec_stack(),
            effect.polled == !old(self)@.state.closed,
            !effect.resubmit,
            old(self)@.state.closed ==> {
                &&& effect.woken == old(self)@.awaiter
                &&& final(self)@ == (HandleView::<R> {
                    state: StateView {
                        scheduled: false,
                        awaiter: false,
                        refs: (old(self)@.state.refs - 1) as nat,
                        ..old(self)@.state
                    },
                    output: old(self)@.output,
                    awaiter: None,
                })
            },
            !old(self)@.state.closed ==> {
                &&& effect.woken is None
                &&& final(self)@ == (HandleView::<R> {
                    state: started_view(old(self)@.state),
                    output: old(self)@.output,
                    awaiter: old(self)@.awaiter,
                })
            },
    {
        match begin_run(self.state) {
            None => {
                proof {
                    lemma_clear_flag(self.state, 1);
                    lemma_count_bounds(self.state & !1);
                    lemma_sub_reference(self.state & !1);
                }
                self.state = (self.state & !SCHEDULED) - REFERENCE;
                let woken = self.notify();
                RunEffect { polled: false, woken, resubmit: false }
            },
            Some(running) => {
                self.state = running;
                RunEffect { polled: true, woken: None, resubmit: false }
            },
        }
    }

    /// The poll of a running task has returned. `outcome` is what the
    /// computation yielded: `None` for pending, `Some` for ready.
    ///
    /// Where the task was closed during the poll, the computation and what it
    /// yielded are dropped and the awaiter is taken out to be woken. A
    /// pending task stops running; it is handed to the executor again exactly
    /// if a wake-up scheduled it during the poll. A ready output is stored,
    /// the task is complete and the awaiter is taken out to be woken. The
    /// turn gives up its reference unless the task is handed on.
    pub fn finish(&mut self, outcome: Option<R>) -> (effect: RunEffect)
        requires
            old(self).wf(),
            old(self)@.state.running,
        ensures
            final(self).wf(),
            final(self).spec_stack() == old(self).spec_stack(),
            effect.polled,
            old(self)@.state.closed ==> {
                &&& effect.woken == old(self)@.awaiter
                &&& !effect.resubmit
                &&& final(self)@ == (HandleView::<R> {
                    state: StateView {
                        running: false,
                        scheduled: false,
                        awaiter: false,
                        refs: (old(self)@.state.refs - 1) as nat,
                        ..old(self)@.state
                    },
                    output: None,
                    awaiter: None,
                })
            },
            !old(self)@.state.closed && outcome is None ==> {
                &&& effect.woken is None
                &&& effect.resubmit == old(self)@.state.scheduled
                &&& final(self)@ == (HandleView::<R> {
                    state: StateView {
                        refs: if old(self)@.state.scheduled {
                            old(self)@.state.refs
                        } else {
                            (old(self)@.state.refs - 1) as nat
                        },
                        ..suspended_view(old(self)@.state, old(self)@.state.scheduled)
                    },
                    output: old(self)@.output,
                    awaiter: old(self)@.awaiter,
                })
            },
            !old(self)@.state.closed && outcome is Some ==> {
                &&& effect.woken == old(self)@.awaiter
                &&& !effect.resubmit
                &&& final(self)@ == (HandleView::<R> {
                    state: StateView {
                        scheduled: false,
                        awaiter: false,
                        refs: (old(self)@.state.refs - 1) as nat,
                        ..completed_view(old(self)@.state)
                    },
                    output: outcome,
                    awaiter: None,
                })
            },
    {
        if self.state & CLOSED != 0 {
            proof {
                lemma_clear_flag(self.state, 2);
                lemma_clear_flag(self.state & !2, 1);
                lemma_count_bounds(self.state & !2 & !1);
                lemma_sub_reference(self.state & !2 & !1);
            }
            self.state = (self.state & !RUNNING & !SCHEDULED) - REFERENCE;
            let woken = self.notify();
            return RunEffect { polled: true, woken, resubmit: false };
        }
        match outcome {
            None => {
                let (idle, resubmit) = end_run_pending(self.state, self.state & SCHEDULED != 0);
                if resubmit {
                    self.state = idle;
                } else {
                    proof {
                        lemma_count_bounds(idle);
                        lemma_sub_reference(idle);
                    }
                    self.state = idle - REFERENCE;
                }
                RunEffect { polled: true, woken: None, resubmit }
            },
            Some(out) => {
                let (done, _) = end_run_ready(self.state);
                proof {
                    lemma_clear_flag(done, 1);
                    lemma_count_bounds(done & !1);
                    lemma_sub_reference(done & !1);
                }
                self.state = (done & !SCHEDULED) - REFERENCE;
                self.slot = Some(out);
                let woken = self.notify();
                RunEffect { polled: true, woken, resubmit: false }
            },
        }
    }

    /// One whole turn of the executor on a scheduled task that nobody runs.
    /// `outcome` is what the computation yields if it is polled: `None` for
    /// pending, `Some` for ready.
    ///
    /// A closed task is not polled: its computation is dropped. Otherwise the
    /// computation is polled; a ready output is stored and the task completed.
    /// Either way the turn gives up its reference, and a turn that closes or
    /// completes the task takes the awaiter out to be woken.
    pub fn run(&mut self, outcome: Option<R>) -> (effect: RunEffect)
        requires
            old(self).wf(),
            old(self)@.state.scheduled,
            !old(self)@.state.running,
        ensures
            final(self).wf(),
            final(self).spec_stack() == old(self).spec_stack(),
            effect.polled == !old(self)@.state.closed,
            !effect.resubmit,
            old(self)@.state.closed ==> {
                &&& effect.woken == old(self)@.awaiter
                &&& final(self)@ == (HandleView::<R> {
                    state: StateView {
                        scheduled: false,
                        awaiter: false,
                        refs: (old(self)@.state.refs - 1) as nat,
                        ..old(self)@.state
                    },
                    output: old(self)@.output,
                    awaiter: None,
                })
            },
            !old(self)@.state.closed && outcome is None ==> {
                &&& effect.woken is None
                &&& final(self)@ == (HandleView::<R> {
                    state: StateView {
                        scheduled: false,
                        refs: (old(self)@.state.refs - 1) as nat,
                        ..old(self)@.state
                    },
                    output: old(self)@.output,
                    awaiter: old(self)@.awaiter,
                })
            },
            !old(self)@.state.closed && outcome is Some ==> {
                &&& effect.woken == old(self)@.awaiter
                &&& final(self)@ == (HandleView::<R> {
                    state: StateView {
                        scheduled: false,
                        completed: true,
                        awaiter: false,
                        refs: (old(self)@.state.refs - 1) as nat,
                        ..old(self)@.state
                    },
                    output: outcome,
                    awaiter: None,
                })
            },
    {
        let picked = self.start();
        if picked.polled {
            self.finish(outcome)
        } else {
            picked
        }
    }

    /// Gives the handle up.
    ///
    /// An unread output is claimed first and handed back for disposal. Then
    /// the handle flag is cleared. If that leaves an open task without any
    /// reference, the task is closed and is to be scheduled once more; if it
    /// leaves a closed task without any reference, the task is to be destroyed.
    pub fn release(self) -> (r: Released<R>)
        requires
            self.wf(),
        ensures
            r.output == self@.output,
            state_view(r.state) == released_view(claimed_view(self@.state)),
            r.last == last_action(claimed_view(self@.state)),
    {
        let mut this = self;
        if let Some(new) = drop_fast_path(this.state) {
            return Released { state: new, output: None, last: LastAction::Keep };
        }
        let mut output: Option<R> = None;
        if let DropStep::TakeOutput { new } = drop_step(this.state) {
            this.state = new;
            output = this.slot.take();
        }
        match drop_step(this.state) {
            DropStep::Release { new, last } => Released { state: new, output, last },
            DropStep::TakeOutput { new } => Released { state: new, output, last: LastAction::Keep },
        }
    }
}

} // verus!
