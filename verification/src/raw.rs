//! The task itself: one value combining a header, an embedded scheduler and a
//! status cell, driven to completion through wake/poll cycles.

use vstd::prelude::*;

use crate::future::{Future, Poll};
use crate::header::{Header, JoinWaker};
use crate::layout::{computes_to, FieldLayout, TaskLayout};
use crate::sched::{Schedule, Task};
use crate::state::{RunState, State};

verus! {

/// The status of a task: the suspended future while it runs, then its output
/// exactly once, then nothing. The cell only ever moves forwards:
/// Running -> Finished -> Consumed.
pub enum Status<F: Future> {
    /// The future is still being driven.
    Running(F),
    /// The future completed with this output, not yet taken.
    Finished(F::Output),
    /// The output has been taken by the join side.
    Consumed,
}

/// One task: the core components of a single allocation. The header comes
/// first, so the task can be handled without knowing the concrete future or
/// scheduler type; the embedded scheduler and the status cell follow, living
/// and dying with the task.
pub struct RawTask<F: Future, S: Schedule> {
    /// Lifecycle state and join waker; the type-erased prefix.
    pub header: Header,
    /// The scheduler that accepts the task when it is woken.
    pub scheduler: S,
    /// The future, or its output, or nothing once the output was taken.
    pub status: Status<F>,
}

impl<F: Future, S: Schedule> RawTask<F, S> {
    /// Invariant of every live task, established by `new` and preserved by
    /// every operation:
    /// the reference count is positive until the task is released; between
    /// operations the task is never Running (each poll is one atomic step);
    /// an Idle task always holds a future; a task still holding its future
    /// has not completed; a stored join waker implies the flag is set, and
    /// never outlives completion; a stored future is never resolved.
    pub open spec fn wf(&self) -> bool {
        &&& self.header.state.ref_count >= 1
        &&& !(self.header.state.run_state is Running)
        &&& (self.header.state.run_state is Idle ==> self.status is Running)
        &&& (self.status is Running ==> !(self.header.state.run_state is Complete))
        &&& (self.header.join_waker is Some ==> self.header.state.has_join_waiter)
        &&& (self.header.join_waker is Some ==> self.status is Running)
        &&& (self.status matches Status::Running(f) ==> !f.resolved())
    }

    /// Whether the task may be polled: it is Idle or Scheduled and still
    /// holds its future. Polling a Running or completed task is a logic
    /// error; an executor that tolerates redundant wake-ups checks this
    /// before polling.
    pub open spec fn pollable(&self) -> bool {
        &&& self.header.state.run_state is Idle || self.header.state.run_state is Scheduled
        &&& self.status is Running
    }

    /// Whether some step of the future `f1` can finish with the value `v`:
    /// what the output stored at completion is promised to be.
    pub open spec fn some_step_yields(f1: F, v: F::Output) -> bool {
        exists|f2: F| F::step_ens(f1, f2, Poll::Ready(v))
    }

    /// Combines a future and a scheduler into one fresh task: one reference
    /// (the creator's), idle, no join waiter, the future ready to run.
    pub fn new(future: F, scheduler: S) -> (t: Self)
        requires
            !future.resolved(),
        ensures
            t.wf(),
            t.header.state == (State {
                ref_count: 1,
                run_state: RunState::Idle,
                has_join_waiter: false,
            }),
            t.header.join_waker is None,
            t.status == Status::<F>::Running(future),
            t.scheduler == scheduler,
    {
        RawTask { header: Header::new(), scheduler, status: Status::Running(future) }
    }

    /// Computes the memory layout of one allocation holding the header, the
    /// scheduler and the status cell of this instantiation. Deterministic:
    /// the same (future, scheduler) pair always yields the same sizes and
    /// offsets, so an allocation and every later access agree on where each
    /// field lives. `None` means the combined layout would exceed the
    /// allocator's bounds, a fatal condition.
    pub fn layout() -> (r: Option<TaskLayout>)
        ensures
            computes_to(
                FieldLayout::spec_of::<Header>(),
                FieldLayout::spec_of::<S>(),
                FieldLayout::spec_of::<Status<F>>(),
                r,
            ),
            r matches Some(l) ==> vstd::layout::valid_layout(l.size, l.align),
    {
        let header = FieldLayout::of::<Header>();
        let schedule = FieldLayout::of::<S>();
        let status = FieldLayout::of::<Status<F>>();
        TaskLayout::compute(header, schedule, status)
    }

    /// Whether the task may be polled right now.
    pub fn can_poll(&self) -> (b: bool)
        ensures
            b == self.pollable(),
    {
        let state_ok = match self.header.state.run_state {
            RunState::Idle => true,
            RunState::Scheduled => true,
            _ => false,
        };
        let status_ok = match &self.status {
            Status::Running(_) => true,
            _ => false,
        };
        state_ok && status_ok
    }

    /// What one poll does to a task: the scheduler, the reference count and
    /// the join-waiter flag are untouched; on suspension the task is Idle
    /// again, its stepped future kept and nobody notified; on completion the
    /// output the future yielded is stored, the task is Complete, and the
    /// stored join waker, if any, is handed out as `notify`.
    pub open spec fn poll_ens(pre: Self, post: Self, notify: Option<JoinWaker>) -> bool {
        &&& post.scheduler == pre.scheduler
        &&& post.header.state.ref_count == pre.header.state.ref_count
        &&& post.header.state.has_join_waiter == pre.header.state.has_join_waiter
        &&& !(post.status is Consumed)
        &&& (post.status matches Status::Running(f2) ==> {
            &&& post.header.state.run_state is Idle
            &&& post.header.join_waker == pre.header.join_waker
            &&& notify is None
            &&& (pre.status matches Status::Running(f1) ==> F::step_ens(f1, f2, Poll::Pending))
        })
        &&& (post.status matches Status::Finished(v) ==> {
            &&& post.header.state.run_state is Complete
            &&& post.header.join_waker is None
            &&& notify == pre.header.join_waker
            &&& (pre.status matches Status::Running(f1) ==> Self::some_step_yields(f1, v))
        })
    }

    /// Drives the future one step. On completion the output is stored, the
    /// task becomes Complete and the registered join waker, if any, is handed
    /// out for notification, exactly once. On suspension the task returns to
    /// Idle with its future kept. The reference count is untouched.
    pub fn poll(&mut self) -> (notify: Option<JoinWaker>)
        requires
            old(self).wf(),
            old(self).pollable(),
        ensures
            final(self).wf(),
            Self::poll_ens(*old(self), *final(self), notify),
    {
        let mut taken: Status<F> = Status::Consumed;
        core::mem::swap(&mut self.status, &mut taken);
        self.header.state.transition_to_running();
        match taken {
            Status::Running(mut fut) => {
                let ghost pre_fut: F = fut;
                let r = fut.step();
                match r {
                    Poll::Ready(v) => {
                        self.header.state.transition_to_complete();
                        let notify = if self.header.state.has_join_waker() {
                            self.header.wake_join_handle()
                        } else {
                            None
                        };
                        proof {
                            assert(Self::some_step_yields(pre_fut, v)) by {
                                assert(F::step_ens(pre_fut, fut, Poll::Ready(v)));
                            }
                        }
                        self.status = Status::Finished(v);
                        notify
                    },
                    Poll::Pending => {
                        self.header.state.transition_to_idle();
                        self.status = Status::Running(fut);
                        None
                    },
                }
            },
            Status::Finished(_) => vstd::pervasive::unreached(),
            Status::Consumed => vstd::pervasive::unreached(),
        }
    }

    /// Moves the completed output out of the status cell, leaving it
    /// Consumed. The output can be taken exactly once, only after the future
    /// completed; any other access is a contract violation and is excluded
    /// up front.
    pub fn get_output(&mut self) -> (out: F::Output)
        requires
            old(self).wf(),
            old(self).status is Finished,
        ensures
            final(self).wf(),
            final(self).status is Consumed,
            final(self).header == old(self).header,
            final(self).scheduler == old(self).scheduler,
            (old(self).status matches Status::Finished(v) ==> out == v),
    {
        let mut taken: Status<F> = Status::Consumed;
        core::mem::swap(&mut self.status, &mut taken);
        match taken {
            Status::Finished(v) => v,
            _ => vstd::pervasive::unreached(),
        }
    }

    /// Takes the completed output if there is one to take. Returns `None`,
    /// leaving the task untouched, when the future has not completed or the
    /// output was already consumed: a second take is rejected rather than
    /// answered with stale data.
    pub fn try_get_output(&mut self) -> (out: Option<F::Output>)
        requires
            old(self).wf(),
        ensures
            final(self).wf(),
            (out is Some) <==> old(self).status is Finished,
            (old(self).status matches Status::Finished(v) ==> out == Some(v)),
            (out is Some ==> final(self).status is Consumed),
            (out is None ==> *final(self) == *old(self)),
            final(self).header == old(self).header,
            final(self).scheduler == old(self).scheduler,
    {
        let finished = match &self.status {
            Status::Finished(_) => true,
            _ => false,
        };
        if finished {
            Some(self.get_output())
        } else {
            None
        }
    }

    /// Packages the task as a schedulable unit and hands it to the embedded
    /// scheduler: exactly one acceptance per call. The handle is non-owning;
    /// reference accounting stays with the caller.
    pub fn schedule(&mut self)
        requires
            old(self).wf(),
        ensures
            final(self).wf(),
            final(self).header == old(self).header,
            final(self).status == old(self).status,
            final(self).scheduler.accepted() == old(self).scheduler.accepted() + 1,
    {
        let task = Task;
        self.scheduler.schedule(task);
    }

    /// Wakes the task: transitions it to Scheduled and hands it to the
    /// embedded scheduler, exactly once. Waking an already completed or
    /// already scheduled task never corrupts state; at most it causes a
    /// redundant acceptance, which the executor tolerates by checking
    /// `can_poll` before polling. The waker's reference stays with the
    /// caller, who releases it separately with `drop_waker`.
    pub fn wake(&mut self)
        requires
            old(self).wf(),
        ensures
            final(self).wf(),
            final(self).header.state == (State {
                run_state: RunState::Scheduled,
                ..old(self).header.state
            }),
            final(self).header.join_waker == old(self).header.join_waker,
            final(self).status == old(self).status,
            final(self).scheduler.accepted() == old(self).scheduler.accepted() + 1,
    {
        self.header.state.transition_to_scheduled();
        self.schedule();
    }

    /// Wakes the task through a borrowed waker: the same transition and the
    /// same single acceptance as `wake`, with the reference likewise kept by
    /// the caller.
    pub fn wake_by_ref(&mut self)
        requires
            old(self).wf(),
        ensures
            final(self).wf(),
            final(self).header.state == (State {
                run_state: RunState::Scheduled,
                ..old(self).header.state
            }),
            final(self).header.join_waker == old(self).header.join_waker,
            final(self).status == old(self).status,
            final(self).scheduler.accepted() == old(self).scheduler.accepted() + 1,
    {
        self.header.state.transition_to_scheduled();
        self.schedule();
    }

    /// Clones a waker bound to the task: one more counted reference.
    pub fn clone_waker(&mut self)
        requires
            old(self).wf(),
            old(self).header.state.ref_count < u64::MAX,
        ensures
            final(self).wf(),
            final(self).header.state == old(self).header.state.spec_ref_incr(),
            final(self).header.join_waker == old(self).header.join_waker,
            final(self).status == old(self).status,
            final(self).scheduler == old(self).scheduler,
    {
        self.header.state.ref_incr();
    }

    /// Releases one waker reference. When it was the last reference the task
    /// is released with it and nothing is returned: the allocation is freed
    /// exactly once, at the transition from one reference to none.
    pub fn drop_waker(self) -> (r: Option<Self>)
        requires
            self.wf(),
        ensures
            (r is Some) <==> self.header.state.ref_count > 1,
            r matches Some(t) ==> {
                &&& t.wf()
                &&& t.header.state == self.header.state.spec_ref_decr()
                &&& t.header.join_waker == self.header.join_waker
                &&& t.status == self.status
                &&& t.scheduler == self.scheduler
            },
    {
        let mut this = self;
        this.header.state.ref_decr();
        if this.header.state.ref_count == 0 {
            None
        } else {
            Some(this)
        }
    }

    /// Registers the waker of a party awaiting the output. Only possible
    /// while the future still runs: a waiter registers before completion and
    /// is notified at the moment of completion.
    pub fn register_join_waker(&mut self, waker: JoinWaker)
        requires
            old(self).wf(),
            old(self).status is Running,
        ensures
            final(self).wf(),
            final(self).header.join_waker == Some(waker),
            final(self).header.state == (State {
                has_join_waiter: true,
                ..old(self).header.state
            }),
            final(self).status == old(self).status,
            final(self).scheduler == old(self).scheduler,
    {
        self.header.state.set_join_waker();
        self.header.join_waker = Some(waker);
    }

    /// Discards the join side, whether or not the output was ever taken:
    /// clears the join-waiter flag and its waker, and releases the reference
    /// the join side held; the task is freed with it when that was the last
    /// reference.
    pub fn drop_join_handle(self) -> (r: Option<Self>)
        requires
            self.wf(),
        ensures
            (r is Some) <==> self.header.state.ref_count > 1,
            r matches Some(t) ==> {
                &&& t.wf()
                &&& t.header.state == (State {
                    ref_count: (self.header.state.ref_count - 1) as u64,
                    run_state: self.header.state.run_state,
                    has_join_waiter: false,
                })
                &&& t.header.join_waker is None
                &&& t.status == self.status
                &&& t.scheduler == self.scheduler
            },
    {
        let mut this = self;
        this.header.state.unset_join_handle();
        this.header.join_waker = None;
        this.header.state.ref_decr();
        if this.header.state.ref_count == 0 {
            None
        } else {
            Some(this)
        }
    }
}

/// The operation table of one (future, scheduler) instantiation: the four
/// entry points through which the holder of a task drives it. The role of a
/// table of function pointers, fixed per instantiation and shared by all its
/// tasks, is played by one zero-sized value per (future, scheduler) pair
/// whose methods dispatch to that pair.
pub struct TaskVTable<F: Future, S: Schedule> {
    /// Marks the future type of the instantiation the table serves.
    pub future: core::marker::PhantomData<F>,
    /// Marks the scheduler type of the instantiation the table serves.
    pub scheduler: core::marker::PhantomData<S>,
}

impl<F: Future, S: Schedule> TaskVTable<F, S> {
    /// The table of the instantiation named by the type parameters.
    pub fn new() -> (t: Self) {
        TaskVTable {
            future: core::marker::PhantomData,
            scheduler: core::marker::PhantomData,
        }
    }

    /// Entry point `poll`: drives the task's future one step.
    pub fn poll(&self, task: &mut RawTask<F, S>) -> (notify: Option<JoinWaker>)
        requires
            old(task).wf(),
            old(task).pollable(),
        ensures
            final(task).wf(),
            RawTask::<F, S>::poll_ens(*old(task), *final(task), notify),
    {
        task.poll()
    }

    /// Entry point `get_output`: moves the completed output out to the
    /// caller, exactly once.
    pub fn get_output(&self, task: &mut RawTask<F, S>) -> (out: F::Output)
        requires
            old(task).wf(),
            old(task).status is Finished,
        ensures
            final(task).wf(),
            final(task).status is Consumed,
            final(task).header == old(task).header,
            final(task).scheduler == old(task).scheduler,
            (old(task).status matches Status::Finished(v) ==> out == v),
    {
        task.get_output()
    }

    /// Entry point `schedule`: hands the task to its embedded scheduler.
    pub fn schedule(&self, task: &mut RawTask<F, S>)
        requires
            old(task).wf(),
        ensures
            final(task).wf(),
            final(task).header == old(task).header,
            final(task).status == old(task).status,
            final(task).scheduler.accepted() == old(task).scheduler.accepted() + 1,
    {
        task.schedule()
    }

    /// Entry point `drop_join_handle`: discards the join side and releases
    /// its reference; the task is freed with it when that was the last one.
    pub fn drop_join_handle(&self, task: RawTask<F, S>) -> (r: Option<RawTask<F, S>>)
        requires
            task.wf(),
        ensures
            (r is Some) <==> task.header.state.ref_count > 1,
            r matches Some(t) ==> {
                &&& t.wf()
                &&& t.header.state == (State {
                    ref_count: (task.header.state.ref_count - 1) as u64,
                    run_state: task.header.state.run_state,
                    has_join_waiter: false,
                })
                &&& t.header.join_waker is None
                &&& t.status == task.status
                &&& t.scheduler == task.scheduler
            },
    {
        task.drop_join_handle()
    }
}

/// Law (reference counting): a live task always holds at least one counted
/// reference. Release happens only in `drop_waker` and `drop_join_handle`,
/// whose contracts free the task exactly at the transition from one
/// reference to none, never earlier and never twice.
pub proof fn lemma_refcount_positive<F: Future, S: Schedule>(t: &RawTask<F, S>)
    requires
        t.wf(),
    ensures
        t.header.state.ref_count >= 1,
{
}

/// Law (no reentrant poll): between operations a task is never observed
/// Running, and `poll` demands an Idle or Scheduled task that still holds
/// its future, so no poll can start while another poll of the same task is
/// underway, nor after completion.
pub proof fn lemma_no_reentrant_poll<F: Future, S: Schedule>(t: &RawTask<F, S>)
    requires
        t.wf(),
    ensures
        !(t.header.state.run_state is Running),
        t.header.state.run_state is Complete ==> !t.pollable(),
{
}

/// Law (completion is terminal): once the output has been taken the status
/// cell stays Consumed; no further `get_output` is possible and the task can
/// never be polled again.
pub proof fn lemma_output_taken_once<F: Future, S: Schedule>(t: &RawTask<F, S>)
    requires
        t.wf(),
        t.status is Consumed,
    ensures
        !(t.status is Finished),
        !t.pollable(),
{
}

/// Law (join notification happens at most once): a task whose future is gone
/// holds no join waker any more, so no operation can notify a waiter a
/// second time; the one notification is handed out by the completing poll.
pub proof fn lemma_join_notified_at_most_once<F: Future, S: Schedule>(t: &RawTask<F, S>)
    requires
        t.wf(),
        !(t.status is Running),
    ensures
        t.header.join_waker is None,
{
}

} // verus!
