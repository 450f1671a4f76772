//! Lifecycle state of one task: reference count, run-state, join-waiter flag.

use vstd::prelude::*;

verus! {

/// Where a task stands in its wake/poll cycle.
#[derive(Clone, Copy, Debug, PartialEq, Eq, Structural)]
pub enum RunState {
    /// Not currently running and not queued for execution.
    Idle,
    /// A poll is executing right now.
    Running,
    /// Queued for execution but not yet polled.
    Scheduled,
    /// The future has produced its output.
    Complete,
}

/// Compact lifecycle state of one task. The allocation that holds the task is
/// released exactly when `ref_count` drops to zero; each cloned waker, each
/// live handle and the join side account for one reference.
#[derive(Clone, Copy, Debug, PartialEq, Eq, Structural)]
pub struct State {
    /// Number of live counted references to the task.
    pub ref_count: u64,
    /// Run-state of the task.
    pub run_state: RunState,
    /// Whether a party awaiting the output has registered a completion waker.
    pub has_join_waiter: bool,
}

impl State {
    /// The state after one more counted reference is taken.
    pub open spec fn spec_ref_incr(self) -> State {
        State { ref_count: (self.ref_count + 1) as u64, ..self }
    }

    /// The state after one counted reference is released.
    pub open spec fn spec_ref_decr(self) -> State {
        State { ref_count: (self.ref_count - 1) as u64, ..self }
    }

    /// The state after `n` more counted references are taken, one at a time.
    pub open spec fn spec_ref_incr_n(self, n: nat) -> State
        decreases n,
    {
        if n == 0 {
            self
        } else {
            self.spec_ref_incr_n((n - 1) as nat).spec_ref_incr()
        }
    }

    /// The state after `n` counted references are released, one at a time.
    pub open spec fn spec_ref_decr_n(self, n: nat) -> State
        decreases n,
    {
        if n == 0 {
            self
        } else {
            self.spec_ref_decr_n((n - 1) as nat).spec_ref_decr()
        }
    }

    /// Initial state: one reference (the creator's), idle, no join waiter.
    pub fn new() -> (s: State)
        ensures
            s == (State { ref_count: 1, run_state: RunState::Idle, has_join_waiter: false }),
    {
        State { ref_count: 1, run_state: RunState::Idle, has_join_waiter: false }
    }

    /// Takes one more counted reference. Overflowing the counter would be a
    /// fatal condition, so it is excluded up front.
    pub fn ref_incr(&mut self)
        requires
            old(self).ref_count < u64::MAX,
        ensures
            *final(self) == old(self).spec_ref_incr(),
    {
        self.ref_count = self.ref_count + 1;
    }

    /// Releases one counted reference. Releasing a reference that was never
    /// taken would be a fatal condition, so it is excluded up front.
    pub fn ref_decr(&mut self)
        requires
            old(self).ref_count >= 1,
        ensures
            *final(self) == old(self).spec_ref_decr(),
    {
        self.ref_count = self.ref_count - 1;
    }

    /// Current number of live counted references.
    pub fn ref_count(&self) -> (n: u64)
        ensures
            n == self.ref_count,
    {
        self.ref_count
    }

    /// Idle/Scheduled -> Running, on entry to a poll. Polling a task that is
    /// already running or complete is a logic error, so it is excluded.
    pub fn transition_to_running(&mut self)
        requires
            old(self).run_state == RunState::Idle || old(self).run_state == RunState::Scheduled,
        ensures
            *final(self) == (State { run_state: RunState::Running, ..*old(self) }),
    {
        self.run_state = RunState::Running;
    }

    /// Running -> Idle, when the future returned pending.
    pub fn transition_to_idle(&mut self)
        requires
            old(self).run_state == RunState::Running,
        ensures
            *final(self) == (State { run_state: RunState::Idle, ..*old(self) }),
    {
        self.run_state = RunState::Idle;
    }

    /// Any state -> Scheduled: a wake has been requested. Duplicate wakes
    /// before the next poll leave the state Scheduled again.
    pub fn transition_to_scheduled(&mut self)
        ensures
            *final(self) == (State { run_state: RunState::Scheduled, ..*old(self) }),
    {
        self.run_state = RunState::Scheduled;
    }

    /// Running -> Complete, when the future produced its output.
    pub fn transition_to_complete(&mut self)
        requires
            old(self).run_state == RunState::Running,
        ensures
            *final(self) == (State { run_state: RunState::Complete, ..*old(self) }),
    {
        self.run_state = RunState::Complete;
    }

    /// Whether a join waiter is registered.
    pub fn has_join_waker(&self) -> (b: bool)
        ensures
            b == self.has_join_waiter,
    {
        self.has_join_waiter
    }

    /// Records that a party awaiting the output has registered a waker.
    pub fn set_join_waker(&mut self)
        ensures
            *final(self) == (State { has_join_waiter: true, ..*old(self) }),
    {
        self.has_join_waiter = true;
    }

    /// Clears the join-waiter flag, when the join side is discarded.
    pub fn unset_join_handle(&mut self)
        ensures
            *final(self) == (State { has_join_waiter: false, ..*old(self) }),
    {
        self.has_join_waiter = false;
    }
}

/// Taking `n` references one at a time adds exactly `n` to the count and
/// changes nothing else.
pub proof fn lemma_ref_incr_n_count(s: State, n: nat)
    requires
        s.ref_count + n <= u64::MAX,
    ensures
        s.spec_ref_incr_n(n) == (State { ref_count: (s.ref_count + n) as u64, ..s }),
    decreases n,
{
    if n > 0 {
        lemma_ref_incr_n_count(s, (n - 1) as nat);
    }
}

/// Releasing `n` references one at a time subtracts exactly `n` from the count
/// and changes nothing else.
pub proof fn lemma_ref_decr_n_count(s: State, n: nat)
    requires
        n <= s.ref_count,
    ensures
        s.spec_ref_decr_n(n) == (State { ref_count: (s.ref_count - n) as u64, ..s }),
    decreases n,
{
    if n > 0 {
        lemma_ref_decr_n_count(s, (n - 1) as nat);
    }
}

/// Law (waker accounting): cloning a waker `n` times and then dropping those
/// `n` waker references returns the lifecycle state, its reference count
/// included, exactly to its starting value.
pub proof fn lemma_waker_clone_drop_balance(s: State, n: nat)
    requires
        s.ref_count + n <= u64::MAX,
    ensures
        s.spec_ref_incr_n(n).spec_ref_decr_n(n) == s,
{
    lemma_ref_incr_n_count(s, n);
    lemma_ref_decr_n_count(s.spec_ref_incr_n(n), n);
}

} // verus!
