//! Type-erased task header: lifecycle state and the optional join waker.

use vstd::prelude::*;

use crate::state::{RunState, State};

verus! {

/// Completion waker registered by the party awaiting a task's output. The
/// `id` lets the surrounding runtime recognise which waiter was notified.
#[derive(Clone, Copy, Debug, PartialEq, Eq, Structural)]
pub struct JoinWaker {
    /// Identifies the registered waiter to the surrounding runtime.
    pub id: u64,
}

impl JoinWaker {
    /// A completion waker carrying the given identifier.
    pub fn new(id: u64) -> (w: JoinWaker)
        ensures
            w == (JoinWaker { id }),
    {
        JoinWaker { id }
    }
}

/// The type-erased prefix of every task: the part touchable without knowing
/// the concrete future or scheduler type. Holds the lifecycle state and the
/// waker of a party awaiting the task's output, if one is registered.
pub struct Header {
    /// Lifecycle state of the task.
    pub state: State,
    /// Waker of the registered join waiter; consumed when the waiter is
    /// notified at completion, or cleared when the join side is discarded.
    pub join_waker: Option<JoinWaker>,
}

impl Header {
    /// A fresh header: initial lifecycle state, no join waker.
    pub fn new() -> (h: Header)
        ensures
            h.state == (State {
                ref_count: 1,
                run_state: RunState::Idle,
                has_join_waiter: false,
            }),
            h.join_waker is None,
    {
        Header { state: State::new(), join_waker: None }
    }

    /// Consumes the stored join waker, if any, and hands it out so the caller
    /// can notify it. Called exactly once, at the transition to Complete.
    pub fn wake_join_handle(&mut self) -> (w: Option<JoinWaker>)
        ensures
            w == old(self).join_waker,
            final(self).join_waker is None,
            final(self).state == old(self).state,
    {
        self.join_waker.take()
    }
}

} // verus!
