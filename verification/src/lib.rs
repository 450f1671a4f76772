//! Task core of a minimal single-threaded async runtime.
//!
//! A suspendable computation (a future) and a scheduler are combined into one
//! reference-counted task. The task is driven by repeated wake/poll cycles:
//! polling advances the future one step; when the future suspends, a waker
//! bound to the task can hand it back to the embedded scheduler; when the
//! future completes, its output is stored in the task and a registered join
//! waiter is notified. The allocation is released exactly when the last
//! counted reference is dropped.

pub mod future;
pub mod header;
pub mod layout;
pub mod raw;
pub mod sched;
pub mod state;
