//! Suspendable computations: advanced one step at a time until they yield a
//! final value.

use vstd::prelude::*;

verus! {

/// Outcome of one step of a future: either its final value or an indication
/// that it is not yet done.
#[derive(Debug)]
pub enum Poll<T> {
    /// The future finished and produced this value.
    Ready(T),
    /// The future is not yet done.
    Pending,
}

/// A suspendable computation, advanced one step at a time. Once a step has
/// returned `Ready`, the future is resolved and must never be stepped again.
pub trait Future: Sized {
    /// The value the future eventually produces.
    type Output;

    /// Whether the future has already produced its final value.
    spec fn resolved(&self) -> bool;

    /// What one step of this particular future means: how the state advanced
    /// from `pre` to `post` and what the step returned.
    spec fn step_ens(pre: Self, post: Self, r: Poll<Self::Output>) -> bool;

    /// Advances the computation by one step.
    fn step(&mut self) -> (r: Poll<Self::Output>)
        requires
            !old(self).resolved(),
        ensures
            Self::step_ens(*old(self), *final(self), r),
            (r is Ready) <==> final(self).resolved(),
    ;
}

/// A future that completes with its value on the very first step.
pub struct ReadyFuture<T> {
    /// The value still to be handed out; `None` once the future resolved.
    pub value: Option<T>,
}

impl<T> ReadyFuture<T> {
    /// A future that will immediately complete with `value`.
    pub fn new(value: T) -> (f: Self)
        ensures
            f.value == Some(value),
            !f.resolved(),
    {
        ReadyFuture { value: Some(value) }
    }
}

impl<T> Future for ReadyFuture<T> {
    type Output = T;

    open spec fn resolved(&self) -> bool {
        self.value is None
    }

    open spec fn step_ens(pre: Self, post: Self, r: Poll<T>) -> bool {
        &&& post.value is None
        &&& pre.value matches Some(v) && r == Poll::Ready(v)
    }

    fn step(&mut self) -> (r: Poll<T>) {
        let taken = self.value.take();
        match taken {
            Some(v) => Poll::Ready(v),
            None => vstd::pervasive::unreached(),
        }
    }
}

/// A future that returns pending on its first step and completes with its
/// value on the second.
pub struct YieldOnceFuture<T> {
    /// The value still to be handed out; `None` once the future resolved.
    pub value: Option<T>,
    /// Whether the pending step has already happened.
    pub yielded: bool,
}

impl<T> YieldOnceFuture<T> {
    /// A future that suspends once and then completes with `value`.
    pub fn new(value: T) -> (f: Self)
        ensures
            f.value == Some(value),
            !f.yielded,
            !f.resolved(),
    {
        YieldOnceFuture { value: Some(value), yielded: false }
    }
}

impl<T> Future for YieldOnceFuture<T> {
    type Output = T;

    open spec fn resolved(&self) -> bool {
        self.value is None
    }

    open spec fn step_ens(pre: Self, post: Self, r: Poll<T>) -> bool {
        if !pre.yielded {
            &&& r is Pending
            &&& post.value == pre.value
            &&& post.yielded
        } else {
            &&& post.value is None
            &&& pre.value matches Some(v) && r == Poll::Ready(v)
        }
    }

    fn step(&mut self) -> (r: Poll<T>) {
        if !self.yielded {
            self.yielded = true;
            Poll::Pending
        } else {
            let taken = self.value.take();
            match taken {
                Some(v) => Poll::Ready(v),
                None => vstd::pervasive::unreached(),
            }
        }
    }
}

} // verus!
