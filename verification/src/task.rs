use futures::task::FutureObj;
use futures::FutureExt;
use std::future::Future;
use std::task::Context;
use std::task::Waker;
use vstd::prelude::*;

verus! {

/// `futures::task::FutureObj`: an owned future of any kind that can be sent
/// between threads and polled in place.
#[verifier::external_type_specification]
#[verifier::external_body]
#[verifier::reject_recursive_types(T)]
pub struct ExFutureObj<'a, T>(FutureObj<'a, T>);

/// One computation owned by the executor, resumable until it finishes.
///
/// Nothing is known of what a computation does or waits for: a `Task` is a
/// value that is moved from the spawn queue into its slot, out of it for each
/// resume attempt and back, and dropped when it has finished. All it shows is
/// whether it has finished.
#[derive(Debug)]
pub struct Task {
    future: FutureObj<'static, ()>,
    finished: bool,
}

/// `FutureExt::boxed`, then `FutureObj::from` the pinned box: moves the future
/// to the heap and keeps it as a future object that can be sent between threads.
#[verifier::external_body]
fn boxed<F: Future<Output = ()> + Send + 'static>(future: F) -> (object: FutureObj<'static, ()>) {
    FutureObj::from(future.boxed())
}

/// `FutureExt::poll_unpin` with a `Context` made by `Context::from_waker`:
/// runs the future up to its next suspension point or to its end, and tells
/// whether it has ended.
///
/// A future that has ended must not be polled again, so the task must not be
/// marked as finished. What the future does, and what becomes of the task, is
/// the future's own affair: nothing is claimed of either.
#[verifier::external_body]
fn poll(task: &mut Task, waker: &Waker) -> (ended: bool)
    requires
        !old(task).finished,
{
    task.future.poll_unpin(&mut Context::from_waker(waker)).is_ready()
}

impl Task {
    /// Whether the computation has run to its end.
    pub closed spec fn is_finished(&self) -> bool {
        self.finished
    }

    /// Wraps a future so that the executor can own and resume it.
    pub fn new<F: Future<Output = ()> + Send + 'static>(future: F) -> (task: Task)
        ensures
            !task.is_finished(),
    {
        Task { future: boxed(future), finished: false }
    }

    /// Whether the computation has run to its end.
    pub fn finished(&self) -> (finished: bool)
        ensures
            finished == self.is_finished(),
    {
        self.finished
    }

    /// Resumes the computation once, unless it has finished: a finished
    /// computation is left as it is. While it is suspended it keeps `waker`,
    /// or a clone of it. Returns whether it has finished by now.
    pub fn resume(&mut self, waker: &Waker) -> (finished: bool)
        ensures
            finished == final(self).is_finished(),
            old(self).is_finished() ==> finished && *final(self) == *old(self),
    {
        if !self.finished {
            let ended = poll(self, waker);
            self.finished = ended;
        }
        self.finished
    }
}

/// The identity of a computation: the index of the slot that owns it.
///
/// It is handed out when the computation enters the slot table, stays with it
/// until it completes, and may be handed out again afterwards.
#[derive(Clone, Copy, Debug, PartialEq, Eq, Structural)]
pub struct TaskId(pub u32);

impl TaskId {
    /// The slot index as a mathematical integer.
    pub open spec fn key(self) -> int {
        self.0 as int
    }
}

impl std::ops::Deref for TaskId {
    type Target = u32;

    fn deref(&self) -> (index: &u32)
        ensures
            *index == self.0,
    {
        &self.0
    }
}

/// How one attempt to resume a computation ended.
#[derive(Clone, Copy, Debug, PartialEq, Eq, Structural)]
pub enum RunTask {
    /// The slot held no computation: it is being resumed elsewhere, or the
    /// identity is stale. Nothing was resumed.
    Unavailable,
    /// The computation ran up to its next suspension point and is back in its slot.
    Suspended,
    /// The computation finished and its slot was vacated.
    Completed,
}

} // verus!
