use crate::channel::ready_queue_fed;
use crate::channel::send;
use crate::task::TaskId;
use crossbeam_channel::Sender;
use std::sync::Arc;
use std::task::Wake;
use std::task::Waker;
use vstd::prelude::*;

verus! {

/// `std::task::Waker`: the handle that a future is polled with.
#[verifier::external_type_specification]
#[verifier::external_body]
pub struct ExWaker(Waker);

/// The handle through which a suspended computation asks to be resumed.
///
/// It carries the identity of the computation and a producer end of the ready
/// queue. It can be cloned, kept for as long as the computation likes, and
/// used from any thread.
#[derive(Clone)]
pub struct TaskWaker {
    task_id: TaskId,
    sender: Sender<TaskId>,
}

/// What a waker was made from: the index that its `TaskWaker` carries, and
/// the ready queue that its `TaskWaker` posts to.
pub uninterp spec fn waker_source(waker: Waker) -> (int, int);

/// `Waker::from` for an `Arc` of a type that implements `Wake`: the waker that
/// calls `wake` and `wake_by_ref` of that value, and so is made from it.
#[verifier::external_body]
fn waker_from(waker: Arc<TaskWaker>) -> (shared: Waker)
    ensures
        waker_source(shared) == (waker.task_id().key(), ready_queue_fed(waker.sender())),
{
    Waker::from(waker)
}

impl TaskWaker {
    /// A waker for the computation `task_id`, posting to the queue behind
    /// `sender`. The executor's queues have no limit; through the producer of
    /// a queue with one, a post would wait while the queue is full.
    pub fn new(task_id: TaskId, sender: Sender<TaskId>) -> (waker: TaskWaker)
        ensures
            waker.task_id() == task_id,
            waker.sender() == sender,
    {
        TaskWaker { task_id, sender }
    }

    /// The identity that this waker posts.
    pub closed spec fn task_id(&self) -> TaskId {
        self.task_id
    }

    /// The producer end through which this waker posts.
    pub closed spec fn sender(&self) -> Sender<TaskId> {
        self.sender
    }

    /// Posts the identity to the ready queue, once. Returns whether the queue
    /// took it: it does not once the executor is gone, and then nothing happens.
    pub fn notify(&self) -> (delivered: bool) {
        send(&self.sender, self.task_id)
    }

    /// The waker in the form that a future is polled with: made from this
    /// waker, with its identity and its queue.
    pub fn into_waker(self) -> (shared: Waker)
        ensures
            waker_source(shared) == (self.task_id().key(), ready_queue_fed(self.sender())),
    {
        waker_from(Arc::new(self))
    }
}

impl Wake for TaskWaker {
    fn wake(self: Arc<Self>) {
        self.wake_by_ref();
    }

    fn wake_by_ref(self: &Arc<Self>) {
        let _ = self.notify();
    }
}

} // verus!
