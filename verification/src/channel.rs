use crate::task::Task;
use crate::task::TaskId;
use crossbeam_channel::Receiver;
use crossbeam_channel::Sender;
use vstd::prelude::*;

verus! {

/// `crossbeam_channel::Sender`: a producer end of a queue, usable from any thread.
#[verifier::external_type_specification]
#[verifier::external_body]
#[verifier::reject_recursive_types(T)]
pub struct ExSender<T>(Sender<T>);

/// `crossbeam_channel::Receiver`: a consumer end of a queue.
#[verifier::external_type_specification]
#[verifier::external_body]
#[verifier::reject_recursive_types(T)]
pub struct ExReceiver<T>(Receiver<T>);

/// The ready queue that this producer end feeds.
///
/// What a queue holds changes under the hands of every thread that has an
/// end of it, so no name speaks of that. Which queue an end belongs to never
/// changes.
pub uninterp spec fn ready_queue_fed(sender: Sender<TaskId>) -> int;

/// The ready queue that this consumer end reads.
pub uninterp spec fn ready_queue_read(receiver: Receiver<TaskId>) -> int;

/// The spawn queue that this producer end feeds.
pub uninterp spec fn spawn_queue_fed(sender: Sender<Task>) -> int;

/// The spawn queue that this consumer end reads.
pub uninterp spec fn spawn_queue_read(receiver: Receiver<Task>) -> int;

/// `crossbeam_channel::unbounded`, for identities: the two ends of a new
/// queue without a limit. The producer feeds the queue that the consumer
/// reads.
#[verifier::external_body]
pub(crate) fn ready_queue() -> (ends: (Sender<TaskId>, Receiver<TaskId>))
    ensures
        ready_queue_fed(ends.0) == ready_queue_read(ends.1),
{
    crossbeam_channel::unbounded()
}

/// `crossbeam_channel::unbounded`, for computations: the two ends of a new
/// queue without a limit. The producer feeds the queue that the consumer
/// reads.
#[verifier::external_body]
pub(crate) fn spawn_queue() -> (ends: (Sender<Task>, Receiver<Task>))
    ensures
        spawn_queue_fed(ends.0) == spawn_queue_read(ends.1),
{
    crossbeam_channel::unbounded()
}

/// `Sender::clone`: one more producer for the same queue. The clone holds
/// what the producer holds, a reference to the shared queue and nothing of
/// its own, so it is the same producer end again.
pub assume_specification<T>[ <Sender<T> as Clone>::clone ](sender: &Sender<T>) -> (other: Sender<
    T,
>)
    ensures
        other == *sender,
;

/// `Sender::send`: appends the message to the queue. Where the queue has no
/// consumer left, the message is dropped and the result is `false`. On a
/// queue without a limit, as the executor's are, it never waits.
#[verifier::external_body]
pub(crate) fn send<T>(sender: &Sender<T>, message: T) -> (delivered: bool) {
    sender.send(message).is_ok()
}

/// `Receiver::try_recv`: the oldest message of the queue, without waiting;
/// `None` where there is none now.
#[verifier::external_body]
pub(crate) fn try_recv<T>(receiver: &Receiver<T>) -> (message: Option<T>) {
    receiver.try_recv().ok()
}

/// `Receiver::len`: the number of messages in the queue at the moment of the call.
#[verifier::external_body]
pub(crate) fn queued<T>(receiver: &Receiver<T>) -> (count: usize) {
    receiver.len()
}

} // verus!
