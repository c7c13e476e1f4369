use crossbeam_channel::unbounded;
use crossbeam_channel::TryRecvError;
use crux_core::fault::Fault;
use crux_core::task::TaskId;
use crux_core::waker::TaskWaker;
use std::sync::Arc;
use std::task::Wake;

#[test]
fn notify_posts_the_identity() {
    let (sender, receiver) = unbounded();
    let waker = TaskWaker::new(TaskId(7), sender);
    assert!(waker.notify());
    assert_eq!(receiver.try_recv(), Ok(TaskId(7)));
    assert_eq!(receiver.try_recv(), Err(TryRecvError::Empty));
}

#[test]
fn waker_posts_through_the_sender_it_was_made_with() {
    let (sender, receiver) = unbounded();
    let (other_sender, other_receiver) = unbounded::<TaskId>();
    let waker = TaskWaker::new(TaskId(4), sender);
    assert!(waker.notify());
    assert_eq!(receiver.try_recv(), Ok(TaskId(4)));
    assert_eq!(other_receiver.try_recv(), Err(TryRecvError::Empty));
    drop(other_sender);
}

#[test]
fn notify_posts_once_per_call() {
    let (sender, receiver) = unbounded();
    let waker = TaskWaker::new(TaskId(3), sender);
    assert!(waker.notify());
    assert!(waker.notify());
    assert_eq!(receiver.len(), 2);
    assert_eq!(receiver.try_recv(), Ok(TaskId(3)));
    assert_eq!(receiver.try_recv(), Ok(TaskId(3)));
    assert_eq!(receiver.try_recv(), Err(TryRecvError::Empty));
}

#[test]
fn notify_without_a_consumer_is_a_silent_no_op() {
    let (sender, receiver) = unbounded();
    let waker = TaskWaker::new(TaskId(1), sender);
    drop(receiver);
    assert!(!waker.notify());
    assert!(!waker.notify());
}

#[test]
fn wake_and_wake_by_ref_post_the_identity() {
    let (sender, receiver) = unbounded();
    let waker = Arc::new(TaskWaker::new(TaskId(11), sender));
    waker.wake_by_ref();
    assert_eq!(receiver.try_recv(), Ok(TaskId(11)));
    waker.wake();
    assert_eq!(receiver.try_recv(), Ok(TaskId(11)));
    assert_eq!(receiver.try_recv(), Err(TryRecvError::Disconnected));
}

#[test]
fn std_waker_posts_the_identity() {
    let (sender, receiver) = unbounded();
    let waker = TaskWaker::new(TaskId(5), sender).into_waker();
    let clone = waker.clone();
    waker.wake_by_ref();
    clone.wake();
    waker.wake();
    assert_eq!(receiver.try_iter().collect::<Vec<_>>(), vec![TaskId(5), TaskId(5), TaskId(5)]);
}

#[test]
fn clones_share_identity_and_queue() {
    let (sender, receiver) = unbounded();
    let waker = TaskWaker::new(TaskId(2), sender);
    let clone = waker.clone();
    drop(waker);
    assert!(clone.notify());
    assert_eq!(receiver.try_recv(), Ok(TaskId(2)));
}

#[test]
fn wakers_keep_their_posts_in_order() {
    let (sender, receiver) = unbounded();
    let first = TaskWaker::new(TaskId(1), sender.clone());
    let second = TaskWaker::new(TaskId(2), sender);
    second.notify();
    first.notify();
    second.notify();
    assert_eq!(receiver.try_iter().collect::<Vec<_>>(), vec![TaskId(2), TaskId(1), TaskId(2)]);
}

#[test]
fn waker_can_be_used_from_another_thread() {
    let (sender, receiver) = unbounded();
    let waker = TaskWaker::new(TaskId(9), sender).into_waker();
    crossbeam_utils::thread::scope(|scope| {
        scope.spawn(|_| waker.wake_by_ref());
    })
    .unwrap();
    assert_eq!(receiver.try_recv(), Ok(TaskId(9)));
}

#[test]
fn fault_messages() {
    assert_eq!(Fault::TablePoisoned.message(), "Task slab poisoned");
    assert_eq!(Fault::SlotMissing.message(), "Task slot is missing");
    assert_eq!(Fault::IdentityOverflow.message(), "TaskId overflow");
    assert_eq!(Fault::RequeueFailed.message(), "could not requeue");
    assert_eq!(
        Fault::ExecutorGone.message(),
        "unable to spawn an async task, task sender channel is disconnected."
    );
}
