use crux_core::executor::after_event;
use crux_core::executor::after_resume;
use crux_core::executor::executor_and_spawner;
use crux_core::executor::Met;
use crux_core::executor::QueuingExecutor;
use crux_core::fault::Fault;
use crux_core::task::RunTask;
use crux_core::task::TaskId;
use std::future::Future;
use std::pin::Pin;
use std::sync::atomic::AtomicBool;
use std::sync::atomic::AtomicUsize;
use std::sync::atomic::Ordering;
use std::sync::Arc;
use std::sync::Mutex;
use std::task::Context;
use std::task::Poll;
use std::task::Waker;

/// A request to the shell that is never answered.
struct Unanswered;

impl Future for Unanswered {
    type Output = ();

    fn poll(self: Pin<&mut Self>, _context: &mut Context<'_>) -> Poll<()> {
        Poll::Pending
    }
}

/// A request to the shell: pending until `answered` is set. It counts how
/// often it is polled and leaves its latest waker in `waker`.
struct Request {
    answered: Arc<AtomicBool>,
    polls: Arc<AtomicUsize>,
    waker: Arc<Mutex<Option<Waker>>>,
}

impl Future for Request {
    type Output = ();

    fn poll(self: Pin<&mut Self>, context: &mut Context<'_>) -> Poll<()> {
        self.polls.fetch_add(1, Ordering::SeqCst);
        *self.waker.lock().unwrap() = Some(context.waker().clone());
        if self.answered.load(Ordering::SeqCst) {
            Poll::Ready(())
        } else {
            Poll::Pending
        }
    }
}

/// The three handles by which a test watches and answers one `Request`.
struct Probe {
    answered: Arc<AtomicBool>,
    polls: Arc<AtomicUsize>,
    waker: Arc<Mutex<Option<Waker>>>,
}

impl Probe {
    fn new() -> Probe {
        Probe {
            answered: Arc::new(AtomicBool::new(false)),
            polls: Arc::new(AtomicUsize::new(0)),
            waker: Arc::new(Mutex::new(None)),
        }
    }

    fn request(&self) -> Request {
        Request {
            answered: self.answered.clone(),
            polls: self.polls.clone(),
            waker: self.waker.clone(),
        }
    }

    fn polls(&self) -> usize {
        self.polls.load(Ordering::SeqCst)
    }

    fn answer(&self) {
        self.answered.store(true, Ordering::SeqCst);
    }

    fn waker(&self) -> Waker {
        self.waker.lock().unwrap().clone().unwrap()
    }
}

#[test]
fn test_task_does_not_leak() {
    // Arc is a convenient RAII counter
    let counter = Arc::new(());
    assert_eq!(Arc::strong_count(&counter), 1);

    let (executor, spawner) = executor_and_spawner();

    let future = {
        let counter = counter.clone();
        async move {
            assert_eq!(Arc::strong_count(&counter), 2);
            Unanswered.await;
        }
    };

    spawner.spawn(future).unwrap();
    executor.run_all().unwrap();
    drop(executor);
    drop(spawner);
    assert_eq!(Arc::strong_count(&counter), 1);
}

#[test]
fn spawn_runs_nothing() {
    let (executor, spawner) = executor_and_spawner();
    let probe = Probe::new();
    probe.answer();
    assert_eq!(spawner.spawn(probe.request()), Ok(()));
    assert_eq!(probe.polls(), 0);
    // not in the table yet either
    assert_eq!(executor.run_task(TaskId(0)), Ok(RunTask::Unavailable));
    assert_eq!(probe.polls(), 0);
}

#[test]
fn synchronous_task_completes_in_one_run() {
    let counter = Arc::new(());
    let (executor, spawner) = executor_and_spawner();
    let probe = Probe::new();
    probe.answer();
    let request = probe.request();
    let held = counter.clone();
    spawner
        .spawn(async move {
            let _held = held;
            request.await;
        })
        .unwrap();
    assert_eq!(Arc::strong_count(&counter), 2);
    assert_eq!(executor.run_all(), Ok(()));
    assert_eq!(probe.polls(), 1);
    // the slot is vacated and what the task held is released
    assert_eq!(Arc::strong_count(&counter), 1);
    assert_eq!(executor.run_task(TaskId(0)), Ok(RunTask::Unavailable));
    assert_eq!(probe.polls(), 1);
}

#[test]
fn suspended_task_stays_and_is_not_resumed_unwoken() {
    let counter = Arc::new(());
    let (executor, spawner) = executor_and_spawner();
    let probe = Probe::new();
    let request = probe.request();
    let held = counter.clone();
    spawner
        .spawn(async move {
            let _held = held;
            request.await;
        })
        .unwrap();
    executor.run_all().unwrap();
    assert_eq!(probe.polls(), 1);
    assert_eq!(Arc::strong_count(&counter), 2);
    // a second run without a wake resumes nothing
    executor.run_all().unwrap();
    assert_eq!(probe.polls(), 1);
    assert_eq!(Arc::strong_count(&counter), 2);
    // the task is present in its slot: a resume attempt finds it
    assert_eq!(executor.run_task(TaskId(0)), Ok(RunTask::Suspended));
    assert_eq!(probe.polls(), 2);
}

#[test]
fn wake_from_another_thread_resumes_once_and_completes() {
    let counter = Arc::new(());
    let (executor, spawner) = executor_and_spawner();
    let probe = Probe::new();
    let request = probe.request();
    let held = counter.clone();
    spawner
        .spawn(async move {
            let _held = held;
            request.await;
        })
        .unwrap();
    executor.run_all().unwrap();
    assert_eq!(probe.polls(), 1);

    probe.answer();
    let waker = probe.waker();
    crossbeam_utils::thread::scope(|scope| {
        scope.spawn(|_| waker.wake());
    })
    .unwrap();

    executor.run_all().unwrap();
    assert_eq!(probe.polls(), 2);
    assert_eq!(Arc::strong_count(&counter), 1);
    assert_eq!(executor.run_task(TaskId(0)), Ok(RunTask::Unavailable));
}

#[test]
fn wake_resumes_that_task_and_no_other() {
    let (executor, spawner) = executor_and_spawner();
    let first = Probe::new();
    let second = Probe::new();
    spawner.spawn(first.request()).unwrap();
    spawner.spawn(second.request()).unwrap();
    executor.run_all().unwrap();
    assert_eq!(first.polls(), 1);
    assert_eq!(second.polls(), 1);

    second.waker().wake_by_ref();
    executor.run_all().unwrap();
    assert_eq!(first.polls(), 1);
    assert_eq!(second.polls(), 2);

    first.waker().wake();
    executor.run_all().unwrap();
    assert_eq!(first.polls(), 2);
    assert_eq!(second.polls(), 2);
}

#[test]
fn wake_by_value_and_by_reference_do_the_same() {
    let (executor, spawner) = executor_and_spawner();
    let probe = Probe::new();
    spawner.spawn(probe.request()).unwrap();
    executor.run_all().unwrap();
    assert_eq!(probe.polls(), 1);

    probe.waker().wake_by_ref();
    executor.run_all().unwrap();
    assert_eq!(probe.polls(), 2);

    probe.waker().wake();
    executor.run_all().unwrap();
    assert_eq!(probe.polls(), 3);
}

#[test]
fn every_wake_is_one_more_attempt() {
    let (executor, spawner) = executor_and_spawner();
    let probe = Probe::new();
    spawner.spawn(probe.request()).unwrap();
    executor.run_all().unwrap();
    let waker = probe.waker();
    waker.wake_by_ref();
    waker.wake_by_ref();
    waker.wake_by_ref();
    executor.run_all().unwrap();
    assert_eq!(probe.polls(), 4);
    executor.run_all().unwrap();
    assert_eq!(probe.polls(), 4);
}

#[test]
fn task_that_wakes_another_resolves_both_in_one_run() {
    let (executor, spawner) = executor_and_spawner();
    let probe = Probe::new();
    let done = Arc::new(AtomicUsize::new(0));

    let request = probe.request();
    let first_done = done.clone();
    spawner
        .spawn(async move {
            request.await;
            first_done.fetch_add(1, Ordering::SeqCst);
        })
        .unwrap();

    let answered = probe.answered.clone();
    let waker = probe.waker.clone();
    let second_done = done.clone();
    spawner
        .spawn(async move {
            answered.store(true, Ordering::SeqCst);
            waker.lock().unwrap().clone().unwrap().wake();
            second_done.fetch_add(1, Ordering::SeqCst);
        })
        .unwrap();

    executor.run_all().unwrap();
    assert_eq!(done.load(Ordering::SeqCst), 2);
    assert_eq!(probe.polls(), 2);
    assert_eq!(executor.run_task(TaskId(0)), Ok(RunTask::Unavailable));
    assert_eq!(executor.run_task(TaskId(1)), Ok(RunTask::Unavailable));
}

#[test]
fn task_that_spawns_another_is_handled_in_the_same_run() {
    let (executor, spawner) = executor_and_spawner();
    let done = Arc::new(AtomicUsize::new(0));
    let inner_done = done.clone();
    let inner_spawner = spawner.clone();
    spawner
        .spawn(async move {
            inner_spawner
                .spawn(async move {
                    inner_done.fetch_add(1, Ordering::SeqCst);
                })
                .unwrap();
        })
        .unwrap();
    executor.run_all().unwrap();
    assert_eq!(done.load(Ordering::SeqCst), 1);
}

#[test]
fn waker_after_the_executor_is_gone_does_nothing() {
    let counter = Arc::new(());
    let (executor, spawner) = executor_and_spawner();
    let probe = Probe::new();
    let request = probe.request();
    let held = counter.clone();
    spawner
        .spawn(async move {
            let _held = held;
            request.await;
        })
        .unwrap();
    executor.run_all().unwrap();
    let waker = probe.waker();
    drop(executor);
    drop(spawner);
    assert_eq!(Arc::strong_count(&counter), 1);
    waker.wake_by_ref();
    waker.wake();
    assert_eq!(probe.polls(), 1);
}

#[test]
fn spawn_after_the_executor_is_gone_is_a_fault() {
    let counter = Arc::new(());
    let (executor, spawner) = executor_and_spawner();
    drop(executor);
    let held = counter.clone();
    let spawned = spawner.spawn(async move {
        let _held = held;
    });
    assert_eq!(spawned, Err(Fault::ExecutorGone));
    // the computation was dropped, not kept
    assert_eq!(Arc::strong_count(&counter), 1);
}

#[test]
fn wake_after_completion_resumes_nothing() {
    let (executor, spawner) = executor_and_spawner();
    let probe = Probe::new();
    spawner.spawn(probe.request()).unwrap();
    executor.run_all().unwrap();
    let waker = probe.waker();
    probe.answer();
    waker.wake_by_ref();
    executor.run_all().unwrap();
    assert_eq!(probe.polls(), 2);

    // the identity is stale now
    waker.wake_by_ref();
    assert_eq!(executor.run_all(), Ok(()));
    assert_eq!(probe.polls(), 2);
    assert_eq!(executor.run_task(TaskId(0)), Ok(RunTask::Unavailable));
}

#[test]
fn stale_wake_reaches_only_the_newer_occupant() {
    let (executor, spawner) = executor_and_spawner();
    let old = Probe::new();
    old.answer();
    spawner.spawn(old.request()).unwrap();
    executor.run_all().unwrap();
    assert_eq!(old.polls(), 1);
    let stale = old.waker();

    let newer = Probe::new();
    spawner.spawn(newer.request()).unwrap();
    executor.run_all().unwrap();
    assert_eq!(newer.polls(), 1);

    stale.wake();
    executor.run_all().unwrap();
    // the finished task is not resumed; the index it had may now belong to the newer one
    assert_eq!(old.polls(), 1);
    assert!(newer.polls() <= 2);
}

/// A computation that yields `left` times, waking itself each time, and then finishes.
struct Yielding {
    left: usize,
    polls: Arc<AtomicUsize>,
}

impl Future for Yielding {
    type Output = ();

    fn poll(mut self: Pin<&mut Self>, context: &mut Context<'_>) -> Poll<()> {
        self.polls.fetch_add(1, Ordering::SeqCst);
        if self.left == 0 {
            Poll::Ready(())
        } else {
            self.left -= 1;
            context.waker().wake_by_ref();
            Poll::Pending
        }
    }
}

#[test]
fn self_waking_task_is_run_to_its_end_in_one_run() {
    let (executor, spawner) = executor_and_spawner();
    let polls = Arc::new(AtomicUsize::new(0));
    spawner.spawn(Yielding { left: 1000, polls: polls.clone() }).unwrap();
    assert_eq!(executor.run_all(), Ok(()));
    assert_eq!(polls.load(Ordering::SeqCst), 1001);
    assert_eq!(executor.run_task(TaskId(0)), Ok(RunTask::Unavailable));
}

#[test]
fn many_tasks_share_the_table() {
    let (executor, spawner) = executor_and_spawner();
    let polls = Arc::new(AtomicUsize::new(0));
    for left in 0..50 {
        spawner.spawn(Yielding { left, polls: polls.clone() }).unwrap();
    }
    assert_eq!(executor.run_all(), Ok(()));
    // each task is polled once more than it yields
    assert_eq!(polls.load(Ordering::SeqCst), 50 + (0..50).sum::<usize>());
    for index in 0..50 {
        assert_eq!(executor.run_task(TaskId(index)), Ok(RunTask::Unavailable));
    }
}

#[test]
fn slots_are_handed_out_again() {
    let (executor, spawner) = executor_and_spawner();
    let first = Probe::new();
    first.answer();
    spawner.spawn(first.request()).unwrap();
    executor.run_all().unwrap();
    assert_eq!(first.polls(), 1);
    // the second task gets the index that the first gave up
    let second = Probe::new();
    spawner.spawn(second.request()).unwrap();
    executor.run_all().unwrap();
    assert_eq!(second.polls(), 1);
    assert_eq!(executor.run_task(TaskId(0)), Ok(RunTask::Suspended));
    assert_eq!(second.polls(), 2);
    assert_eq!(first.polls(), 1);
    assert_eq!(executor.run_task(TaskId(1)), Ok(RunTask::Unavailable));
}

#[test]
fn run_all_with_nothing_to_do_returns() {
    let (executor, _spawner) = executor_and_spawner();
    assert_eq!(executor.run_all(), Ok(()));
    assert_eq!(executor.run_all(), Ok(()));
}

#[test]
fn tasks_are_first_resumed_in_spawn_order() {
    let (executor, spawner) = executor_and_spawner();
    let order = Arc::new(Mutex::new(Vec::new()));
    for name in 0..5u32 {
        let order = order.clone();
        spawner
            .spawn(async move {
                order.lock().unwrap().push(name);
            })
            .unwrap();
    }
    executor.run_all().unwrap();
    assert_eq!(*order.lock().unwrap(), vec![0, 1, 2, 3, 4]);
}

#[test]
fn woken_tasks_are_resumed_in_wake_order() {
    let (executor, spawner) = executor_and_spawner();
    let order = Arc::new(Mutex::new(Vec::new()));
    let mut probes = Vec::new();
    for name in 0..3u32 {
        let probe = Probe::new();
        let request = probe.request();
        let order = order.clone();
        spawner
            .spawn(async move {
                request.await;
                order.lock().unwrap().push(name);
            })
            .unwrap();
        probes.push(probe);
    }
    executor.run_all().unwrap();
    for probe in probes.iter() {
        probe.answer();
    }
    probes[2].waker().wake();
    probes[0].waker().wake();
    probes[1].waker().wake();
    executor.run_all().unwrap();
    assert_eq!(*order.lock().unwrap(), vec![2, 0, 1]);
}

#[test]
fn executor_can_be_driven_from_several_threads() {
    let (executor, spawner) = executor_and_spawner();
    let executor = Arc::new(executor);
    let done = Arc::new(AtomicUsize::new(0));
    for _ in 0..200 {
        let done = done.clone();
        spawner
            .spawn(async move {
                done.fetch_add(1, Ordering::SeqCst);
            })
            .unwrap();
    }
    crossbeam_utils::thread::scope(|scope| {
        let mut drivers = Vec::new();
        for _ in 0..4 {
            drivers.push(scope.spawn(|_| executor.run_all()));
        }
        for driver in drivers {
            assert_eq!(driver.join().unwrap(), Ok(()));
        }
    })
    .unwrap();
    executor.run_all().unwrap();
    assert_eq!(done.load(Ordering::SeqCst), 200);
}

#[test]
fn a_task_under_way_is_unavailable_to_everyone_else() {
    let (executor, spawner) = executor_and_spawner();
    let (entered, has_entered) = crossbeam_channel::bounded::<()>(0);
    let (release, released) = crossbeam_channel::bounded::<()>(0);
    let polls = Arc::new(AtomicUsize::new(0));
    let counted = polls.clone();
    spawner
        .spawn(async move {
            counted.fetch_add(1, Ordering::SeqCst);
            // in the middle of a resume: tell the test, and wait for it
            entered.send(()).unwrap();
            released.recv().unwrap();
        })
        .unwrap();
    crossbeam_utils::thread::scope(|scope| {
        let driver = scope.spawn(|_| executor.run_all());
        has_entered.recv().unwrap();
        // the table is not locked while the task runs, and the task is not in it
        assert_eq!(executor.run_task(TaskId(0)), Ok(RunTask::Unavailable));
        assert_eq!(executor.run_task(TaskId(0)), Ok(RunTask::Unavailable));
        // another driver finds nothing to do and returns
        assert_eq!(executor.run_all(), Ok(()));
        release.send(()).unwrap();
        assert_eq!(driver.join().unwrap(), Ok(()));
    })
    .unwrap();
    assert_eq!(polls.load(Ordering::SeqCst), 1);
    assert_eq!(executor.run_task(TaskId(0)), Ok(RunTask::Unavailable));
}

/// Runs a resume attempt on the executor when it is dropped, and records the outcome.
struct AttemptOnDrop {
    executor: Arc<QueuingExecutor>,
    outcome: Arc<Mutex<Option<Result<RunTask, Fault>>>>,
}

impl Drop for AttemptOnDrop {
    fn drop(&mut self) {
        *self.outcome.lock().unwrap() = Some(self.executor.run_task(TaskId(0)));
    }
}

/// A computation that finishes at once and keeps what it holds until it is dropped.
struct Holding(AttemptOnDrop);

impl Future for Holding {
    type Output = ();

    fn poll(self: Pin<&mut Self>, _context: &mut Context<'_>) -> Poll<()> {
        Poll::Ready(())
    }
}

#[test]
fn a_task_runs_with_the_table_unlocked() {
    let (executor, spawner) = executor_and_spawner();
    let executor = Arc::new(executor);
    let outcome = Arc::new(Mutex::new(None));
    let held = AttemptOnDrop { executor: executor.clone(), outcome: outcome.clone() };
    spawner
        .spawn(async move {
            // dropped while the task is being resumed
            drop(held);
        })
        .unwrap();
    assert_eq!(executor.run_all(), Ok(()));
    // the task could visit the table, and found itself taken out
    assert_eq!(*outcome.lock().unwrap(), Some(Ok(RunTask::Unavailable)));
    assert_eq!(Arc::strong_count(&executor), 1);
}

#[test]
fn a_finished_task_is_dropped_with_the_table_unlocked() {
    let (executor, spawner) = executor_and_spawner();
    let executor = Arc::new(executor);
    let outcome = Arc::new(Mutex::new(None));
    let held = AttemptOnDrop { executor: executor.clone(), outcome: outcome.clone() };
    spawner.spawn(Holding(held)).unwrap();
    assert_eq!(executor.run_all(), Ok(()));
    // the destructor could visit the table, and found the slot vacated
    assert_eq!(*outcome.lock().unwrap(), Some(Ok(RunTask::Unavailable)));
    assert_eq!(Arc::strong_count(&executor), 1);
}

#[test]
fn a_contended_identity_goes_back_on_the_queue() {
    let (executor, spawner) = executor_and_spawner();
    let (entered, has_entered) = crossbeam_channel::bounded::<()>(0);
    let (release, released) = crossbeam_channel::bounded::<()>(0);
    let probe = Probe::new();
    let request = probe.request();
    let first = Arc::new(AtomicBool::new(true));
    spawner
        .spawn(async move {
            request.await;
            if first.swap(false, Ordering::SeqCst) {
                entered.send(()).unwrap();
                released.recv().unwrap();
            }
        })
        .unwrap();
    executor.run_all().unwrap();
    assert_eq!(probe.polls(), 1);
    probe.answer();
    let waker = probe.waker();
    waker.wake_by_ref();
    crossbeam_utils::thread::scope(|scope| {
        let driver = scope.spawn(|_| executor.run_all());
        has_entered.recv().unwrap();
        // a wake that arrives while the task is under way is not lost: the
        // other driver puts the identity back and returns without spinning
        waker.wake_by_ref();
        assert_eq!(executor.run_all(), Ok(()));
        release.send(()).unwrap();
        assert_eq!(driver.join().unwrap(), Ok(()));
    })
    .unwrap();
    assert_eq!(probe.polls(), 2);
    assert_eq!(executor.run_all(), Ok(()));
    assert_eq!(probe.polls(), 2);
}

#[test]
fn a_spawned_computation_is_progress_whatever_became_of_it() {
    for progressed in [false, true] {
        for outcome in [RunTask::Unavailable, RunTask::Suspended, RunTask::Completed] {
            assert_eq!(after_event(progressed, Met::Spawned(outcome)), (true, false));
        }
    }
}

#[test]
fn a_woken_identity_is_judged_by_its_attempt() {
    assert_eq!(after_event(false, Met::Woken(RunTask::Unavailable)), (false, true));
    assert_eq!(after_event(true, Met::Woken(RunTask::Unavailable)), (true, true));
    for progressed in [false, true] {
        assert_eq!(after_event(progressed, Met::Woken(RunTask::Suspended)), (true, false));
        assert_eq!(after_event(progressed, Met::Woken(RunTask::Completed)), (true, false));
    }
}

#[test]
fn unavailable_is_requeued_without_progress() {
    assert_eq!(after_resume(false, RunTask::Unavailable), (false, true));
    assert_eq!(after_resume(true, RunTask::Unavailable), (true, true));
}

#[test]
fn a_resume_is_progress_and_is_not_requeued() {
    assert_eq!(after_resume(false, RunTask::Suspended), (true, false));
    assert_eq!(after_resume(false, RunTask::Completed), (true, false));
    assert_eq!(after_resume(true, RunTask::Suspended), (true, false));
    assert_eq!(after_resume(true, RunTask::Completed), (true, false));
}
