use crate::channel::queued;
use crate::channel::ready_queue;
use crate::channel::ready_queue_fed;
use crate::channel::ready_queue_read;
use crate::channel::spawn_queue;
use crate::channel::spawn_queue_fed;
use crate::channel::spawn_queue_read;
use crate::channel::send;
use crate::channel::try_recv;
use crate::fault::Fault;
use crate::lock::lock;
use crate::lock::lock_around;
use crate::lock::lock_made_around;
use crate::lock::table;
use crate::slots::SlotTable;
use crate::slots::Slots;
use crate::task::RunTask;
use crate::task::Task;
use crate::task::TaskId;
use crossbeam_channel::Receiver;
use crossbeam_channel::Sender;
use std::future::Future;
use std::sync::Mutex;
use vstd::prelude::*;

verus! {

/// What one resume attempt on a woken identity means to its sweep: whether the
/// sweep has made progress by now, and whether the identity goes back on the
/// ready queue.
///
/// An attempt that found nothing to resume is no progress, and its identity
/// is posted again for a later sweep.
pub open spec fn judge(progressed: bool, outcome: RunTask) -> (bool, bool) {
    (progressed || outcome != RunTask::Unavailable, outcome == RunTask::Unavailable)
}

/// Whether a sweep that saw these outcomes, one after the other, made progress.
pub open spec fn judge_all(outcomes: Seq<RunTask>) -> bool
    decreases outcomes.len(),
{
    if outcomes.len() == 0 {
        false
    } else {
        judge(judge_all(outcomes.drop_last()), outcomes.last()).0
    }
}

/// Folds the outcome of one resume attempt into the account of its sweep.
pub fn after_resume(progressed: bool, outcome: RunTask) -> (verdict: (bool, bool))
    ensures
        verdict == judge(progressed, outcome),
{
    match outcome {
        RunTask::Unavailable => (progressed, true),
        RunTask::Suspended => (true, false),
        RunTask::Completed => (true, false),
    }
}

/// What a sweep met: a computation that was spawned, or an identity that was
/// woken, each with the outcome of its resume attempt.
#[derive(Clone, Copy, Debug, PartialEq, Eq, Structural)]
pub enum Met {
    /// A spawned computation got its slot and was resumed for the first time.
    Spawned(RunTask),
    /// An identity from the ready queue was attempted.
    Woken(RunTask),
}

/// What one thing that a sweep met means to it: whether the sweep has made
/// progress by now, and whether an identity goes back on the ready queue.
///
/// A spawned computation is progress whatever became of it, and nothing is
/// posted for it. A woken identity is judged by the outcome of its attempt.
pub open spec fn account(progressed: bool, met: Met) -> (bool, bool) {
    match met {
        Met::Spawned(outcome) => (true, false),
        Met::Woken(outcome) => judge(progressed, outcome),
    }
}

/// Whether a sweep that met these, one after the other, made progress.
pub open spec fn account_all(events: Seq<Met>) -> bool
    decreases events.len(),
{
    if events.len() == 0 {
        false
    } else {
        account(account_all(events.drop_last()), events.last()).0
    }
}

/// Folds one thing that a sweep met into the account of the sweep.
pub fn after_event(progressed: bool, met: Met) -> (verdict: (bool, bool))
    ensures
        verdict == account(progressed, met),
{
    match met {
        Met::Spawned(_) => (true, false),
        Met::Woken(outcome) => after_resume(progressed, outcome),
    }
}

/// A sweep makes progress exactly if it met a spawned computation or a woken
/// identity whose attempt resumed something.
pub proof fn law_progress_is_a_spawn_or_a_resume(events: Seq<Met>)
    ensures
        account_all(events) <==> exists|i: int|
            0 <= i < events.len() && #[trigger] events[i] != Met::Woken(RunTask::Unavailable),
    decreases events.len(),
{
    if events.len() > 0 {
        let earlier = events.drop_last();
        law_progress_is_a_spawn_or_a_resume(earlier);
        if account_all(events) {
            if events.last() != Met::Woken(RunTask::Unavailable) {
                assert(events[events.len() - 1] != Met::Woken(RunTask::Unavailable));
            } else {
                let i = choose|i: int|
                    0 <= i < earlier.len() && #[trigger] earlier[i] != Met::Woken(
                        RunTask::Unavailable,
                    );
                assert(events[i] != Met::Woken(RunTask::Unavailable));
            }
        } else {
            assert forall|i: int| 0 <= i < events.len() implies #[trigger] events[i]
                == Met::Woken(RunTask::Unavailable) by {
                if i < earlier.len() {
                    assert(earlier[i] == events[i]);
                }
            }
        }
    }
}

/// A sweep makes progress exactly if one of its attempts resumed a
/// computation. So a sweep in which every identity was unavailable makes
/// none, however many there were, and `run_all` ends with it.
pub proof fn law_contention_is_no_progress(outcomes: Seq<RunTask>)
    ensures
        judge_all(outcomes) <==> exists|i: int|
            0 <= i < outcomes.len() && #[trigger] outcomes[i] != RunTask::Unavailable,
        (forall|i: int| 0 <= i < outcomes.len() ==> outcomes[i] == RunTask::Unavailable)
            ==> !judge_all(outcomes),
    decreases outcomes.len(),
{
    if outcomes.len() > 0 {
        let earlier = outcomes.drop_last();
        law_contention_is_no_progress(earlier);
        if !judge_all(outcomes) {
            assert forall|i: int| 0 <= i < outcomes.len() implies #[trigger] outcomes[i]
                == RunTask::Unavailable by {
                if i < earlier.len() {
                    assert(earlier[i] == outcomes[i]);
                }
            }
        }
    }
}

/// Hands new computations to the executor. It can be cloned and used from any thread.
#[derive(Clone)]
pub struct Spawner {
    future_sender: Sender<Task>,
}

/// Resumes computations as they are spawned and as they are woken.
///
/// It owns the slot table and the consumer ends of the spawn queue and of the
/// ready queue. It has no thread of its own: the host calls `run_all`, from
/// any thread, whenever there may be work.
pub struct QueuingExecutor {
    spawn_queue: Receiver<Task>,
    ready_queue: Receiver<TaskId>,
    ready_sender: Sender<TaskId>,
    tasks: Mutex<SlotTable>,
}

/// An executor with an empty slot table and empty queues, and the spawner
/// that feeds it. The two are made for each other: what the spawner spawns
/// comes to this executor, and what the executor's wakers post comes back to
/// it.
pub fn executor_and_spawner() -> (pair: (QueuingExecutor, Spawner))
    ensures
        pair.0.wakes_reach_it(),
        pair.1.feeds(pair.0),
        pair.0.started_with() == Slots::empty(),
{
    let (future_sender, spawn_queue) = spawn_queue();
    let (ready_sender, ready_queue) = ready_queue();
    (
        QueuingExecutor {
            spawn_queue,
            ready_queue,
            ready_sender,
            tasks: lock_around(SlotTable::new()),
        },
        Spawner { future_sender },
    )
}

impl Spawner {
    /// Whether what this spawner spawns comes to `executor`: it is a producer
    /// of the spawn queue that the executor reads.
    pub closed spec fn feeds(self, executor: QueuingExecutor) -> bool {
        spawn_queue_fed(self.future_sender) == spawn_queue_read(executor.spawn_queue)
    }

    /// Puts the computation on the spawn queue and returns at once; no part of
    /// it runs here. Fails, and drops the computation, only where the
    /// executor is gone.
    pub fn spawn<F: Future<Output = ()> + Send + 'static>(&self, future: F) -> (spawned: Result<
        (),
        Fault,
    >)
        ensures
            spawned is Err ==> spawned == Err::<(), Fault>(Fault::ExecutorGone),
    {
        let task = Task::new(future);
        if send(&self.future_sender, task) {
            Ok(())
        } else {
            Err(Fault::ExecutorGone)
        }
    }
}

impl QueuingExecutor {
    /// Whether what the wakers of this executor post comes back to it: the
    /// producer that it hands to them feeds the ready queue that it reads.
    /// This holds of every executor.
    #[verifier::type_invariant]
    pub closed spec fn wakes_reach_it(self) -> bool {
        ready_queue_fed(self.ready_sender) == ready_queue_read(self.ready_queue)
    }

    /// The slots of the table that this executor was made with.
    pub closed spec fn started_with(self) -> Slots {
        lock_made_around(self.tasks)
    }

    /// Resumes everything that is ready, sweep after sweep, until a sweep
    /// makes no progress, and returns. It never waits for work: the host
    /// calls it again when something may have been woken or spawned.
    ///
    /// It may be called from several threads at once. A computation that is
    /// being resumed elsewhere is unavailable here; its identity goes back on
    /// the ready queue and is no progress, so contention alone never keeps
    /// this loop going.
    ///
    /// A fault is a broken invariant of the executor and ends the call.
    /// The count of sweeps gives the loop its measure; it is far beyond what
    /// can be run.
    pub fn run_all(&self) -> (done: Result<(), Fault>)
        ensures
            done matches Err(fault) ==> fault != Fault::ExecutorGone,
    {
        let mut sweeps_left: u64 = u64::MAX;
        let mut did_some_work = true;
        while did_some_work && sweeps_left > 0
            decreases sweeps_left,
        {
            sweeps_left = sweeps_left - 1;
            did_some_work = self.sweep()?;
        }
        Ok(())
    }

    /// One pass over both queues: first what was spawned, then what was
    /// woken, with one account of progress over both. Returns whether the
    /// sweep made progress.
    fn sweep(&self) -> (progressed: Result<bool, Fault>)
        ensures
            progressed matches Err(fault) ==> fault != Fault::ExecutorGone,
    {
        let spawned = self.drain_spawn_queue()?;
        self.drain_ready_queue(spawned)
    }

    /// Gives each computation on the spawn queue a slot and resumes it for
    /// the first time. Takes at most as many as were queued when it began:
    /// what is spawned in the course of it waits for the next sweep.
    fn drain_spawn_queue(&self) -> (progressed: Result<bool, Fault>)
        ensures
            progressed matches Err(fault) ==> fault != Fault::ExecutorGone,
    {
        let mut remaining: usize = queued(&self.spawn_queue);
        let mut progressed = false;
        while remaining > 0
            decreases remaining,
        {
            remaining = remaining - 1;
            match try_recv(&self.spawn_queue) {
                None => {
                    remaining = 0;
                },
                Some(task) => {
                    let task_id = self.adopt(task)?;
                    let outcome = self.run_task(task_id)?;
                    let (so_far, _) = after_event(progressed, Met::Spawned(outcome));
                    progressed = so_far;
                },
            }
        }
        Ok(progressed)
    }

    /// Makes one resume attempt for each identity on the ready queue, and
    /// carries on the account of the sweep, which stands at `already`. Takes
    /// at most as many as were queued when it began, so an identity that it
    /// puts back is not met again in the same sweep.
    fn drain_ready_queue(&self, already: bool) -> (progressed: Result<bool, Fault>)
        ensures
            progressed matches Err(fault) ==> fault != Fault::ExecutorGone,
            already ==> progressed is Err || progressed == Ok::<bool, Fault>(true),
    {
        let mut remaining: usize = queued(&self.ready_queue);
        let mut progressed = already;
        while remaining > 0
            invariant
                already ==> progressed,
            decreases remaining,
        {
            remaining = remaining - 1;
            match try_recv(&self.ready_queue) {
                None => {
                    remaining = 0;
                },
                Some(task_id) => {
                    let outcome = self.run_task(task_id)?;
                    let (so_far, requeue) = after_event(progressed, Met::Woken(outcome));
                    progressed = so_far;
                    if requeue && !send(&self.ready_sender, task_id) {
                        return Err(Fault::RequeueFailed);
                    }
                },
            }
        }
        Ok(progressed)
    }

    /// Gives a spawned computation its slot. A computation that the table
    /// has no identity for is dropped once the lock is given up.
    fn adopt(&self, task: Task) -> (adopted: Result<TaskId, Fault>)
        ensures
            adopted matches Err(fault) ==> fault == Fault::TablePoisoned || fault
                == Fault::IdentityOverflow,
    {
        let inserted = match lock(&self.tasks) {
            None => {
                return Err(Fault::TablePoisoned);
            },
            Some(mut guard) => table(&mut guard).insert(task),
        };
        match inserted {
            Ok(task_id) => Ok(task_id),
            Err(_) => Err(Fault::IdentityOverflow),
        }
    }

    /// One attempt to resume the computation `task_id`.
    ///
    /// The computation is taken out of its slot, resumed with a waker for
    /// that slot, and then put back or, if it has finished, dropped and its
    /// slot given up. The lock of the table is held for the taking and for
    /// the settling, and for neither the resume nor the drop. Where the slot
    /// holds no computation, nothing is resumed.
    pub fn run_task(&self, task_id: TaskId) -> (outcome: Result<RunTask, Fault>)
        ensures
            outcome matches Err(fault) ==> fault == Fault::TablePoisoned || fault
                == Fault::SlotMissing,
    {
        let begun = match lock(&self.tasks) {
            None => {
                return Err(Fault::TablePoisoned);
            },
            Some(mut guard) => table(&mut guard).begin(task_id),
        };
        match begun {
            Err(outcome) => Ok(outcome),
            Ok(mut attempt) => {
                attempt.resume(&self.ready_sender);
                let (outcome, _) = match lock(&self.tasks) {
                    None => {
                        return Err(Fault::TablePoisoned);
                    },
                    Some(mut guard) => table(&mut guard).settle(attempt),
                };
                outcome
            },
        }
    }
}

} // verus!
