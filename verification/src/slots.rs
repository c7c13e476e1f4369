use crate::arena::slab_entries;
use crate::arena::slab_get;
use crate::arena::slab_get_mut;
use crate::arena::slab_insert;
use crate::arena::slab_len;
use crate::arena::slab_new;
use crate::arena::slab_next_key;
use crate::arena::slab_try_remove;
use crate::arena::slab_vacant_key;
use crate::fault::Fault;
use crate::task::RunTask;
use crate::task::Task;
use crate::task::TaskId;
use crate::channel::ready_queue_fed;
use crate::waker::waker_source;
use crate::waker::TaskWaker;
use crossbeam_channel::Sender;
use slab::Slab;
use std::task::Waker;
use vstd::prelude::*;

verus! {

/// The slots of a table: what each occupied index holds. `None` marks a slot
/// whose computation has been taken out for a resume attempt.
pub type Slots = Map<int, Option<Task>>;

/// The three states of one index of the table.
#[derive(Clone, Copy, Debug, PartialEq, Eq, Structural)]
pub enum Slot {
    /// No computation owns the index; the arena may hand it out.
    Vacant,
    /// The index is owned, and its computation is out for a resume attempt.
    Absent,
    /// The index is owned, and its suspended computation is in place.
    Present,
}

/// The state of index `key` in `slots`.
pub open spec fn slot_at(slots: Slots, key: int) -> Slot {
    if !slots.dom().contains(key) {
        Slot::Vacant
    } else if slots[key] is None {
        Slot::Absent
    } else {
        Slot::Present
    }
}

/// Taking the computation out of `key`: the slots afterwards, and what was taken.
///
/// Only a present computation can be taken; any other index yields nothing and
/// leaves the slots as they were.
pub open spec fn take_slot(slots: Slots, key: int) -> (Slots, Option<Task>) {
    if slot_at(slots, key) == Slot::Present {
        (slots.insert(key, None), slots[key])
    } else {
        (slots, None)
    }
}

/// Putting `task` into the owned index `key`.
pub open spec fn reinstall_slot(slots: Slots, key: int, task: Task) -> Slots {
    if slots.dom().contains(key) {
        slots.insert(key, Some(task))
    } else {
        slots
    }
}

/// Giving up the index `key`.
pub open spec fn vacate_slot(slots: Slots, key: int) -> Slots {
    slots.remove(key)
}

/// A resume attempt under way: the computation that was taken out of its
/// slot, and the identity of that slot.
///
/// Only `SlotTable::take` and `SlotTable::begin` make one, and only
/// `SlotTable::settle` ends one, so nothing is put into a slot or releases a
/// slot but an attempt that took a computation from a slot of that identity.
/// An attempt does not know its table: to settle it into the table that it
/// was taken from is the caller's duty.
#[derive(Debug)]
pub struct Attempt {
    task_id: TaskId,
    task: Task,
}

impl Attempt {
    /// The identity of the slot that the computation was taken from.
    pub closed spec fn task_id(&self) -> TaskId {
        self.task_id
    }

    /// The computation as it is now.
    pub closed spec fn task(&self) -> Task {
        self.task
    }

    /// The identity of the slot that the computation was taken from.
    pub fn id(&self) -> (task_id: TaskId)
        ensures
            task_id == self.task_id(),
    {
        self.task_id
    }

    /// The waker of this attempt: it posts the identity of the attempt's own
    /// slot, and it posts through `sender`.
    pub fn waker(&self, sender: Sender<TaskId>) -> (waker: TaskWaker)
        ensures
            waker.task_id() == self.task_id(),
            waker.sender() == sender,
    {
        TaskWaker::new(self.task_id, sender)
    }

    /// Resumes the computation once, unless it has finished, with the waker
    /// of this attempt, which posts to the queue that `ready` feeds. Returns
    /// whether the computation has finished by now.
    pub fn resume(&mut self, ready: &Sender<TaskId>) -> (finished: bool)
        ensures
            final(self).task_id() == old(self).task_id(),
            finished == final(self).task().is_finished(),
            old(self).task().is_finished() ==> *final(self) == *old(self),
    {
        let shared = self.waker(ready.clone()).into_waker();
        self.resume_with(&shared, ready)
    }

    /// Resumes the computation once, unless it has finished, with `shared`,
    /// which is no other waker than the attempt's own: made for the identity
    /// of its slot, and posting to the queue that `ready` feeds.
    fn resume_with(&mut self, shared: &Waker, ready: &Sender<TaskId>) -> (finished: bool)
        requires
            waker_source(*shared) == (old(self).task_id().key(), ready_queue_fed(*ready)),
        ensures
            final(self).task_id() == old(self).task_id(),
            finished == final(self).task().is_finished(),
            old(self).task().is_finished() ==> *final(self) == *old(self),
    {
        self.task.resume(shared)
    }
}

/// The arena that owns every computation between its first resume and its
/// completion, and gives each one its identity.
///
/// Its view is the map from owned indices to what they hold.
pub struct SlotTable {
    slab: Slab<Option<Task>>,
}

impl SlotTable {
    /// What each owned index holds.
    pub closed spec fn view(&self) -> Slots {
        slab_entries(self.slab)
    }

    /// The index that the next computation to enter the table will get.
    pub closed spec fn next_key(&self) -> int {
        slab_vacant_key(self.slab)
    }

    /// A table that owns nothing. Its first computation will get the index 0.
    pub fn new() -> (table: SlotTable)
        ensures
            table@ == Slots::empty(),
            table.next_key() == 0,
    {
        SlotTable { slab: slab_new() }
    }

    /// The number of owned indices, whether their computation is in place or not.
    pub fn len(&self) -> (len: usize)
        ensures
            self@.dom().finite(),
            len == self@.dom().len(),
    {
        slab_len(&self.slab)
    }

    /// Whether the table owns nothing.
    pub fn is_empty(&self) -> (empty: bool)
        ensures
            empty <==> forall|key: int| !self@.dom().contains(key),
    {
        let len = slab_len(&self.slab);
        proof {
            if len != 0 {
                assert(self@.dom().contains(self@.dom().choose()));
            }
        }
        len == 0
    }

    /// The state of the slot that `id` names.
    pub fn slot(&self, id: TaskId) -> (state: Slot)
        ensures
            state == slot_at(self@, id.key()),
    {
        match slab_get(&self.slab, id.0 as usize) {
            None => Slot::Vacant,
            Some(entry) => if entry.is_some() {
                Slot::Present
            } else {
                Slot::Absent
            },
        }
    }

    /// Gives `task` a slot of its own and returns the identity of that slot.
    ///
    /// The slot was vacant, and every other slot stays as it was. Where the
    /// arena's next index does not fit an identity, nothing is inserted and
    /// the computation is handed back.
    pub fn insert(&mut self, task: Task) -> (inserted: Result<TaskId, Task>)
        ensures
            0 <= old(self).next_key(),
            slot_at(old(self)@, old(self).next_key()) == Slot::Vacant,
            inserted matches Ok(id) ==> id.key() == old(self).next_key(),
            old(self).next_key() <= u32::MAX ==> inserted == Ok::<TaskId, Task>(
                TaskId(old(self).next_key() as u32),
            ) && final(self)@ == old(self)@.insert(old(self).next_key(), Some(task)),
            old(self).next_key() > u32::MAX ==> inserted == Err::<TaskId, Task>(task)
                && final(self)@ == old(self)@,
    {
        let next = slab_next_key(&self.slab);
        if next > u32::MAX as usize {
            return Err(task);
        }
        let key = slab_insert(&mut self.slab, Some(task));
        Ok(TaskId(key as u32))
    }

    /// Takes the computation out of its slot for a resume attempt.
    ///
    /// A present computation is taken and its slot becomes absent. Where the
    /// slot is absent already or vacant, the result is `None` and the table
    /// is unchanged.
    pub fn take(&mut self, id: TaskId) -> (attempt: Option<Attempt>)
        ensures
            final(self)@ == take_slot(old(self)@, id.key()).0,
            final(self).next_key() == old(self).next_key(),
            attempt matches Some(taken) ==> taken.task_id() == id && take_slot(
                old(self)@,
                id.key(),
            ).1 == Some(taken.task()),
            attempt is None ==> take_slot(old(self)@, id.key()).1 is None,
    {
        let taken = match slab_get_mut(&mut self.slab, id.0 as usize) {
            Some(entry) => entry.take(),
            None => None,
        };
        match taken {
            Some(task) => Some(Attempt { task_id: id, task }),
            None => None,
        }
    }

    /// Begins a resume attempt: the attempt that took the computation, or,
    /// where the slot is absent already or vacant, the outcome of an attempt
    /// that had nothing to resume, which is `Unavailable`. The table then is
    /// unchanged.
    pub fn begin(&mut self, id: TaskId) -> (begun: Result<Attempt, RunTask>)
        ensures
            final(self)@ == take_slot(old(self)@, id.key()).0,
            final(self).next_key() == old(self).next_key(),
            begun matches Ok(taken) ==> taken.task_id() == id && take_slot(
                old(self)@,
                id.key(),
            ).1 == Some(taken.task()),
            begun matches Err(outcome) ==> outcome == RunTask::Unavailable && take_slot(
                old(self)@,
                id.key(),
            ).1 is None,
            begun is Ok <==> slot_at(old(self)@, id.key()) == Slot::Present,
    {
        match self.take(id) {
            Some(attempt) => Ok(attempt),
            None => Err(RunTask::Unavailable),
        }
    }

    /// Puts a suspended computation back into its slot. A vacant slot is left
    /// vacant, and the computation is handed back.
    fn reinstall(&mut self, id: TaskId, task: Task) -> (done: Result<(), Task>)
        ensures
            final(self)@ == reinstall_slot(old(self)@, id.key(), task),
            final(self).next_key() == old(self).next_key(),
            slot_at(old(self)@, id.key()) != Slot::Vacant ==> done is Ok,
            slot_at(old(self)@, id.key()) == Slot::Vacant ==> done == Err::<(), Task>(task),
    {
        match slab_get_mut(&mut self.slab, id.0 as usize) {
            Some(entry) => {
                *entry = Some(task);
                Ok(())
            },
            None => Err(task),
        }
    }

    /// Gives up the slot of a computation that has finished. Returns whether
    /// there was a slot to give up.
    fn vacate(&mut self, id: TaskId) -> (owned: bool)
        ensures
            final(self)@ == vacate_slot(old(self)@, id.key()),
            owned <==> slot_at(old(self)@, id.key()) != Slot::Vacant,
            final(self).next_key() == (if owned {
                id.key()
            } else {
                old(self).next_key()
            }),
    {
        slab_try_remove(&mut self.slab, id.0 as usize).is_some()
    }

    /// Ends a resume attempt: a finished computation gives up its slot, which
    /// is the next to be handed out; an unfinished one goes back into it.
    ///
    /// Beside the outcome, the caller gets back the computation that the
    /// table did not keep, to drop it where no lock is held. An attempt whose
    /// slot is vacant is a fault, and changes nothing.
    pub fn settle(&mut self, attempt: Attempt) -> (settled: (Result<RunTask, Fault>, Option<Task>))
        ensures
            final(self)@ == settle_slot(old(self)@, attempt.task_id().key(), attempt.task()),
            settled.0 == settle_outcome(old(self)@, attempt.task_id().key(), attempt.task()),
            settled.1 == settle_leaves(old(self)@, attempt.task_id().key(), attempt.task()),
            final(self).next_key() == (if settled.0 == Ok::<RunTask, Fault>(RunTask::Completed) {
                attempt.task_id().key()
            } else {
                old(self).next_key()
            }),
    {
        let Attempt { task_id, task } = attempt;
        if task.finished() {
            if self.vacate(task_id) {
                (Ok(RunTask::Completed), Some(task))
            } else {
                (Err(Fault::SlotMissing), Some(task))
            }
        } else {
            match self.reinstall(task_id, task) {
                Ok(_) => (Ok(RunTask::Suspended), None),
                Err(task) => (Err(Fault::SlotMissing), Some(task)),
            }
        }
    }
}

/// The slots after a resume attempt on `key` has ended with `task`.
pub open spec fn settle_slot(slots: Slots, key: int, task: Task) -> Slots {
    if task.is_finished() {
        vacate_slot(slots, key)
    } else {
        reinstall_slot(slots, key, task)
    }
}

/// What the end of a resume attempt on `key` reports.
pub open spec fn settle_outcome(slots: Slots, key: int, task: Task) -> Result<RunTask, Fault> {
    if slot_at(slots, key) == Slot::Vacant {
        Err(Fault::SlotMissing)
    } else if task.is_finished() {
        Ok(RunTask::Completed)
    } else {
        Ok(RunTask::Suspended)
    }
}

/// What the end of a resume attempt on `key` leaves in the caller's hands:
/// the computation, unless it went back into its slot.
pub open spec fn settle_leaves(slots: Slots, key: int, task: Task) -> Option<Task> {
    if slot_at(slots, key) != Slot::Vacant && !task.is_finished() {
        None
    } else {
        Some(task)
    }
}

/// A computation that suspended and went back into its slot is the one that
/// the next resume attempt on its identity takes out, and no other.
pub proof fn law_reinstalled_is_taken_next(slots: Slots, key: int, task: Task)
    requires
        slot_at(slots, key) != Slot::Vacant,
    ensures
        take_slot(reinstall_slot(slots, key, task), key).1 == Some(task),
        slot_at(take_slot(reinstall_slot(slots, key, task), key).0, key) == Slot::Absent,
{
}

/// While a resume attempt has the computation of an identity, every further
/// attempt on that identity finds nothing and changes nothing.
pub proof fn law_taken_once(slots: Slots, key: int)
    ensures
        take_slot(take_slot(slots, key).0, key) == (take_slot(slots, key).0, None::<Task>),
{
}

/// Completing a computation releases its slot and touches no other: of the
/// slots that were owned, exactly that one is no longer.
pub proof fn law_completion_releases(slots: Slots, key: int, task: Task)
    requires
        slot_at(slots, key) == Slot::Present,
        task.is_finished(),
    ensures
        settle_outcome(take_slot(slots, key).0, key, task) == Ok::<RunTask, Fault>(
            RunTask::Completed,
        ),
        settle_slot(take_slot(slots, key).0, key, task) == slots.remove(key),
        slots.dom().finite() ==> settle_slot(take_slot(slots, key).0, key, task).dom().len()
            == slots.dom().len() - 1,
{
}

/// A computation that has completed is never taken out again: a later attempt
/// on its identity finds nothing, or, once the index has been handed out
/// again, the newer computation that owns it.
pub proof fn law_completion_is_final(slots: Slots, key: int, newer: Task)
    ensures
        take_slot(vacate_slot(slots, key), key) == (vacate_slot(slots, key), None::<Task>),
        take_slot(vacate_slot(slots, key).insert(key, Some(newer)), key).1 == Some(newer),
{
}

/// A resume attempt that suspends leaves the set of owned indices as it was.
pub proof fn law_suspension_keeps_slots(slots: Slots, key: int, task: Task)
    requires
        slot_at(slots, key) == Slot::Present,
        !task.is_finished(),
    ensures
        settle_outcome(take_slot(slots, key).0, key, task) == Ok::<RunTask, Fault>(
            RunTask::Suspended,
        ),
        settle_slot(take_slot(slots, key).0, key, task) == slots.insert(key, Some(task)),
        settle_slot(take_slot(slots, key).0, key, task).dom() == slots.dom(),
{
}

} // verus!
