use crate::slots::settle_outcome;
use crate::slots::settle_slot;
use crate::slots::slot_at;
use crate::slots::take_slot;
use crate::slots::Slot;
use crate::executor::judge;
use crate::fault::Fault;
use crate::slots::Slots;
use crate::task::RunTask;
use crate::task::Task;
use vstd::multiset::Multiset;
use vstd::prelude::*;

verus! {

/// The slot table as its callers share it: what the slots hold, and which
/// identities have a resume attempt under way, each as often as there are
/// attempts that took its computation and have not settled yet.
///
/// The executor visits the table only with its lock held, and each time for
/// one call: `SlotTable::insert` for a computation that was spawned,
/// `SlotTable::begin` at the start of a resume attempt, which takes as
/// `SlotTable::take` does, and `SlotTable::settle` at the end of an attempt
/// that took something. Between the visits of one caller any number of
/// visits of others may fall.
pub struct Sharing {
    pub slots: Slots,
    pub in_flight: Multiset<int>,
}

/// One visit to the table under its lock, by any caller.
pub enum Visit {
    /// A spawned computation enters the table at a vacant index.
    Adopt { key: int, task: Task },
    /// A resume attempt on `key` begins.
    Take { key: int },
    /// A resume attempt that took the computation of `key` ends, with the
    /// computation as the resume left it.
    Settle { key: int, task: Task },
}

/// How many attempts must have the computation of `key`, going by its slot.
pub open spec fn attempts_due(slots: Slots, key: int) -> nat {
    if slot_at(slots, key) == Slot::Absent {
        1
    } else {
        0
    }
}

impl Sharing {
    /// The table of a new executor.
    pub open spec fn initial() -> Sharing {
        Sharing { slots: Slots::empty(), in_flight: Multiset::empty() }
    }

    /// Whether `visit` can happen now. What is spawned has not run yet and
    /// gets a vacant index, and only an attempt that took a computation
    /// settles it.
    pub open spec fn admits(self, visit: Visit) -> bool {
        match visit {
            Visit::Adopt { key, task } => slot_at(self.slots, key) == Slot::Vacant
                && !task.is_finished(),
            Visit::Take { key } => true,
            Visit::Settle { key, task } => self.in_flight.count(key) > 0,
        }
    }

    /// The table after `visit`.
    pub open spec fn after(self, visit: Visit) -> Sharing {
        match visit {
            Visit::Adopt { key, task } => Sharing {
                slots: self.slots.insert(key, Some(task)),
                in_flight: self.in_flight,
            },
            Visit::Take { key } => Sharing {
                slots: take_slot(self.slots, key).0,
                in_flight: if take_slot(self.slots, key).1 is Some {
                    self.in_flight.insert(key)
                } else {
                    self.in_flight
                },
            },
            Visit::Settle { key, task } => Sharing {
                slots: settle_slot(self.slots, key, task),
                in_flight: self.in_flight.remove(key),
            },
        }
    }

    /// A slot is absent exactly while one attempt has its computation, no
    /// identity has more than one attempt under way, and no slot holds a
    /// computation that has finished.
    pub open spec fn consistent(self) -> bool {
        &&& forall|key: int| #[trigger]
            self.in_flight.count(key) == attempts_due(self.slots, key)
        &&& forall|key: int| #[trigger]
            slot_at(self.slots, key) == Slot::Present ==> !self.slots[key]->0.is_finished()
    }
}

/// The table after the visits of a history, one after the other, if each
/// could happen when its turn came.
pub open spec fn reached(history: Seq<Visit>) -> Option<Sharing>
    decreases history.len(),
{
    if history.len() == 0 {
        Some(Sharing::initial())
    } else {
        match reached(history.drop_last()) {
            Some(before) => if before.admits(history.last()) {
                Some(before.after(history.last()))
            } else {
                None
            },
            None => None,
        }
    }
}

/// A visit that can happen leaves a consistent table consistent.
pub proof fn law_visits_keep_consistent(before: Sharing, visit: Visit)
    requires
        before.consistent(),
        before.admits(visit),
    ensures
        before.after(visit).consistent(),
{
    let after = before.after(visit);
    assert forall|key: int| #[trigger]
        slot_at(after.slots, key) == Slot::Present implies !after.slots[key]->0.is_finished() by {
        if slot_at(before.slots, key) == Slot::Present {
            assert(!before.slots[key]->0.is_finished());
        }
    }
    assert forall|key: int| #[trigger]
        after.in_flight.count(key) == attempts_due(after.slots, key) by {
        assert(before.in_flight.count(key) == attempts_due(before.slots, key));
    }
}

/// Whatever the callers do, in whatever order their visits fall, the table
/// is consistent.
pub proof fn law_always_consistent(history: Seq<Visit>)
    ensures
        reached(history) matches Some(shared) ==> shared.consistent(),
    decreases history.len(),
{
    if history.len() > 0 {
        law_always_consistent(history.drop_last());
        match reached(history.drop_last()) {
            Some(before) => {
                if before.admits(history.last()) {
                    law_visits_keep_consistent(before, history.last());
                }
            },
            None => {},
        }
    }
}

/// No two resume attempts have the computation of one identity at the same
/// time: while one has it, any other attempt on that identity takes nothing
/// out and leaves the table as it is.
pub proof fn law_at_most_one_resume(history: Seq<Visit>, key: int)
    ensures
        reached(history) matches Some(shared) ==> shared.in_flight.count(key) <= 1 && (
        shared.in_flight.count(key) == 1 ==> take_slot(shared.slots, key).1 is None
            && shared.after(Visit::Take { key }) == shared),
{
    law_always_consistent(history);
}

/// An attempt that took a computation finds the slot still its own, and
/// absent, when it settles: the slot is never missing then, and never holds
/// another computation.
pub proof fn law_settling_finds_its_slot(history: Seq<Visit>, key: int, task: Task)
    ensures
        reached(history) matches Some(shared) ==> (shared.admits(Visit::Settle { key, task })
            ==> slot_at(shared.slots, key) == Slot::Absent && settle_outcome(
            shared.slots,
            key,
            task,
        ) is Ok),
{
    law_always_consistent(history);
}

/// A computation that has finished is never resumed again: no slot ever
/// holds one, so no attempt ever takes one out.
pub proof fn law_finished_is_never_taken(history: Seq<Visit>, key: int)
    ensures
        reached(history) matches Some(shared) ==> (take_slot(shared.slots, key).1 matches Some(
            task,
        ) ==> !task.is_finished()),
{
    law_always_consistent(history);
}

/// One resume attempt on `key` with no other visit between its two: the
/// slots afterwards and the outcome, where `left` is the computation as the
/// resume leaves it.
pub open spec fn attempt_alone(slots: Slots, key: int, left: Task) -> (Slots, RunTask) {
    if take_slot(slots, key).1 is None {
        (slots, RunTask::Unavailable)
    } else if left.is_finished() {
        (settle_slot(take_slot(slots, key).0, key, left), RunTask::Completed)
    } else {
        (settle_slot(take_slot(slots, key).0, key, left), RunTask::Suspended)
    }
}

/// The woken half of a sweep with no other visit meanwhile: one attempt for
/// each identity that was on the ready queue, in order. The result is the
/// slots afterwards, the identities that went back on the queue, in order,
/// and whether there was progress. `left` holds, for each attempt, the
/// computation as its resume leaves it.
pub open spec fn drain_alone(slots: Slots, ready: Seq<int>, left: Seq<Task>) -> (
    Slots,
    Seq<int>,
    bool,
)
    decreases ready.len(),
{
    if ready.len() == 0 {
        (slots, Seq::empty(), false)
    } else {
        let earlier = drain_alone(slots, ready.drop_last(), left);
        let attempt = attempt_alone(earlier.0, ready.last(), left[ready.len() - 1]);
        let verdict = judge(earlier.2, attempt.1);
        (
            attempt.0,
            if verdict.1 {
                earlier.1.push(ready.last())
            } else {
                earlier.1
            },
            verdict.0,
        )
    }
}

/// An attempt made alone never finds its slot missing: its outcome is the one
/// that `SlotTable::begin` and `SlotTable::settle` give, one after the other.
pub proof fn law_attempt_alone_is_begin_then_settle(slots: Slots, key: int, left: Task)
    ensures
        take_slot(slots, key).1 is None ==> attempt_alone(slots, key, left) == (
            take_slot(slots, key).0,
            RunTask::Unavailable,
        ),
        take_slot(slots, key).1 is Some ==> settle_outcome(take_slot(slots, key).0, key, left)
            == Ok::<RunTask, Fault>(attempt_alone(slots, key, left).1),
{
}

/// Contention is neither progress nor loss: where no identity on the ready
/// queue has its computation in place, the drain resumes nothing, leaves the
/// table as it is, makes no progress, and puts every identity back on the
/// queue in the order in which it came.
pub proof fn law_contended_drain_changes_nothing(slots: Slots, ready: Seq<int>, left: Seq<Task>)
    requires
        forall|i: int| 0 <= i < ready.len() ==> slot_at(slots, #[trigger] ready[i]) != Slot::Present,
    ensures
        drain_alone(slots, ready, left) == (slots, ready, false),
    decreases ready.len(),
{
    if ready.len() > 0 {
        let earlier = ready.drop_last();
        assert forall|i: int| 0 <= i < earlier.len() implies slot_at(slots, #[trigger] earlier[i])
            != Slot::Present by {
            assert(earlier[i] == ready[i]);
        }
        law_contended_drain_changes_nothing(slots, earlier, left);
        assert(slot_at(slots, ready[ready.len() - 1]) != Slot::Present);
        assert(earlier.push(ready.last()) =~= ready);
    } else {
        assert(ready =~= Seq::<int>::empty());
    }
}

/// A stale wake reaches the newer occupant only: where the slot of `key` was
/// given up and handed out again to `newer`, an attempt on `key` resumes
/// `newer`, and nothing of what the slot held before.
pub proof fn law_stale_wake_meets_the_newer(slots: Slots, key: int, newer: Task, left: Task)
    ensures
        take_slot(slots.remove(key).insert(key, Some(newer)), key).1 == Some(newer),
        attempt_alone(slots.remove(key).insert(key, Some(newer)), key, left).1
            != RunTask::Unavailable,
        !left.is_finished() ==> attempt_alone(slots.remove(key).insert(key, Some(newer)), key, left)
            == (slots.remove(key).insert(key, Some(left)), RunTask::Suspended),
{
    let reused = slots.remove(key).insert(key, Some(newer));
    if !left.is_finished() {
        assert(settle_slot(take_slot(reused, key).0, key, left) =~= slots.remove(key).insert(
            key,
            Some(left),
        ));
    }
}

/// Slots are neither lost nor kept for nothing: the number of owned slots
/// goes up by one with each computation that enters, down by one with each
/// that completes, and changes with nothing else.
pub proof fn law_slots_follow_computations(before: Sharing, visit: Visit)
    requires
        before.consistent(),
        before.admits(visit),
        before.slots.dom().finite(),
    ensures
        before.after(visit).slots.dom().finite(),
        before.after(visit).slots.dom().len() == before.slots.dom().len() + (match visit {
            Visit::Adopt { key, task } => 1int,
            Visit::Take { key } => 0int,
            Visit::Settle { key, task } => if task.is_finished() {
                -1int
            } else {
                0int
            },
        }),
{
}

} // verus!
