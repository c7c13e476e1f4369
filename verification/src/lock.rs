use crate::slots::SlotTable;
use crate::task::Task;
use std::ops::DerefMut;
use std::sync::Mutex;
use std::sync::MutexGuard;
use vstd::prelude::*;

verus! {

/// `std::sync::Mutex`: a lock around a value that threads share.
#[verifier::external_type_specification]
#[verifier::external_body]
#[verifier::reject_recursive_types(T)]
pub struct ExMutex<T: ?Sized>(Mutex<T>);

/// `std::sync::MutexGuard`: the lock while it is held; dropping it gives the
/// lock up.
#[verifier::external_type_specification]
#[verifier::external_body]
#[verifier::reject_recursive_types(T)]
pub struct ExMutexGuard<'a, T: ?Sized + 'a>(MutexGuard<'a, T>);

/// The slots of the table that a lock was made around. What the lock
/// protects changes with every visit; what it was made around does not.
pub uninterp spec fn lock_made_around(tasks: Mutex<SlotTable>) -> Map<int, Option<Task>>;

/// `Mutex::new`: a lock around the table, not held by anyone.
#[verifier::external_body]
pub(crate) fn lock_around(held: SlotTable) -> (tasks: Mutex<SlotTable>)
    ensures
        lock_made_around(tasks) == held@,
{
    Mutex::new(held)
}

/// `Mutex::lock`: waits for the lock and returns its guard; `None` where an
/// earlier holder panicked and left the lock poisoned.
///
/// The table behind the lock is shared with every other caller, so nothing is
/// known of what it holds when the lock is granted.
#[verifier::external_body]
pub(crate) fn lock<'a>(tasks: &'a Mutex<SlotTable>) -> (guard: Option<MutexGuard<'a, SlotTable>>) {
    tasks.lock().ok()
}

/// `DerefMut::deref_mut` of the guard: the table that the held lock protects.
#[verifier::external_body]
pub(crate) fn table<'a, 'b>(guard: &'a mut MutexGuard<'b, SlotTable>) -> (table: &'a mut SlotTable) {
    guard.deref_mut()
}

} // verus!
