use vstd::prelude::*;

verus! {

/// A broken invariant of the executor, or a use of it after its other half is gone.
///
/// None of these is recoverable: a caller that receives one is expected to stop.
#[derive(Clone, Copy, Debug, PartialEq, Eq, Structural)]
pub enum Fault {
    /// The lock of the slot table was poisoned by a panic of an earlier holder.
    TablePoisoned,
    /// The slot of a computation that was taken out for a resume is vacant.
    SlotMissing,
    /// The slot table has no index left that fits a `TaskId`.
    IdentityOverflow,
    /// An identity could not be put back on the ready queue.
    RequeueFailed,
    /// A computation was spawned after the executor had been dropped.
    ExecutorGone,
}

impl Fault {
    /// The fault in words.
    pub open spec fn text(self) -> Seq<char> {
        match self {
            Fault::TablePoisoned => "Task slab poisoned"@,
            Fault::SlotMissing => "Task slot is missing"@,
            Fault::IdentityOverflow => "TaskId overflow"@,
            Fault::RequeueFailed => "could not requeue"@,
            Fault::ExecutorGone =>
                "unable to spawn an async task, task sender channel is disconnected."@,
        }
    }

    /// The fault in words, for the host to stop with.
    pub fn message(&self) -> (text: &'static str)
        ensures
            text@ == self.text(),
    {
        match self {
            Fault::TablePoisoned => "Task slab poisoned",
            Fault::SlotMissing => "Task slot is missing",
            Fault::IdentityOverflow => "TaskId overflow",
            Fault::RequeueFailed => "could not requeue",
            Fault::ExecutorGone =>
                "unable to spawn an async task, task sender channel is disconnected.",
        }
    }
}

} // verus!
