//! The core of a reactive application: the executor that resumes the
//! application's suspended computations when the shell answers their
//! requests, and the capabilities through which the application asks.
//!
//! The executor has three parts. The [`slots::SlotTable`] owns the
//! computations that have begun and gives each its identity. Two queues carry
//! new computations and the identities of woken ones to the executor; a
//! [`waker::TaskWaker`] is the handle that posts an identity. And
//! [`executor::QueuingExecutor::run_all`] drains both queues, sweep after
//! sweep, until a sweep resumes nothing.
//!
//! The table is shared by every thread that drives the executor, under a lock
//! that is held for one visit at a time. [`protocol`] states what the visits
//! keep true of the table, whatever their order.
//!
//! What the executor has from other crates and from `std` without proof
//! stands in [`arena`], [`channel`] and [`lock`], and beside the types that
//! use it in [`task`] and [`waker`].
//!
//! [`http`] is a capability, and [`cat_facts`] a small application written
//! against the core: events in, a new model and requests to the shell out.

pub mod arena;
pub mod cat_facts;
pub mod channel;
pub mod command;
pub mod decimal;
pub mod executor;
pub mod fault;
pub mod http;
pub mod lock;
pub mod protocol;
pub mod slots;
pub mod task;
pub mod waker;
