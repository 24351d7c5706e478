//! In-process asynchronous wakeup primitives for a single-threaded
//! cooperative scheduler.
//!
//! Two independent primitives are provided:
//!
//! - [`event::event`] creates a single-waiter notifier/listener pair: at
//!   most one wait may be outstanding at a time, enforced by ownership.
//! - [`notify::Notify`] is a broadcast notifier: any number of waiters may
//!   be suspended at once, and every notification wakes all of them.
//!
//! Both resolve a wait if and only if a notification has occurred since the
//! wait was created or last polled, with no lost wakeups regardless of the
//! relative order of notifying and polling. All state is meant to be driven
//! from the one thread that runs the scheduler; there is no internal locking.

pub mod event;
pub mod notify;
pub mod task;
