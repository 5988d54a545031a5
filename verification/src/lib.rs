//! A minimal cooperative scheduler.
//!
//! Suspendable computations are wrapped into tasks, tasks wait in a shared ready
//! queue, and workers take them from there and resume them. A task that suspends
//! stays out of the queue until something wakes it; a task that completes hands
//! its result to the join handle of whoever spawned it.
//!
//! The library holds every decision of the scheduler. The threads that host the
//! workers, and the per-thread cell in which a thread keeps its current handle,
//! belong to the program that embeds it.

pub mod channel;
pub mod error;
pub mod handle;
pub mod join;
pub mod runtime;
pub mod signal;
pub mod task;
pub mod worker;

pub use crate::channel::Pop;
pub use crate::channel::ReadyReceiver;
pub use crate::channel::ReadySender;
pub use crate::channel::Received;
pub use crate::error::RuntimeError;
pub use crate::handle::Handle;
pub use crate::join::JoinHandle;
pub use crate::runtime::Runtime;
pub use crate::runtime::current;
pub use crate::runtime::new_runtime;
pub use crate::runtime::set_current;
pub use crate::signal::ParkingSignal;
pub use crate::task::announce;
pub use crate::task::Computation;
pub use crate::task::Delivery;
pub use crate::task::Progress;
pub use crate::task::Resumption;
pub use crate::task::Task;
pub use crate::task::TaskResult;
pub use crate::worker::PARK_TIMEOUT_MILLIS;
pub use crate::worker::Phase;
pub use crate::worker::Source;
pub use crate::worker::Step;
pub use crate::worker::Wakeup;
pub use crate::worker::Worker;
