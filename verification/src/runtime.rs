//! Setting a scheduler up, and the cell in which a thread keeps its current one.
//!
//! A thread keeps at most one handle as its current scheduler, in a cell of its
//! own. The cell itself is storage that only the embedding program can provide;
//! the functions here say what goes into it and what comes out.

use crate::channel::queue_drained;
use crate::channel::queue_fed;
use crate::channel::ready_queue;
use crate::handle::Handle;
use crate::signal::ParkingSignal;
use crate::task::share;
use crate::worker::Phase;
use crate::worker::Worker;
use std::sync::Arc;
use vstd::prelude::*;

verus! {

/// A scheduler that has been set up and waits for threads to run it.
pub struct Runtime {
    /// The handle through which work is handed in.
    pub handle: Handle,
    /// The workers, each to be hosted on a thread of its own that keeps calling
    /// [`Worker::step`].
    pub workers: Vec<Worker>,
    /// How many threads the thread pool must have: one for each worker and the
    /// rest for blocking work.
    pub threads: usize,
}

/// Whether a worker belongs to the scheduler behind a handle and is about to
/// start its loop: it takes tasks from the queue that the handle feeds, and
/// parks on the signal that the handle rings.
pub open spec fn serves(worker: Worker, handle: Handle) -> bool {
    &&& worker.phase() == Phase::CheckLocal
    &&& queue_drained(worker.shared_queue()) == queue_fed(handle.queue())
    &&& worker.signal() == handle.signal()
}

/// Sets up a scheduler with `num_worker` workers and room for
/// `max_blocking_threads` threads of blocking work, and makes its handle the
/// current one in the given cell.
///
/// All workers take tasks from the one shared queue that the handle feeds, and
/// park on the handle's signal.
pub fn new_runtime(slot: &mut Option<Handle>, num_worker: usize, max_blocking_threads: usize) -> (runtime:
    Runtime)
    requires
        num_worker + max_blocking_threads <= usize::MAX,
    ensures
        runtime.threads == num_worker + max_blocking_threads,
        runtime.workers@.len() == num_worker,
        forall|i: int| 0 <= i < num_worker ==> serves(#[trigger] runtime.workers@[i], runtime.handle),
        *final(slot) == Some(runtime.handle),
{
    let threads = max_blocking_threads + num_worker;
    let (global_sender, global_receiver) = ready_queue();
    let signal = Arc::new(ParkingSignal::new());
    let handle = Handle::new(global_sender, share(&signal));
    set_current(slot, handle.clone());
    let mut workers: Vec<Worker> = Vec::new();
    while workers.len() < num_worker
        invariant
            workers@.len() <= num_worker,
            handle.signal() == signal,
            queue_drained(global_receiver) == queue_fed(handle.queue()),
            forall|i: int| 0 <= i < workers@.len() ==> serves(#[trigger] workers@[i], handle),
        decreases num_worker - workers@.len(),
    {
        workers.push(Worker::new(global_receiver.duplicate(), share(&signal)));
    }
    Runtime { handle, workers, threads }
}

/// Makes a handle the current scheduler of the thread that owns the cell. A
/// handle that was there before is replaced without notice.
pub fn set_current(slot: &mut Option<Handle>, handle: Handle)
    ensures
        *final(slot) == Some(handle),
{
    *slot = Some(handle);
}

/// The current scheduler of the thread that owns the cell. To ask before one was
/// set is a mistake of the caller.
pub fn current(slot: &Option<Handle>) -> (handle: Handle)
    requires
        *slot is Some,
    ensures
        *slot == Some(handle),
{
    match slot {
        Some(handle) => handle.clone(),
        None => unreached(),
    }
}

} // verus!
