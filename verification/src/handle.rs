//! Handles: the capability to hand computations to a scheduler.

use crate::channel::channel_drained;
use crate::channel::channel_fed;
use crate::channel::result_channel;
use crate::channel::ReadySender;
use crate::error::RuntimeError;
use crate::join::JoinHandle;
use crate::signal::ParkingSignal;
use crate::task::enqueue;
use crate::task::share;
use crate::task::Computation;
use crate::task::Task;
use crate::task::TaskResult;
use crossbeam_channel::Sender;
use std::future::Future;
use std::sync::Arc;
use vstd::prelude::*;

verus! {

/// A reference to one scheduler: to the sending side of its ready queue and to
/// its parking signal. Handles are cheap to clone, and every clone is the same
/// handle.
pub struct Handle {
    task_sender: ReadySender,
    signal: Arc<ParkingSignal>,
}

impl Clone for Handle {
    fn clone(&self) -> (copy: Self)
        ensures
            copy == *self,
    {
        Handle { task_sender: self.task_sender.duplicate(), signal: share(&self.signal) }
    }
}

impl Handle {
    /// The ready queue that this handle feeds.
    pub closed spec fn queue(&self) -> ReadySender {
        self.task_sender
    }

    /// The signal on which this handle announces new work.
    pub closed spec fn signal(&self) -> Arc<ParkingSignal> {
        self.signal
    }

    /// A handle on the given queue and signal.
    pub(crate) fn new(task_sender: ReadySender, signal: Arc<ParkingSignal>) -> (handle: Handle)
        ensures
            handle.queue() == task_sender,
            handle.signal() == signal,
    {
        Handle { task_sender, signal }
    }

    /// Builds a task of this scheduler around a computation: a wake puts the task
    /// on this handle's queue and rings this handle's signal. A result goes to
    /// `result_sender`, if there is one. The task is not queued yet.
    pub fn task(&self, computation: Computation, result_sender: Option<Sender<TaskResult>>) -> (task:
        Arc<Task>)
        ensures
            task.result_sender() == result_sender,
            task.queue() == self.queue(),
            task.signal() == self.signal(),
    {
        Arc::new(
            Task::new(computation, self.task_sender.duplicate(), result_sender, share(&self.signal)),
        )
    }

    /// Builds a task around a future, with a one-shot result channel of its own,
    /// and the join handle on the other side of that channel. The task is not
    /// queued yet.
    pub fn prepare<R, F>(&self, future: F) -> (made: (Arc<Task>, JoinHandle<R>)) where
        F: Future<Output = R> + Send + 'static,
        R: Send + 'static,

        ensures
            made.0.result_sender() matches Some(sender) && channel_fed(sender) == channel_drained(
                made.1.receiver(),
            ),
            made.0.queue() == self.queue(),
            made.0.signal() == self.signal(),
    {
        let (result_sender, result_receiver) = result_channel(1);
        let task = self.task(Computation::new(future), Some(result_sender));
        (task, JoinHandle::new(result_receiver))
    }

    /// Puts a task on the ready queue and wakes one parked worker. Fails, and
    /// wakes nobody, when no worker is left to take tasks.
    pub fn submit(&self, task: Arc<Task>) -> (queued: Result<(), RuntimeError>)
        ensures
            queued matches Err(error) ==> error == RuntimeError::QueueClosed,
    {
        Handle::accepted(enqueue(&self.task_sender, &self.signal, task))
    }

    /// Hands a computation to the scheduler and returns the join handle for its
    /// result. Never waits: the ready queue takes any number of tasks.
    pub fn spawn<R, F>(&self, future: F) -> (spawned: Result<JoinHandle<R>, RuntimeError>) where
        F: Future<Output = R> + Send + 'static,
        R: Send + 'static,

        ensures
            spawned matches Err(error) ==> error == RuntimeError::QueueClosed,
    {
        let (task, join_handle) = self.prepare(future);
        Handle::handed_out(self.submit(task), join_handle)
    }

    /// Spawns a computation and waits on the calling thread for its result.
    ///
    /// The calling thread must not be one that the scheduler needs in order to
    /// resume the computation: a worker that waits here while every other
    /// worker waits too waits for ever.
    pub fn block_on<R, F>(&self, future: F) -> (answer: Result<R, RuntimeError>) where
        F: Future<Output = R> + Send + 'static,
        R: Send + 'static,

        ensures
            answer matches Err(error) ==> error == RuntimeError::QueueClosed || error
                == RuntimeError::ResultLost || error == RuntimeError::WrongType,
    {
        Handle::awaited(self.spawn(future))
    }

    /// What a submission comes to, given the answer of the ready queue: a task
    /// that the queue gave back was not submitted.
    pub fn accepted(refused: Result<(), Arc<Task>>) -> (queued: Result<(), RuntimeError>)
        ensures
            queued == submission(refused),
    {
        match refused {
            Ok(()) => Ok(()),
            Err(_) => Err(RuntimeError::QueueClosed),
        }
    }

    /// What a spawn comes to, given what the submission of its task came to:
    /// the join handle goes to the caller only if the task is in the queue.
    pub fn handed_out<R>(queued: Result<(), RuntimeError>, join_handle: JoinHandle<R>) -> (spawned:
        Result<JoinHandle<R>, RuntimeError>)
        ensures
            spawned == match queued {
                Ok(()) => Ok::<JoinHandle<R>, RuntimeError>(join_handle),
                Err(error) => Err(error),
            },
    {
        match queued {
            Ok(()) => Ok(join_handle),
            Err(error) => Err(error),
        }
    }

    /// What waiting for a spawned computation comes to: the wait is on the join
    /// handle, if the spawn gave one, and the spawn's error is handed on if not.
    pub fn awaited<R: 'static>(spawned: Result<JoinHandle<R>, RuntimeError>) -> (answer: Result<
        R,
        RuntimeError,
    >)
        ensures
            spawned matches Err(error) ==> answer == Err::<R, _>(error),
            spawned is Ok ==> (answer matches Err(error) ==> error == RuntimeError::ResultLost
                || error == RuntimeError::WrongType),
    {
        match spawned {
            Ok(join_handle) => join_handle.join(),
            Err(error) => Err(error),
        }
    }
}

/// What a submission comes to, given the answer of the ready queue.
pub open spec fn submission(refused: Result<(), Arc<Task>>) -> Result<(), RuntimeError> {
    match refused {
        Ok(()) => Ok(()),
        Err(_) => Err(RuntimeError::QueueClosed),
    }
}

} // verus!
