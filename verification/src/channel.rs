//! The two kinds of channel the scheduler is built on.
//!
//! The ready queue is unbounded and has many producers and many consumers: every
//! handle and every task holds a sending side, every worker a receiving side. A
//! result channel holds at most one value and connects one task to one join
//! handle.
//!
//! Other threads send and receive on the same channels at any moment, so nothing
//! here describes what a channel holds: each operation only reports what it saw.
//! What can be said of a side of a channel is which channel it belongs to.

use crate::task::Task;
use crate::task::TaskResult;
use crossbeam_channel::Receiver;
use crossbeam_channel::RecvTimeoutError;
use crossbeam_channel::SendError;
use crossbeam_channel::Sender;
use crossbeam_channel::TryRecvError;
use std::sync::Arc;
use std::time::Duration;
use vstd::prelude::*;

verus! {

/// The sending side of a `crossbeam_channel` channel, as an opaque value.
#[verifier::external_type_specification]
#[verifier::external_body]
#[verifier::reject_recursive_types(T)]
pub struct ExSender<T>(Sender<T>);

/// The receiving side of a `crossbeam_channel` channel, as an opaque value.
#[verifier::external_type_specification]
#[verifier::external_body]
#[verifier::reject_recursive_types(T)]
pub struct ExReceiver<T>(Receiver<T>);

/// What a look at a queue that does not wait found there.
pub enum Pop<T> {
    /// The item at the head of the queue, now removed from it.
    Item(T),
    /// Nothing was waiting, but a sender is still alive.
    Empty,
    /// Nothing was waiting and no sender is left.
    Disconnected,
}

/// What a bounded wait on a channel ended with.
pub enum Received<T> {
    /// A value arrived in time.
    Value(T),
    /// The time ran out with the channel still open.
    TimedOut,
    /// The channel is empty and every sender is gone.
    Closed,
}

/// The sending side of the ready queue.
///
/// A task holds the queue it goes back to when woken, and the queue holds tasks,
/// so the channel's type refers to itself through `Task`. The field is therefore
/// kept out of the verifier's sight and reached only through the functions
/// below.
#[verifier::external_body]
pub struct ReadySender {
    inner: Sender<Arc<Task>>,
}

/// The receiving side of the ready queue. See [`ReadySender`].
#[verifier::external_body]
pub struct ReadyReceiver {
    inner: Receiver<Arc<Task>>,
}

/// The ready queue that a sending side feeds. The number only tells one queue
/// from another.
pub uninterp spec fn queue_fed(sender: ReadySender) -> int;

/// The ready queue that a receiving side takes from.
pub uninterp spec fn queue_drained(receiver: ReadyReceiver) -> int;

/// The result channel that a sending side feeds.
pub uninterp spec fn channel_fed(sender: Sender<TaskResult>) -> int;

/// The result channel that a receiving side takes from.
pub uninterp spec fn channel_drained(receiver: Receiver<TaskResult>) -> int;

/// Calls `crossbeam_channel::unbounded` and hands out the two sides of a new
/// ready queue: what is sent on the one arrives at the other.
#[verifier::external_body]
pub(crate) fn ready_queue() -> (ends: (ReadySender, ReadyReceiver))
    ensures
        queue_fed(ends.0) == queue_drained(ends.1),
{
    let (sender, receiver) = crossbeam_channel::unbounded();
    (ReadySender { inner: sender }, ReadyReceiver { inner: receiver })
}

impl ReadySender {
    /// Calls `Sender::clone`. The clone holds the same pointer to the same
    /// channel, which is all a sender consists of: it is the same value.
    #[verifier::external_body]
    pub(crate) fn duplicate(&self) -> (copy: ReadySender)
        ensures
            copy == *self,
    {
        ReadySender { inner: self.inner.clone() }
    }

    /// Calls `Sender::send`. On an unbounded channel it never waits. It fails
    /// only when every receiver is gone, and then gives the task back.
    #[verifier::external_body]
    pub(crate) fn push(&self, task: Arc<Task>) -> (refused: Result<(), Arc<Task>>)
        ensures
            refused matches Err(back) ==> back == task,
    {
        match self.inner.send(task) {
            Ok(()) => Ok(()),
            Err(SendError(back)) => Err(back),
        }
    }
}

impl ReadyReceiver {
    /// Calls `Receiver::clone`. As with a sender, the clone of a receiver made
    /// by `unbounded` holds the same pointer to the same channel.
    #[verifier::external_body]
    pub(crate) fn duplicate(&self) -> (copy: ReadyReceiver)
        ensures
            copy == *self,
    {
        ReadyReceiver { inner: self.inner.clone() }
    }

    /// Calls `Receiver::try_recv`, which never waits. Which of the three
    /// outcomes comes back depends on what other threads did.
    #[verifier::external_body]
    pub(crate) fn try_pop(&self) -> (popped: Pop<Arc<Task>>) {
        match self.inner.try_recv() {
            Ok(task) => Pop::Item(task),
            Err(TryRecvError::Empty) => Pop::Empty,
            Err(TryRecvError::Disconnected) => Pop::Disconnected,
        }
    }
}

/// Calls `crossbeam_channel::bounded` and hands out the two sides of a new
/// result channel: what is sent on the one arrives at the other. Capacities are
/// kept far below the point where the size arithmetic of `bounded` gives up.
#[verifier::external_body]
pub(crate) fn result_channel(capacity: usize) -> (ends: (Sender<TaskResult>, Receiver<TaskResult>))
    requires
        capacity <= 0xffff,
    ensures
        channel_fed(ends.0) == channel_drained(ends.1),
{
    crossbeam_channel::bounded(capacity)
}

/// Calls `Sender::send`. It waits while the channel is full and fails only when
/// the receiver is gone, and then gives the value back.
#[verifier::external_body]
pub(crate) fn send<T>(sender: &Sender<T>, value: T) -> (refused: Result<(), T>)
    ensures
        refused matches Err(back) ==> back == value,
{
    match sender.send(value) {
        Ok(()) => Ok(()),
        Err(SendError(back)) => Err(back),
    }
}

/// Calls `Receiver::recv`, which waits until a value arrives or the channel is
/// empty with every sender gone; `None` stands for the latter.
#[verifier::external_body]
pub(crate) fn recv<T>(receiver: &Receiver<T>) -> (received: Option<T>) {
    match receiver.recv() {
        Ok(value) => Some(value),
        Err(_) => None,
    }
}

/// Calls `Receiver::recv_timeout` with a wait of `millis` milliseconds.
#[verifier::external_body]
pub(crate) fn recv_timeout<T>(receiver: &Receiver<T>, millis: u64) -> (received: Received<T>) {
    match receiver.recv_timeout(Duration::from_millis(millis)) {
        Ok(value) => Received::Value(value),
        Err(RecvTimeoutError::Timeout) => Received::TimedOut,
        Err(RecvTimeoutError::Disconnected) => Received::Closed,
    }
}

} // verus!
