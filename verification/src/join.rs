//! Join handles: the receiving end of a task's result.

use crate::channel::recv;
use crate::channel::recv_timeout;
use crate::channel::Received;
use crate::error::RuntimeError;
use crate::task::TaskResult;
use crossbeam_channel::Receiver;
use std::marker::PhantomData;
use vstd::prelude::*;

verus! {

/// The means to wait for the result of one spawned computation, of type `R`.
///
/// Dropping a join handle does not cancel the computation. It only means that
/// nobody is there to take the result.
pub struct JoinHandle<R> {
    receiver: Receiver<TaskResult>,
    marker: PhantomData<R>,
}

impl<R: 'static> JoinHandle<R> {
    /// The channel that the result comes through.
    pub closed spec fn receiver(&self) -> Receiver<TaskResult> {
        self.receiver
    }

    /// A join handle on the receiving side of a result channel.
    pub fn new(receiver: Receiver<TaskResult>) -> (handle: Self)
        ensures
            handle.receiver() == receiver,
    {
        JoinHandle { receiver, marker: PhantomData }
    }

    /// Turns what came out of the result channel into the caller's answer: a
    /// value of type `R` if one came, and otherwise the reason why not.
    pub fn resolve(received: Received<TaskResult>) -> (answer: Result<R, RuntimeError>)
        ensures
            received is Value ==> (answer matches Err(error) ==> error == RuntimeError::WrongType),
            received is TimedOut ==> answer == Err::<R, _>(RuntimeError::TimedOut),
            received is Closed ==> answer == Err::<R, _>(RuntimeError::ResultLost),
    {
        match received {
            Received::Value(result) => match result.downcast::<R>() {
                Ok(value) => Ok(value),
                Err(_) => Err(RuntimeError::WrongType),
            },
            Received::TimedOut => Err(RuntimeError::TimedOut),
            Received::Closed => Err(RuntimeError::ResultLost),
        }
    }

    /// Waits, for as long as it takes, until the result arrives or it is
    /// certain that none will.
    pub fn join(self) -> (answer: Result<R, RuntimeError>)
        ensures
            answer matches Err(error) ==> error == RuntimeError::ResultLost || error
                == RuntimeError::WrongType,
    {
        match recv(&self.receiver) {
            Some(result) => Self::resolve(Received::Value(result)),
            None => Self::resolve(Received::Closed),
        }
    }

    /// Waits for the result for at most `millis` milliseconds. The handle stays
    /// usable: a result that has not come yet can be asked for again.
    pub fn join_timeout(&self, millis: u64) -> (answer: Result<R, RuntimeError>)
        ensures
            answer matches Err(error) ==> error == RuntimeError::TimedOut || error
                == RuntimeError::ResultLost || error == RuntimeError::WrongType,
    {
        Self::resolve(recv_timeout(&self.receiver, millis))
    }
}

} // verus!
