//! What can go wrong between handing in a computation and getting its result.

use vstd::prelude::*;

verus! {

/// The ways in which spawning a computation or joining on its result fails.
#[derive(Clone, Copy, Debug, PartialEq, Eq, Structural)]
pub enum RuntimeError {
    /// No worker is left to take tasks from the ready queue.
    QueueClosed,
    /// The task went away without completing: no result will ever come.
    ResultLost,
    /// A result came, but not of the type that the join handle is for.
    WrongType,
    /// No result came within the time allowed.
    TimedOut,
}

} // verus!
