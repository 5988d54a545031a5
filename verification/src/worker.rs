//! Workers: the loop that takes ready tasks and resumes them.
//!
//! A worker goes round three phases for as long as it lives. It looks at its own
//! queue; if that is empty it looks at the shared queue; if that is empty too it
//! parks, for a bounded time, and starts over. A task found in either queue is
//! resumed at once, on the worker's thread, and the worker starts over.
//!
//! [`Worker::step`] is one turn of that loop. The thread that hosts a worker
//! calls it again and again.

use crate::channel::queue_drained;
use crate::channel::queue_fed;
use crate::channel::ready_queue;
use crate::channel::Pop;
use crate::channel::ReadyReceiver;
use crate::channel::ReadySender;
use crate::signal::ParkingSignal;
use crate::task::Resumption;
use crate::task::Task;
use std::sync::Arc;
use vstd::prelude::*;

verus! {

/// How long a worker parks before it looks at the queues again unasked, in
/// milliseconds. A task may be queued just after a worker found the queue empty
/// and just before it parks; the notification then wakes nobody, and this wait
/// bounds how long the task is left lying.
pub const PARK_TIMEOUT_MILLIS: u64 = 100;

/// Where a worker is in its loop.
#[derive(Clone, Copy, Debug, PartialEq, Eq, Structural)]
pub enum Phase {
    /// About to look at its own queue.
    CheckLocal,
    /// Found its own queue empty; about to look at the shared queue.
    CheckGlobal,
    /// Found both queues empty; about to park.
    Parked,
}

/// One of the two queues a worker takes tasks from.
#[derive(Clone, Copy, Debug, PartialEq, Eq, Structural)]
pub enum Source {
    /// The worker's own queue.
    Local,
    /// The queue shared by all workers.
    Global,
}

/// How a parked worker came back.
#[derive(Clone, Copy, Debug, PartialEq, Eq, Structural)]
pub enum Wakeup {
    /// Before the time ran out: notified, or for no reason.
    Woken,
    /// The time ran out.
    TimedOut,
}

/// What a worker did in one step.
#[derive(Clone, Copy, Debug, PartialEq, Eq, Structural)]
pub enum Step {
    /// Took a task from the queue named and resumed it.
    Resumed(Source, Resumption),
    /// Found the queue named empty.
    Empty(Source),
    /// Parked and came back.
    Parked(Wakeup),
}

/// The phase in which a worker takes a step of this kind.
pub open spec fn phase_of(step: Step) -> Phase {
    match step {
        Step::Resumed(Source::Local, _) => Phase::CheckLocal,
        Step::Empty(Source::Local) => Phase::CheckLocal,
        Step::Resumed(Source::Global, _) => Phase::CheckGlobal,
        Step::Empty(Source::Global) => Phase::CheckGlobal,
        Step::Parked(_) => Phase::Parked,
    }
}

/// The phase a worker is in after a step.
pub open spec fn phase_after(step: Step) -> Phase {
    match step {
        Step::Resumed(_, _) => Phase::CheckLocal,
        Step::Empty(Source::Local) => Phase::CheckGlobal,
        Step::Empty(Source::Global) => Phase::Parked,
        Step::Parked(_) => Phase::CheckLocal,
    }
}

/// The steps of a worker that starts in phase `start`: each is taken in the
/// phase that the one before it led to.
pub open spec fn is_run(start: Phase, steps: Seq<Step>) -> bool {
    forall|i: int|
        0 <= i < steps.len() ==> phase_of(#[trigger] steps[i]) == if i == 0 {
            start
        } else {
            phase_after(steps[i - 1])
        }
}

impl Wakeup {
    /// How a worker came back, given whether its wait ran out of time.
    pub fn after(timed_out: bool) -> (wakeup: Wakeup)
        ensures
            wakeup == if timed_out {
                Wakeup::TimedOut
            } else {
                Wakeup::Woken
            },
    {
        if timed_out {
            Wakeup::TimedOut
        } else {
            Wakeup::Woken
        }
    }
}

impl Step {
    /// The phase that follows this step.
    pub fn next_phase(&self) -> (phase: Phase)
        ensures
            phase == phase_after(*self),
    {
        match self {
            Step::Resumed(_, _) => Phase::CheckLocal,
            Step::Empty(Source::Local) => Phase::CheckGlobal,
            Step::Empty(Source::Global) => Phase::Parked,
            Step::Parked(_) => Phase::CheckLocal,
        }
    }
}

/// One worker. It owns the receiving side of its own queue and shares the
/// receiving side of the global queue and the parking signal with the others.
pub struct Worker {
    local_queue: ReadyReceiver,
    global_queue: ReadyReceiver,
    task_sender: ReadySender,
    signal: Arc<ParkingSignal>,
    phase: Phase,
}

impl Worker {
    /// Where the worker is in its loop.
    pub closed spec fn spec_phase(&self) -> Phase {
        self.phase
    }

    /// The shared queue that the worker takes tasks from.
    pub closed spec fn shared_queue(&self) -> ReadyReceiver {
        self.global_queue
    }

    /// The signal on which the worker parks.
    pub closed spec fn signal(&self) -> Arc<ParkingSignal> {
        self.signal
    }

    /// The worker's own queue, both sides. Nothing feeds it yet.
    pub closed spec fn own_queue(&self) -> (ReadySender, ReadyReceiver) {
        (self.task_sender, self.local_queue)
    }

    /// A worker on the given shared queue and signal, with an empty queue of
    /// its own, about to look at that queue.
    pub(crate) fn new(global_queue: ReadyReceiver, signal: Arc<ParkingSignal>) -> (worker: Worker)
        ensures
            worker.phase() == Phase::CheckLocal,
            worker.shared_queue() == global_queue,
            worker.signal() == signal,
            queue_fed(worker.own_queue().0) == queue_drained(worker.own_queue().1),
    {
        let (task_sender, local_queue) = ready_queue();
        Worker { local_queue, global_queue, task_sender, signal, phase: Phase::CheckLocal }
    }

    /// Where the worker is in its loop.
    #[verifier::when_used_as_spec(spec_phase)]
    pub fn phase(&self) -> (phase: Phase)
        ensures
            phase == self.spec_phase(),
    {
        self.phase
    }

    /// Acts on what a look at a queue found: a task is resumed there and then,
    /// and an empty or abandoned queue is only reported.
    pub fn react(source: Source, popped: Pop<Arc<Task>>) -> (step: Step)
        ensures
            popped is Item ==> (step matches Step::Resumed(from, _) && from == source),
            !(popped is Item) ==> step == Step::Empty(source),
    {
        match popped {
            Pop::Item(task) => Step::Resumed(source, Task::resume(&task)),
            Pop::Empty => Step::Empty(source),
            Pop::Disconnected => Step::Empty(source),
        }
    }

    /// Takes one step: looks at the queue that the phase names, or parks for at
    /// most [`PARK_TIMEOUT_MILLIS`], and moves on to the next phase.
    pub fn step(&mut self) -> (step: Step)
        ensures
            phase_of(step) == old(self).phase(),
            final(self).phase() == phase_after(step),
            final(self).shared_queue() == old(self).shared_queue(),
            final(self).signal() == old(self).signal(),
            final(self).own_queue() == old(self).own_queue(),
    {
        let step = match self.phase {
            Phase::CheckLocal => Worker::react(Source::Local, self.local_queue.try_pop()),
            Phase::CheckGlobal => Worker::react(Source::Global, self.global_queue.try_pop()),
            Phase::Parked => Step::Parked(Wakeup::after(self.signal.park(PARK_TIMEOUT_MILLIS))),
        };
        self.phase = step.next_phase();
        step
    }
}

/// A worker parks only after it has found its own queue empty and then the
/// shared queue empty, in that order and with nothing in between; and once it
/// comes back it looks at its own queue again before anything else. So it never
/// parks twice without having looked at both queues in between.
pub proof fn lemma_parks_only_after_both_queues_were_empty(start: Phase, steps: Seq<Step>, i: int)
    requires
        is_run(start, steps),
        0 <= i < steps.len(),
        steps[i] is Parked,
    ensures
        i >= 1 ==> steps[i - 1] == Step::Empty(Source::Global),
        i >= 2 ==> steps[i - 2] == Step::Empty(Source::Local),
        start == Phase::CheckLocal ==> i >= 2,
        i + 1 < steps.len() ==> phase_of(steps[i + 1]) == Phase::CheckLocal,
{
    assert(phase_of(steps[i]) == Phase::Parked);
    if i >= 1 {
        assert(phase_after(steps[i - 1]) == Phase::Parked);
        assert(phase_of(steps[i - 1]) == Phase::CheckGlobal);
        if i >= 2 {
            assert(phase_after(steps[i - 2]) == Phase::CheckGlobal);
        }
    }
    if i + 1 < steps.len() {
        assert(phase_of(steps[i + 1]) == phase_after(steps[i]));
    }
}

/// A task that a worker finds is resumed in the very step that found it, and
/// the worker then starts over with its own queue: no step of a run sets a task
/// aside.
pub proof fn lemma_starts_over_after_a_task(start: Phase, steps: Seq<Step>, i: int)
    requires
        is_run(start, steps),
        0 <= i < steps.len(),
        steps[i] is Resumed,
        i + 1 < steps.len(),
    ensures
        phase_of(steps[i + 1]) == Phase::CheckLocal,
{
    assert(phase_of(steps[i + 1]) == phase_after(steps[i]));
}

} // verus!
