//! Tasks: a suspended computation together with what is needed to queue it again
//! and to hand over its result.
//!
//! A computation is resumed by polling its future once. It is *live* until a
//! poll completes it and *finished* from then on; a finished computation is
//! never polled again, whoever wakes its task and however often. The result of
//! the completing poll goes to the join handle, if one is still listening.

use crate::channel::send;
use crate::channel::ReadySender;
use crate::signal::ParkingSignal;
use crossbeam_channel::Sender;
use futures::task::FutureObj;
use futures::task::WakerRef;
use std::future::Future;
use std::sync::Arc;
use std::sync::Mutex;
use std::sync::MutexGuard;
use vstd::prelude::*;

verus! {

/// `futures::task::FutureObj`, an owned future of unknown type, as an opaque
/// value.
#[verifier::external_type_specification]
#[verifier::external_body]
#[verifier::reject_recursive_types(T)]
pub struct ExFutureObj<'a, T>(FutureObj<'a, T>);

/// `futures::task::WakerRef`, a borrowed waker, as an opaque value.
#[verifier::external_type_specification]
#[verifier::external_body]
pub struct ExWakerRef<'a>(WakerRef<'a>);

/// `std::sync::MutexGuard`, as an opaque value.
#[verifier::external_type_specification]
#[verifier::external_body]
#[verifier::reject_recursive_types(T)]
pub struct ExMutexGuard<'a, T: ?Sized + 'a>(MutexGuard<'a, T>);

/// The result of a computation in the one representation that every task
/// shares, whatever the computation's own result type is: the value in a box
/// that remembers its type.
///
/// The verifier takes no trait object with a marker trait beside it, so the box
/// is kept out of its sight.
#[verifier::external_body]
pub struct TaskResult {
    boxed: Box<dyn std::any::Any + Send>,
}

/// Calls `Box::new` and forgets the value's static type. Nothing is claimed of
/// the result.
#[verifier::external_body]
fn boxed<R: Send + 'static>(value: R) -> (result: TaskResult) {
    TaskResult { boxed: Box::new(value) }
}

/// Calls `Box::downcast`: the value, if it has type `R`, and else the result as
/// it was.
#[verifier::external_body]
fn unboxed<R: 'static>(result: TaskResult) -> (value: Result<R, TaskResult>)
    ensures
        value matches Err(back) ==> back == result,
{
    match result.boxed.downcast::<R>() {
        Ok(value) => Ok(*value),
        Err(boxed) => Err(TaskResult { boxed }),
    }
}

impl TaskResult {
    /// Puts a value into the representation that all results share.
    pub fn new<R: Send + 'static>(value: R) -> (result: TaskResult) {
        boxed(value)
    }

    /// Takes the value out again, if it has type `R`. If it has not, the result
    /// comes back as it was, and another type can be tried.
    pub fn downcast<R: 'static>(self) -> (value: Result<R, TaskResult>)
        ensures
            value matches Err(back) ==> back == self,
    {
        unboxed(self)
    }
}

/// Calls `FutureExt::map` to box the future's output as a [`TaskResult`], and
/// `FutureObj::new` to forget the future's type.
#[verifier::external_body]
fn erase<R, F>(future: F) -> (erased: FutureObj<'static, TaskResult>) where
    F: Future<Output = R> + Send + 'static,
    R: Send + 'static,
 {
    FutureObj::new(Box::new(futures::FutureExt::map(future, TaskResult::new::<R>)))
}

/// Calls `Future::poll` once, with a context made of the given waker. `None`
/// stands for `Poll::Pending`. What comes back is up to the future.
#[verifier::external_body]
fn poll(future: &mut FutureObj<'static, TaskResult>, waker: &WakerRef<'_>) -> (polled: Option<
    TaskResult,
>) {
    let mut context = std::task::Context::from_waker(waker);
    match std::pin::Pin::new(future).poll(&mut context) {
        std::task::Poll::Ready(result) => Some(result),
        std::task::Poll::Pending => None,
    }
}

/// Calls `futures::task::waker_ref`: a waker that, when used, calls
/// `wake_by_ref` on the task given.
#[verifier::external_body]
fn waker_of(task: &Arc<Task>) -> (waker: WakerRef<'_>) {
    futures::task::waker_ref(task)
}

/// Calls `Arc::clone`: another pointer to the same value.
#[verifier::external_body]
pub(crate) fn share<T>(shared: &Arc<T>) -> (copy: Arc<T>)
    ensures
        copy == *shared,
{
    shared.clone()
}

/// Calls `Mutex::lock`, which waits until the lock is free, and for ever if
/// the calling thread holds it already. The lock is taken even if a thread
/// panicked while holding it.
#[verifier::external_body]
fn lock(mutex: &Mutex<Computation>) -> (held: MutexGuard<'_, Computation>) {
    match mutex.lock() {
        Ok(held) => held,
        Err(poisoned) => poisoned.into_inner(),
    }
}

/// Calls `DerefMut::deref_mut` on the guard: the value that the lock protects.
#[verifier::external_body]
fn guarded<'a, 'b>(held: &'a mut MutexGuard<'b, Computation>) -> (inner: &'a mut Computation) {
    &mut **held
}

/// What one attempt to resume a computation came to.
pub enum Progress {
    /// The computation had completed before; it was not polled.
    Finished,
    /// The computation was polled and is not ready yet.
    Suspended,
    /// The computation was polled and completed with this result.
    Completed(TaskResult),
}

/// What became of a result on its way to the join handle.
#[derive(Clone, Copy, Debug, PartialEq, Eq, Structural)]
pub enum Delivery {
    /// The task was built without a result channel.
    Detached,
    /// The result is in the channel.
    Sent,
    /// The join handle was gone; the result was discarded.
    Dropped,
}

/// What one resumption of a task came to.
#[derive(Clone, Copy, Debug, PartialEq, Eq, Structural)]
pub enum Resumption {
    /// The task had completed before; nothing was done.
    Finished,
    /// The task is waiting to be woken.
    Suspended,
    /// The task completed, and this became of its result.
    Completed(Delivery),
}

/// The rule of a computation's life: it is polled exactly when it is live, and
/// it stops being live exactly when a poll completes it.
pub open spec fn lifecycle(live_before: bool, progress: Progress, live_after: bool) -> bool {
    match progress {
        Progress::Finished => !live_before && !live_after,
        Progress::Suspended => live_before && live_after,
        Progress::Completed(_) => live_before && !live_after,
    }
}

/// A sequence of attempts that a computation can go through, one after the
/// other, when it is live or not at the start as `live` says.
pub open spec fn is_history(live: bool, attempts: Seq<Progress>) -> bool
    decreases attempts.len(),
{
    attempts.len() == 0 || exists|live_after: bool|
        lifecycle(live, attempts[0], live_after) && is_history(live_after, attempts.skip(1))
}

/// A suspendable computation of any result type.
pub struct Computation {
    future: Option<FutureObj<'static, TaskResult>>,
}

impl Computation {
    /// Whether the computation can still make progress.
    pub closed spec fn is_live(&self) -> bool {
        self.future is Some
    }

    /// Wraps a future. Its output will come out boxed as a [`TaskResult`].
    pub fn new<R, F>(future: F) -> (computation: Computation) where
        F: Future<Output = R> + Send + 'static,
        R: Send + 'static,

        ensures
            computation.is_live(),
    {
        Computation { future: Some(erase(future)) }
    }

    /// Records what a poll of the future came to: a future that is not ready
    /// goes back in, to be polled again after a wake; one that is ready is
    /// dropped, and its result handed on.
    fn settle(&mut self, future: FutureObj<'static, TaskResult>, polled: Option<TaskResult>) -> (progress:
        Progress)
        requires
            !old(self).is_live(),
        ensures
            polled is None ==> progress == Progress::Suspended,
            polled is None ==> final(self).future == Some(future),
            polled matches Some(result) ==> progress == Progress::Completed(result),
            polled is Some ==> !final(self).is_live(),
    {
        match polled {
            None => {
                self.future = Some(future);
                Progress::Suspended
            },
            Some(result) => Progress::Completed(result),
        }
    }

    /// Attempts progress once: polls the future if the computation is live, and
    /// does nothing if it is finished.
    pub fn resume(&mut self, waker: &WakerRef<'_>) -> (progress: Progress)
        ensures
            lifecycle(old(self).is_live(), progress, final(self).is_live()),
    {
        match self.future.take() {
            None => Progress::Finished,
            Some(mut future) => {
                let polled = poll(&mut future, waker);
                self.settle(future, polled)
            },
        }
    }
}

/// One schedulable unit.
pub struct Task {
    computation: Mutex<Computation>,
    task_sender: ReadySender,
    result_sender: Option<Sender<TaskResult>>,
    signal: Arc<ParkingSignal>,
}

/// What the report of a resumption must be, given what the attempt came to and
/// whether the task has a result channel.
pub open spec fn concludes(attached: bool, progress: Progress, report: Resumption) -> bool {
    match progress {
        Progress::Finished => report == Resumption::Finished,
        Progress::Suspended => report == Resumption::Suspended,
        Progress::Completed(_) => report matches Resumption::Completed(delivery) && (delivery
            == Delivery::Detached <==> !attached),
    }
}

/// The reports that the resumptions of one task give, for the attempts that its
/// computation went through.
pub open spec fn are_reports(attached: bool, attempts: Seq<Progress>, reports: Seq<Resumption>) -> bool {
    &&& reports.len() == attempts.len()
    &&& forall|k: int|
        0 <= k < attempts.len() ==> concludes(attached, attempts[k], #[trigger] reports[k])
}

impl Task {
    /// The sending side of the result channel, if the task was built with one.
    pub closed spec fn result_sender(&self) -> Option<Sender<TaskResult>> {
        self.result_sender
    }

    /// Whether the task was built with a result channel.
    pub open spec fn attached(&self) -> bool {
        self.result_sender() is Some
    }

    /// The ready queue that the task goes back to when it is woken.
    pub closed spec fn queue(&self) -> ReadySender {
        self.task_sender
    }

    /// The signal on which the task announces that it is ready again.
    pub closed spec fn signal(&self) -> Arc<ParkingSignal> {
        self.signal
    }

    /// Builds a task around a computation.
    pub(crate) fn new(
        computation: Computation,
        task_sender: ReadySender,
        result_sender: Option<Sender<TaskResult>>,
        signal: Arc<ParkingSignal>,
    ) -> (task: Task)
        ensures
            task.result_sender() == result_sender,
            task.queue() == task_sender,
            task.signal() == signal,
    {
        Task { computation: Mutex::new(computation), task_sender, result_sender, signal }
    }

    /// Hands a result to the join handle, if the task has a result channel. That
    /// the join handle is gone is no error: the result is dropped.
    pub fn deliver(&self, result: TaskResult) -> (delivery: Delivery)
        ensures
            delivery == Delivery::Detached <==> !self.attached(),
    {
        match &self.result_sender {
            None => Delivery::Detached,
            Some(sender) => match send(sender, result) {
                Ok(()) => Delivery::Sent,
                Err(_) => Delivery::Dropped,
            },
        }
    }

    /// Acts on what an attempt came to: a result is delivered, anything else is
    /// only reported.
    pub fn conclude(&self, progress: Progress) -> (report: Resumption)
        ensures
            concludes(self.attached(), progress, report),
    {
        match progress {
            Progress::Finished => Resumption::Finished,
            Progress::Suspended => Resumption::Suspended,
            Progress::Completed(result) => Resumption::Completed(self.deliver(result)),
        }
    }

    /// Resumes the task once, on the calling thread: takes the task's lock,
    /// attempts progress, and delivers the result if there is one. A suspended
    /// task is not queued again; only a wake does that.
    ///
    /// While one thread resumes a task, any other that tries waits for the lock:
    /// a computation never runs on two threads at once. A computation must not
    /// resume its own task.
    pub fn resume(task: &Arc<Task>) -> (report: Resumption)
        ensures
            report matches Resumption::Completed(delivery) ==> (delivery == Delivery::Detached
                <==> !task.attached()),
    {
        let mut held = lock(&task.computation);
        let waker = waker_of(task);
        let progress = guarded(&mut held).resume(&waker);
        task.conclude(progress)
    }

    /// Marks the task ready: puts it on the queue it came from and wakes one
    /// parked worker. Says whether the queue took it; it does not when no worker
    /// is left to receive. May be called from any thread, any number of times,
    /// also while the task is being resumed and after it has completed.
    pub fn wake(task: &Arc<Task>) -> (queued: bool) {
        enqueue(&task.task_sender, &task.signal, share(task)).is_ok()
    }
}

/// Acts on the answer of a ready queue that was offered a task. If the queue
/// took the task, one worker parked on the signal is woken; if it gave the task
/// back, nobody is. The answer is handed on as it came.
pub fn announce(signal: &ParkingSignal, pushed: Result<(), Arc<Task>>) -> (refused: Result<
    (),
    Arc<Task>,
>)
    ensures
        refused == pushed,
{
    if pushed.is_ok() {
        signal.notify_one();
    }
    pushed
}

/// Puts a task on a ready queue and, if the queue took it, wakes one worker
/// parked on the signal. A queue that no worker receives from gives the task
/// back.
pub(crate) fn enqueue(queue: &ReadySender, signal: &ParkingSignal, task: Arc<Task>) -> (refused:
    Result<(), Arc<Task>>)
    ensures
        refused matches Err(back) ==> back == task,
{
    announce(signal, queue.push(task))
}

impl futures::task::ArcWake for Task {
    fn wake_by_ref(arc_self: &Arc<Self>) {
        let _ = Task::wake(arc_self);
    }
}

/// In every history, once an attempt completes the computation, every later
/// attempt finds it finished: a computation completes at most once, and so
/// yields at most one result, however often its task is woken and resumed.
pub proof fn lemma_completes_at_most_once(live: bool, attempts: Seq<Progress>, i: int, j: int)
    requires
        is_history(live, attempts),
        0 <= i < j < attempts.len(),
        attempts[i] is Completed,
    ensures
        attempts[j] is Finished,
    decreases attempts.len(),
{
    let live_after = choose|live_after: bool|
        lifecycle(live, attempts[0], live_after) && is_history(live_after, attempts.skip(1));
    if i == 0 {
        assert(!live_after);
        lemma_finished_stays_finished(attempts.skip(1), j - 1);
    } else {
        lemma_completes_at_most_once(live_after, attempts.skip(1), i - 1, j - 1);
    }
}

/// A task delivers at most once: after the resumption that completed it, every
/// resumption reports that the task had finished, and hands nothing to the
/// join handle. So a result is never duplicated, however often the task is
/// woken, before or after it completes.
pub proof fn lemma_delivers_at_most_once(
    live: bool,
    attached: bool,
    attempts: Seq<Progress>,
    reports: Seq<Resumption>,
    i: int,
    j: int,
)
    requires
        is_history(live, attempts),
        are_reports(attached, attempts, reports),
        0 <= i < j < reports.len(),
        reports[i] is Completed,
    ensures
        reports[j] == Resumption::Finished,
{
    assert(concludes(attached, attempts[i], reports[i]));
    assert(concludes(attached, attempts[j], reports[j]));
    lemma_completes_at_most_once(live, attempts, i, j);
}

/// A computation that is finished stays finished: every later attempt reports
/// so, and none polls it.
pub proof fn lemma_finished_stays_finished(attempts: Seq<Progress>, j: int)
    requires
        is_history(false, attempts),
        0 <= j < attempts.len(),
    ensures
        attempts[j] is Finished,
    decreases attempts.len(),
{
    let live_after = choose|live_after: bool|
        lifecycle(false, attempts[0], live_after) && is_history(live_after, attempts.skip(1));
    if j > 0 {
        lemma_finished_stays_finished(attempts.skip(1), j - 1);
    }
}

} // verus!
