use async_runtime::new_runtime;
use async_runtime::Delivery;
use async_runtime::Handle;
use async_runtime::Phase;
use async_runtime::Resumption;
use async_runtime::RuntimeError;
use async_runtime::Source;
use async_runtime::Step;
use async_runtime::Wakeup;
use async_runtime::Worker;
use async_runtime::PARK_TIMEOUT_MILLIS;
use std::sync::atomic::AtomicUsize;
use std::sync::atomic::Ordering;
use std::sync::Arc;
use std::sync::Mutex;
use std::task::Poll;
use std::task::Waker;
use std::time::Duration;
use std::time::Instant;

/// Steps the worker until it has found the shared queue empty, and returns
/// what it did with each task it took on the way.
fn drain(worker: &mut Worker) -> Vec<Resumption> {
    let mut reports = Vec::new();
    loop {
        match worker.step() {
            Step::Resumed(_, report) => reports.push(report),
            Step::Empty(Source::Global) => return reports,
            Step::Empty(Source::Local) => {}
            Step::Parked(_) => {}
        }
    }
}

fn single_worker() -> (Handle, Worker) {
    let mut slot = None;
    let mut runtime = new_runtime(&mut slot, 1, 0);
    let worker = runtime.workers.pop().unwrap();
    (runtime.handle, worker)
}

#[test]
fn ready_computation_yields_its_value() {
    let (handle, mut worker) = single_worker();
    let join_handle = handle.spawn(futures::future::ready(7u32)).unwrap();
    assert_eq!(worker.step(), Step::Empty(Source::Local));
    assert_eq!(
        worker.step(),
        Step::Resumed(Source::Global, Resumption::Completed(Delivery::Sent))
    );
    assert_eq!(join_handle.join(), Ok(7));
}

#[test]
fn completed_task_never_enters_the_queue_again() {
    let (handle, mut worker) = single_worker();
    let join_handle = handle.spawn(futures::future::ready(String::from("done"))).unwrap();
    assert_eq!(drain(&mut worker), vec![Resumption::Completed(Delivery::Sent)]);
    assert_eq!(worker.phase(), Phase::Parked);
    assert_eq!(worker.step(), Step::Parked(Wakeup::TimedOut));
    assert_eq!(drain(&mut worker), vec![]);
    assert_eq!(join_handle.join(), Ok(String::from("done")));
}

#[test]
fn more_tasks_than_workers_all_complete_once() {
    let mut slot = None;
    let mut runtime = new_runtime(&mut slot, 2, 0);
    let runs = Arc::new(AtomicUsize::new(0));
    let mut join_handles = Vec::new();
    for value in 0..7usize {
        let runs = runs.clone();
        let future = futures::future::lazy(move |_| {
            runs.fetch_add(1, Ordering::SeqCst);
            value * 10
        });
        join_handles.push(runtime.handle.spawn(future).unwrap());
    }
    let mut completed = 0;
    let mut turn = 0;
    while completed < 7 {
        let worker = &mut runtime.workers[turn % 2];
        if let Step::Resumed(source, report) = worker.step() {
            assert_eq!(source, Source::Global);
            assert_eq!(report, Resumption::Completed(Delivery::Sent));
            completed += 1;
        }
        turn += 1;
    }
    assert_eq!(drain(&mut runtime.workers[0]), vec![]);
    assert_eq!(drain(&mut runtime.workers[1]), vec![]);
    assert_eq!(runs.load(Ordering::SeqCst), 7);
    for (value, join_handle) in join_handles.into_iter().enumerate() {
        assert_eq!(join_handle.join(), Ok(value * 10));
    }
}

#[test]
fn five_tasks_on_two_workers_yield_zero_to_four() {
    let mut slot = None;
    let mut runtime = new_runtime(&mut slot, 2, 2);
    assert_eq!(runtime.threads, 4);
    assert_eq!(runtime.workers.len(), 2);
    let mut join_handles = Vec::new();
    for value in 0..5u32 {
        join_handles.push(runtime.handle.spawn(futures::future::ready(value)).unwrap());
    }
    let first = drain(&mut runtime.workers[0]);
    let second = drain(&mut runtime.workers[1]);
    assert_eq!(first.len() + second.len(), 5);
    let mut values = Vec::new();
    for join_handle in join_handles {
        values.push(join_handle.join().unwrap());
    }
    values.sort();
    assert_eq!(values, vec![0, 1, 2, 3, 4]);
}

#[test]
fn suspended_computation_that_nothing_can_wake_is_given_up() {
    let (handle, mut worker) = single_worker();
    let join_handle = handle.spawn(futures::future::pending::<u32>()).unwrap();
    assert_eq!(drain(&mut worker), vec![Resumption::Suspended]);
    assert_eq!(worker.step(), Step::Parked(Wakeup::TimedOut));
    assert_eq!(drain(&mut worker), vec![]);
    assert_eq!(join_handle.join_timeout(300), Err(RuntimeError::ResultLost));
}

/// A future that suspends on its first poll, leaving its waker in `wakers`,
/// and completes with `value` on the second. `polls` counts the polls.
fn suspend_once(
    value: u32,
    wakers: Arc<Mutex<Vec<Waker>>>,
    polls: Arc<AtomicUsize>,
) -> impl std::future::Future<Output = u32> + Send + 'static {
    futures::future::poll_fn(move |context: &mut std::task::Context<'_>| {
        if polls.fetch_add(1, Ordering::SeqCst) == 0 {
            wakers.lock().unwrap().push(context.waker().clone());
            Poll::Pending
        } else {
            Poll::Ready(value)
        }
    })
}

#[test]
fn suspended_computation_that_is_never_woken_never_completes() {
    let (handle, mut worker) = single_worker();
    let wakers = Arc::new(Mutex::new(Vec::new()));
    let polls = Arc::new(AtomicUsize::new(0));
    let join_handle = handle.spawn(suspend_once(1, wakers.clone(), polls.clone())).unwrap();
    assert_eq!(drain(&mut worker), vec![Resumption::Suspended]);
    assert_eq!(worker.step(), Step::Parked(Wakeup::TimedOut));
    assert_eq!(drain(&mut worker), vec![]);
    assert_eq!(worker.step(), Step::Parked(Wakeup::TimedOut));
    assert_eq!(drain(&mut worker), vec![]);
    assert_eq!(join_handle.join_timeout(300), Err(RuntimeError::TimedOut));
    assert_eq!(polls.load(Ordering::SeqCst), 1);
    assert_eq!(wakers.lock().unwrap().len(), 1);
}

#[test]
fn woken_task_is_resumed_and_completes() {
    let (handle, mut worker) = single_worker();
    let wakers = Arc::new(Mutex::new(Vec::new()));
    let polls = Arc::new(AtomicUsize::new(0));
    let join_handle = handle.spawn(suspend_once(11, wakers.clone(), polls.clone())).unwrap();
    assert_eq!(drain(&mut worker), vec![Resumption::Suspended]);
    assert_eq!(join_handle.join_timeout(20), Err(RuntimeError::TimedOut));
    let waker = wakers.lock().unwrap().pop().unwrap();
    waker.wake();
    assert_eq!(drain(&mut worker), vec![Resumption::Completed(Delivery::Sent)]);
    assert_eq!(polls.load(Ordering::SeqCst), 2);
    assert_eq!(join_handle.join(), Ok(11));
}

#[test]
fn task_woken_many_times_completes_once() {
    let (handle, mut worker) = single_worker();
    let wakers = Arc::new(Mutex::new(Vec::new()));
    let polls = Arc::new(AtomicUsize::new(0));
    let join_handle = handle.spawn(suspend_once(9, wakers.clone(), polls.clone())).unwrap();
    assert_eq!(drain(&mut worker), vec![Resumption::Suspended]);
    let waker = wakers.lock().unwrap().pop().unwrap();
    waker.wake_by_ref();
    waker.wake_by_ref();
    waker.wake_by_ref();
    assert_eq!(
        drain(&mut worker),
        vec![
            Resumption::Completed(Delivery::Sent),
            Resumption::Finished,
            Resumption::Finished
        ]
    );
    assert_eq!(polls.load(Ordering::SeqCst), 2);
    assert_eq!(join_handle.join_timeout(50), Ok(9));
    assert_eq!(join_handle.join_timeout(50), Err(RuntimeError::TimedOut));
    drop(waker);
    assert_eq!(join_handle.join(), Err(RuntimeError::ResultLost));
}

#[test]
fn wake_after_completion_is_harmless() {
    let (handle, mut worker) = single_worker();
    let wakers = Arc::new(Mutex::new(Vec::new()));
    let polls = Arc::new(AtomicUsize::new(0));
    let join_handle = handle.spawn(suspend_once(3, wakers.clone(), polls.clone())).unwrap();
    assert_eq!(drain(&mut worker), vec![Resumption::Suspended]);
    let waker = wakers.lock().unwrap().pop().unwrap();
    waker.wake_by_ref();
    assert_eq!(drain(&mut worker), vec![Resumption::Completed(Delivery::Sent)]);
    waker.wake_by_ref();
    assert_eq!(drain(&mut worker), vec![Resumption::Finished]);
    assert_eq!(polls.load(Ordering::SeqCst), 2);
    assert_eq!(join_handle.join(), Ok(3));
}

#[test]
fn dropped_join_handle_does_not_stop_the_task() {
    let (handle, mut worker) = single_worker();
    let runs = Arc::new(AtomicUsize::new(0));
    let counted = runs.clone();
    let join_handle = handle
        .spawn(futures::future::lazy(move |_| counted.fetch_add(1, Ordering::SeqCst)))
        .unwrap();
    drop(join_handle);
    assert_eq!(drain(&mut worker), vec![Resumption::Completed(Delivery::Dropped)]);
    assert_eq!(runs.load(Ordering::SeqCst), 1);
    let next = handle.spawn(futures::future::ready(1u8)).unwrap();
    assert_eq!(drain(&mut worker), vec![Resumption::Completed(Delivery::Sent)]);
    assert_eq!(next.join(), Ok(1));
}

#[test]
fn idle_worker_goes_round_its_three_phases() {
    let (_handle, mut worker) = single_worker();
    assert_eq!(worker.phase(), Phase::CheckLocal);
    assert_eq!(worker.step(), Step::Empty(Source::Local));
    assert_eq!(worker.phase(), Phase::CheckGlobal);
    assert_eq!(worker.step(), Step::Empty(Source::Global));
    assert_eq!(worker.phase(), Phase::Parked);
    assert_eq!(worker.step(), Step::Parked(Wakeup::TimedOut));
    assert_eq!(worker.phase(), Phase::CheckLocal);
    assert_eq!(worker.step(), Step::Empty(Source::Local));
}

#[test]
fn parked_worker_comes_back_after_the_timeout() {
    assert_eq!(PARK_TIMEOUT_MILLIS, 100);
    let (_handle, mut worker) = single_worker();
    assert_eq!(worker.step(), Step::Empty(Source::Local));
    assert_eq!(worker.step(), Step::Empty(Source::Global));
    let started = Instant::now();
    assert_eq!(worker.step(), Step::Parked(Wakeup::TimedOut));
    let waited = started.elapsed();
    assert!(waited >= Duration::from_millis(100));
    assert!(waited < Duration::from_millis(5000));
}

#[test]
fn worker_starts_over_with_its_own_queue_after_a_task() {
    let (handle, mut worker) = single_worker();
    let first = handle.spawn(futures::future::ready(1u32)).unwrap();
    let second = handle.spawn(futures::future::ready(2u32)).unwrap();
    assert_eq!(worker.step(), Step::Empty(Source::Local));
    assert_eq!(
        worker.step(),
        Step::Resumed(Source::Global, Resumption::Completed(Delivery::Sent))
    );
    assert_eq!(worker.phase(), Phase::CheckLocal);
    assert_eq!(worker.step(), Step::Empty(Source::Local));
    assert_eq!(
        worker.step(),
        Step::Resumed(Source::Global, Resumption::Completed(Delivery::Sent))
    );
    assert_eq!(first.join(), Ok(1));
    assert_eq!(second.join(), Ok(2));
}

#[test]
fn tasks_of_one_producer_are_resumed_in_the_order_spawned() {
    let (handle, mut worker) = single_worker();
    let order = Arc::new(Mutex::new(Vec::new()));
    for value in 0..4u32 {
        let order = order.clone();
        let join_handle = handle
            .spawn(futures::future::lazy(move |_| order.lock().unwrap().push(value)))
            .unwrap();
        drop(join_handle);
    }
    assert_eq!(drain(&mut worker).len(), 4);
    assert_eq!(*order.lock().unwrap(), vec![0, 1, 2, 3]);
}

#[test]
fn spawn_fails_when_no_worker_is_left() {
    let (handle, worker) = single_worker();
    drop(worker);
    assert!(matches!(
        handle.spawn(futures::future::ready(1u32)),
        Err(RuntimeError::QueueClosed)
    ));
    assert_eq!(handle.block_on(futures::future::ready(1u32)), Err(RuntimeError::QueueClosed));
}

#[test]
fn runtime_without_workers_takes_no_work() {
    let mut slot = None;
    let runtime = new_runtime(&mut slot, 0, 3);
    assert_eq!(runtime.threads, 3);
    assert_eq!(runtime.workers.len(), 0);
    assert!(slot.is_some());
    assert!(matches!(
        runtime.handle.spawn(futures::future::ready(0u8)),
        Err(RuntimeError::QueueClosed)
    ));
}

#[test]
fn cloned_handle_feeds_the_same_scheduler() {
    let (handle, mut worker) = single_worker();
    let copy = handle.clone();
    drop(handle);
    let join_handle = copy.spawn(futures::future::ready(5i64)).unwrap();
    assert_eq!(drain(&mut worker), vec![Resumption::Completed(Delivery::Sent)]);
    assert_eq!(join_handle.join(), Ok(5));
}
