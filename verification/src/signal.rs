//! The parking signal: where idle workers wait and where new work is announced.

use std::sync::Condvar;
use std::sync::Mutex;
use std::time::Duration;
use vstd::prelude::*;

verus! {

/// `std::sync::Mutex`, as an opaque value.
#[verifier::external_type_specification]
#[verifier::external_body]
#[verifier::reject_recursive_types(T)]
pub struct ExMutex<T: ?Sized>(Mutex<T>);

/// `std::sync::Condvar`, as an opaque value.
#[verifier::external_type_specification]
#[verifier::external_body]
pub struct ExCondvar(Condvar);

/// `Mutex::new` wraps a value; nothing is claimed of the lock.
pub assume_specification<T>[ Mutex::<T>::new ](value: T) -> (mutex: Mutex<T>);

/// `Condvar::new` makes a condition variable with no waiters.
pub assume_specification[ Condvar::new ]() -> (condvar: Condvar);

/// `Condvar::notify_one` wakes at most one waiting thread and returns at once.
pub assume_specification[ Condvar::notify_one ](condvar: &Condvar);

/// One condition variable and the mutex it is always used with, shared by every
/// worker and by everything that hands out work.
pub struct ParkingSignal {
    guard: Mutex<()>,
    condvar: Condvar,
}

/// Calls `Mutex::lock` on the signal's mutex and then `Condvar::wait_timeout` on
/// its condition variable, for `millis` milliseconds, and says whether the time
/// ran out. The guard never leaves this function, so the condition variable
/// only ever meets this one mutex. A poisoned lock guards no data here and is
/// taken all the same.
#[verifier::external_body]
fn wait(signal: &ParkingSignal, millis: u64) -> (timed_out: bool) {
    let held = match signal.guard.lock() {
        Ok(held) => held,
        Err(poisoned) => poisoned.into_inner(),
    };
    let woken = match signal.condvar.wait_timeout(held, Duration::from_millis(millis)) {
        Ok(woken) => woken,
        Err(poisoned) => poisoned.into_inner(),
    };
    woken.1.timed_out()
}

impl ParkingSignal {
    /// A signal on which nobody waits yet.
    pub fn new() -> (signal: ParkingSignal) {
        ParkingSignal { guard: Mutex::new(()), condvar: Condvar::new() }
    }

    /// Wakes one parked worker, if there is one. Waking a worker that finds no
    /// work is harmless: it looks at the queues and parks again.
    pub fn notify_one(&self) {
        self.condvar.notify_one();
    }

    /// Parks the calling thread until it is notified or `millis` milliseconds
    /// have passed, whichever comes first, and says whether the time ran out.
    /// A thread may also come back early for no reason at all.
    pub fn park(&self, millis: u64) -> (timed_out: bool) {
        wait(self, millis)
    }
}

} // verus!
