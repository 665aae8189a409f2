//! A parker: one thread blocks in `park` until another has called `unpark`.
//!
//! The signal is a flag under a lock of the parker's own, with a condition
//! variable to sleep on. An `unpark` that comes first is kept in the flag, so
//! the `park` that follows returns at once; parking the thread itself would
//! lose a signal that some unrelated code consumed.

use vstd::prelude::*;
use std::sync::{Condvar, Mutex, MutexGuard};

verus! {

/// `std::sync::Mutex`, opaque: what it guards is reached only through a guard.
#[verifier::external_type_specification]
#[verifier::external_body]
#[verifier::reject_recursive_types(T)]
pub struct ExMutex<T: ?Sized>(Mutex<T>);

/// `std::sync::MutexGuard`, opaque: proof that the lock is held.
#[verifier::external_type_specification]
#[verifier::external_body]
#[verifier::reject_recursive_types(T)]
pub struct ExMutexGuard<'a, T: ?Sized + 'a>(MutexGuard<'a, T>);

/// `std::sync::Condvar`, opaque.
#[verifier::external_type_specification]
#[verifier::external_body]
pub struct ExCondvar(Condvar);

/// Whether a thread that finds the flag in this state has to keep waiting.
pub open spec fn park_blocks(resumable: bool) -> bool {
    !resumable
}

/// The signal that a parker keeps under its lock: whether `unpark` has been
/// called since `park` last returned.
#[derive(Debug)]
pub struct Signal {
    resumable: bool,
}

impl View for Signal {
    type V = bool;

    closed spec fn view(&self) -> bool {
        self.resumable
    }
}

impl Signal {
    /// No signal.
    pub fn new() -> (signal: Signal)
        ensures
            !signal@,
    {
        Signal { resumable: false }
    }

    /// What `unpark` does under the lock: the signal is set, whether it was
    /// before or not.
    pub fn set(&mut self)
        ensures
            final(self)@,
    {
        self.resumable = true;
    }

    /// What `park` does under the lock, on entry and each time it is woken:
    /// if the signal is set, it is taken and the wait is over; if not, the
    /// thread has to wait.
    pub fn must_wait(&mut self) -> (wait: bool)
        ensures
            wait == park_blocks(old(self)@),
            !final(self)@,
    {
        if self.resumable {
            self.resumable = false;
            false
        } else {
            true
        }
    }
}

/// A parker and the thread that parks on it, as both sides together see
/// them.
pub struct Rendezvous {
    /// The signal under the lock, by its view.
    pub resumable: bool,
    /// Whether the parking thread sleeps inside `park`.
    pub waiting: bool,
    /// Whether `unpark` has been called since `park` last returned.
    pub signalled: bool,
}

/// One step on a parker. Each is taken with the lock held, so the steps of
/// the two sides come one after the other, in any order.
pub enum ParkStep {
    /// The parking thread calls `Signal::must_wait`: on entry to `park`, or
    /// when it wakes from its sleep, for whatever reason. It takes the signal
    /// and returns from `park`, or goes to sleep.
    Check,
    /// Some thread calls `unpark`, and with it `Signal::set`.
    Unpark,
}

impl Rendezvous {
    /// A new parker, with no thread in `park`.
    pub open spec fn fresh() -> Rendezvous {
        Rendezvous { resumable: false, waiting: false, signalled: false }
    }

    /// Whether the check that the parking thread makes in this state lets it
    /// return from `park`.
    pub open spec fn park_returns(self) -> bool {
        !park_blocks(self.resumable)
    }

    pub open spec fn next(self, step: ParkStep) -> Rendezvous {
        match step {
            ParkStep::Check => if self.park_returns() {
                Rendezvous { resumable: false, waiting: false, signalled: false }
            } else {
                Rendezvous { waiting: true, ..self }
            },
            ParkStep::Unpark => Rendezvous { resumable: true, signalled: true, ..self },
        }
    }

    /// The signal is set exactly if `unpark` has been called since `park`
    /// last returned.
    pub open spec fn inv(self) -> bool {
        self.resumable == self.signalled
    }

    /// The state after the steps of `trace`, taken in order from `self`.
    pub open spec fn run(self, trace: Seq<ParkStep>) -> Rendezvous
        decreases trace.len(),
    {
        if trace.len() == 0 {
            self
        } else {
            self.run(trace.drop_last()).next(trace.last())
        }
    }
}

/// In whatever order the two sides take their steps, the signal is set
/// exactly if `unpark` has been called since `park` last returned: no call
/// of `unpark` is lost, and none is counted twice.
pub proof fn lemma_no_signal_lost(trace: Seq<ParkStep>)
    ensures
        Rendezvous::fresh().run(trace).inv(),
    decreases trace.len(),
{
    if trace.len() > 0 {
        lemma_no_signal_lost(trace.drop_last());
    }
}

/// `park` returns exactly when `unpark` has been called since it last
/// returned, whichever came first: an `unpark` before the `park` lets the
/// first check pass, an `unpark` after it lets the next one pass. The check
/// that passes consumes the signal, so the `park` after it waits again.
pub proof fn lemma_park_returns_iff_signalled(trace: Seq<ParkStep>)
    ensures
        ({
            let state = Rendezvous::fresh().run(trace);
            let after = state.next(ParkStep::Check);
            &&& state.park_returns() <==> state.signalled
            &&& state.signalled ==> !after.waiting && !after.park_returns()
            &&& !state.signalled ==> after.waiting
        }),
{
    lemma_no_signal_lost(trace);
}

/// A state in which `unpark` came last lets `park` return at its next check,
/// however many times `unpark` was called: the calls after the first change
/// nothing.
pub proof fn lemma_unpark_then_park(state: Rendezvous)
    ensures
        state.next(ParkStep::Unpark).park_returns(),
        !state.next(ParkStep::Unpark).next(ParkStep::Check).waiting,
        state.next(ParkStep::Unpark).next(ParkStep::Unpark) == state.next(ParkStep::Unpark),
{
}

/// `Mutex::new`: a new lock around the given signal. Nothing is claimed of
/// it.
#[verifier::external_body]
fn new_lock(signal: Signal) -> Mutex<Signal> {
    Mutex::new(signal)
}

/// `Condvar::new`: a new condition variable, on which no thread waits.
/// Nothing is claimed of it.
#[verifier::external_body]
fn new_condvar() -> Condvar {
    Condvar::new()
}

/// `Mutex::lock`: waits for the lock and returns its guard. A poisoned lock
/// still yields its guard: the signal has no state that a panic could leave
/// half-written.
#[verifier::external_body]
fn lock<'a>(mutex: &'a Mutex<Signal>) -> MutexGuard<'a, Signal> {
    match mutex.lock() {
        Ok(guard) => guard,
        Err(poisoned) => poisoned.into_inner(),
    }
}

/// `DerefMut::deref_mut` on the guard: the signal that the held lock guards.
/// Nothing is claimed of what it holds: any thread may have changed it while
/// the lock was free.
#[verifier::external_body]
fn guarded<'a, 'b>(guard: &'a mut MutexGuard<'b, Signal>) -> &'a mut Signal {
    &mut **guard
}

/// `Condvar::wait_while`: with the lock held, asks `Signal::must_wait`; while
/// the answer is to wait, gives the lock up, sleeps until notified or woken
/// for no reason, takes the lock again and asks again. Returns with the lock
/// held.
#[verifier::external_body]
fn wait_while_told<'a>(cond: &Condvar, guard: MutexGuard<'a, Signal>) -> MutexGuard<'a, Signal> {
    match cond.wait_while(guard, |signal| signal.must_wait()) {
        Ok(guard) => guard,
        Err(poisoned) => poisoned.into_inner(),
    }
}

/// `Condvar::notify_one`: wakes one thread that waits on the condition
/// variable, if there is one.
#[verifier::external_body]
fn notify_one(cond: &Condvar) {
    cond.notify_one();
}

/// A single-slot rendezvous between one thread that parks and any number
/// that unpark it.
#[derive(Debug)]
pub struct Parker {
    mutex: Mutex<Signal>,
    cond: Condvar,
}

impl Default for Parker {
    /// A parker that holds no signal.
    fn default() -> Parker {
        Parker { mutex: new_lock(Signal::new()), cond: new_condvar() }
    }
}

impl Parker {
    /// Blocks the calling thread until `unpark` has been called, and takes
    /// the signal: under the lock, waits for as long as `Signal::must_wait`
    /// says. Each time it asks is a `Check` step of `Rendezvous`.
    pub fn park(&self) {
        let guard = lock(&self.mutex);
        let _guard = wait_while_told(&self.cond, guard);
    }

    /// Sets the signal under the lock and wakes one waiting thread. This is
    /// the `Unpark` step of `Rendezvous`. It does not block on the parking
    /// thread and may be called any number of times.
    pub fn unpark(&self) {
        signal(&self.mutex);
        notify_one(&self.cond);
    }
}

/// Takes the lock, sets the signal and gives the lock back.
fn signal(mutex: &Mutex<Signal>) {
    let mut guard = lock(mutex);
    guarded(&mut guard).set();
}

} // verus!
