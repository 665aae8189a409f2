//! The work-queue executor: units of work on an unbounded run queue, each
//! with the scheduling flag that decides who queues it.
//!
//! The steps that this module takes on a unit's flag are the steps of
//! `schedule::Unit`; what is proved there of every interleaving of them is
//! what holds of the units here.

use vstd::prelude::*;
use crossbeam::channel::{Receiver, Sender};
use std::sync::atomic::{AtomicUsize, Ordering};
use std::sync::Arc;
use crate::schedule::{
    enqueue_on_wake, requeue_on_suspend, suspend_requeues, wake_enqueues, PENDING, RUNNING, WOKEN,
};
use crate::waker::share;

verus! {

/// `crossbeam::channel::Sender`, opaque.
#[verifier::external_type_specification]
#[verifier::external_body]
#[verifier::reject_recursive_types(T)]
pub struct ExSender<T>(Sender<T>);

/// `crossbeam::channel::Receiver`, opaque.
#[verifier::external_type_specification]
#[verifier::external_body]
#[verifier::reject_recursive_types(T)]
pub struct ExReceiver<T>(Receiver<T>);

/// `crossbeam::channel::unbounded`: the two ends of a new channel that holds
/// any number of messages.
pub assume_specification<T>[ crossbeam::channel::unbounded::<T> ]() -> (ends: (
    Sender<T>,
    Receiver<T>,
));

/// `num_cpus::get`: the number of processors available to this process.
/// Nothing is claimed of the number.
pub assume_specification[ num_cpus::get ]() -> (cpus: usize);

/// What became of a unit that was to be scheduled.
#[derive(Debug, Clone, Copy, PartialEq, Eq)]
pub enum Scheduled {
    /// The unit was put on the run queue.
    Queued,
    /// Nothing was to be done: another step answers for the unit.
    Left,
    /// The unit had to be queued, and every receiving end of the queue is
    /// gone.
    Disconnected,
}

/// A unit of work: the scheduling flag and the computation it guards.
pub struct Work<T> {
    state: AtomicUsize,
    future: T,
}

/// The sending side of the run queue.
#[verifier::reject_recursive_types(T)]
pub struct Executor<T> {
    queue: Sender<Arc<Work<T>>>,
}

/// `Sender::send` on the run queue, which is unbounded: the unit is appended
/// without waiting for room. The result says whether it was; it was not if
/// every receiving end has been dropped.
#[verifier::external_body]
fn enqueue<T>(executor: &Executor<T>, unit: Arc<Work<T>>) -> (sent: bool) {
    match executor.queue.send(unit) {
        Ok(()) => true,
        Err(_) => false,
    }
}

/// How many workers serve a run queue on a machine with `cpus` processors:
/// one for each, and one at least.
pub open spec fn workers_for(cpus: usize) -> usize {
    if cpus < 1 {
        1
    } else {
        cpus
    }
}

pub fn worker_count_for(cpus: usize) -> (workers: usize)
    ensures
        workers == workers_for(cpus),
{
    if cpus < 1 {
        1
    } else {
        cpus
    }
}

/// The number of workers for this machine, by `worker_count_for`.
pub fn worker_count() -> (workers: usize)
    ensures
        workers >= 1,
{
    worker_count_for(num_cpus::get())
}

impl<T> Executor<T> {
    /// A new run queue: the executor that puts units on it, and the end from
    /// which workers take them.
    pub fn new() -> (ends: (Executor<T>, Receiver<Arc<Work<T>>>)) {
        let (sender, receiver) = crossbeam::channel::unbounded();
        (Executor { queue: sender }, receiver)
    }

    /// Makes a unit for `future`, flag `PENDING`, and puts it on the run
    /// queue, which says whether it took it.
    pub fn spawn(&self, future: T) -> (scheduled: Scheduled)
        ensures
            scheduled != Scheduled::Left,
    {
        let work = Arc::new(Work::new(future));
        queue_unit(self, work)
    }
}

/// Puts a unit on the run queue, which says whether it took it.
fn queue_unit<T>(executor: &Executor<T>, unit: Arc<Work<T>>) -> (scheduled: Scheduled)
    ensures
        scheduled != Scheduled::Left,
{
    // The queue alone decides whether it takes the unit; `scheduled_by`
    // says what is reported of either answer.
    let sent = enqueue(executor, unit);
    let scheduled = scheduled_by(sent);
    scheduled
}

impl<T> Work<T> {
    /// The computation that the unit guards.
    pub closed spec fn payload(&self) -> T {
        self.future
    }

    /// The computation that the unit guards.
    pub fn future(&self) -> (future: &T)
        ensures
            *future == self.payload(),
    {
        &self.future
    }

    /// A worker's turn with a unit that it took off the queue: sets
    /// `RUNNING`, polls through `poll`, which reports whether the computation
    /// is still pending, and, if it is, clears `RUNNING` and queues the unit
    /// again exactly if a wake arrived while the poll ran. A unit whose poll
    /// completed is dropped.
    ///
    /// The report holds the flag as the clearing step found it, if the poll
    /// was pending, and what became of the unit.
    pub fn run<P: FnOnce(&Arc<Work<T>>) -> bool>(
        unit: Arc<Work<T>>,
        executor: &Executor<T>,
        poll: P,
    ) -> (report: (Option<usize>, Scheduled))
        requires
            poll.requires((&unit,)),
        ensures
            poll.ensures((&unit,), report.0 is Some),
            match report.0 {
                Some(found) => suspend_requeues(found) <==> report.1 != Scheduled::Left,
                None => report.1 == Scheduled::Left,
            },
    {
        unit.state.store(RUNNING, Ordering::SeqCst);
        let pending = poll(&unit);
        if pending {
            let found = unit.state.fetch_and(!RUNNING, Ordering::SeqCst);
            if requeue_on_suspend(found) {
                (Some(found), queue_unit(executor, unit))
            } else {
                (Some(found), Scheduled::Left)
            }
        } else {
            (None, Scheduled::Left)
        }
    }

    /// A wake, from any thread at any time: sets `WOKEN` and queues the unit
    /// exactly if it was idle. If a poll is running, the worker that runs it
    /// answers for the wake.
    ///
    /// The report holds the flag as the wake found it, and what became of
    /// the unit.
    pub fn wake(unit: &Arc<Work<T>>, executor: &Executor<T>) -> (report: (usize, Scheduled))
        ensures
            wake_enqueues(report.0) <==> report.1 != Scheduled::Left,
    {
        let found = unit.state.fetch_or(WOKEN, Ordering::SeqCst);
        if enqueue_on_wake(found) {
            (found, queue_unit(executor, share(unit)))
        } else {
            (found, Scheduled::Left)
        }
    }

    /// A unit for `future`, with the flag `PENDING`.
    fn new(future: T) -> (work: Work<T>)
        ensures
            work.payload() == future,
    {
        Work { state: AtomicUsize::new(PENDING), future }
    }
}

/// What became of a unit that had to be queued, given whether the queue took
/// it.
pub open spec fn queued_if(sent: bool) -> Scheduled {
    if sent {
        Scheduled::Queued
    } else {
        Scheduled::Disconnected
    }
}

/// What is reported of a unit that had to be queued, once the queue has said
/// whether it took it.
pub fn scheduled_by(sent: bool) -> (scheduled: Scheduled)
    ensures
        scheduled == queued_if(sent),
{
    if sent {
        Scheduled::Queued
    } else {
        Scheduled::Disconnected
    }
}

} // verus!
