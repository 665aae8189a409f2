//! The scheduling flag of a work unit, and the argument that it keeps a unit
//! from being queued twice, polled by two workers at once, or left unpolled
//! after a wake.
//!
//! The flag has two bits. `WOKEN` says that a wake has arrived that no poll
//! has answered yet, `RUNNING` that a worker is polling the unit. A waker and
//! a worker each change the flag in one atomic step and read, in the same
//! step, the value it had before; that value alone decides who puts the unit
//! on the run queue.

use vstd::prelude::*;

verus! {

/// Neither queued nor running.
pub const PENDING: usize = 0b00;

/// A wake has arrived since the last poll began.
pub const WOKEN: usize = 0b01;

/// A worker is polling the unit.
pub const RUNNING: usize = 0b10;

/// The flag after a wake found it at `prev`.
pub open spec fn flag_after_wake(prev: usize) -> usize {
    prev | WOKEN
}

/// Whether the wake that found the flag at `prev` has to queue the unit.
pub open spec fn wake_enqueues(prev: usize) -> bool {
    prev == PENDING
}

/// The flag after a poll that did not complete found it at `prev`.
pub open spec fn flag_after_suspend(prev: usize) -> usize {
    prev & !RUNNING
}

/// Whether the worker whose poll did not complete, and who found the flag at
/// `prev`, has to queue the unit again.
pub open spec fn suspend_requeues(prev: usize) -> bool {
    prev == (WOKEN | RUNNING)
}

/// The waker's decision: it queues the unit exactly if the unit was idle.
pub fn enqueue_on_wake(prev: usize) -> (enqueue: bool)
    ensures
        enqueue == wake_enqueues(prev),
{
    prev == PENDING
}

/// The worker's decision after a poll that did not complete: it queues the
/// unit again exactly if a wake arrived while the poll ran.
pub fn requeue_on_suspend(prev: usize) -> (requeue: bool)
    ensures
        requeue == suspend_requeues(prev),
{
    prev == WOKEN | RUNNING
}

/// The values that the two flag updates take on the four flag states.
pub proof fn lemma_flag_table()
    ensures
        (WOKEN | RUNNING) == 3,
        flag_after_wake(0) == 1,
        flag_after_wake(1) == 1,
        flag_after_wake(2) == 3,
        flag_after_wake(3) == 3,
        flag_after_suspend(2) == 0,
        flag_after_suspend(3) == 1,
{
    assert(1usize | 2usize == 3usize) by (bit_vector);
    assert(0usize | 1usize == 1usize) by (bit_vector);
    assert(1usize | 1usize == 1usize) by (bit_vector);
    assert(2usize | 1usize == 3usize) by (bit_vector);
    assert(3usize | 1usize == 3usize) by (bit_vector);
    assert(2usize & !2usize == 0usize) by (bit_vector);
    assert(3usize & !2usize == 1usize) by (bit_vector);
}

/// What the worker that holds a unit is doing with it.
pub enum Phase {
    /// No worker holds the unit.
    Idle,
    /// A worker has taken the unit off the queue and has not yet set
    /// `RUNNING`.
    Claimed,
    /// A worker is polling the unit.
    Polling,
    /// A worker has cleared `RUNNING`, found that a wake arrived meanwhile,
    /// and is about to queue the unit again.
    Requeueing,
    /// The unit's computation is complete and the unit is gone.
    Finished,
}

/// One work unit as every thread together sees it.
pub struct Unit {
    /// The scheduling flag.
    pub flag: usize,
    /// How many times the unit stands on the run queue.
    pub queued: nat,
    /// How many wakers have decided to queue the unit and not yet done so.
    pub in_flight: nat,
    /// How many workers hold the unit.
    pub holders: nat,
    /// What the holding worker is doing.
    pub phase: Phase,
    /// Whether a poll has begun, so that a wake handle for the unit exists.
    pub started: bool,
}

/// One atomic step of some thread on a unit.
pub enum Step {
    /// A worker takes the unit off the queue.
    Dequeue,
    /// The holding worker stores `RUNNING` and enters the poll.
    BeginPoll,
    /// A waker sets `WOKEN` and learns whether it has to queue the unit.
    Wake,
    /// A waker that has to queue the unit does so.
    WakeEnqueue,
    /// The poll reported that it is not complete; the worker clears `RUNNING`
    /// and learns whether it has to queue the unit again.
    Suspend,
    /// The worker that has to queue the unit again does so.
    Requeue,
    /// The poll reported completion; the worker drops the unit.
    Complete,
}

impl Unit {
    /// The unit as `spawn` leaves it: flag `PENDING`, once on the queue.
    pub open spec fn spawned() -> Unit {
        Unit { flag: PENDING, queued: 1, in_flight: 0, holders: 0, phase: Phase::Idle, started: false }
    }

    /// Whether some thread can take `step` now.
    pub open spec fn enabled(self, step: Step) -> bool {
        match step {
            Step::Dequeue => self.queued >= 1,
            Step::BeginPoll => self.holders >= 1 && self.phase is Claimed,
            Step::Wake => self.started,
            Step::WakeEnqueue => self.in_flight >= 1,
            Step::Suspend => self.holders >= 1 && self.phase is Polling,
            Step::Requeue => self.holders >= 1 && self.phase is Requeueing,
            Step::Complete => self.holders >= 1 && self.phase is Polling,
        }
    }

    /// The unit after `step`.
    pub open spec fn next(self, step: Step) -> Unit {
        match step {
            Step::Dequeue => Unit {
                queued: (self.queued - 1) as nat,
                holders: self.holders + 1,
                phase: Phase::Claimed,
                ..self
            },
            Step::BeginPoll => Unit { flag: RUNNING, phase: Phase::Polling, started: true, ..self },
            Step::Wake => Unit {
                flag: flag_after_wake(self.flag),
                in_flight: if wake_enqueues(self.flag) {
                    self.in_flight + 1
                } else {
                    self.in_flight
                },
                ..self
            },
            Step::WakeEnqueue => Unit {
                in_flight: (self.in_flight - 1) as nat,
                queued: self.queued + 1,
                ..self
            },
            Step::Suspend => if suspend_requeues(self.flag) {
                Unit { flag: flag_after_suspend(self.flag), phase: Phase::Requeueing, ..self }
            } else {
                Unit {
                    flag: flag_after_suspend(self.flag),
                    holders: (self.holders - 1) as nat,
                    phase: Phase::Idle,
                    ..self
                }
            },
            Step::Requeue => Unit {
                queued: self.queued + 1,
                holders: (self.holders - 1) as nat,
                phase: Phase::Idle,
                ..self
            },
            Step::Complete => Unit {
                holders: (self.holders - 1) as nat,
                phase: Phase::Finished,
                ..self
            },
        }
    }

    /// In how many places the unit stands to be polled: on the queue, in the
    /// hand of a waker about to queue it, or in the hand of a worker.
    pub open spec fn tokens(self) -> nat {
        self.queued + self.in_flight + self.holders
    }

    /// What holds of a unit in every state that the protocol can reach.
    pub open spec fn inv(self) -> bool {
        &&& self.tokens() <= 1
        &&& !self.started ==> {
            &&& self.flag == PENDING
            &&& self.in_flight == 0
            &&& (self.phase is Idle && self.queued == 1) || (self.phase is Claimed && self.holders
                == 1)
        }
        &&& self.started ==> match self.phase {
            Phase::Idle => self.holders == 0 && ((self.flag == PENDING && self.tokens() == 0) || (
            self.flag == WOKEN && self.tokens() == 1)),
            Phase::Claimed => self.holders == 1 && self.flag == WOKEN,
            Phase::Polling => self.holders == 1 && (self.flag == RUNNING || self.flag == (WOKEN
                | RUNNING)),
            Phase::Requeueing => self.holders == 1 && self.flag == WOKEN,
            Phase::Finished => self.tokens() == 0 && (self.flag == RUNNING || self.flag == (WOKEN
                | RUNNING)),
        }
    }

    /// Whether a poll is still owed to the unit: it stands to be polled, or
    /// the poll in progress will find on its return that a wake arrived.
    pub open spec fn poll_owed(self) -> bool {
        ||| self.queued + self.in_flight >= 1
        ||| self.phase is Claimed
        ||| self.phase is Requeueing
        ||| (self.phase is Polling && self.flag == (WOKEN | RUNNING))
    }

    /// The unit after the steps of `trace`, taken in order from `self`.
    pub open spec fn run(self, trace: Seq<Step>) -> Unit
        decreases trace.len(),
    {
        if trace.len() == 0 {
            self
        } else {
            self.run(trace.drop_last()).next(trace.last())
        }
    }

    /// Whether each step of `trace` is enabled when its turn comes.
    pub open spec fn admits(self, trace: Seq<Step>) -> bool
        decreases trace.len(),
    {
        if trace.len() == 0 {
            true
        } else {
            self.admits(trace.drop_last()) && self.run(trace.drop_last()).enabled(trace.last())
        }
    }
}

/// A freshly spawned unit satisfies the invariant and is owed its first poll.
pub proof fn lemma_spawned_valid()
    ensures
        Unit::spawned().inv(),
        Unit::spawned().poll_owed(),
{
}

/// Every step that some thread can take keeps the invariant.
pub proof fn lemma_step_keeps_inv(unit: Unit, step: Step)
    requires
        unit.inv(),
        unit.enabled(step),
    ensures
        unit.next(step).inv(),
{
    lemma_flag_table();
}

/// Whatever the threads do, in whatever order, a unit stays within the
/// invariant.
pub proof fn lemma_run_keeps_inv(unit: Unit, trace: Seq<Step>)
    requires
        unit.inv(),
        unit.admits(trace),
    ensures
        unit.run(trace).inv(),
    decreases trace.len(),
{
    if trace.len() > 0 {
        lemma_run_keeps_inv(unit, trace.drop_last());
        lemma_step_keeps_inv(unit.run(trace.drop_last()), trace.last());
    }
}

/// A unit is never polled by two workers at once, and never stands on the
/// queue more than once: in every state that a spawned unit can reach, at
/// most one worker holds it, and while one does, it is neither queued nor
/// about to be.
pub proof fn lemma_single_entrant(trace: Seq<Step>)
    requires
        Unit::spawned().admits(trace),
    ensures
        ({
            let unit = Unit::spawned().run(trace);
            &&& unit.holders <= 1
            &&& unit.queued + unit.in_flight <= 1
            &&& unit.holders == 1 ==> unit.queued + unit.in_flight == 0
            &&& unit.phase is Polling ==> unit.holders == 1
        }),
{
    lemma_spawned_valid();
    lemma_run_keeps_inv(Unit::spawned(), trace);
}

/// No wake is lost: after a wake on a unit that has not completed, a poll is
/// owed.
pub proof fn lemma_wake_is_answered(unit: Unit)
    requires
        unit.inv(),
        unit.enabled(Step::Wake),
        !(unit.phase is Finished),
    ensures
        unit.next(Step::Wake).poll_owed(),
{
    lemma_flag_table();
}

/// A poll that is owed stays owed until a worker enters the poll or the
/// computation completes: no other step forgets it.
pub proof fn lemma_owed_until_polled(unit: Unit, step: Step)
    requires
        unit.inv(),
        unit.poll_owed(),
        unit.enabled(step),
        !(step is BeginPoll),
        !(step is Complete),
    ensures
        unit.next(step).poll_owed(),
{
    lemma_flag_table();
}

/// A poll that is owed is made: through whatever steps the threads take
/// after it became owed, it stays owed for as long as no worker has entered
/// the poll and the computation has not completed. With `lemma_wake_is_answered`
/// this says that every wake is followed by a poll, and with
/// `lemma_spawned_valid` that every unit is polled at least once, wherever
/// some worker keeps taking units off the queue.
pub proof fn lemma_owed_poll_is_kept(unit: Unit, trace: Seq<Step>)
    requires
        unit.inv(),
        unit.poll_owed(),
        unit.admits(trace),
        forall|i: int| 0 <= i < trace.len() ==> !(trace[i] is BeginPoll) && !(trace[i] is Complete),
    ensures
        unit.run(trace).inv(),
        unit.run(trace).poll_owed(),
    decreases trace.len(),
{
    if trace.len() > 0 {
        let before = trace.drop_last();
        assert forall|i: int| 0 <= i < before.len() implies !(before[i] is BeginPoll) && !(
        before[i] is Complete) by {
            assert(before[i] == trace[i]);
        }
        lemma_owed_poll_is_kept(unit, before);
        lemma_step_keeps_inv(unit.run(before), trace.last());
        lemma_owed_until_polled(unit.run(before), trace.last());
    }
}

/// A wake queues the unit exactly if nothing else answers for it: if the
/// unit is idle and stands nowhere to be polled. A wake on a unit that is
/// owed a poll already queues nothing, so the unit is never queued twice.
pub proof fn lemma_wake_queues_once(unit: Unit)
    requires
        unit.inv(),
        unit.enabled(Step::Wake),
    ensures
        wake_enqueues(unit.flag) <==> (unit.phase is Idle && unit.tokens() == 0),
        unit.next(Step::Wake).tokens() == if wake_enqueues(unit.flag) {
            1
        } else {
            unit.tokens()
        },
{
    lemma_flag_table();
}

/// A worker queues the unit again after a poll exactly if a wake arrived
/// while the poll ran; otherwise the unit goes idle, and the next wake
/// queues it.
pub proof fn lemma_suspend_requeues_once(unit: Unit)
    requires
        unit.inv(),
        unit.enabled(Step::Suspend),
    ensures
        suspend_requeues(unit.flag) ==> unit.next(Step::Suspend).phase is Requeueing
            && unit.next(Step::Suspend).flag == WOKEN,
        !suspend_requeues(unit.flag) ==> unit.next(Step::Suspend).phase is Idle && unit.next(
            Step::Suspend,
        ).flag == PENDING && unit.next(Step::Suspend).tokens() == 0,
{
    lemma_flag_table();
}

/// After a completion no step ever hands the unit to a worker again: only
/// wakes can still happen, and they queue nothing.
pub proof fn lemma_finished_is_terminal(unit: Unit, step: Step)
    requires
        unit.inv(),
        unit.phase is Finished,
        unit.enabled(step),
    ensures
        step is Wake,
        unit.next(step).phase is Finished,
        unit.next(step).tokens() == 0,
{
    lemma_flag_table();
}

} // verus!
