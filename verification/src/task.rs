//! A task: a suspendable unit of work that completes once its reactor has
//! fired its timer.

use vstd::prelude::*;
use std::task::Waker;
use crate::reactor::{Message, Reactor, ReactorView, TaskState};

verus! {

/// The caller-chosen key under which a task is known to its reactor.
pub type TaskId = usize;

/// What one attempt to advance a computation reports.
#[derive(Debug, PartialEq, Eq)]
pub enum Poll<T> {
    /// The computation is complete, with its result.
    Ready(T),
    /// The computation cannot make progress yet.
    Pending,
}

/// A unit of work bound to an id and to a delay that stands for the latency
/// of whatever it waits for.
#[derive(Debug)]
pub struct Task {
    id: TaskId,
    data: u64,
}

impl Clone for Task {
    /// A task with the same id and delay: a second name for the same unit of
    /// work, not a second registration.
    fn clone(&self) -> (other: Task)
        ensures
            other == *self,
    {
        Task { id: self.id, data: self.data }
    }
}

/// What a poll of the task `id` reports on a reactor in the state `reactor`:
/// completion, with the id, exactly if the reactor has the id `Ready`.
pub open spec fn poll_outcome(reactor: ReactorView, id: TaskId) -> Poll<TaskId> {
    if reactor.ready(id) {
        Poll::Ready(id)
    } else {
        Poll::Pending
    }
}

/// The reactor after a poll of the task `id` with delay `data`, made with the
/// handle `waker`. A task that has fired becomes finished; one that has
/// finished is left as it is, slot and outbox; one that is suspended gets the
/// new handle; one that is unknown is registered, and its timer asked for.
pub open spec fn poll_effect(reactor: ReactorView, id: TaskId, data: u64, waker: Waker) -> ReactorView {
    if reactor.ready(id) {
        reactor.after_set_finished(id)
    } else if reactor.finished(id) {
        reactor
    } else if reactor.registered(id) {
        reactor.after_refresh(id, waker)
    } else {
        reactor.after_set_timeout(id, waker, data)
    }
}

impl Task {
    pub closed spec fn id(&self) -> TaskId {
        self.id
    }

    pub closed spec fn delay(&self) -> u64 {
        self.data
    }

    pub fn new(data: u64, id: TaskId) -> (task: Task)
        ensures
            task.id() == id,
            task.delay() == data,
    {
        Task { id, data }
    }

    /// One attempt to advance the task against its reactor, which the caller
    /// holds exclusively for the length of the call.
    ///
    /// If the reactor has the id `Ready`, the slot becomes `Finished` and the
    /// id is the result: this is the one poll that reports completion. A
    /// poll after it finds the slot `Finished` and changes nothing. If the
    /// task is suspended, the handle of this poll replaces the stored one. On
    /// the first poll the task registers itself with its delay. In the last
    /// three cases the poll reports that the task is pending.
    pub fn poll(&self, reactor: &mut Reactor, waker: Waker) -> (outcome: Poll<TaskId>)
        ensures
            outcome == poll_outcome(old(reactor)@, self.id()),
            final(reactor)@ == poll_effect(old(reactor)@, self.id(), self.delay(), waker),
    {
        if reactor.is_ready(self.id) {
            reactor.set_finished(self.id);
            Poll::Ready(self.id)
        } else if reactor.is_finished(self.id) {
            Poll::Pending
        } else if reactor.is_registered(&self.id) {
            reactor.refresh_waker(self.id, waker);
            Poll::Pending
        } else {
            reactor.set_timeout(self.id, waker, self.data);
            Poll::Pending
        }
    }
}

/// Something that happens on the reactor of a task.
pub enum Event {
    /// The task is polled, with this handle.
    Poll(Waker),
    /// A timer that the task asked for runs out, and the reactor wakes the
    /// task.
    Fire,
    /// Anything that leaves the slot of the task alone and the reactor in
    /// this state: other tasks are polled or woken, messages are taken out, the
    /// reactor is closed.
    Elsewhere(ReactorView),
}

/// The course of one task on its reactor.
pub struct Life {
    /// The reactor.
    pub reactor: ReactorView,
    /// How many polls of the task have asked for a timer.
    pub requested: nat,
    /// How many timers of the task have run out.
    pub fired: nat,
    /// How many polls have reported the task complete.
    pub completions: nat,
}

impl Life {
    /// A task that was never polled, on the reactor `reactor`.
    pub open spec fn begin(reactor: ReactorView) -> Life {
        Life { reactor, requested: 0, fired: 0, completions: 0 }
    }

    /// Whether `event` can happen now to the task `id`: a poll always; the
    /// running out of a timer only while one that was asked for is still to
    /// run out; anything else if it leaves the slot of `id` as it is.
    pub open spec fn enabled(self, id: TaskId, event: Event) -> bool {
        match event {
            Event::Poll(_) => true,
            Event::Fire => self.fired < self.requested,
            Event::Elsewhere(reactor) => reactor.slot(id) == self.reactor.slot(id),
        }
    }

    /// The course of the task `id` with delay `data` after `event`.
    pub open spec fn next(self, id: TaskId, data: u64, event: Event) -> Life {
        match event {
            Event::Poll(waker) => Life {
                reactor: poll_effect(self.reactor, id, data, waker),
                requested: if self.reactor.registered(id) {
                    self.requested
                } else {
                    self.requested + 1
                },
                completions: if poll_outcome(self.reactor, id) == Poll::Ready(id) {
                    self.completions + 1
                } else {
                    self.completions
                },
                ..self
            },
            Event::Fire => Life { reactor: self.reactor.after_wake(id), fired: self.fired + 1, ..self },
            Event::Elsewhere(reactor) => Life { reactor, ..self },
        }
    }

    /// The course after the events of `trace`, in order.
    pub open spec fn run(self, id: TaskId, data: u64, trace: Seq<Event>) -> Life
        decreases trace.len(),
    {
        if trace.len() == 0 {
            self
        } else {
            self.run(id, data, trace.drop_last()).next(id, data, trace.last())
        }
    }

    /// Whether each event of `trace` can happen when its turn comes.
    pub open spec fn admits(self, id: TaskId, data: u64, trace: Seq<Event>) -> bool
        decreases trace.len(),
    {
        if trace.len() == 0 {
            true
        } else {
            self.admits(id, data, trace.drop_last()) && self.run(
                id,
                data,
                trace.drop_last(),
            ).enabled(id, trace.last())
        }
    }

    /// The stages that the task `id` goes through, in this order: unknown;
    /// waiting for its timer; fired; finished, for good.
    pub open spec fn inv(self, id: TaskId) -> bool {
        match self.reactor.slot(id) {
            None => self.requested == 0 && self.fired == 0 && self.completions == 0,
            Some(TaskState::NotReady(_)) => self.requested == 1 && self.fired == 0
                && self.completions == 0,
            Some(TaskState::Ready) => self.requested == 1 && self.fired == 1 && self.completions
                == 0,
            Some(TaskState::Finished) => self.requested == 1 && self.fired == 1
                && self.completions == 1,
        }
    }
}

/// What is done for other tasks, and to the outbox, leaves the slot of a task
/// alone: each of these is an `Elsewhere` to the task `id`.
pub proof fn lemma_elsewhere(
    reactor: ReactorView,
    id: TaskId,
    other: TaskId,
    data: u64,
    waker: Waker,
    message: Message,
)
    requires
        other != id,
    ensures
        poll_effect(reactor, other, data, waker).slot(id) == reactor.slot(id),
        reactor.after_wake(other).slot(id) == reactor.slot(id),
        reactor.after_refresh(other, waker).slot(id) == reactor.slot(id),
        reactor.after_set_timeout(other, waker, data).slot(id) == reactor.slot(id),
        reactor.after_set_finished(other).slot(id) == reactor.slot(id),
        reactor.with_message(message).slot(id) == reactor.slot(id),
        (ReactorView { tasks: reactor.tasks, outbox: Seq::empty() }).slot(id) == reactor.slot(id),
{
}

/// A poll asks for a timer exactly if the id was unknown: then, and only
/// then, it queues one `Timeout`, with the task's delay and id.
pub proof fn lemma_poll_requests_timer(reactor: ReactorView, id: TaskId, data: u64, waker: Waker)
    ensures
        !reactor.registered(id) ==> poll_effect(reactor, id, data, waker).outbox
            == reactor.outbox.push(Message::Timeout(data, id)),
        reactor.registered(id) ==> poll_effect(reactor, id, data, waker).outbox == reactor.outbox,
        poll_effect(reactor, id, data, waker).registered(id),
{
}

/// Every event that can happen keeps a task within its stages.
pub proof fn lemma_event_keeps_inv(life: Life, id: TaskId, data: u64, event: Event)
    requires
        life.inv(id),
        life.enabled(id, event),
    ensures
        life.next(id, data, event).inv(id),
{
}

/// A task that is registered once completes once, and is left alone from
/// then on. Take a reactor that does not know the id, and let happen whatever
/// can: polls of the task, with whatever handles; the running out of its
/// timers; anything on behalf of other tasks. Then one timer is asked for, by
/// the first poll; when it runs out the task is suspended, so the wake is no
/// double wake; the first poll after that reports completion, with the id;
/// no poll before or after it does; and once a poll has reported completion
/// the slot is `Finished` and stays so.
pub proof fn lemma_completes_once(reactor: ReactorView, id: TaskId, data: u64, trace: Seq<Event>)
    requires
        !reactor.registered(id),
        Life::begin(reactor).admits(id, data, trace),
    ensures
        ({
            let life = Life::begin(reactor).run(id, data, trace);
            &&& life.inv(id)
            &&& life.requested <= 1
            &&& life.fired <= life.requested
            &&& life.completions <= life.fired
            &&& life.enabled(id, Event::Fire) ==> life.reactor.waiting(id)
            &&& life.reactor.ready(id) <==> life.fired == 1 && life.completions == 0
            &&& life.reactor.finished(id) <==> life.completions == 1
            &&& poll_outcome(life.reactor, id) == if life.fired == 1 && life.completions == 0 {
                Poll::Ready(id)
            } else {
                Poll::Pending
            }
        }),
    decreases trace.len(),
{
    if trace.len() > 0 {
        lemma_completes_once(reactor, id, data, trace.drop_last());
        lemma_event_keeps_inv(
            Life::begin(reactor).run(id, data, trace.drop_last()),
            id,
            data,
            trace.last(),
        );
    }
}

/// No poll after completion alters the reactor: a poll of a task that has
/// finished reports that it is pending and leaves the reactor as it is. The
/// slot is still `Finished`, no handle is stored, and no timer is asked for.
pub proof fn lemma_poll_after_completion(reactor: ReactorView, id: TaskId, data: u64, waker: Waker)
    requires
        reactor.finished(id),
    ensures
        poll_outcome(reactor, id) == Poll::<TaskId>::Pending,
        poll_effect(reactor, id, data, waker) == reactor,
{
}

} // verus!
