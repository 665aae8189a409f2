//! The reactor's table of task states and the messages it owes its
//! dispatcher.
//!
//! The reactor is written as a sequential state machine: every operation takes
//! `&mut self`, so whoever shares a reactor between threads holds it behind one
//! exclusive lock, and the transitions of one task id form a linear history.
//! Messages for the dispatcher are not sent from here; they are appended to an
//! outbox that the owner drains and forwards.

use vstd::prelude::*;
use std::collections::HashMap;
use std::task::Waker;
use crate::task::TaskId;

verus! {

/// The reactor's record of one registered task.
#[derive(Debug)]
pub enum TaskState {
    /// The awaited condition has fired; no handle is held.
    Ready,
    /// The task is suspended; this is the one handle to invoke when the
    /// condition fires.
    NotReady(Waker),
    /// The task has reported completion. The slot stays as it is from here
    /// on.
    Finished,
}

/// What the reactor asks of its dispatcher.
#[derive(Debug, Clone, Copy, PartialEq, Eq)]
pub enum Message {
    /// Stop accepting messages.
    Close,
    /// Fire the task with the given id once the given delay has passed.
    Timeout(u64, TaskId),
}

/// What the dispatcher does with one message.
#[derive(Debug, Clone, Copy, PartialEq, Eq)]
pub enum Dispatch {
    /// Leave the message loop; nothing further is accepted.
    Stop,
    /// Start a timer that waits for the delay and then wakes the task.
    StartTimer(u64, TaskId),
}

/// The mathematical content of a reactor.
pub struct ReactorView {
    /// The state recorded for each registered id.
    pub tasks: Map<TaskId, TaskState>,
    /// The messages queued for the dispatcher, oldest first.
    pub outbox: Seq<Message>,
}

impl ReactorView {
    pub open spec fn empty() -> ReactorView {
        ReactorView { tasks: Map::empty(), outbox: Seq::empty() }
    }

    pub open spec fn registered(self, id: TaskId) -> bool {
        self.tasks.contains_key(id)
    }

    pub open spec fn ready(self, id: TaskId) -> bool {
        self.registered(id) && self.tasks[id] is Ready
    }

    pub open spec fn waiting(self, id: TaskId) -> bool {
        self.registered(id) && self.tasks[id] is NotReady
    }

    pub open spec fn finished(self, id: TaskId) -> bool {
        self.registered(id) && self.tasks[id] is Finished
    }

    /// What the reactor holds for `id`, if anything.
    pub open spec fn slot(self, id: TaskId) -> Option<TaskState> {
        if self.registered(id) {
            Some(self.tasks[id])
        } else {
            None
        }
    }

    /// The same reactor with the slot of `id` set to `state`.
    pub open spec fn with_state(self, id: TaskId, state: TaskState) -> ReactorView {
        ReactorView { tasks: self.tasks.insert(id, state), outbox: self.outbox }
    }

    /// The same reactor with `msg` appended to the outbox.
    pub open spec fn with_message(self, msg: Message) -> ReactorView {
        ReactorView { tasks: self.tasks, outbox: self.outbox.push(msg) }
    }

    /// The reactor after `id` was registered with `waker` and a delay.
    pub open spec fn after_set_timeout(self, id: TaskId, waker: Waker, duration: u64) -> ReactorView {
        self.with_state(id, TaskState::NotReady(waker)).with_message(Message::Timeout(duration, id))
    }

    /// The reactor after a new handle was offered for `id`: a suspended task
    /// holds the new handle in place of the old one; a task that has fired or
    /// finished holds none, and is left as it is.
    pub open spec fn after_refresh(self, id: TaskId, waker: Waker) -> ReactorView {
        if self.waiting(id) {
            self.with_state(id, TaskState::NotReady(waker))
        } else {
            self
        }
    }

    /// The reactor after the condition of `id` fired.
    pub open spec fn after_wake(self, id: TaskId) -> ReactorView {
        self.with_state(id, TaskState::Ready)
    }

    /// The reactor after `id` reported completion.
    pub open spec fn after_set_finished(self, id: TaskId) -> ReactorView {
        self.with_state(id, TaskState::Finished)
    }
}

/// A wake is taken once: it leaves the slot `Ready`, where no further wake
/// is admitted, and touches no other slot and no message. A handle offered
/// after that changes nothing: the task has fired and is not suspended
/// again.
pub proof fn lemma_wake_once(reactor: ReactorView, id: TaskId, waker: Waker)
    requires
        reactor.waiting(id),
    ensures
        reactor.after_wake(id).ready(id),
        !reactor.after_wake(id).waiting(id),
        reactor.after_wake(id).after_refresh(id, waker) == reactor.after_wake(id),
        reactor.after_wake(id).outbox == reactor.outbox,
        forall|other: TaskId|
            other != id ==> reactor.after_wake(id).slot(other) == reactor.slot(other),
{
}

/// Closing ends the dispatcher whatever the reactor holds: `Close` goes to
/// the end of the outbox, the dispatcher stops at it, and the table keeps its
/// registrations, fired or not.
pub proof fn lemma_close_stops_dispatcher(reactor: ReactorView)
    ensures
        reactor.with_message(Message::Close).tasks == reactor.tasks,
        reactor.with_message(Message::Close).outbox.drop_last() == reactor.outbox,
        dispatch_of(reactor.with_message(Message::Close).outbox.last()) == Dispatch::Stop,
{
    assert(reactor.outbox.push(Message::Close).drop_last() =~= reactor.outbox);
}

/// What the dispatcher does with `msg`.
pub open spec fn dispatch_of(msg: Message) -> Dispatch {
    match msg {
        Message::Close => Dispatch::Stop,
        Message::Timeout(duration, id) => Dispatch::StartTimer(duration, id),
    }
}

/// The dispatcher's decision on one message: a `Timeout` starts a timer for
/// its task, `Close` ends the message loop.
pub fn dispatch(msg: Message) -> (action: Dispatch)
    ensures
        action == dispatch_of(msg),
{
    match msg {
        Message::Close => Dispatch::Stop,
        Message::Timeout(duration, id) => Dispatch::StartTimer(duration, id),
    }
}

/// The registry of task states, with the outbox of dispatcher messages.
#[derive(Debug)]
pub struct Reactor {
    tasks: HashMap<TaskId, TaskState>,
    outbox: Vec<Message>,
}

impl View for Reactor {
    type V = ReactorView;

    closed spec fn view(&self) -> ReactorView {
        ReactorView { tasks: self.tasks@, outbox: self.outbox@ }
    }
}

impl Reactor {
    /// A reactor with no task registered and nothing to dispatch.
    pub fn new() -> (reactor: Reactor)
        ensures
            reactor@ == ReactorView::empty(),
    {
        Reactor { tasks: HashMap::new(), outbox: Vec::new() }
    }

    /// Fires the condition of `id`: the slot goes from `NotReady` to `Ready`
    /// and the handle it held is invoked. Any other state of the slot is a
    /// double wake, which the precondition rules out.
    pub fn wake(&mut self, id: TaskId)
        requires
            old(self)@.waiting(id),
        ensures
            final(self)@ == old(self)@.after_wake(id),
    {
        let waker = self.take_handle(id);
        waker.wake();
    }

    /// Marks a suspended id as `Ready` and hands out the handle that its
    /// slot held.
    fn take_handle(&mut self, id: TaskId) -> (waker: Waker)
        requires
            old(self)@.waiting(id),
        ensures
            old(self)@.tasks[id] == TaskState::NotReady(waker),
            final(self)@ == old(self)@.after_wake(id),
    {
        let prev = self.tasks.insert(id, TaskState::Ready);
        match prev {
            Some(TaskState::NotReady(waker)) => waker,
            _ => vstd::pervasive::unreached(),
        }
    }

    /// Replaces the handle stored for a suspended id: a later poll may come
    /// from another waiter than the first. An id that has fired or finished
    /// holds no handle and is left as it is. The id must have been registered
    /// before.
    pub fn refresh_waker(&mut self, id: TaskId, waker: Waker)
        requires
            old(self)@.registered(id),
        ensures
            final(self)@ == old(self)@.after_refresh(id, waker),
    {
        if self.is_waiting(id) {
            let prev = self.set_waker(id, waker);
            assert(prev is Some);
        }
    }

    /// Registers `id` as suspended on `waker` and queues the timeout message
    /// for the dispatcher. An id can be registered once only.
    pub fn set_timeout(&mut self, id: TaskId, waker: Waker, duration: u64)
        requires
            !old(self)@.registered(id),
        ensures
            final(self)@ == old(self)@.after_set_timeout(id, waker, duration),
    {
        let prev = self.set_waker(id, waker);
        assert(prev is None);
        self.outbox.push(Message::Timeout(duration, id));
    }

    fn set_waker(&mut self, id: TaskId, waker: Waker) -> (prev: Option<TaskState>)
        ensures
            final(self)@ == old(self)@.with_state(id, TaskState::NotReady(waker)),
            prev == if old(self)@.registered(id) {
                Some(old(self)@.tasks[id])
            } else {
                None
            },
    {
        self.tasks.insert(id, TaskState::NotReady(waker))
    }

    pub fn is_registered(&self, id: &TaskId) -> (registered: bool)
        ensures
            registered == self@.registered(*id),
    {
        self.tasks.contains_key(id)
    }

    pub fn is_ready(&self, id: TaskId) -> (ready: bool)
        ensures
            ready == self@.ready(id),
    {
        match self.tasks.get(&id) {
            Some(TaskState::Ready) => true,
            _ => false,
        }
    }

    /// Whether `id` has reported completion.
    pub fn is_finished(&self, id: TaskId) -> (finished: bool)
        ensures
            finished == self@.finished(id),
    {
        match self.tasks.get(&id) {
            Some(TaskState::Finished) => true,
            _ => false,
        }
    }

    /// Whether `id` is suspended, that is, whether `wake` may be called on it.
    pub fn is_waiting(&self, id: TaskId) -> (waiting: bool)
        ensures
            waiting == self@.waiting(id),
    {
        match self.tasks.get(&id) {
            Some(TaskState::NotReady(_)) => true,
            _ => false,
        }
    }

    /// Marks a registered id as complete.
    pub fn set_finished(&mut self, id: TaskId)
        requires
            old(self)@.registered(id),
        ensures
            final(self)@ == old(self)@.after_set_finished(id),
    {
        self.tasks.insert(id, TaskState::Finished);
    }

    /// Queues `Close` for the dispatcher. The table is left as it is, pending
    /// registrations included.
    pub fn close(&mut self)
        ensures
            final(self)@ == old(self)@.with_message(Message::Close),
    {
        self.outbox.push(Message::Close);
    }

    /// Hands out the queued messages, oldest first, and leaves the outbox
    /// empty.
    pub fn take_messages(&mut self) -> (messages: Vec<Message>)
        ensures
            messages@ == old(self)@.outbox,
            final(self)@ == (ReactorView { tasks: old(self)@.tasks, outbox: Seq::empty() }),
    {
        let mut messages: Vec<Message> = Vec::new();
        std::mem::swap(&mut self.outbox, &mut messages);
        messages
    }
}

} // verus!
