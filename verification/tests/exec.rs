use mini_runtime::exec::Driver;
use mini_runtime::reactor::{dispatch, Dispatch, Reactor};
use mini_runtime::task::{Poll, Task, TaskId};
use mini_runtime::waker::MyWaker;
use std::sync::Arc;
use std::task::{Wake, Waker};

struct Handle(MyWaker);

impl Wake for Handle {
    fn wake(self: Arc<Self>) {
        self.0.wake_by_ref();
    }
}

fn handle(driver: &Driver) -> Waker {
    Waker::from(Arc::new(Handle(driver.waker())))
}

struct Clock {
    now: u64,
    timers: Vec<(u64, TaskId)>,
}

impl Clock {
    fn accept(&mut self, reactor: &mut Reactor) {
        for message in reactor.take_messages() {
            match dispatch(message) {
                Dispatch::StartTimer(delay, id) => self.timers.push((self.now + delay, id)),
                Dispatch::Stop => self.timers.clear(),
            }
        }
    }

    fn fire_next(&mut self, reactor: &mut Reactor) {
        let mut first = 0;
        for index in 1..self.timers.len() {
            if self.timers[index].0 < self.timers[first].0 {
                first = index;
            }
        }
        let (due, id) = self.timers.remove(first);
        self.now = due;
        assert!(reactor.is_waiting(id));
        reactor.wake(id);
    }
}

fn drive(task: &Task, reactor: &mut Reactor, clock: &mut Clock) -> (TaskId, usize) {
    let mut driver = Driver::new();
    let mut polls = 0;
    loop {
        polls += 1;
        let outcome = task.poll(reactor, handle(&driver));
        clock.accept(reactor);
        if outcome == Poll::Pending {
            clock.fire_next(reactor);
        }
        if let Some(id) = driver.on_poll(outcome) {
            return (id, polls);
        }
    }
}

#[test]
fn on_poll_hands_out_the_result() {
    let mut driver = Driver::new();
    assert!(!driver.is_done());
    assert_eq!(driver.on_poll(Poll::Ready(42u32)), Some(42));
    assert!(driver.is_done());
}

#[test]
fn on_poll_pending_returns_when_woken_before() {
    let mut driver = Driver::new();
    driver.waker().wake();
    assert_eq!(driver.on_poll(Poll::<u32>::Pending), None);
    assert!(!driver.is_done());
    driver.waker().wake_by_ref();
    assert_eq!(driver.on_poll(Poll::<u32>::Pending), None);
    assert!(!driver.is_done());
    assert_eq!(driver.on_poll(Poll::Ready(1u32)), Some(1));
    assert!(driver.is_done());
}

#[test]
fn std_waker_reaches_the_drivers_parker() {
    let mut driver = Driver::new();
    let waker = handle(&driver);
    waker.wake_by_ref();
    assert_eq!(driver.on_poll(Poll::<u8>::Pending), None);
    waker.wake();
    assert_eq!(driver.on_poll(Poll::<u8>::Pending), None);
}

#[test]
fn one_task_with_delay_one() {
    let mut reactor = Reactor::new();
    let mut clock = Clock { now: 0, timers: Vec::new() };
    let task = Task::new(1, 1);
    let (id, polls) = drive(&task, &mut reactor, &mut clock);
    assert_eq!(id, 1);
    assert_eq!(polls, 2);
    assert!(clock.now >= 1);
    assert_eq!(clock.now, 1);
}

#[test]
fn two_tasks_in_sequence() {
    let mut reactor = Reactor::new();
    let mut clock = Clock { now: 0, timers: Vec::new() };
    let first = Task::new(1, 1);
    let second = Task::new(2, 2);
    let (first_id, _) = drive(&first, &mut reactor, &mut clock);
    assert_eq!(first_id, 1);
    assert_eq!(clock.now, 1);
    let (second_id, _) = drive(&second, &mut reactor, &mut clock);
    assert_eq!(second_id, 2);
    assert_eq!(clock.now, 3);
}

#[test]
fn close_with_pending_timers_stops_the_dispatcher() {
    let mut reactor = Reactor::new();
    let mut clock = Clock { now: 0, timers: Vec::new() };
    let driver = Driver::new();
    let task = Task::new(30, 9);
    assert_eq!(task.poll(&mut reactor, handle(&driver)), Poll::Pending);
    clock.accept(&mut reactor);
    assert_eq!(clock.timers, vec![(30, 9)]);
    reactor.close();
    let messages = reactor.take_messages();
    assert_eq!(messages.len(), 1);
    assert_eq!(dispatch(messages[0]), Dispatch::Stop);
    assert!(reactor.is_waiting(9));
}
