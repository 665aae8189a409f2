use mini_runtime::reactor::{dispatch, Dispatch, Message, Reactor};
use std::sync::atomic::{AtomicUsize, Ordering};
use std::sync::Arc;
use std::task::{Wake, Waker};

struct Counter(AtomicUsize);

impl Wake for Counter {
    fn wake(self: Arc<Self>) {
        self.0.fetch_add(1, Ordering::SeqCst);
    }
}

fn counting_waker() -> (Arc<Counter>, Waker) {
    let counter = Arc::new(Counter(AtomicUsize::new(0)));
    (counter.clone(), Waker::from(counter))
}

#[test]
fn new_reactor_knows_no_task() {
    let mut reactor = Reactor::new();
    assert!(!reactor.is_registered(&1));
    assert!(!reactor.is_ready(1));
    assert!(!reactor.is_waiting(1));
    assert!(!reactor.is_finished(1));
    assert!(reactor.take_messages().is_empty());
}

#[test]
fn set_timeout_registers_and_queues_message() {
    let mut reactor = Reactor::new();
    let (count, waker) = counting_waker();
    reactor.set_timeout(3, waker, 9);
    assert!(reactor.is_registered(&3));
    assert!(reactor.is_waiting(3));
    assert!(!reactor.is_ready(3));
    assert!(!reactor.is_registered(&4));
    assert_eq!(reactor.take_messages(), vec![Message::Timeout(9, 3)]);
    assert!(reactor.take_messages().is_empty());
    assert_eq!(count.0.load(Ordering::SeqCst), 0);
}

#[test]
fn messages_come_out_in_order() {
    let mut reactor = Reactor::new();
    let (_, first) = counting_waker();
    let (_, second) = counting_waker();
    reactor.set_timeout(1, first, 10);
    reactor.set_timeout(2, second, 20);
    reactor.close();
    assert_eq!(
        reactor.take_messages(),
        vec![Message::Timeout(10, 1), Message::Timeout(20, 2), Message::Close]
    );
}

#[test]
fn wake_makes_ready_and_invokes_handle_once() {
    let mut reactor = Reactor::new();
    let (count, waker) = counting_waker();
    reactor.set_timeout(1, waker, 1);
    reactor.wake(1);
    assert!(reactor.is_ready(1));
    assert!(!reactor.is_waiting(1));
    assert!(reactor.is_registered(&1));
    assert_eq!(count.0.load(Ordering::SeqCst), 1);
}

#[test]
fn wake_leaves_other_tasks_alone() {
    let mut reactor = Reactor::new();
    let (first_count, first) = counting_waker();
    let (second_count, second) = counting_waker();
    reactor.set_timeout(1, first, 1);
    reactor.set_timeout(2, second, 2);
    reactor.wake(2);
    assert!(reactor.is_waiting(1));
    assert!(reactor.is_ready(2));
    assert_eq!(first_count.0.load(Ordering::SeqCst), 0);
    assert_eq!(second_count.0.load(Ordering::SeqCst), 1);
}

#[test]
fn refresh_waker_replaces_the_handle() {
    let mut reactor = Reactor::new();
    let (old_count, old) = counting_waker();
    let (new_count, new) = counting_waker();
    reactor.set_timeout(1, old, 1);
    reactor.refresh_waker(1, new);
    assert!(reactor.is_waiting(1));
    assert!(reactor.take_messages() == vec![Message::Timeout(1, 1)]);
    reactor.wake(1);
    assert_eq!(old_count.0.load(Ordering::SeqCst), 0);
    assert_eq!(new_count.0.load(Ordering::SeqCst), 1);
}

#[test]
fn refresh_leaves_a_fired_task_alone() {
    let mut reactor = Reactor::new();
    let (_, first) = counting_waker();
    let (count, second) = counting_waker();
    reactor.set_timeout(1, first, 1);
    reactor.wake(1);
    reactor.refresh_waker(1, second);
    assert!(reactor.is_ready(1));
    assert!(!reactor.is_waiting(1));
    assert_eq!(Arc::strong_count(&count), 1);
    assert_eq!(count.0.load(Ordering::SeqCst), 0);
}

#[test]
fn refresh_leaves_a_finished_task_alone() {
    let mut reactor = Reactor::new();
    let (_, first) = counting_waker();
    let (count, second) = counting_waker();
    reactor.set_timeout(1, first, 1);
    reactor.wake(1);
    reactor.set_finished(1);
    reactor.refresh_waker(1, second);
    assert!(reactor.is_finished(1));
    assert!(!reactor.is_waiting(1));
    assert!(!reactor.is_ready(1));
    assert_eq!(Arc::strong_count(&count), 1);
}

#[test]
fn set_finished_is_neither_ready_nor_waiting() {
    let mut reactor = Reactor::new();
    let (_, waker) = counting_waker();
    reactor.set_timeout(1, waker, 1);
    reactor.wake(1);
    assert!(!reactor.is_finished(1));
    reactor.set_finished(1);
    assert!(reactor.is_finished(1));
    assert!(reactor.is_registered(&1));
    assert!(!reactor.is_ready(1));
    assert!(!reactor.is_waiting(1));
}

#[test]
fn close_keeps_pending_registrations() {
    let mut reactor = Reactor::new();
    let (count, waker) = counting_waker();
    reactor.set_timeout(1, waker, 60);
    assert_eq!(reactor.take_messages(), vec![Message::Timeout(60, 1)]);
    reactor.close();
    assert_eq!(reactor.take_messages(), vec![Message::Close]);
    assert!(reactor.is_waiting(1));
    assert_eq!(count.0.load(Ordering::SeqCst), 0);
}

#[test]
fn dispatcher_stops_on_close_and_starts_timers() {
    assert_eq!(dispatch(Message::Close), Dispatch::Stop);
    assert_eq!(dispatch(Message::Timeout(2, 5)), Dispatch::StartTimer(2, 5));
    assert_eq!(dispatch(Message::Timeout(0, 0)), Dispatch::StartTimer(0, 0));
}
