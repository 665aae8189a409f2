use mini_runtime::schedule::{enqueue_on_wake, requeue_on_suspend, PENDING, RUNNING, WOKEN};
use mini_runtime::spawn::{
    scheduled_by, worker_count, worker_count_for, Executor, Scheduled, Work,
};
use std::cell::Cell;
use std::sync::Arc;

#[test]
fn flag_values() {
    assert_eq!(PENDING, 0);
    assert_eq!(WOKEN, 1);
    assert_eq!(RUNNING, 2);
}

#[test]
fn wake_enqueues_only_an_idle_unit() {
    assert!(enqueue_on_wake(PENDING));
    assert!(!enqueue_on_wake(WOKEN));
    assert!(!enqueue_on_wake(RUNNING));
    assert!(!enqueue_on_wake(WOKEN | RUNNING));
}

#[test]
fn suspend_requeues_only_after_a_wake_during_the_poll() {
    assert!(!requeue_on_suspend(PENDING));
    assert!(!requeue_on_suspend(WOKEN));
    assert!(!requeue_on_suspend(RUNNING));
    assert!(requeue_on_suspend(WOKEN | RUNNING));
}

#[test]
fn queue_answer_decides_what_is_reported() {
    assert_eq!(scheduled_by(true), Scheduled::Queued);
    assert_eq!(scheduled_by(false), Scheduled::Disconnected);
}

#[test]
fn at_least_one_worker() {
    assert_eq!(worker_count_for(0), 1);
    assert_eq!(worker_count_for(1), 1);
    assert_eq!(worker_count_for(8), 8);
    assert_eq!(worker_count_for(usize::MAX), usize::MAX);
    assert!(worker_count() >= 1);
}

#[test]
fn spawn_puts_the_unit_on_the_queue() {
    let (executor, queue) = Executor::new();
    assert_eq!(executor.spawn(17u32), Scheduled::Queued);
    let unit = queue.try_recv().unwrap();
    assert_eq!(*unit.future(), 17);
    assert!(queue.try_recv().is_err());
}

#[test]
fn spawn_without_workers_is_disconnected() {
    let (executor, queue) = Executor::new();
    drop(queue);
    assert_eq!(executor.spawn(1u8), Scheduled::Disconnected);
}

#[test]
fn completed_unit_is_not_queued_again() {
    let (executor, queue) = Executor::new();
    executor.spawn(());
    let unit = queue.try_recv().unwrap();
    let keep = unit.clone();
    assert_eq!(Work::run(unit, &executor, |_| false), (None, Scheduled::Left));
    assert!(queue.try_recv().is_err());
    assert_eq!(Work::wake(&keep, &executor), (RUNNING, Scheduled::Left));
    assert_eq!(Work::wake(&keep, &executor), (WOKEN | RUNNING, Scheduled::Left));
    assert!(queue.try_recv().is_err());
}

#[test]
fn suspended_unit_waits_for_a_wake() {
    let (executor, queue) = Executor::new();
    executor.spawn(());
    let unit = queue.try_recv().unwrap();
    let keep = unit.clone();
    assert_eq!(Work::run(unit, &executor, |_| true), (Some(RUNNING), Scheduled::Left));
    assert!(queue.try_recv().is_err());
    assert_eq!(Work::wake(&keep, &executor), (PENDING, Scheduled::Queued));
    let again = queue.try_recv().unwrap();
    assert!(Arc::ptr_eq(&again, &keep));
    assert!(queue.try_recv().is_err());
}

#[test]
fn repeated_wakes_queue_once() {
    let (executor, queue) = Executor::new();
    executor.spawn(());
    let unit = queue.try_recv().unwrap();
    let keep = unit.clone();
    Work::run(unit, &executor, |_| true);
    assert_eq!(Work::wake(&keep, &executor), (PENDING, Scheduled::Queued));
    assert_eq!(Work::wake(&keep, &executor), (WOKEN, Scheduled::Left));
    assert_eq!(Work::wake(&keep, &executor), (WOKEN, Scheduled::Left));
    assert!(queue.try_recv().is_ok());
    assert!(queue.try_recv().is_err());
}

#[test]
fn wake_during_the_poll_requeues_after_it() {
    let (executor, queue) = Executor::new();
    executor.spawn(());
    let unit = queue.try_recv().unwrap();
    let report = Work::run(unit, &executor, |unit| {
        assert_eq!(Work::wake(unit, &executor), (RUNNING, Scheduled::Left));
        assert_eq!(Work::wake(unit, &executor), (WOKEN | RUNNING, Scheduled::Left));
        assert!(queue.try_recv().is_err());
        true
    });
    assert_eq!(report, (Some(WOKEN | RUNNING), Scheduled::Queued));
    let again = queue.try_recv().unwrap();
    assert!(queue.try_recv().is_err());
    assert_eq!(Work::wake(&again, &executor), (WOKEN, Scheduled::Left));
    assert_eq!(Work::run(again, &executor, |_| true), (Some(RUNNING), Scheduled::Left));
    assert!(queue.try_recv().is_err());
}

#[test]
fn wake_during_the_final_poll_queues_nothing() {
    let (executor, queue) = Executor::new();
    executor.spawn(());
    let unit = queue.try_recv().unwrap();
    let report = Work::run(unit, &executor, |unit| {
        assert_eq!(Work::wake(unit, &executor), (RUNNING, Scheduled::Left));
        false
    });
    assert_eq!(report, (None, Scheduled::Left));
    assert!(queue.try_recv().is_err());
}

#[test]
fn wake_of_a_suspended_unit_without_workers_is_disconnected() {
    let (executor, queue) = Executor::new();
    executor.spawn(());
    let unit = queue.try_recv().unwrap();
    let keep = unit.clone();
    Work::run(unit, &executor, |_| true);
    drop(queue);
    assert_eq!(Work::wake(&keep, &executor), (PENDING, Scheduled::Disconnected));
}

#[test]
fn hundred_immediate_computations() {
    let (executor, queue) = Executor::new();
    let polled: Vec<Cell<usize>> = (0..100).map(|_| Cell::new(0)).collect();
    for index in 0..100usize {
        assert_eq!(executor.spawn(index), Scheduled::Queued);
    }
    let mut turns = 0;
    while let Ok(unit) = queue.try_recv() {
        turns += 1;
        let report = Work::run(unit, &executor, |unit| {
            let slot = &polled[*unit.future()];
            slot.set(slot.get() + 1);
            false
        });
        assert_eq!(report, (None, Scheduled::Left));
    }
    assert_eq!(turns, 100);
    assert!(polled.iter().all(|count| count.get() == 1));
}

#[test]
fn every_wake_is_answered_by_one_poll() {
    let (executor, queue) = Executor::new();
    let units = 5usize;
    let rounds = 4usize;
    let polls: Vec<Cell<usize>> = (0..units).map(|_| Cell::new(0)).collect();
    let mut handles = Vec::new();
    for index in 0..units {
        executor.spawn(index);
    }
    let mut wakes = vec![0usize; units];
    loop {
        while let Ok(unit) = queue.try_recv() {
            handles.push(unit.clone());
            Work::run(unit, &executor, |unit| {
                let slot = &polls[*unit.future()];
                slot.set(slot.get() + 1);
                slot.get() <= rounds
            });
        }
        let mut woke = false;
        for unit in handles.drain(..) {
            let index = *unit.future();
            if polls[index].get() <= rounds {
                assert_eq!(Work::wake(&unit, &executor).1, Scheduled::Queued);
                assert_eq!(Work::wake(&unit, &executor).1, Scheduled::Left);
                wakes[index] += 1;
                woke = true;
            }
        }
        if !woke {
            break;
        }
    }
    for index in 0..units {
        assert_eq!(wakes[index], rounds);
        assert_eq!(polls[index].get(), rounds + 1);
    }
}
