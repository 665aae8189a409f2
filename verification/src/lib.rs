//! A minimal asynchronous task runtime: a parker, wake handles, a timer
//! reactor, a single-task driver and a work-queue executor.

pub mod exec;
pub mod parker;
pub mod reactor;
pub mod schedule;
pub mod spawn;
pub mod task;
pub mod waker;
