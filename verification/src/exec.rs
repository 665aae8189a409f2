//! The single-task driver: one computation is polled on the calling thread
//! until it completes, and the thread parks between polls.
//!
//! The polling itself is the caller's: the caller owns the computation and
//! knows how to poll it with a handle. The driver owns the parker, makes the
//! handle that targets it, and decides after each poll whether to return or
//! to park.

use vstd::prelude::*;
use std::sync::Arc;
use crate::parker::Parker;
use crate::task::Poll;
use crate::waker::{share, MyWaker};

verus! {

/// Where a driver stands.
#[derive(Debug, Clone, Copy, PartialEq, Eq)]
pub enum DriverState {
    /// The computation is to be polled again.
    Polling,
    /// The computation has completed and its result was handed out.
    Done,
}

/// What the driver does after a poll that reported `outcome`: it is done
/// exactly if the computation completed.
pub open spec fn state_after<T>(outcome: Poll<T>) -> DriverState {
    match outcome {
        Poll::Ready(_) => DriverState::Done,
        Poll::Pending => DriverState::Polling,
    }
}

/// What the driver hands its caller after a poll that reported `outcome`: the
/// result, if the computation completed.
pub open spec fn result_of<T>(outcome: Poll<T>) -> Option<T> {
    match outcome {
        Poll::Ready(value) => Some(value),
        Poll::Pending => None,
    }
}

/// The driver of one top-level computation.
#[derive(Debug)]
pub struct Driver {
    parker: Arc<Parker>,
    state: DriverState,
}

impl Driver {
    pub closed spec fn state(&self) -> DriverState {
        self.state
    }

    /// The parker on which this driver's thread sleeps between polls.
    pub closed spec fn parker(&self) -> Arc<Parker> {
        self.parker
    }

    /// A driver with a parker of its own, about to make its first poll.
    pub fn new() -> (driver: Driver)
        ensures
            driver.state() == DriverState::Polling,
    {
        Driver { parker: Arc::new(Parker::default()), state: DriverState::Polling }
    }

    /// Whether the computation has completed, so that no poll is to follow.
    pub fn is_done(&self) -> (done: bool)
        ensures
            done == (self.state() == DriverState::Done),
    {
        match self.state {
            DriverState::Done => true,
            DriverState::Polling => false,
        }
    }

    /// A wake handle that targets this driver's parker. Every poll of the
    /// driven computation is made with such a handle.
    pub fn waker(&self) -> (waker: MyWaker)
        ensures
            waker.parker == self.parker(),
    {
        MyWaker::new(share(&self.parker))
    }

    /// The driver's step after one poll of its computation. On completion
    /// the result is handed out and the driver is done. Otherwise the calling
    /// thread parks until the handle of `waker` is invoked, which may have
    /// happened before this call; the computation is then to be polled
    /// again.
    pub fn on_poll<T>(&mut self, outcome: Poll<T>) -> (result: Option<T>)
        requires
            old(self).state() == DriverState::Polling,
        ensures
            result == result_of(outcome),
            final(self).state() == state_after(outcome),
            final(self).parker() == old(self).parker(),
    {
        match outcome {
            Poll::Ready(value) => {
                self.state = DriverState::Done;
                Some(value)
            },
            Poll::Pending => {
                self.parker.park();
                None
            },
        }
    }
}

} // verus!
