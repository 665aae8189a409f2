//! Wake handles: the capability that a suspended task hands to whoever will
//! make it runnable again.

use vstd::prelude::*;
use std::sync::Arc;
use std::task::Waker;
use crate::parker::Parker;

verus! {

/// `std::task::Waker`: the handle that a poll is given and that a reactor
/// stores. Nothing of its inside is visible here; it is kept, handed on and
/// invoked.
#[verifier::external_type_specification]
#[verifier::external_body]
pub struct ExWaker(Waker);

/// `Waker::wake`: consumes the handle and notifies its target. Nothing is
/// claimed of what the target does.
pub assume_specification[ Waker::wake ](waker: Waker);

/// `Arc::clone`: one more owner of the same shared value. The value is
/// released when its last owner is dropped.
#[verifier::external_body]
pub(crate) fn share<T>(owner: &Arc<T>) -> (other: Arc<T>)
    ensures
        other == *owner,
{
    Arc::clone(owner)
}

/// A wake handle whose target is a parker: invoking it releases the thread
/// that parks there.
///
/// The target is shared by all handles made from one another; `clone` adds a
/// share, dropping a handle gives its share back, and the parker is released
/// when the last share is gone. A handle can therefore be invoked from any
/// thread, long after the poll that made it has returned.
#[derive(Debug)]
pub struct MyWaker {
    pub parker: Arc<Parker>,
}

impl Clone for MyWaker {
    /// Another handle with the same target, which gains a share.
    fn clone(&self) -> (other: MyWaker)
        ensures
            other.parker == self.parker,
    {
        MyWaker { parker: share(&self.parker) }
    }
}

impl MyWaker {
    pub fn new(parker: Arc<Parker>) -> (waker: MyWaker)
        ensures
            waker.parker == parker,
    {
        MyWaker { parker }
    }

    /// Notifies the target and gives this handle's share back.
    pub fn wake(self) {
        self.parker.unpark();
    }

    /// Notifies the target and keeps the handle.
    pub fn wake_by_ref(&self) {
        self.parker.unpark();
    }
}

} // verus!
