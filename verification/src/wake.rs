//! The wake cell: a single slot for the notification handle of a consumer
//! that found the ready channel empty.

use vstd::prelude::*;
use futures_util::task::AtomicWaker;
use std::task::Waker;

verus! {

/// `futures_util::task::AtomicWaker`, as a value that only the functions
/// below look into.
#[verifier::external_type_specification]
#[verifier::external_body]
pub struct ExAtomicWaker(AtomicWaker);

/// `std::task::Waker`: the handle by which a consumer is signalled. It is
/// carried and handed on, never looked into.
#[verifier::external_type_specification]
#[verifier::external_body]
pub struct ExWaker(Waker);

/// Whether a cell holds a handle that has not been taken yet. The functions
/// below take the cell by exclusive reference where they change it, so
/// between two calls nothing else does.
pub uninterp spec fn holds_waiter(cell: AtomicWaker) -> bool;

/// `AtomicWaker::new`: the new cell holds no handle.
#[verifier::external_body]
fn atomic_waker_new() -> (cell: AtomicWaker)
    ensures
        !holds_waiter(cell),
{
    AtomicWaker::new()
}

/// `AtomicWaker::register`: afterwards the cell holds a handle. The handle
/// is one for the consumer of `waker`, in place of whatever the cell held
/// before; of that the contract says nothing, since a handle has no model.
#[verifier::external_body]
fn atomic_waker_register(cell: &mut AtomicWaker, waker: &Waker)
    ensures
        holds_waiter(*final(cell)),
{
    cell.register(waker)
}

/// `AtomicWaker::take`: hands out the handle the cell holds, if it holds
/// one, and leaves the cell empty.
#[verifier::external_body]
fn atomic_waker_take(cell: &mut AtomicWaker) -> (taken: Option<Waker>)
    ensures
        taken is Some <==> holds_waiter(*old(cell)),
        !holds_waiter(*final(cell)),
{
    cell.take()
}

/// `Waker::wake`: signals the consumer behind the handle and uses the handle
/// up. The signal is an effect outside the model: nothing is claimed.
#[verifier::external_body]
fn waker_wake(waker: Waker) {
    waker.wake()
}

/// `Waker::wake_by_ref`: signals the consumer behind the handle. The signal
/// is an effect outside the model: nothing is claimed.
#[verifier::external_body]
pub(crate) fn waker_wake_by_ref(waker: &Waker) {
    waker.wake_by_ref()
}

/// Holds at most one waiting consumer. A new registration replaces the one
/// before it, so one notification resumes one consumer: the latest.
pub struct WakeCell {
    slot: AtomicWaker,
}

impl WakeCell {
    /// Whether a consumer is waiting for a notification.
    pub closed spec fn is_waiting(&self) -> bool {
        holds_waiter(self.slot)
    }

    /// An empty cell.
    pub fn new() -> (cell: WakeCell)
        ensures
            !cell.is_waiting(),
    {
        WakeCell { slot: atomic_waker_new() }
    }

    /// Stores the consumer's handle, over any handle stored before.
    pub fn register(&mut self, waker: &Waker)
        ensures
            final(self).is_waiting(),
    {
        atomic_waker_register(&mut self.slot, waker);
    }

    /// Empties the cell and signals the consumer that waited, if one did.
    /// Returns whether a consumer was signalled.
    pub fn notify(&mut self) -> (woke: bool)
        ensures
            woke == old(self).is_waiting(),
            !final(self).is_waiting(),
    {
        match atomic_waker_take(&mut self.slot) {
            Some(waker) => {
                waker_wake(waker);
                true
            },
            None => false,
        }
    }
}

} // verus!
