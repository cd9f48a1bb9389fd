//! The ready channel: a bounded first-in first-out hand-off queue between
//! the promotion engine and the task stream.

use vstd::prelude::*;
use ach_mpmc::Mpmc;
use crate::task::TaskPayload;

verus! {

/// Capacity of the ready channel.
pub const TASK_LEN: usize = 64;

/// `ach_mpmc::Mpmc`, the bounded queue, as a value that only the functions
/// below look into.
#[verifier::external_type_specification]
#[verifier::external_body]
#[verifier::reject_recursive_types(T)]
pub struct ExMpmc<T, const N: usize>(Mpmc<T, N>);

/// The payloads a queue holds, oldest first. The functions below take the
/// queue by exclusive reference where they change it, so between two calls
/// nothing else does.
pub uninterp spec fn ready_items(queue: Mpmc<TaskPayload, TASK_LEN>) -> Seq<TaskPayload>;

/// `ach_mpmc::Mpmc::new`: the new queue holds nothing.
#[verifier::external_body]
fn mpmc_new() -> (queue: Mpmc<TaskPayload, TASK_LEN>)
    ensures
        ready_items(queue) == Seq::<TaskPayload>::empty(),
{
    Mpmc::new()
}

/// `push` of `ach_ring::Ring`, which `ach_mpmc::Mpmc` derefs to. While the
/// queue holds fewer items than its capacity the item goes to the back; a
/// full queue is left as it was and hands the item back in its error.
#[verifier::external_body]
fn mpmc_push(queue: &mut Mpmc<TaskPayload, TASK_LEN>, item: TaskPayload) -> (r: Result<(), TaskPayload>)
    ensures
        r is Ok <==> ready_items(*old(queue)).len() < TASK_LEN,
        r is Ok ==> ready_items(*final(queue)) == ready_items(*old(queue)).push(item),
        r is Err ==> r->Err_0 == item && ready_items(*final(queue)) == ready_items(*old(queue)),
{
    match queue.push(item) {
        Ok(()) => Ok(()),
        Err(full) => Err(full.input),
    }
}

/// `pop` of `ach_ring::Ring`, which `ach_mpmc::Mpmc` derefs to. The oldest
/// item leaves the queue and is returned; an empty queue is left as it was
/// and answers with an error, which becomes `None`.
#[verifier::external_body]
fn mpmc_pop(queue: &mut Mpmc<TaskPayload, TASK_LEN>) -> (r: Option<TaskPayload>)
    ensures
        r is Some <==> ready_items(*old(queue)).len() > 0,
        r is Some ==> r == Some(ready_items(*old(queue)).first())
            && ready_items(*final(queue)) == ready_items(*old(queue)).drop_first(),
        r is None ==> ready_items(*final(queue)) == ready_items(*old(queue)),
{
    match queue.pop() {
        Ok(item) => Some(item),
        Err(_) => None,
    }
}

/// `len` of `ach_ring::Ring`, which `ach_mpmc::Mpmc` derefs to: the number
/// of items held.
#[verifier::external_body]
fn mpmc_len(queue: &Mpmc<TaskPayload, TASK_LEN>) -> (n: usize)
    ensures
        n == ready_items(*queue).len(),
{
    queue.len()
}

/// A bounded queue of promoted payloads. Pushing never blocks and never
/// drops: a full channel refuses the item and hands it back.
pub struct ReadyChannel {
    queue: Mpmc<TaskPayload, TASK_LEN>,
}

impl View for ReadyChannel {
    type V = Seq<TaskPayload>;

    closed spec fn view(&self) -> Seq<TaskPayload> {
        ready_items(self.queue)
    }
}

impl ReadyChannel {
    /// The channel never holds more than its capacity.
    pub open spec fn wf(&self) -> bool {
        self@.len() <= TASK_LEN
    }

    /// Whether the channel holds as much as it can.
    pub open spec fn is_full(&self) -> bool {
        self@.len() >= TASK_LEN
    }

    /// An empty channel.
    pub fn new() -> (channel: ReadyChannel)
        ensures
            channel.wf(),
            channel@ == Seq::<TaskPayload>::empty(),
    {
        ReadyChannel { queue: mpmc_new() }
    }

    /// How many payloads the channel can hold.
    pub fn capacity(&self) -> (n: usize)
        ensures
            n == TASK_LEN,
    {
        TASK_LEN
    }

    /// How many payloads the channel holds.
    pub fn len(&self) -> (n: usize)
        ensures
            n == self@.len(),
    {
        mpmc_len(&self.queue)
    }

    /// Room left before the channel is full.
    pub fn free(&self) -> (n: usize)
        requires
            self.wf(),
        ensures
            n == TASK_LEN - self@.len(),
    {
        TASK_LEN - mpmc_len(&self.queue)
    }

    /// Appends `item` unless the channel is full.
    pub fn try_push(&mut self, item: TaskPayload) -> (r: Result<(), TaskPayload>)
        requires
            old(self).wf(),
        ensures
            final(self).wf(),
            !old(self).is_full() ==> r is Ok && final(self)@ == old(self)@.push(item),
            old(self).is_full() ==> r is Err && r->Err_0 == item && final(self)@ == old(self)@,
    {
        mpmc_push(&mut self.queue, item)
    }

    /// Removes and returns the oldest item, if there is one.
    pub fn try_pop(&mut self) -> (r: Option<TaskPayload>)
        requires
            old(self).wf(),
        ensures
            final(self).wf(),
            old(self)@.len() > 0 ==> r == Some(old(self)@.first()) && final(self)@ == old(self)@.drop_first(),
            old(self)@.len() == 0 ==> r is None && final(self)@ == old(self)@,
    {
        mpmc_pop(&mut self.queue)
    }
}

} // verus!
