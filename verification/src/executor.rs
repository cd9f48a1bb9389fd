//! The executor: a registry of pending tasks, a virtual clock that only
//! explicit ticks advance, the ready channel that a tick fills, and the wake
//! cell that tells a waiting consumer about new ready work.

use vstd::prelude::*;
use std::task::Waker;
use crate::channel::{ReadyChannel, TASK_LEN};
use crate::local::LocalExecutor;
use crate::promotion::{all_valid, count_due, lemma_remaining_valid, promote, promoted, remaining};
use crate::task::{Task, TaskPayload, TaskPolicy};
use crate::wake::{waker_wake_by_ref, WakeCell};

verus! {

/// Why the executor refused an operation. The state is left as it was.
#[derive(Clone, Copy, Debug, PartialEq, Eq, Structural)]
pub enum ExecutorError {
    /// An interval policy was combined with an asynchronous payload.
    InvalidRegistration,
    /// The tick would forward more payloads than the ready channel has room for.
    CapacityExceeded,
    /// The tick would carry the clock past the largest reading it can hold.
    ClockOverflow,
}

/// What a tick did.
#[derive(Clone, Copy, Debug, PartialEq, Eq, Structural)]
pub struct TickReport {
    /// Number of payloads forwarded to the ready channel.
    pub forwarded: usize,
    /// Whether a waiting consumer was signalled.
    pub woke: bool,
}

/// The outcome of one poll of a stream, which never ends.
#[derive(Debug, PartialEq, Eq)]
pub enum Polled<T> {
    /// An item was ready.
    Ready(T),
    /// Nothing was ready; the consumer is registered for a notification.
    Pending,
}

/// The executor as the contracts see it.
pub struct ExecutorState {
    /// The clock reading.
    pub now: u64,
    /// The registry, in registration order.
    pub tasks: Seq<Task>,
    /// The ready channel, oldest payload first.
    pub ready: Seq<TaskPayload>,
    /// Whether a consumer waits for a notification.
    pub waiting: bool,
}

impl ExecutorState {
    /// A fresh executor: clock at zero, nothing registered, nothing ready,
    /// nobody waiting.
    pub open spec fn initial() -> ExecutorState {
        ExecutorState { now: 0, tasks: Seq::empty(), ready: Seq::empty(), waiting: false }
    }

    /// The ready channel is within its capacity, and every registered task
    /// began its window no later than now and, if it repeats, is synchronous.
    pub open spec fn wf(self) -> bool {
        &&& self.ready.len() <= TASK_LEN
        &&& all_valid(self.tasks, self.now)
    }

    /// The state after a task was registered: it joins the end of the
    /// registry with its window starting now.
    pub open spec fn registered(self, policy: TaskPolicy, payload: TaskPayload) -> ExecutorState {
        ExecutorState {
            tasks: self.tasks.push(Task { policy, payload, last: self.now }),
            ..self
        }
    }

    /// The clock reading a tick by `delta` leads to.
    pub open spec fn reading_after(self, delta: u64) -> int {
        self.now + delta
    }

    /// The payloads a tick by `delta` forwards.
    pub open spec fn due_after(self, delta: u64) -> Seq<TaskPayload> {
        promoted(self.tasks, self.reading_after(delta) as u64)
    }

    /// Whether a tick by `delta` can be carried out: the clock can hold the
    /// new reading and the ready channel has room for all that is due.
    pub open spec fn admits_tick(self, delta: u64) -> bool {
        &&& self.reading_after(delta) <= u64::MAX
        &&& self.ready.len() + self.due_after(delta).len() <= TASK_LEN
    }

    /// The state after a tick by `delta`: the clock is advanced, the due
    /// tasks are promoted in registration order, and a waiting consumer is
    /// signalled, and waits no longer, exactly if something was forwarded.
    pub open spec fn ticked(self, delta: u64) -> ExecutorState {
        let now = self.reading_after(delta) as u64;
        ExecutorState {
            now,
            tasks: remaining(self.tasks, now),
            ready: self.ready + promoted(self.tasks, now),
            waiting: self.waiting && promoted(self.tasks, now).len() == 0,
        }
    }

    /// Why a tick by `delta` that cannot be carried out is refused.
    pub open spec fn tick_refusal(self, delta: u64) -> ExecutorError {
        if self.reading_after(delta) > u64::MAX {
            ExecutorError::ClockOverflow
        } else {
            ExecutorError::CapacityExceeded
        }
    }

    /// What a tick by `delta` reports.
    pub open spec fn tick_report(self, delta: u64) -> TickReport {
        TickReport {
            forwarded: self.due_after(delta).len() as usize,
            woke: self.waiting && self.due_after(delta).len() > 0,
        }
    }

    /// The state after the ticks `deltas`, one after the other.
    pub open spec fn run(self, deltas: Seq<u64>) -> ExecutorState
        decreases deltas.len(),
    {
        if deltas.len() == 0 {
            self
        } else {
            self.run(deltas.drop_last()).ticked(deltas.last())
        }
    }

    /// The state after the oldest ready payload was taken.
    pub open spec fn taken(self) -> ExecutorState {
        ExecutorState { ready: self.ready.drop_first(), ..self }
    }

    /// The state after a consumer registered for a notification.
    pub open spec fn parked(self) -> ExecutorState {
        ExecutorState { waiting: true, ..self }
    }
}

/// The time that the ticks `deltas` let pass.
pub open spec fn total(deltas: Seq<u64>) -> int
    decreases deltas.len(),
{
    if deltas.len() == 0 {
        0
    } else {
        total(deltas.drop_last()) + deltas.last()
    }
}

/// A task scheduler over a virtual clock.
pub struct Executor {
    tasks: Vec<Task>,
    clock: u64,
    queue: ReadyChannel,
    waker: WakeCell,
}

impl View for Executor {
    type V = ExecutorState;

    closed spec fn view(&self) -> ExecutorState {
        ExecutorState {
            now: self.clock,
            tasks: self.tasks@,
            ready: self.queue@,
            waiting: self.waker.is_waiting(),
        }
    }
}

impl Executor {
    /// What every executor satisfies from `new` on.
    pub open spec fn wf(&self) -> bool {
        self@.wf()
    }

    /// An executor with the clock at zero and nothing registered.
    pub fn new() -> (executor: Executor)
        ensures
            executor.wf(),
            executor@ == ExecutorState::initial(),
    {
        Executor { tasks: Vec::new(), clock: 0, queue: ReadyChannel::new(), waker: WakeCell::new() }
    }

    /// Confines the executor to the thread it is on.
    pub fn into_local(self) -> (local: LocalExecutor)
        ensures
            local@ == self@,
    {
        LocalExecutor::new(self)
    }

    /// The clock reading.
    pub fn now(&self) -> (now: u64)
        ensures
            now == self@.now,
    {
        self.clock
    }

    /// Number of registered tasks.
    pub fn pending(&self) -> (n: usize)
        ensures
            n == self@.tasks.len(),
    {
        self.tasks.len()
    }

    /// Number of payloads in the ready channel.
    pub fn ready(&self) -> (n: usize)
        ensures
            n == self@.ready.len(),
    {
        self.queue.len()
    }

    /// Registers the synchronous callable `job` under `policy`.
    pub fn add_task(&mut self, policy: TaskPolicy, job: u64)
        requires
            old(self).wf(),
        ensures
            final(self).wf(),
            final(self)@ == old(self)@.registered(policy, TaskPayload::Sync(job)),
    {
        self.tasks.push(Task::new(policy, TaskPayload::Sync(job), self.clock));
    }

    /// Registers the asynchronous computation `job` under `policy`. An
    /// interval is refused, here and not at a later tick: a repeating task
    /// has to be synchronous.
    pub fn add_async_task(&mut self, policy: TaskPolicy, job: u64) -> (r: Result<(), ExecutorError>)
        requires
            old(self).wf(),
        ensures
            final(self).wf(),
            r is Err <==> policy is Interval,
            r is Err ==> r->Err_0 == ExecutorError::InvalidRegistration && final(self)@ == old(self)@,
            r is Ok ==> final(self)@ == old(self)@.registered(policy, TaskPayload::Async(job)),
    {
        if policy.repeats() {
            return Err(ExecutorError::InvalidRegistration);
        }
        self.tasks.push(Task::new(policy, TaskPayload::Async(job), self.clock));
        Ok(())
    }

    /// Registers the asynchronous computation `job` to be forwarded by the
    /// next tick.
    pub fn spawn(&mut self, job: u64)
        requires
            old(self).wf(),
        ensures
            final(self).wf(),
            final(self)@ == old(self)@.registered(TaskPolicy::Immediate, TaskPayload::Async(job)),
    {
        self.tasks.push(Task::new(TaskPolicy::Immediate, TaskPayload::Async(job), self.clock));
    }

    /// Advances the clock by `delta` and promotes what is due.
    pub fn tick(&mut self, delta: u64) -> (report: TickReport)
        requires
            old(self).wf(),
            old(self)@.admits_tick(delta),
        ensures
            final(self).wf(),
            final(self)@ == old(self)@.ticked(delta),
            report == old(self)@.tick_report(delta),
    {
        let now: u64 = self.clock + delta;
        proof {
            lemma_remaining_valid(self.tasks@, self.clock, now);
        }
        self.clock = now;
        let forwarded = promote(&mut self.tasks, &mut self.queue, now);
        let woke = if forwarded > 0 {
            self.waker.notify()
        } else {
            false
        };
        TickReport { forwarded, woke }
    }

    /// Advances the clock by `delta` and promotes what is due, if the clock
    /// can hold the new reading and the ready channel has room for all that
    /// is due; refuses the whole tick otherwise.
    pub fn try_tick(&mut self, delta: u64) -> (r: Result<TickReport, ExecutorError>)
        requires
            old(self).wf(),
        ensures
            final(self).wf(),
            r is Ok <==> old(self)@.admits_tick(delta),
            r is Ok ==> r->Ok_0 == old(self)@.tick_report(delta) && final(self)@ == old(self)@.ticked(delta),
            r is Err ==> r->Err_0 == old(self)@.tick_refusal(delta) && final(self)@ == old(self)@,
    {
        if delta > u64::MAX - self.clock {
            return Err(ExecutorError::ClockOverflow);
        }
        let now: u64 = self.clock + delta;
        if count_due(&self.tasks, now) > self.queue.free() {
            return Err(ExecutorError::CapacityExceeded);
        }
        Ok(self.tick(delta))
    }

    /// The consumer's handle on the ready channel. It borrows the executor:
    /// what is done through the handle is done to the executor.
    pub fn stream(&mut self) -> (stream: TaskStream<'_>)
        ensures
            *stream.executor == *old(self),
            *final(stream.executor) == *final(self),
    {
        TaskStream { executor: self }
    }
}

/// The consumer's view of an executor: it takes ready payloads, by asking
/// or by polling, and never comes to an end. A stream stays on the executor
/// it was made for.
pub struct TaskStream<'a> {
    pub executor: &'a mut Executor,
}

impl<'a> TaskStream<'a> {
    /// Takes the oldest ready payload, if there is one, and changes nothing
    /// else.
    pub fn get_task(&mut self) -> (r: Option<TaskPayload>)
        requires
            old(self).executor.wf(),
        ensures
            final(self).executor.wf(),
            *final(final(self).executor) == *final(old(self).executor),
            old(self).executor@.ready.len() > 0 ==> r == Some(old(self).executor@.ready.first())
                && final(self).executor@ == old(self).executor@.taken(),
            old(self).executor@.ready.len() == 0 ==> r is None && final(self).executor@ == old(self).executor@,
    {
        self.executor.queue.try_pop()
    }

    /// Polls once. A ready payload is taken and returned, and the consumer's
    /// handle is signalled again at once, since more may be ready. With
    /// nothing ready the handle is stored, over any stored before, to be
    /// signalled by the next tick that forwards something.
    pub fn poll_next(&mut self, waker: &Waker) -> (r: Polled<TaskPayload>)
        requires
            old(self).executor.wf(),
        ensures
            final(self).executor.wf(),
            *final(final(self).executor) == *final(old(self).executor),
            old(self).executor@.ready.len() > 0 ==> r == Polled::Ready(old(self).executor@.ready.first())
                && final(self).executor@ == old(self).executor@.taken(),
            old(self).executor@.ready.len() == 0 ==> r is Pending
                && final(self).executor@ == old(self).executor@.parked(),
    {
        match self.executor.queue.try_pop() {
            Some(payload) => {
                waker_wake_by_ref(waker);
                Polled::Ready(payload)
            },
            None => {
                self.executor.waker.register(waker);
                Polled::Pending
            },
        }
    }
}

} // verus!
