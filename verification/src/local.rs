//! The thread-confined variant: the same scheduler behind types that cannot
//! leave the thread they are on.

use vstd::prelude::*;
use std::marker::PhantomData;
use std::rc::Rc;
use std::task::Waker;
use crate::executor::{Executor, ExecutorError, ExecutorState, Polled, TaskStream, TickReport};
use crate::task::{TaskPayload, TaskPolicy};

verus! {

/// A ready payload that has to be run on the thread it was taken on.
pub struct LocalRunnable {
    payload: TaskPayload,
    _private: PhantomData<Rc<()>>,
}

impl View for LocalRunnable {
    type V = TaskPayload;

    closed spec fn view(&self) -> TaskPayload {
        self.payload
    }
}

impl LocalRunnable {
    fn new(payload: TaskPayload) -> (item: LocalRunnable)
        ensures
            item@ == payload,
    {
        LocalRunnable { payload, _private: PhantomData }
    }

    /// The payload to run.
    pub fn payload(&self) -> (payload: TaskPayload)
        ensures
            payload == self@,
    {
        self.payload
    }
}

/// An executor that stays on one thread. Registration, ticks and
/// consumption are those of [`Executor`].
pub struct LocalExecutor {
    inner: Executor,
    _private: PhantomData<Rc<()>>,
}

impl View for LocalExecutor {
    type V = ExecutorState;

    closed spec fn view(&self) -> ExecutorState {
        self.inner@
    }
}

impl LocalExecutor {
    /// What every executor satisfies from `new` on.
    pub open spec fn wf(&self) -> bool {
        self@.wf()
    }

    /// Confines `executor` to the thread it is on.
    pub fn new(executor: Executor) -> (local: LocalExecutor)
        ensures
            local@ == executor@,
    {
        LocalExecutor { inner: executor, _private: PhantomData }
    }

    /// Registers the asynchronous computation `job` to be forwarded by the
    /// next tick.
    pub fn spawn(&mut self, job: u64)
        requires
            old(self).wf(),
        ensures
            final(self).wf(),
            final(self)@ == old(self)@.registered(TaskPolicy::Immediate, TaskPayload::Async(job)),
    {
        self.inner.spawn(job);
    }

    /// Registers the synchronous callable `job` under `policy`.
    pub fn add_task(&mut self, policy: TaskPolicy, job: u64)
        requires
            old(self).wf(),
        ensures
            final(self).wf(),
            final(self)@ == old(self)@.registered(policy, TaskPayload::Sync(job)),
    {
        self.inner.add_task(policy, job);
    }

    /// Registers the asynchronous computation `job` under `policy`, unless
    /// the policy is an interval.
    pub fn add_async_task(&mut self, policy: TaskPolicy, job: u64) -> (r: Result<(), ExecutorError>)
        requires
            old(self).wf(),
        ensures
            final(self).wf(),
            r is Err <==> policy is Interval,
            r is Err ==> r->Err_0 == ExecutorError::InvalidRegistration && final(self)@ == old(self)@,
            r is Ok ==> final(self)@ == old(self)@.registered(policy, TaskPayload::Async(job)),
    {
        self.inner.add_async_task(policy, job)
    }

    /// Advances the clock by `delta` and promotes what is due.
    pub fn tick(&mut self, delta: u64) -> (report: TickReport)
        requires
            old(self).wf(),
            old(self)@.admits_tick(delta),
        ensures
            final(self).wf(),
            final(self)@ == old(self)@.ticked(delta),
            report == old(self)@.tick_report(delta),
    {
        self.inner.tick(delta)
    }

    /// Advances the clock by `delta` and promotes what is due, or refuses
    /// the whole tick.
    pub fn try_tick(&mut self, delta: u64) -> (r: Result<TickReport, ExecutorError>)
        requires
            old(self).wf(),
        ensures
            final(self).wf(),
            r is Ok <==> old(self)@.admits_tick(delta),
            r is Ok ==> r->Ok_0 == old(self)@.tick_report(delta) && final(self)@ == old(self)@.ticked(delta),
            r is Err ==> r->Err_0 == old(self)@.tick_refusal(delta) && final(self)@ == old(self)@,
    {
        self.inner.try_tick(delta)
    }

    /// The consumer's handle on the ready channel.
    pub fn stream(&mut self) -> (local: LocalTaskStream<'_>)
        ensures
            local.stream.executor@ == old(self)@,
            final(local.stream.executor)@ == final(self)@,
    {
        LocalTaskStream { stream: self.inner.stream(), marker: PhantomData }
    }
}

/// The consumer's view of a [`LocalExecutor`]. What it hands out stays on
/// this thread.
pub struct LocalTaskStream<'a> {
    pub stream: TaskStream<'a>,
    pub marker: PhantomData<Rc<()>>,
}

impl<'a> LocalTaskStream<'a> {
    /// Takes the oldest ready payload, if there is one.
    pub fn get_task(&mut self) -> (r: Option<LocalRunnable>)
        requires
            old(self).stream.executor.wf(),
        ensures
            final(self).stream.executor.wf(),
            *final(final(self).stream.executor) == *final(old(self).stream.executor),
            old(self).stream.executor@.ready.len() > 0 ==> r is Some
                && r->Some_0@ == old(self).stream.executor@.ready.first()
                && final(self).stream.executor@ == old(self).stream.executor@.taken(),
            old(self).stream.executor@.ready.len() == 0 ==> r is None
                && final(self).stream.executor@ == old(self).stream.executor@,
    {
        match self.stream.get_task() {
            Some(payload) => Some(LocalRunnable::new(payload)),
            None => None,
        }
    }

    /// Polls once: takes a ready payload, or stores the consumer's handle.
    pub fn poll_next(&mut self, waker: &Waker) -> (r: Polled<LocalRunnable>)
        requires
            old(self).stream.executor.wf(),
        ensures
            final(self).stream.executor.wf(),
            *final(final(self).stream.executor) == *final(old(self).stream.executor),
            old(self).stream.executor@.ready.len() > 0 ==> r is Ready
                && r->Ready_0@ == old(self).stream.executor@.ready.first()
                && final(self).stream.executor@ == old(self).stream.executor@.taken(),
            old(self).stream.executor@.ready.len() == 0 ==> r is Pending
                && final(self).stream.executor@ == old(self).stream.executor@.parked(),
    {
        match self.stream.poll_next(waker) {
            Polled::Ready(payload) => Polled::Ready(LocalRunnable::new(payload)),
            Polled::Pending => Polled::Pending,
        }
    }
}

} // verus!
