//! Task records: a scheduling policy, a payload and the time at which the
//! current eligibility window began.

use vstd::prelude::*;

verus! {

/// When a registered task becomes eligible for promotion.
#[derive(Clone, Copy, Debug, PartialEq, Eq, Structural)]
pub enum TaskPolicy {
    /// Eligible on the next tick, whatever time has passed.
    Immediate,
    /// Eligible once, when the given time has passed since registration.
    Timeout(u64),
    /// Eligible every time the given time has passed since the last firing.
    Interval(u64),
}

/// The work a task stands for. The scheduler forwards payloads and never
/// runs them, so a payload is the slot of a callable, or of a constructed
/// asynchronous computation, in the table of whoever executes ready work.
#[derive(Clone, Copy, Debug, PartialEq, Eq, Structural)]
pub enum TaskPayload {
    /// A synchronous callable: it may be forwarded any number of times.
    Sync(u64),
    /// A constructed asynchronous computation: it is forwarded at most once.
    Async(u64),
}

/// A registered task.
#[derive(Clone, Copy, Debug, PartialEq, Eq, Structural)]
pub struct Task {
    pub policy: TaskPolicy,
    pub payload: TaskPayload,
    /// Clock reading at which the current eligibility window began: the
    /// registration time, or the time of the previous firing of an interval.
    pub last: u64,
}

impl TaskPolicy {
    /// One-shot policies leave the registry when they fire.
    pub open spec fn is_one_shot(self) -> bool {
        !(self is Interval)
    }

    /// Whether a payload may be registered under this policy: a repeating
    /// task must be forwardable more than once, so it has to be synchronous.
    pub open spec fn admits(self, payload: TaskPayload) -> bool {
        self is Interval ==> payload is Sync
    }

    /// Whether a task under this policy fires again and again.
    pub fn repeats(&self) -> (r: bool)
        ensures
            r == !self.is_one_shot(),
    {
        match self {
            TaskPolicy::Interval(_) => true,
            _ => false,
        }
    }
}

impl TaskPayload {
    /// The slot this payload names.
    pub open spec fn slot(self) -> u64 {
        match self {
            TaskPayload::Sync(id) => id,
            TaskPayload::Async(id) => id,
        }
    }

    /// Whether the payload is a synchronous callable.
    pub fn is_sync(&self) -> (r: bool)
        ensures
            r == (*self is Sync),
    {
        match self {
            TaskPayload::Sync(_) => true,
            TaskPayload::Async(_) => false,
        }
    }

    /// The slot the payload names.
    pub fn id(&self) -> (r: u64)
        ensures
            r == self.slot(),
    {
        match self {
            TaskPayload::Sync(id) => *id,
            TaskPayload::Async(id) => *id,
        }
    }
}

impl Task {
    /// A task as the registry holds it when the clock reads `now`: its window
    /// began no later than `now`, and a repeating task is synchronous.
    pub open spec fn valid_at(self, now: u64) -> bool {
        &&& self.last <= now
        &&& self.policy.admits(self.payload)
    }

    /// Time passed since the eligibility window began. It is negative for a
    /// reading before the window, at which no delay has been reached.
    pub open spec fn elapsed(self, now: u64) -> int {
        now - self.last
    }

    /// Whether a tick that brings the clock to `now` promotes the task.
    pub open spec fn is_due(self, now: u64) -> bool {
        match self.policy {
            TaskPolicy::Immediate => true,
            TaskPolicy::Timeout(d) => self.elapsed(now) >= d,
            TaskPolicy::Interval(d) => self.elapsed(now) >= d,
        }
    }

    /// Whether the task is still registered after a tick to `now`.
    pub open spec fn stays(self, now: u64) -> bool {
        !self.is_due(now) || !self.policy.is_one_shot()
    }

    /// The task as it stands after a tick to `now`, if it stays: a due
    /// interval starts a new window at `now`, a waiting task is untouched.
    pub open spec fn carried(self, now: u64) -> Task {
        if self.is_due(now) {
            Task { policy: self.policy, payload: self.payload, last: now }
        } else {
            self
        }
    }

    /// A task whose window begins at `now`.
    pub fn new(policy: TaskPolicy, payload: TaskPayload, now: u64) -> (t: Task)
        ensures
            t == (Task { policy, payload, last: now }),
    {
        Task { policy, payload, last: now }
    }

    /// Whether a tick that brings the clock to `now` promotes the task.
    pub fn due(&self, now: u64) -> (r: bool)
        ensures
            r == self.is_due(now),
    {
        match self.policy {
            TaskPolicy::Immediate => true,
            TaskPolicy::Timeout(d) => now >= self.last && now - self.last >= d,
            TaskPolicy::Interval(d) => now >= self.last && now - self.last >= d,
        }
    }
}

} // verus!
