//! A cooperative task scheduler driven by a virtual clock.
//!
//! Tasks are registered with a policy: run at the next tick, run once after
//! a delay, or run again and again on a period. Time does not pass by
//! itself: a driver advances the clock with explicit ticks, and each tick
//! moves the payloads of the tasks that became due into a bounded ready
//! channel. A consumer takes them from there, by asking or by polling, and
//! runs them wherever it likes; the scheduler never runs anything.

use vstd::prelude::*;

pub mod channel;
pub mod executor;
pub mod laws;
pub mod local;
pub mod promotion;
pub mod task;
pub mod wake;

pub use channel::{ReadyChannel, TASK_LEN};
pub use executor::{Executor, ExecutorError, ExecutorState, Polled, TaskStream, TickReport};
pub use local::{LocalExecutor, LocalRunnable, LocalTaskStream};
pub use task::{Task, TaskPayload, TaskPolicy};
pub use wake::WakeCell;

verus! {

/// Registers the asynchronous computation `job` with `executor`, to be
/// forwarded by the next tick.
pub fn spawn(executor: &mut Executor, job: u64)
    requires
        old(executor).wf(),
    ensures
        final(executor).wf(),
        final(executor)@ == old(executor)@.registered(TaskPolicy::Immediate, TaskPayload::Async(job)),
{
    executor.spawn(job)
}

/// The consumer's handle on the ready channel of `executor`.
pub fn stream(executor: &mut Executor) -> (stream: TaskStream<'_>)
    ensures
        *stream.executor == *old(executor),
        *final(stream.executor) == *final(executor),
{
    executor.stream()
}

} // verus!
