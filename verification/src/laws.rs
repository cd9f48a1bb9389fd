//! What holds of the scheduler over any registry, any payload and any
//! sequence of ticks.

use vstd::prelude::*;
use crate::executor::{total, ExecutorState};
use crate::promotion::{lemma_remaining_valid, lemma_scan_add, lemma_scan_empty, lemma_scan_push, promoted, remaining};
use crate::task::{Task, TaskPayload, TaskPolicy};

verus! {

/// A tick decides each task on its own and exactly once. Whatever stands
/// before and after the task at `index`, the registry after the tick is what
/// the tick leaves of the tasks before it, then the task itself if it stays,
/// then what the tick leaves of the tasks after it; and the payloads
/// forwarded are those of the tasks before it, then its own if it is due,
/// then those of the tasks after it.
pub proof fn law_tick_decides_each_task(s: ExecutorState, index: int, delta: u64)
    requires
        0 <= index < s.tasks.len(),
    ensures
        ({
            let now = s.ticked(delta).now;
            let t = s.tasks[index];
            let before = s.tasks.take(index);
            let after = s.tasks.skip(index + 1);
            &&& s.ticked(delta).tasks == remaining(before, now) + (if t.stays(now) {
                seq![t.carried(now)]
            } else {
                Seq::<Task>::empty()
            }) + remaining(after, now)
            &&& s.due_after(delta) == promoted(before, now) + (if t.is_due(now) {
                seq![t.payload]
            } else {
                Seq::<TaskPayload>::empty()
            }) + promoted(after, now)
        }),
{
    let now = s.ticked(delta).now;
    let t = s.tasks[index];
    let before = s.tasks.take(index);
    let after = s.tasks.skip(index + 1);
    let one = Seq::<Task>::empty().push(t);
    assert(s.tasks =~= before + one + after);
    lemma_scan_add(before + one, after, now);
    lemma_scan_add(before, one, now);
    lemma_scan_empty(now);
    lemma_scan_push(Seq::<Task>::empty(), t, now);
    assert(Seq::<Task>::empty().push(t.carried(now)) =~= seq![t.carried(now)]);
    assert(Seq::<TaskPayload>::empty().push(t.payload) =~= seq![t.payload]);
}

/// An immediate task is forwarded by the very next tick, whatever the tick's
/// length, zero included, and is gone afterwards: registering it and ticking
/// leaves the state that ticking alone leaves, with the payload at the back
/// of the ready channel and nobody waiting any more.
pub proof fn law_immediate_fires_on_next_tick(s: ExecutorState, payload: TaskPayload, delta: u64)
    ensures
        s.registered(TaskPolicy::Immediate, payload).ticked(delta).now == s.ticked(delta).now,
        s.registered(TaskPolicy::Immediate, payload).ticked(delta).tasks == s.ticked(delta).tasks,
        s.registered(TaskPolicy::Immediate, payload).ticked(delta).ready == s.ticked(delta).ready.push(payload),
        s.registered(TaskPolicy::Immediate, payload).due_after(delta) == s.due_after(delta).push(payload),
        !s.registered(TaskPolicy::Immediate, payload).ticked(delta).waiting,
{
    let now = s.ticked(delta).now;
    let t = Task { policy: TaskPolicy::Immediate, payload, last: s.now };
    lemma_scan_push(s.tasks, t, now);
    assert(s.ready + promoted(s.tasks, now).push(payload) =~= (s.ready + promoted(s.tasks, now)).push(payload));
}

/// Ticks move the clock by the time they let pass.
pub proof fn law_run_advances_clock(s: ExecutorState, deltas: Seq<u64>)
    requires
        s.now + total(deltas) <= u64::MAX,
    ensures
        s.run(deltas).now == s.now + total(deltas),
        0 <= total(deltas),
    decreases deltas.len(),
{
    if deltas.len() > 0 {
        lemma_total_nonnegative(deltas.drop_last());
        law_run_advances_clock(s, deltas.drop_last());
    }
}

proof fn lemma_total_nonnegative(deltas: Seq<u64>)
    ensures
        0 <= total(deltas),
    decreases deltas.len(),
{
    if deltas.len() > 0 {
        lemma_total_nonnegative(deltas.drop_last());
    }
}

/// A timeout task is forwarded exactly once, by the first tick at which the
/// time passed since registration reaches the timeout, and not before.
/// Compare, after any sequence of ticks, the executor in which the task was
/// registered with the one in which it was not. While the ticks have let
/// less than the timeout pass, the two differ only in that the task is still
/// registered, untouched. Once they have let the timeout pass, the two have
/// the same registry, and the ready channel of the first is that of the
/// second with the payload put in once.
pub proof fn law_timeout_fires_exactly_once(s: ExecutorState, d: u64, payload: TaskPayload, deltas: Seq<u64>)
    requires
        s.now + total(deltas) <= u64::MAX,
    ensures
        ({
            let with = s.registered(TaskPolicy::Timeout(d), payload).run(deltas);
            let without = s.run(deltas);
            let t = Task { policy: TaskPolicy::Timeout(d), payload, last: s.now };
            &&& with.now == without.now
            &&& deltas.len() == 0 || total(deltas) < d ==> {
                &&& with.tasks == without.tasks.push(t)
                &&& with.ready == without.ready
            }
            &&& deltas.len() > 0 && total(deltas) >= d ==> {
                &&& with.tasks == without.tasks
                &&& exists|k: int|
                    0 <= k <= without.ready.len() && with.ready == #[trigger] without.ready.insert(k, payload)
            }
        }),
    decreases deltas.len(),
{
    let t = Task { policy: TaskPolicy::Timeout(d), payload, last: s.now };
    if deltas.len() > 0 {
        let earlier = deltas.drop_last();
        let delta = deltas.last();
        law_timeout_fires_exactly_once(s, d, payload, earlier);
        law_run_advances_clock(s, earlier);
        let with = s.registered(TaskPolicy::Timeout(d), payload).run(earlier);
        let without = s.run(earlier);
        let now = without.ticked(delta).now;
        assert(s.run(deltas) == without.ticked(delta));
        if earlier.len() == 0 || total(earlier) < d {
            lemma_scan_push(without.tasks, t, now);
            if total(deltas) >= d {
                let k = without.ticked(delta).ready.len() as int;
                assert(with.ticked(delta).ready =~= without.ticked(delta).ready.insert(k, payload));
            }
        } else {
            let k = choose|k: int|
                0 <= k <= without.ready.len() && with.ready == #[trigger] without.ready.insert(k, payload);
            assert(with.ticked(delta).ready =~= without.ticked(delta).ready.insert(k, payload));
        }
    }
}

/// An interval task fires at every tick at which the time passed since its
/// window began reaches the period, starts a new window at that tick, and
/// stays registered for good. After any sequence of ticks the task still
/// closes the registry, with its policy and payload, and the rest of the
/// registry is what it would be without it. The next tick forwards its
/// payload, after those of the rest, exactly if the period has passed in its
/// window, and then the window begins anew at that tick; otherwise the task
/// is left as it is.
pub proof fn law_interval_fires_every_period(s: ExecutorState, d: u64, job: u64, deltas: Seq<u64>, delta: u64)
    requires
        s.now + total(deltas) + delta <= u64::MAX,
    ensures
        ({
            let with = s.registered(TaskPolicy::Interval(d), TaskPayload::Sync(job)).run(deltas);
            let without = s.run(deltas);
            let t = with.tasks.last();
            let now = with.now + delta;
            &&& with.now == without.now
            &&& with.tasks.len() == without.tasks.len() + 1
            &&& with.tasks.drop_last() == without.tasks
            &&& t.policy == TaskPolicy::Interval(d)
            &&& t.payload == TaskPayload::Sync(job)
            &&& s.now <= t.last <= with.now
            &&& with.ticked(delta).tasks.drop_last() == without.ticked(delta).tasks
            &&& t.elapsed(now as u64) >= d ==> {
                &&& with.due_after(delta) == without.due_after(delta).push(t.payload)
                &&& with.ticked(delta).tasks.last() == (Task { policy: t.policy, payload: t.payload, last: now as u64 })
                &&& with.ticked(delta).tasks.last().elapsed(now as u64) == 0
            }
            &&& t.elapsed(now as u64) < d ==> {
                &&& with.due_after(delta) == without.due_after(delta)
                &&& with.ticked(delta).tasks.last() == t
            }
        }),
{
    let with = s.registered(TaskPolicy::Interval(d), TaskPayload::Sync(job)).run(deltas);
    let without = s.run(deltas);
    lemma_total_nonnegative(deltas);
    lemma_interval_stays_registered(s, d, job, deltas);
    let t = with.tasks.last();
    let now = (with.now + delta) as u64;
    assert(with.tasks.drop_last() =~= without.tasks);
    lemma_scan_push(without.tasks, t, now);
}

/// After any sequence of ticks an interval task closes the registry, in
/// front of it what the registry would hold without it.
proof fn lemma_interval_stays_registered(s: ExecutorState, d: u64, job: u64, deltas: Seq<u64>)
    requires
        s.now + total(deltas) <= u64::MAX,
    ensures
        ({
            let with = s.registered(TaskPolicy::Interval(d), TaskPayload::Sync(job)).run(deltas);
            let without = s.run(deltas);
            &&& with.now == without.now
            &&& with.now == s.now + total(deltas)
            &&& with.tasks.len() == without.tasks.len() + 1
            &&& with.tasks == without.tasks.push(with.tasks.last())
            &&& with.tasks.last().policy == TaskPolicy::Interval(d)
            &&& with.tasks.last().payload == TaskPayload::Sync(job)
            &&& s.now <= with.tasks.last().last <= with.now
        }),
    decreases deltas.len(),
{
    let start = s.registered(TaskPolicy::Interval(d), TaskPayload::Sync(job));
    if deltas.len() > 0 {
        let earlier = deltas.drop_last();
        let delta = deltas.last();
        lemma_total_nonnegative(earlier);
        lemma_interval_stays_registered(s, d, job, earlier);
        let with = start.run(earlier);
        let without = s.run(earlier);
        let t = with.tasks.last();
        let now = with.ticked(delta).now;
        lemma_scan_push(without.tasks, t, now);
    }
}

/// A registry never holds a repeating task with an asynchronous payload, so
/// no tick ever meets one: every step keeps the state well formed.
/// Registering an admitted pair, a tick that the state admits, taking a
/// ready payload and parking a consumer all lead from a well-formed state to
/// a well-formed state.
pub proof fn law_steps_keep_registry_valid(s: ExecutorState, policy: TaskPolicy, payload: TaskPayload, delta: u64)
    requires
        s.wf(),
    ensures
        forall|i: int| 0 <= i < s.tasks.len() && s.tasks[i].policy is Interval ==> s.tasks[i].payload is Sync,
        policy.admits(payload) ==> s.registered(policy, payload).wf(),
        s.admits_tick(delta) ==> s.ticked(delta).wf(),
        s.ready.len() > 0 ==> s.taken().wf(),
        s.parked().wf(),
{
    assert forall|i: int| 0 <= i < s.tasks.len() && s.tasks[i].policy is Interval implies s.tasks[i].payload is Sync by {
        assert(s.tasks[i].valid_at(s.now));
    }
    if s.admits_tick(delta) {
        lemma_remaining_valid(s.tasks, s.now, s.ticked(delta).now);
    }
}

/// A consumer that parked is signalled by the very next tick that forwards
/// something, and by no tick that forwards nothing. Parking twice is
/// parking once: the cell has one place, so one consumer waits.
pub proof fn law_parked_consumer_is_woken_by_next_forwarding(s: ExecutorState, delta: u64)
    ensures
        s.parked().parked() == s.parked(),
        s.parked().tick_report(delta).woke == (s.due_after(delta).len() > 0),
        s.parked().ticked(delta).waiting == (s.due_after(delta).len() == 0),
        s.parked().ticked(delta).ready == s.ticked(delta).ready,
        s.parked().ticked(delta).tasks == s.ticked(delta).tasks,
{
}

} // verus!
