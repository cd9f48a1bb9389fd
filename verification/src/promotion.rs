//! The promotion engine: one scan of the registry per tick, which decides
//! for each task whether it is due, drops the one-shot tasks that fired,
//! starts a new window for the intervals that fired, and forwards the
//! payloads of all that fired to the ready channel.

use vstd::prelude::*;
use crate::channel::{ReadyChannel, TASK_LEN};
use crate::task::{Task, TaskPayload};

verus! {

/// The registry after a tick to `now`: the tasks that stay, in registration
/// order, the due intervals among them with their window restarted.
pub open spec fn remaining(tasks: Seq<Task>, now: u64) -> Seq<Task> {
    tasks.filter(|t: Task| t.stays(now)).map_values(|t: Task| t.carried(now))
}

/// The payloads a tick to `now` forwards: those of the due tasks, in
/// registration order.
pub open spec fn promoted(tasks: Seq<Task>, now: u64) -> Seq<TaskPayload> {
    tasks.filter(|t: Task| t.is_due(now)).map_values(|t: Task| t.payload)
}

/// Every task of the registry is valid when the clock reads `now`.
pub open spec fn all_valid(tasks: Seq<Task>, now: u64) -> bool {
    forall|i: int| 0 <= i < tasks.len() ==> (#[trigger] tasks[i]).valid_at(now)
}

/// The scan of a registry with one more task at its end is the scan of the
/// registry followed by the decision on that task alone.
pub proof fn lemma_scan_push(tasks: Seq<Task>, t: Task, now: u64)
    ensures
        remaining(tasks.push(t), now) == if t.stays(now) {
            remaining(tasks, now).push(t.carried(now))
        } else {
            remaining(tasks, now)
        },
        promoted(tasks.push(t), now) == if t.is_due(now) {
            promoted(tasks, now).push(t.payload)
        } else {
            promoted(tasks, now)
        },
{
    let keep = |t: Task| t.stays(now);
    let carry = |t: Task| t.carried(now);
    let due = |t: Task| t.is_due(now);
    let pay = |t: Task| t.payload;
    tasks.lemma_filter_push(t, keep);
    tasks.lemma_filter_push(t, due);
    if t.stays(now) {
        tasks.filter(keep).lemma_push_map_commute(carry, t);
    }
    if t.is_due(now) {
        tasks.filter(due).lemma_push_map_commute(pay, t);
    }
}

/// The scan of an empty registry keeps nothing and forwards nothing.
pub proof fn lemma_scan_empty(now: u64)
    ensures
        remaining(Seq::<Task>::empty(), now) == Seq::<Task>::empty(),
        promoted(Seq::<Task>::empty(), now) == Seq::<TaskPayload>::empty(),
{
    reveal(Seq::filter);
    assert(Seq::<Task>::empty().filter(|t: Task| t.stays(now)) == Seq::<Task>::empty());
    assert(Seq::<Task>::empty().filter(|t: Task| t.is_due(now)) == Seq::<Task>::empty());
    assert(remaining(Seq::<Task>::empty(), now) =~= Seq::<Task>::empty());
    assert(promoted(Seq::<Task>::empty(), now) =~= Seq::<TaskPayload>::empty());
}

/// Each task is decided on its own: the scan of two registries laid end to
/// end is the scan of the first followed by the scan of the second.
pub proof fn lemma_scan_add(a: Seq<Task>, b: Seq<Task>, now: u64)
    ensures
        remaining(a + b, now) == remaining(a, now) + remaining(b, now),
        promoted(a + b, now) == promoted(a, now) + promoted(b, now),
{
    let keep = |t: Task| t.stays(now);
    let due = |t: Task| t.is_due(now);
    Seq::filter_distributes_over_add(a, b, keep);
    Seq::filter_distributes_over_add(a, b, due);
    assert(remaining(a + b, now) =~= remaining(a, now) + remaining(b, now));
    assert(promoted(a + b, now) =~= promoted(a, now) + promoted(b, now));
}

/// A prefix of the registry forwards no more than the whole registry.
pub proof fn lemma_promoted_prefix(tasks: Seq<Task>, k: int, now: u64)
    requires
        0 <= k <= tasks.len(),
    ensures
        promoted(tasks.take(k), now).len() <= promoted(tasks, now).len(),
        promoted(tasks, now).len() <= tasks.len(),
{
    assert(tasks =~= tasks.take(k) + tasks.skip(k));
    lemma_scan_add(tasks.take(k), tasks.skip(k), now);
    tasks.lemma_filter_len(|t: Task| t.is_due(now));
}

/// A scan keeps the registry valid: what stays began its window no later
/// than `now`, and no policy or payload changes.
pub proof fn lemma_remaining_valid(tasks: Seq<Task>, before: u64, now: u64)
    requires
        before <= now,
        all_valid(tasks, before),
    ensures
        all_valid(remaining(tasks, now), now),
        remaining(tasks, now).len() <= tasks.len(),
    decreases tasks.len(),
{
    if tasks.len() == 0 {
        lemma_scan_empty(now);
        assert(tasks =~= Seq::<Task>::empty());
    } else {
        let head = tasks.drop_last();
        let t = tasks.last();
        assert(tasks =~= head.push(t));
        lemma_remaining_valid(head, before, now);
        lemma_scan_push(head, t, now);
        assert(t.valid_at(before));
    }
}

/// How many tasks a tick to `now` would promote.
pub fn count_due(tasks: &Vec<Task>, now: u64) -> (n: usize)
    ensures
        n == promoted(tasks@, now).len(),
{
    let mut n: usize = 0;
    let mut i: usize = 0;
    proof {
        lemma_scan_empty(now);
        assert(tasks@.take(0) =~= Seq::<Task>::empty());
    }
    while i < tasks.len()
        invariant
            i <= tasks.len(),
            n == promoted(tasks@.take(i as int), now).len(),
            n <= i,
        decreases tasks.len() - i,
    {
        proof {
            tasks@.lemma_take_succ_push(i as int);
            lemma_scan_push(tasks@.take(i as int), tasks@[i as int], now);
        }
        if tasks[i].due(now) {
            n = n + 1;
        }
        i = i + 1;
    }
    proof {
        assert(tasks@.take(tasks.len() as int) =~= tasks@);
    }
    n
}

/// Scans the registry once for a tick to `now`. Tasks are visited in
/// registration order, each exactly once; those that stay are moved down
/// over the gaps that fired one-shot tasks leave, so the registry is
/// compacted in place and keeps its order. Returns how many payloads were
/// forwarded.
pub fn promote(tasks: &mut Vec<Task>, channel: &mut ReadyChannel, now: u64) -> (forwarded: usize)
    requires
        old(channel).wf(),
        old(channel)@.len() + promoted(old(tasks)@, now).len() <= TASK_LEN,
    ensures
        final(tasks)@ == remaining(old(tasks)@, now),
        final(channel)@ == old(channel)@ + promoted(old(tasks)@, now),
        final(channel).wf(),
        forwarded == promoted(old(tasks)@, now).len(),
{
    let ghost orig = tasks@;
    let ghost ready = channel@;
    let n = tasks.len();
    let mut kept: usize = 0;
    let mut forwarded: usize = 0;
    let mut i: usize = 0;
    proof {
        lemma_scan_empty(now);
        assert(orig.take(0) =~= Seq::<Task>::empty());
        assert(tasks@.take(0) =~= Seq::<Task>::empty());
        assert(channel@ =~= ready + promoted(orig.take(0), now));
    }
    while i < n
        invariant
            n == orig.len(),
            tasks.len() == n,
            kept <= i <= n,
            tasks@.take(kept as int) == remaining(orig.take(i as int), now),
            forall|j: int| i <= j < n ==> tasks@[j] == orig[j],
            channel.wf(),
            channel@ == ready + promoted(orig.take(i as int), now),
            forwarded == promoted(orig.take(i as int), now).len(),
            ready.len() + promoted(orig, now).len() <= TASK_LEN,
        decreases n - i,
    {
        let task = tasks[i];
        proof {
            orig.lemma_take_succ_push(i as int);
            lemma_scan_push(orig.take(i as int), task, now);
            lemma_promoted_prefix(orig, i + 1, now);
        }
        let ghost before = tasks@;
        if task.due(now) {
            let pushed = channel.try_push(task.payload);
            assert(pushed is Ok);
            forwarded = forwarded + 1;
            if task.policy.repeats() {
                tasks.set(kept, Task::new(task.policy, task.payload, now));
                kept = kept + 1;
            }
        } else {
            tasks.set(kept, task);
            kept = kept + 1;
        }
        i = i + 1;
        proof {
            if task.stays(now) {
                assert(tasks@.take(kept as int) =~= before.take(kept - 1).push(task.carried(now)));
            } else {
                assert(tasks@ == before);
            }
            assert(channel@ =~= ready + promoted(orig.take(i as int), now));
        }
    }
    tasks.truncate(kept);
    proof {
        assert(orig.take(n as int) =~= orig);
    }
    forwarded
}

} // verus!
