//! The guarantees the engine gives across steps, stated and proved once
//! against the step relations of [`crate::scheduler`].

use vstd::prelude::*;

use crate::command::{ScheduleId, ScheduleSpec};
use crate::scheduled_task::{fires_before, successor, ScheduledTask};
use crate::scheduler::{
    add_step, pop_step, pop_step_at, purged_prefix, reinsert_step, remove_step, Scheduler,
};

verus! {

/// Any one step the engine takes: processing a command, purging tombstoned
/// entries, popping a due task, or re-inserting a repeat successor.
pub open spec fn engine_step(pre: Scheduler, post: Scheduler) -> bool {
    ||| (exists|spec: ScheduleSpec, now: u64, id: ScheduleId| add_step(pre, post, spec, now, id))
    ||| (exists|id: ScheduleId| remove_step(pre, post, id))
    ||| (exists|k: int| purged_prefix(pre, post, k))
    ||| (exists|t: ScheduledTask, now: u64| pop_step(pre, post, t, now))
    ||| (exists|t: ScheduledTask| reinsert_step(pre, post, t))
}

/// A run of the engine: consecutive states are related by one step each.
pub open spec fn engine_run(trace: Seq<Scheduler>) -> bool {
    forall|n: int| 0 <= n < trace.len() - 1 ==> engine_step(#[trigger] trace[n], trace[n + 1])
}

/// No engine step lowers the id counter.
pub proof fn lemma_counter_never_decreases(pre: Scheduler, post: Scheduler)
    requires
        engine_step(pre, post),
    ensures
        pre.spec_next_id() <= post.spec_next_id(),
{
}

/// Over any run of the engine the id counter never decreases.
pub proof fn lemma_counter_monotone_over_run(trace: Seq<Scheduler>, i: int, j: int)
    requires
        engine_run(trace),
        0 <= i <= j < trace.len(),
    ensures
        trace[i].spec_next_id() <= trace[j].spec_next_id(),
    decreases j - i,
{
    if i < j {
        lemma_counter_monotone_over_run(trace, i, j - 1);
        lemma_counter_never_decreases(trace[j - 1], trace[j]);
    }
}

/// Over any run of the engine, of any two `Add` requests the later one is
/// assigned the strictly larger id: assigned ids strictly increase and are
/// never repeated, whatever other steps come between.
pub proof fn lemma_run_ids_strictly_increasing(
    trace: Seq<Scheduler>,
    i: int,
    j: int,
    spec1: ScheduleSpec,
    now1: u64,
    id1: ScheduleId,
    spec2: ScheduleSpec,
    now2: u64,
    id2: ScheduleId,
)
    requires
        engine_run(trace),
        0 <= i < j < trace.len() - 1,
        add_step(trace[i], trace[i + 1], spec1, now1, id1),
        add_step(trace[j], trace[j + 1], spec2, now2, id2),
    ensures
        id1 < id2,
{
    lemma_counter_monotone_over_run(trace, i + 1, j);
}

/// Assigned ids strictly increase and are never repeated: of two `Add`
/// requests processed one after the other — with any engine steps between,
/// none of which lowers the counter — the later one is assigned the strictly
/// larger id.
pub proof fn lemma_ids_strictly_increasing(
    pre1: Scheduler,
    post1: Scheduler,
    spec1: ScheduleSpec,
    now1: u64,
    id1: ScheduleId,
    pre2: Scheduler,
    post2: Scheduler,
    spec2: ScheduleSpec,
    now2: u64,
    id2: ScheduleId,
)
    requires
        add_step(pre1, post1, spec1, now1, id1),
        post1.spec_next_id() <= pre2.spec_next_id(),
        add_step(pre2, post2, spec2, now2, id2),
    ensures
        id1 < id2,
{
}

/// A freshly assigned id is carried by no task that was already pending:
/// ids are never reassigned to live work.
pub proof fn lemma_assigned_id_fresh(
    pre: Scheduler,
    post: Scheduler,
    spec: ScheduleSpec,
    now: u64,
    id: ScheduleId,
)
    requires
        pre.wf(),
        add_step(pre, post, spec, now, id),
    ensures
        forall|i: int|
            0 <= i < pre.pending().len() ==> (#[trigger] pre.pending()[i]).task_id != id,
{
}

/// Tasks execute in ascending deadline order, ties broken by ascending id
/// (registration) order: of two consecutively popped tasks, the second one
/// fires no earlier, and on an equal deadline carries the larger id.
pub proof fn lemma_pops_in_order(
    s0: Scheduler,
    s1: Scheduler,
    s2: Scheduler,
    t1: ScheduledTask,
    t2: ScheduledTask,
    now1: u64,
    now2: u64,
)
    requires
        pop_step(s0, s1, t1, now1),
        pop_step(s1, s2, t2, now2),
    ensures
        t1.when <= t2.when,
        t1.when == t2.when ==> t1.task_id < t2.task_id,
{
    let k = choose|k: int| pop_step_at(s1, s2, t2, k);
    assert(s1.pending()[k] == t2);
    assert(fires_before(t1, s1.pending()[k]));
}

/// A task cancelled before a drain pass never executes in it: whatever a pop
/// yields, it is not the task whose id was already marked for removal.
pub proof fn lemma_cancelled_never_pops(
    pre: Scheduler,
    post: Scheduler,
    t: ScheduledTask,
    now: u64,
    id: ScheduleId,
)
    requires
        pop_step(pre, post, t, now),
        pre.cancelled(id),
    ensures
        t.task_id != id,
{
}

/// A drain pass, taken as its sequence of pops: every consecutive pair of
/// states is one pop at the pass's tick.
pub open spec fn drain_pass(states: Seq<Scheduler>, pops: Seq<ScheduledTask>, now: u64) -> bool {
    &&& states.len() == pops.len() + 1
    &&& forall|n: int|
        0 <= n < pops.len() ==> pop_step(#[trigger] states[n], states[n + 1], pops[n], now)
}

/// Through the whole pass, a mark set before it began either survives or was
/// consumed discarding the id's own entry — in which case nothing pending
/// carries the id any more. Ids stay distinct throughout.
proof fn lemma_drain_invariant(
    states: Seq<Scheduler>,
    pops: Seq<ScheduledTask>,
    now: u64,
    id: ScheduleId,
    m: int,
)
    requires
        drain_pass(states, pops, now),
        crate::scheduler::distinct_ids(states[0].pending()),
        states[0].cancelled(id),
        0 <= m < states.len(),
    ensures
        crate::scheduler::distinct_ids(states[m].pending()),
        states[m].cancelled(id) || (forall|i: int|
            0 <= i < states[m].pending().len() ==> (#[trigger] states[m].pending()[i]).task_id
                != id),
    decreases m,
{
    if m > 0 {
        lemma_drain_invariant(states, pops, now, id, m - 1);
        let pre = states[m - 1];
        let post = states[m];
        let t = pops[m - 1];
        assert(pop_step(pre, post, t, now));
        let k = choose|k: int| pop_step_at(pre, post, t, k);
        assert forall|i: int, j: int|
            0 <= i < j < post.pending().len() implies (#[trigger] post.pending()[i]).task_id != (
        #[trigger] post.pending()[j]).task_id by {
            assert(post.pending()[i] == pre.pending()[k + 1 + i]);
            assert(post.pending()[j] == pre.pending()[k + 1 + j]);
        }
        if pre.cancelled(id) {
            if !post.cancelled(id) {
                // the mark was consumed discarding the id's entry at some
                // position below k; distinct ids leave no other entry with it
                let w = choose|w: int|
                    0 <= w < k && (#[trigger] pre.pending()[w]).task_id == id;
                assert forall|i: int|
                    0 <= i < post.pending().len() implies (#[trigger] post.pending()[i]).task_id
                    != id by {
                    assert(post.pending()[i] == pre.pending()[k + 1 + i]);
                    assert(pre.pending()[w].task_id != pre.pending()[k + 1 + i].task_id);
                }
            }
        } else {
            // nothing pending carried the id before the pop, so nothing does
            // after it either
            assert forall|i: int|
                0 <= i < post.pending().len() implies (#[trigger] post.pending()[i]).task_id
                != id by {
                assert(post.pending()[i] == pre.pending()[k + 1 + i]);
            }
        }
    }
}

/// A task cancelled strictly before the drain pass that would have executed
/// it never runs: no pop of the pass yields its id, however many other pops
/// come first.
pub proof fn lemma_cancelled_never_runs_in_drain(
    states: Seq<Scheduler>,
    pops: Seq<ScheduledTask>,
    now: u64,
    id: ScheduleId,
    n: int,
)
    requires
        drain_pass(states, pops, now),
        states.len() > 0,
        states[0].wf(),
        states[0].cancelled(id),
        0 <= n < pops.len(),
    ensures
        pops[n].task_id != id,
{
    lemma_drain_invariant(states, pops, now, id, n);
    let pre = states[n];
    let post = states[n + 1];
    let t = pops[n];
    assert(pop_step(pre, post, t, now));
    if pre.cancelled(id) {
        // a pop never yields a marked id
    } else {
        // the id's entry is gone: the popped task stood in the pending list
        let k = choose|k: int| pop_step_at(pre, post, t, k);
        assert(pre.pending()[k] == t);
    }
}

/// At any time at most one pending firing exists per id: a well-formed
/// engine never holds two entries with the same id, so a repeat task's
/// firings are strictly sequential.
pub proof fn lemma_one_pending_firing_per_id(s: Scheduler, i: int, j: int)
    requires
        s.wf(),
        0 <= i < j < s.pending().len(),
    ensures
        s.pending()[i].task_id != s.pending()[j].task_id,
{
}

/// A repeat task, left unremoved, always fires again: executing it yields a
/// successor with the same id and spec whose deadline is exactly one interval
/// past the completion instant — so each successive deadline is at least the
/// previous firing's completion plus the interval.
pub proof fn lemma_repeat_fires_again(t: ScheduledTask, completion: u64, interval: u64)
    requires
        t.spec == (ScheduleSpec::Repeat { interval }),
        completion + interval <= u64::MAX,
    ensures
        successor(t, completion) matches Some(t2) && t2.task_id == t.task_id && t2.spec == t.spec
            && t2.when == completion + interval,
{
}

} // verus!
