//! The scheduler engine: a min-priority list of pending tasks and a
//! tombstone set for cancellation, driven one step at a time.
//!
//! The engine itself is synchronous and owns no clock: the runtime around it
//! reads the time, races "new command" against "next deadline", and hands the
//! engine the current tick with each step. One loop iteration of that runtime
//! is: [`Scheduler::next_wait_target`] to learn how long to wait, then either
//! [`Scheduler::handle_command`] when a command arrives, or repeated
//! [`Scheduler::pop_due`] / [`ScheduledTask::execute`] /
//! [`Scheduler::reinsert`] rounds when the deadline is reached.

use std::collections::HashSet;

use vstd::prelude::*;

use crate::command::{Command, ScheduleId, ScheduleSpec};
use crate::scheduled_task::{fires_before, ScheduledTask};

verus! {

broadcast use vstd::std_specs::hash::group_hash_axioms;

/// The engine state: the id counter, the pending tasks held in ascending
/// `(deadline, id)` order, and the ids marked for removal but not yet purged.
pub struct Scheduler {
    next_id: ScheduleId,
    tasks: Vec<ScheduledTask>,
    deleting: HashSet<ScheduleId>,
}

/// `s` is sorted strictly by ascending `(deadline, id)`.
pub open spec fn sorted(s: Seq<ScheduledTask>) -> bool {
    forall|i: int, j: int|
        0 <= i < j < s.len() ==> fires_before(#[trigger] s[i], #[trigger] s[j])
}

/// No two entries of `s` share an id.
pub open spec fn distinct_ids(s: Seq<ScheduledTask>) -> bool {
    forall|i: int, j: int|
        0 <= i < j < s.len() ==> (#[trigger] s[i]).task_id != (#[trigger] s[j]).task_id
}


impl Scheduler {
    /// The id the next `Add` will be assigned.
    pub closed spec fn spec_next_id(self) -> ScheduleId {
        self.next_id
    }

    /// The pending tasks, in the order the engine will pop them.
    pub closed spec fn pending(self) -> Seq<ScheduledTask> {
        self.tasks@
    }

    /// The ids marked for removal but not yet purged from the heap.
    pub closed spec fn tombstones(self) -> Set<ScheduleId> {
        self.deleting@
    }

    /// `id` is marked for removal.
    pub open spec fn cancelled(self, id: ScheduleId) -> bool {
        self.tombstones().contains(id)
    }

    /// The engine's invariant: tasks sorted strictly by `(deadline, id)`,
    /// ids unique and all below the counter.
    pub open spec fn wf(self) -> bool {
        &&& sorted(self.pending())
        &&& distinct_ids(self.pending())
        &&& forall|i: int|
            0 <= i < self.pending().len() ==> (#[trigger] self.pending()[i]).task_id
                < self.spec_next_id()
    }

    /// A fresh engine: no pending work, no tombstones, ids start at 1.
    pub fn new() -> (s: Self)
        ensures
            s.wf(),
            s.spec_next_id() == 1,
            s.pending() =~= Seq::<ScheduledTask>::empty(),
            s.tombstones() =~= Set::<ScheduleId>::empty(),
    {
        Scheduler { next_id: 1, tasks: Vec::new(), deleting: HashSet::new() }
    }

    /// The id the next `Add` will be assigned.
    pub fn peek_next_id(&self) -> (r: ScheduleId)
        ensures
            r == self.spec_next_id(),
    {
        self.next_id
    }

    /// How many tasks are pending (cancelled-but-unpurged entries included).
    pub fn pending_count(&self) -> (r: usize)
        ensures
            r == self.pending().len(),
    {
        self.tasks.len()
    }

    /// Whether a pending entry carries `id`.
    pub fn holds_task(&self, id: ScheduleId) -> (r: bool)
        ensures
            r == exists|i: int|
                0 <= i < self.pending().len() && (#[trigger] self.pending()[i]).task_id == id,
    {
        let mut i: usize = 0;
        while i < self.tasks.len()
            invariant
                i <= self.tasks@.len(),
                forall|j: int| 0 <= j < i ==> (#[trigger] self.tasks@[j]).task_id != id,
            decreases self.tasks@.len() - i,
        {
            if self.tasks[i].task_id == id {
                return true;
            }
            i += 1;
        }
        false
    }
}

/// What processing one `Add` does: the assigned id is the old counter value,
/// the counter advances by one, the new task (deadline computed from `now`)
/// joins the pending list at its ordered place, and the tombstones are
/// untouched.
pub open spec fn add_step(
    pre: Scheduler,
    post: Scheduler,
    spec: ScheduleSpec,
    now: u64,
    id: ScheduleId,
) -> bool {
    &&& id == pre.spec_next_id()
    &&& post.spec_next_id() == pre.spec_next_id() + 1
    &&& exists|k: int|
        0 <= k <= pre.pending().len() && post.pending() =~= #[trigger] pre.pending().insert(
            k,
            (ScheduledTask { task_id: id, when: spec.spec_when(now) as u64, spec }),
        )
    &&& post.tombstones() == pre.tombstones()
}

/// What processing one `Remove` does: the pending list and the counter are
/// untouched; `id` is now marked for removal.
pub open spec fn remove_step(pre: Scheduler, post: Scheduler, id: ScheduleId) -> bool {
    &&& post.spec_next_id() == pre.spec_next_id()
    &&& post.pending() == pre.pending()
    &&& forall|x: ScheduleId| post.cancelled(x) <==> (pre.cancelled(x) || x == id)
}

impl Scheduler {
    /// Process an `Add` request at tick `now`: assign the next id, place the
    /// task, advance the counter, and report the id for the reply.
    pub fn add(&mut self, spec: ScheduleSpec, now: u64) -> (id: ScheduleId)
        requires
            old(self).wf(),
            old(self).spec_next_id() < u64::MAX,
            spec.spec_when(now) <= u64::MAX,
        ensures
            final(self).wf(),
            add_step(*old(self), *final(self), spec, now, id),
            final(self).pending().len() == old(self).pending().len() + 1,
    {
        let id = self.next_id;
        let task = ScheduledTask::new(id, spec, now);
        self.next_id = self.next_id + 1;
        let ghost pre_tasks = self.tasks@;
        let k = insert_sorted(&mut self.tasks, task);
        proof {
            assert(self.pending() =~= pre_tasks.insert(k as int, task));
        }
        id
    }

    /// Process a `Remove` request: mark `id` for removal. Removing an id that
    /// was never issued, or whose task already fired, changes nothing the
    /// engine will ever act on.
    pub fn remove(&mut self, id: ScheduleId)
        requires
            old(self).wf(),
        ensures
            final(self).wf(),
            remove_step(*old(self), *final(self), id),
    {
        let _ = self.deleting.insert(id);
        proof {
            assert(self.deleting@ == old(self).deleting@.insert(id));
        }
    }

    /// Process one command at tick `now`: an `Add` yields the assigned id to
    /// reply with, a `Remove` yields nothing.
    pub fn handle_command(&mut self, cmd: Command, now: u64) -> (r: Option<ScheduleId>)
        requires
            old(self).wf(),
            cmd matches Command::Add(spec) ==> old(self).spec_next_id() < u64::MAX
                && spec.spec_when(now) <= u64::MAX,
        ensures
            final(self).wf(),
            match cmd {
                Command::Add(spec) => r matches Some(id) && add_step(
                    *old(self),
                    *final(self),
                    spec,
                    now,
                    id,
                ),
                Command::Remove(id) => r is None && remove_step(*old(self), *final(self), id),
            },
    {
        match cmd {
            Command::Add(spec) => Some(self.add(spec, now)),
            Command::Remove(id) => {
                self.remove(id);
                None
            },
        }
    }

    /// Register a one-shot at the absolute deadline. Mirrors dispatching
    /// `Command::Add(ScheduleSpec::OnceAt { deadline })`.
    pub fn once_at(&mut self, deadline: u64) -> (id: ScheduleId)
        requires
            old(self).wf(),
            old(self).spec_next_id() < u64::MAX,
        ensures
            final(self).wf(),
            add_step(
                *old(self),
                *final(self),
                (ScheduleSpec::OnceAt { deadline }),
                0,
                id,
            ),
    {
        self.add(ScheduleSpec::once_at(deadline), 0)
    }

    /// Register a one-shot `duration` ticks past `now`.
    pub fn once_after(&mut self, now: u64, duration: u64) -> (id: ScheduleId)
        requires
            old(self).wf(),
            old(self).spec_next_id() < u64::MAX,
            now + duration <= u64::MAX,
        ensures
            final(self).wf(),
            add_step(
                *old(self),
                *final(self),
                (ScheduleSpec::OnceAt { deadline: (now + duration) as u64 }),
                0,
                id,
            ),
    {
        self.add(ScheduleSpec::once_after(now, duration), 0)
    }

    /// Register a repeating task; its first firing is one interval past `now`.
    pub fn repeat(&mut self, now: u64, interval: u64) -> (id: ScheduleId)
        requires
            old(self).wf(),
            old(self).spec_next_id() < u64::MAX,
            now + interval <= u64::MAX,
        ensures
            final(self).wf(),
            add_step(
                *old(self),
                *final(self),
                (ScheduleSpec::Repeat { interval }),
                now,
                id,
            ),
    {
        self.add(ScheduleSpec::repeat(interval), now)
    }
}

/// Place `t` at its ordered position in the sorted task list.
fn insert_sorted(tasks: &mut Vec<ScheduledTask>, t: ScheduledTask) -> (k: usize)
    requires
        sorted(old(tasks)@),
        distinct_ids(old(tasks)@),
        forall|i: int|
            0 <= i < old(tasks)@.len() ==> (#[trigger] old(tasks)@[i]).task_id != t.task_id,
    ensures
        k <= old(tasks)@.len(),
        final(tasks)@ == old(tasks)@.insert(k as int, t),
        sorted(final(tasks)@),
        distinct_ids(final(tasks)@),
{
    let mut k: usize = 0;
    while k < tasks.len() && (tasks[k].when < t.when || (tasks[k].when == t.when
        && tasks[k].task_id < t.task_id))
        invariant
            k <= tasks@.len(),
            tasks@ == old(tasks)@,
            forall|i: int| 0 <= i < k ==> fires_before(#[trigger] tasks@[i], t),
        decreases tasks@.len() - k,
    {
        k += 1;
    }
    proof {
        assert forall|i: int| k <= i < tasks@.len() implies fires_before(
            t,
            #[trigger] tasks@[i],
        ) by {
            assert(!fires_before(tasks@[k as int], t));
            assert(tasks@[k as int].task_id != t.task_id);
            if i > k {
                assert(fires_before(tasks@[k as int], tasks@[i]));
            }
        }
    }
    tasks.insert(k, t);
    proof {
        let s = old(tasks)@;
        let ns = s.insert(k as int, t);
        assert forall|i: int, j: int| 0 <= i < j < ns.len() implies fires_before(
            #[trigger] ns[i],
            #[trigger] ns[j],
        ) by {
            lemma_insert_index(s, t, k as int, i);
            lemma_insert_index(s, t, k as int, j);
        }
        assert forall|i: int, j: int| 0 <= i < j < ns.len() implies (#[trigger] ns[i]).task_id
            != (#[trigger] ns[j]).task_id by {
            lemma_insert_index(s, t, k as int, i);
            lemma_insert_index(s, t, k as int, j);
        }
    }
    k
}

/// After `s.insert(k, t)`, position `i` holds `s[i]` below `k`, `t` at `k`,
/// and `s[i - 1]` above it.
proof fn lemma_insert_index(s: Seq<ScheduledTask>, t: ScheduledTask, k: int, i: int)
    requires
        0 <= k <= s.len(),
        0 <= i < s.len() + 1,
    ensures
        i < k ==> s.insert(k, t)[i] == s[i],
        i == k ==> s.insert(k, t)[i] == t,
        i > k ==> s.insert(k, t)[i] == s[i - 1],
{
}

/// What discarding the first `k` pending entries as tombstoned does: they are
/// gone from the pending list, each was marked for removal, their marks are
/// consumed, and the counter is untouched.
pub open spec fn purged_prefix(pre: Scheduler, post: Scheduler, k: int) -> bool {
    &&& 0 <= k <= pre.pending().len()
    &&& post.pending() =~= pre.pending().skip(k)
    &&& forall|i: int| 0 <= i < k ==> pre.cancelled((#[trigger] pre.pending()[i]).task_id)
    &&& forall|x: ScheduleId|
        #[trigger] post.cancelled(x) <==> (pre.cancelled(x) && !(exists|i: int|
            0 <= i < k && (#[trigger] pre.pending()[i]).task_id == x))
    &&& post.spec_next_id() == pre.spec_next_id()
}

/// What popping one due task does, with `k` tombstoned entries discarded
/// first: the popped task stood at position `k`, was due and not cancelled,
/// and everything still pending runs after it.
pub open spec fn pop_step_at(
    pre: Scheduler,
    post: Scheduler,
    t: ScheduledTask,
    k: int,
) -> bool {
    &&& 0 <= k < pre.pending().len()
    &&& pre.pending()[k] == t
    &&& post.pending() =~= pre.pending().skip(k + 1)
    &&& forall|i: int| 0 <= i < k ==> pre.cancelled((#[trigger] pre.pending()[i]).task_id)
    &&& forall|x: ScheduleId|
        #[trigger] post.cancelled(x) <==> (pre.cancelled(x) && !(exists|i: int|
            0 <= i < k && (#[trigger] pre.pending()[i]).task_id == x))
    &&& post.spec_next_id() == pre.spec_next_id()
}

/// What one successful [`Scheduler::pop_due`] does.
pub open spec fn pop_step(pre: Scheduler, post: Scheduler, t: ScheduledTask, now: u64) -> bool {
    &&& t.when <= now
    &&& !pre.cancelled(t.task_id)
    &&& exists|k: int| pop_step_at(pre, post, t, k)
    &&& forall|i: int|
        0 <= i < post.pending().len() ==> fires_before(t, #[trigger] post.pending()[i])
}

/// What re-inserting a repeat successor does: it joins the pending list at
/// its ordered place; counter and tombstones are untouched.
pub open spec fn reinsert_step(pre: Scheduler, post: Scheduler, t: ScheduledTask) -> bool {
    &&& post.spec_next_id() == pre.spec_next_id()
    &&& post.tombstones() == pre.tombstones()
    &&& exists|k: int|
        0 <= k <= pre.pending().len() && post.pending() =~= #[trigger] pre.pending().insert(k, t)
}

impl Scheduler {
    /// Discard tombstoned entries from the front of the pending list, then
    /// report the deadline the runtime should wait for: `None` when nothing
    /// is pending (the runtime substitutes a long fallback wait), otherwise
    /// the earliest surviving deadline.
    pub fn next_wait_target(&mut self) -> (r: Option<u64>)
        requires
            old(self).wf(),
        ensures
            final(self).wf(),
            exists|k: int| purged_prefix(*old(self), *final(self), k),
            match r {
                None => final(self).pending().len() == 0,
                Some(w) => {
                    &&& final(self).pending().len() > 0
                    &&& w == final(self).pending()[0].when
                    &&& !final(self).cancelled(final(self).pending()[0].task_id)
                },
            },
    {
        let ghost mut k: int = 0;
        loop
            invariant
                old(self).wf(),
                self.wf(),
                purged_prefix(*old(self), *self, k),
            decreases self.tasks@.len(),
        {
            if self.tasks.len() == 0 {
                return None;
            }
            let id = self.tasks[0].task_id;
            if self.deleting.contains(&id) {
                let ghost mid = *self;
                let _dropped = self.tasks.remove(0);
                let _ = self.deleting.remove(&id);
                proof {
                    assert(self.deleting@ == mid.deleting@.remove(id));
                    lemma_purge_one(*old(self), mid, *self, k, id);
                    k = k + 1;
                }
            } else {
                return Some(self.tasks[0].when);
            }
        }
    }

    /// Discard tombstoned entries from the front, then pop the earliest
    /// surviving task if its deadline has been reached. The runtime calls
    /// this repeatedly on a timer wake-up, so a burst of simultaneous
    /// deadlines is fully drained; `None` says nothing (more) is due.
    pub fn pop_due(&mut self, now: u64) -> (r: Option<ScheduledTask>)
        requires
            old(self).wf(),
        ensures
            final(self).wf(),
            match r {
                None => (exists|k: int| purged_prefix(*old(self), *final(self), k)) && (forall|
                    i: int,
                |
                    0 <= i < final(self).pending().len()
                        ==> (#[trigger] final(self).pending()[i]).when > now),
                Some(t) => pop_step(*old(self), *final(self), t, now),
            },
    {
        let ghost mut k: int = 0;
        loop
            invariant
                old(self).wf(),
                self.wf(),
                purged_prefix(*old(self), *self, k),
            decreases self.tasks@.len(),
        {
            if self.tasks.len() == 0 {
                return None;
            }
            let id = self.tasks[0].task_id;
            if self.deleting.contains(&id) {
                let ghost mid = *self;
                let _dropped = self.tasks.remove(0);
                let _ = self.deleting.remove(&id);
                proof {
                    assert(self.deleting@ == mid.deleting@.remove(id));
                    lemma_purge_one(*old(self), mid, *self, k, id);
                    k = k + 1;
                }
            } else if self.tasks[0].when <= now {
                let ghost mid = *self;
                let t = self.tasks.remove(0);
                proof {
                    assert(self.pending() =~= mid.pending().skip(1));
                    assert(self.pending() =~= old(self).pending().skip(k + 1));
                    assert(old(self).pending()[k] == t);
                    // t was not cancelled at entry: its id is not among the
                    // purged prefix (ids are distinct), so a surviving mark
                    // would still be a mark now.
                    assert(!mid.cancelled(t.task_id));
                    assert(!old(self).cancelled(t.task_id)) by {
                        if old(self).cancelled(t.task_id) {
                            let i = choose|i: int|
                                0 <= i < k && (#[trigger] old(self).pending()[i]).task_id
                                    == t.task_id;
                            assert(old(self).pending()[i].task_id != old(
                                self,
                            ).pending()[k].task_id);
                        }
                    }
                    assert forall|x: ScheduleId| #[trigger] self.cancelled(x) <==> (old(
                        self,
                    ).cancelled(x) && !(exists|i: int|
                        0 <= i < k && (#[trigger] old(self).pending()[i]).task_id == x)) by {
                        assert(self.cancelled(x) <==> mid.cancelled(x));
                    }
                    assert(pop_step_at(*old(self), *self, t, k));
                    assert forall|i: int| 0 <= i < self.pending().len() implies fires_before(
                        t,
                        #[trigger] self.pending()[i],
                    ) by {
                        assert(self.pending()[i] == old(self).pending()[k + 1 + i]);
                        assert(fires_before(
                            old(self).pending()[k],
                            old(self).pending()[k + 1 + i],
                        ));
                    }
                }
                return Some(t);
            } else {
                proof {
                    assert forall|i: int| 0 <= i < self.pending().len() implies (#[trigger] self
                        .pending()[i]).when > now by {
                        if i > 0 {
                            assert(fires_before(self.pending()[0], self.pending()[i]));
                        }
                    }
                }
                return None;
            }
        }
    }

    /// Put the successor of an executed repeat task back into the pending
    /// list. The caller hands back a task the engine issued (its id is below
    /// the counter) that is no longer pending.
    pub fn reinsert(&mut self, t: ScheduledTask)
        requires
            old(self).wf(),
            t.task_id < old(self).spec_next_id(),
            forall|i: int|
                0 <= i < old(self).pending().len() ==> (#[trigger] old(self).pending()[i]).task_id
                    != t.task_id,
        ensures
            final(self).wf(),
            reinsert_step(*old(self), *final(self), t),
    {
        let ghost pre = self.tasks@;
        let k = insert_sorted(&mut self.tasks, t);
        proof {
            assert(self.pending() =~= pre.insert(k as int, t));
        }
    }
}

/// One purge round composes: dropping the tombstoned front entry of `mid`
/// (already `k` entries past `pre`) lands `k + 1` entries past `pre`.
proof fn lemma_purge_one(pre: Scheduler, mid: Scheduler, post: Scheduler, k: int, id: ScheduleId)
    requires
        pre.wf(),
        purged_prefix(pre, mid, k),
        mid.pending().len() > 0,
        id == mid.pending()[0].task_id,
        mid.cancelled(id),
        post.pending() == mid.pending().remove(0),
        forall|x: ScheduleId| #[trigger] post.cancelled(x) <==> (mid.cancelled(x) && x != id),
        post.spec_next_id() == mid.spec_next_id(),
    ensures
        purged_prefix(pre, post, k + 1),
{
    assert(mid.pending()[0] == pre.pending()[k]);
    assert(post.pending() =~= pre.pending().skip(k + 1)) by {
        assert forall|i: int| 0 <= i < post.pending().len() implies post.pending()[i]
            == pre.pending()[k + 1 + i] by {
            assert(post.pending()[i] == mid.pending()[i + 1]);
        }
    }
    assert(pre.cancelled(id));
    assert forall|x: ScheduleId| #[trigger] post.cancelled(x) <==> (pre.cancelled(x) && !(
    exists|i: int| 0 <= i < k + 1 && (#[trigger] pre.pending()[i]).task_id == x)) by {
        if post.cancelled(x) {
            assert(mid.cancelled(x) && x != id);
            assert(pre.cancelled(x));
            assert forall|i: int| 0 <= i < k + 1 implies (#[trigger] pre.pending()[i]).task_id
                != x by {
                if i == k {
                    assert(pre.pending()[k].task_id == id);
                }
            }
        }
        if pre.cancelled(x) && !(exists|i: int|
            0 <= i < k + 1 && (#[trigger] pre.pending()[i]).task_id == x) {
            assert(pre.pending()[k].task_id == id);
            assert(x != id);
            assert(!(exists|i: int| 0 <= i < k && (#[trigger] pre.pending()[i]).task_id == x));
            assert(mid.cancelled(x));
        }
    }
}

} // verus!
