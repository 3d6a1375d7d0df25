//! A heap entry of the engine: an assigned id, a cached absolute deadline,
//! and the schedule specification, with the total order the engine pops in.

use vstd::prelude::*;

use crate::command::{ScheduleId, ScheduleSpec};

verus! {

/// One pending piece of work. Total ordering: primarily by ascending
/// deadline, ties broken by ascending id (first registered runs first).
#[derive(Clone, Copy, Debug)]
pub struct ScheduledTask {
    pub task_id: ScheduleId,
    pub when: u64,
    pub spec: ScheduleSpec,
}

/// Strict priority order between two tasks: `a` runs before `b` when its
/// deadline is earlier, or on an equal deadline when its id is smaller.
pub open spec fn fires_before(a: ScheduledTask, b: ScheduledTask) -> bool {
    a.when < b.when || (a.when == b.when && a.task_id < b.task_id)
}

/// The task that replaces `self` once it has run to completion at tick
/// `completion`: nothing for a one-shot, and for a repeat a copy whose
/// deadline is one interval past the completion instant (drift-permitting:
/// the new period starts when the callback finished, not when it was due).
pub open spec fn successor(t: ScheduledTask, completion: u64) -> Option<ScheduledTask> {
    match t.spec {
        ScheduleSpec::OnceAt { deadline: _ } => None,
        ScheduleSpec::Repeat { interval } => Some(
            ScheduledTask {
                task_id: t.task_id,
                when: (completion + interval) as u64,
                spec: t.spec,
            },
        ),
    }
}

impl ScheduledTask {
    /// Wrap a specification with its assigned id, caching the absolute
    /// deadline as seen from `now`.
    pub fn new(task_id: ScheduleId, spec: ScheduleSpec, now: u64) -> (t: Self)
        requires
            spec.spec_when(now) <= u64::MAX,
        ensures
            t == (ScheduledTask { task_id, when: spec.spec_when(now) as u64, spec }),
    {
        let when = spec.when(now);
        ScheduledTask { task_id, when, spec }
    }

    pub fn task_id(&self) -> (r: ScheduleId)
        ensures
            r == self.task_id,
    {
        self.task_id
    }

    pub fn when(&self) -> (r: u64)
        ensures
            r == self.when,
    {
        self.when
    }

    /// Consume the task after its callback ran, finishing at tick
    /// `completion`: a one-shot ends; a repeat yields the fresh task the
    /// caller must re-insert into the heap.
    pub fn execute(self, completion: u64) -> (r: Option<ScheduledTask>)
        requires
            self.spec matches ScheduleSpec::Repeat { interval } ==> completion + interval
                <= u64::MAX,
        ensures
            r == successor(self, completion),
    {
        match self.spec {
            ScheduleSpec::OnceAt { deadline: _ } => None,
            ScheduleSpec::Repeat { interval } => Some(
                ScheduledTask {
                    task_id: self.task_id,
                    when: completion + interval,
                    spec: self.spec,
                },
            ),
        }
    }
}

} // verus!
