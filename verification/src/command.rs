//! The requests the scheduler engine understands, and the schedule
//! specification they carry.

use vstd::prelude::*;

verus! {

/// Handle identifying one registered task. Assigned exclusively by the
/// engine, strictly increasing, never reused.
pub type ScheduleId = u64;

/// Immutable description of what to run and when. Times are `u64` ticks on
/// the engine's clock. The callback itself is owned by the runtime around the
/// engine, keyed by the task's `ScheduleId`.
#[derive(Clone, Copy, Debug, PartialEq, Eq, Structural)]
pub enum ScheduleSpec {
    /// Fires exactly once, at the stored absolute deadline.
    OnceAt { deadline: u64 },
    /// Fires repeatedly; the first firing is one interval after registration.
    Repeat { interval: u64 },
}

impl ScheduleSpec {
    /// The tick at which the specification should next fire, seen from `now`:
    /// the stored deadline for a one-shot, `now + interval` for a repeat.
    pub open spec fn spec_when(self, now: u64) -> int {
        match self {
            ScheduleSpec::OnceAt { deadline } => deadline as int,
            ScheduleSpec::Repeat { interval } => now + interval,
        }
    }

    pub fn once_at(deadline: u64) -> (s: Self)
        ensures
            s == (ScheduleSpec::OnceAt { deadline }),
    {
        ScheduleSpec::OnceAt { deadline }
    }

    /// A one-shot whose deadline is `now + duration`.
    pub fn once_after(now: u64, duration: u64) -> (s: Self)
        requires
            now + duration <= u64::MAX,
        ensures
            s == (ScheduleSpec::OnceAt { deadline: (now + duration) as u64 }),
    {
        ScheduleSpec::OnceAt { deadline: now + duration }
    }

    pub fn repeat(interval: u64) -> (s: Self)
        ensures
            s == (ScheduleSpec::Repeat { interval }),
    {
        ScheduleSpec::Repeat { interval }
    }

    /// The next firing tick, seen from `now`.
    pub fn when(&self, now: u64) -> (r: u64)
        requires
            self.spec_when(now) <= u64::MAX,
        ensures
            r == self.spec_when(now),
    {
        match self {
            ScheduleSpec::OnceAt { deadline } => *deadline,
            ScheduleSpec::Repeat { interval } => now + *interval,
        }
    }
}

/// A request to the engine. `Add` is answered with the assigned id (the
/// runtime around the engine carries the reply back to the caller); `Remove`
/// is fire-and-forget.
#[derive(Clone, Copy, Debug, PartialEq, Eq, Structural)]
pub enum Command {
    Add(ScheduleSpec),
    Remove(ScheduleId),
}

} // verus!
