//! The error a client-facing schedule operation can surface.

use vstd::prelude::*;

verus! {

/// Raised by the registering operations when either the command could not be
/// enqueued (the engine loop is gone) or the reply could never arrive (the
/// engine shut down mid-request). Terminal for that call; never retried.
#[derive(Debug)]
pub enum ScheduleError {
    Channel(String),
}

impl ScheduleError {
    /// The reason carried by the error.
    pub fn message(&self) -> (r: &String)
        ensures
            self matches ScheduleError::Channel(m) && r == m,
    {
        match self {
            ScheduleError::Channel(m) => m,
        }
    }
}

} // verus!
