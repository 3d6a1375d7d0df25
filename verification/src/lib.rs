//! A lightweight deadline scheduler, verified with Verus.
//!
//! The engine keeps a priority ordering of pending tasks (earliest deadline
//! first, ties broken by registration order), supports cheap cancellation
//! through a tombstone set, and reschedules repeating tasks after each firing.
//! Time is modelled as a plain `u64` tick count; the asynchronous runtime that
//! drives the engine (channels, timers, callback storage) lives outside the
//! verified core and feeds it commands and clock readings.

pub mod channel;
pub mod clock;
pub mod command;
pub mod error;
pub mod jwt_payload;
pub mod laws;
pub mod scheduled_task;
pub mod scheduler;
pub mod uuid_v7_generator;
