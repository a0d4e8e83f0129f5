//! Scheduling logic for a manager of recurring tasks that runs each task on a
//! fixed interval, aligned to the Unix epoch plus an offset, and never starts a
//! run of a task while its previous run is still going.
//!
//! - `duration`: what the logic reads of `std::time::Duration`.
//! - `schedule`: the delay until a task's first scheduled time.
//! - `clock`: reading the system clock for that delay.
//! - `manager`: the tasks to run and the schedules accepted for them.
//! - `runner`: the decisions of the loop that runs one task.
//! - `shutdown`: the decisions of stopping the manager on a signal.
//! - `heartbeat`: a task that reports that the process is alive.

pub mod clock;
pub mod duration;
pub mod heartbeat;
pub mod manager;
pub mod runner;
pub mod schedule;
pub mod shutdown;
