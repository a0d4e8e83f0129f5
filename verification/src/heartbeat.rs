//! A task that reports that the process is alive.
use vstd::prelude::*;

verus! {

/// A task whose every run reports a heartbeat.
#[derive(Debug, Clone, Copy)]
pub struct HeartbeatTask;

impl HeartbeatTask {
    /// What one run of the task reports.
    pub fn message(&self) -> (m: &'static str)
        ensures
            m@ == "Heartbeat"@,
    {
        "Heartbeat"
    }
}

} // verus!
