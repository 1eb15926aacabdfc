//! Task scheduling.

use vstd::prelude::*;
use crate::common::error::SystemError;

verus! {

use crate::common::types::ScheduledTask;

/// Registers tasks with the system scheduler.
pub struct TaskScheduler {
    _private: bool,
}

impl TaskScheduler {
    /// A new scheduler front end.
    pub fn new() -> TaskScheduler {
        TaskScheduler { _private: false }
    }

    /// Scheduling a task is not implemented.
    pub fn schedule_task(&self, _task: &ScheduledTask) -> (r: Result<(), SystemError>)
        ensures
            r matches Err(e) && e is NotSupported,
    {
        proof {
            reveal_strlit("Not implemented yet");
        }
        Err(SystemError::NotSupported(String::from_str("Not implemented yet")))
    }

}

} // verus!
