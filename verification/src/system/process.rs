//! Process management.

use vstd::prelude::*;
use crate::common::error::SystemError;
use crate::common::types::ProcessInfo;

verus! {

/// Manages system processes.
pub struct ProcessManager {
    _private: bool,
}

impl ProcessManager {
    /// A new manager.
    pub fn new() -> ProcessManager {
        ProcessManager { _private: false }
    }

    /// Process enumeration is not implemented: the listing is empty.
    pub fn list_processes(&self) -> (r: Result<Vec<ProcessInfo>, SystemError>)
        ensures
            r matches Ok(v) && v@.len() == 0,
    {
        Ok(Vec::new())
    }

    /// Lookup by identifier is not implemented: no process is found.
    pub fn get_process_by_pid(&self, _pid: u32) -> (r: Result<Option<ProcessInfo>, SystemError>)
        ensures
            r matches Ok(v) && v is None,
    {
        Ok(None)
    }

    /// Lookup by name is not implemented: the listing is empty.
    pub fn find_processes_by_name(&self, _name: &str) -> (r: Result<Vec<ProcessInfo>, SystemError>)
        ensures
            r matches Ok(v) && v@.len() == 0,
    {
        Ok(Vec::new())
    }

    /// Terminating a process is not implemented.
    pub fn kill_process(&self, _pid: u32) -> (r: Result<(), SystemError>)
        ensures
            r matches Err(e) && e is NotSupported,
    {
        proof {
            reveal_strlit("Not implemented yet");
        }
        Err(SystemError::NotSupported(String::from_str("Not implemented yet")))
    }

}

} // verus!
