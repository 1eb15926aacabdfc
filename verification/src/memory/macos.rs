//! The macOS face of the memory subsystem as it stands on this
//! platform: every primitive answers
//! `NotSupported`, and no instance can be constructed.

use vstd::prelude::*;
use crate::common::error::SystemError;
use crate::common::types::ProcessMemoryInfo;

verus! {

/// The native capability token type of this platform's memory primitives.
pub type TaskPort = usize;

/// Name resolution is unavailable on this platform.
pub fn find_pid_by_name(_process_name: &str) -> (r: Result<u32, SystemError>) 
    ensures
        r matches Err(e) && e is NotSupported,
{
    proof {
        reveal_strlit("macOS memory operations only available on macOS");
    }
    Err(SystemError::NotSupported(String::from_str("macOS memory operations only available on macOS")))
}

/// Memory accounting is unavailable on this platform.
pub fn get_process_memory_info(_pid: u32) -> (r: Result<ProcessMemoryInfo, SystemError>) 
    ensures
        r matches Err(e) && e is NotSupported,
{
    proof {
        reveal_strlit("macOS memory operations only available on macOS");
    }
    Err(SystemError::NotSupported(String::from_str("macOS memory operations only available on macOS")))
}

/// Listing memory accounting is unavailable on this platform.
pub fn list_process_memory_info() -> (r: Result<Vec<ProcessMemoryInfo>, SystemError>) 
    ensures
        r matches Err(e) && e is NotSupported,
{
    proof {
        reveal_strlit("macOS memory operations only available on macOS");
    }
    Err(SystemError::NotSupported(String::from_str("macOS memory operations only available on macOS")))
}

/// Raw reads are unavailable on this platform.
pub fn read_process_memory(_handle: TaskPort, _address: usize, _size: usize) -> (r: Result<Vec<u8>, SystemError>) 
    ensures
        r matches Err(e) && e is NotSupported,
{
    proof {
        reveal_strlit("macOS memory operations only available on macOS");
    }
    Err(SystemError::NotSupported(String::from_str("macOS memory operations only available on macOS")))
}

/// Raw writes are unavailable on this platform.
pub fn write_process_memory(_handle: TaskPort, _address: usize, _data: &[u8]) -> (r: Result<usize, SystemError>) 
    ensures
        r matches Err(e) && e is NotSupported,
{
    proof {
        reveal_strlit("macOS memory operations only available on macOS");
    }
    Err(SystemError::NotSupported(String::from_str("macOS memory operations only available on macOS")))
}

/// The per-process accessor of this platform.  It cannot be constructed
/// here.
pub struct ProcessInstance {
    _marker: bool,
}

impl ProcessInstance {
    /// Construction by name is unavailable on this platform.
    pub fn new_by_name(_process_name: &str) -> (r: Result<ProcessInstance, SystemError>)
        ensures
            r matches Err(e) && e is NotSupported,
    {
        proof {
            reveal_strlit("macOS memory operations only available on macOS");
        }
        Err(SystemError::NotSupported(String::from_str("macOS memory operations only available on macOS")))
    }

    /// Construction by identifier is unavailable on this platform.
    pub fn new_by_pid(_pid: u32) -> (r: Result<ProcessInstance, SystemError>)
        ensures
            r matches Err(e) && e is NotSupported,
    {
        proof {
            reveal_strlit("macOS memory operations only available on macOS");
        }
        Err(SystemError::NotSupported(String::from_str("macOS memory operations only available on macOS")))
    }

    /// The placeholder identifier of an unconstructible instance.
    pub fn pid(&self) -> (r: u32)
        ensures
            r == 0,
    {
        0
    }

    /// The placeholder base address of an unconstructible instance.
    pub fn base_addr(&self) -> (r: usize)
        ensures
            r == 0,
    {
        0
    }

    /// The placeholder name of an unconstructible instance.
    pub fn name(&self) -> (r: Option<&str>)
        ensures
            r is None,
    {
        None
    }

    /// The placeholder capability token of an unconstructible instance.
    pub fn task(&self) -> (r: TaskPort)
        ensures
            r == 0,
    {
        let _ = self._marker;
        0
    }
}

} // verus!
