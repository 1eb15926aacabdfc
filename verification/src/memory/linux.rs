//! The Linux face of the memory subsystem.  Name resolution works from an
//! enumeration snapshot; the raw memory primitives have no Linux
//! implementation path yet and answer `NotSupported`.

use vstd::prelude::*;
use crate::common::error::SystemError;
use crate::memory::resolver::{ProcessEntry, find_pid_in_snapshot, spec_resolution};
use crate::common::types::ProcessMemoryInfo;

verus! {

/// The native handle type of this platform's memory primitives.
pub type ProcessHandle = i32;

/// Resolves a process name within an enumeration snapshot: the first entry
/// whose name matches exactly.  Fails with `NotFound` when none does.
pub fn find_pid_by_name(entries: &Vec<ProcessEntry>, process_name: &str) -> (r: Result<
    u32,
    SystemError,
>)
    ensures
        match r {
            Ok(pid) => spec_resolution(entries@, process_name@) == Some(pid),
            Err(e) => e is NotFound && spec_resolution(entries@, process_name@) is None,
        },
{
    find_pid_in_snapshot(entries, process_name)
}

/// Memory accounting is not implemented on this platform.
pub fn get_process_memory_info(_pid: u32) -> (r: Result<ProcessMemoryInfo, SystemError>)
    ensures
        r matches Err(e) && e is NotSupported,
{
    proof {
        reveal_strlit("Linux memory operations not implemented yet");
    }
    Err(SystemError::NotSupported(String::from_str("Linux memory operations not implemented yet")))
}

/// Listing memory accounting is not implemented on this platform.
pub fn list_process_memory_info() -> (r: Result<Vec<ProcessMemoryInfo>, SystemError>)
    ensures
        r matches Err(e) && e is NotSupported,
{
    proof {
        reveal_strlit("Linux memory operations not implemented yet");
    }
    Err(SystemError::NotSupported(String::from_str("Linux memory operations not implemented yet")))
}

/// Raw reads have no implementation path on this platform.
pub fn read_process_memory(_handle: ProcessHandle, _address: usize, _size: usize) -> (r: Result<
    Vec<u8>,
    SystemError,
>)
    ensures
        r matches Err(e) && e is NotSupported,
{
    proof {
        reveal_strlit("Linux memory operations not implemented yet");
    }
    Err(SystemError::NotSupported(String::from_str("Linux memory operations not implemented yet")))
}

/// Raw writes have no implementation path on this platform.
pub fn write_process_memory(_handle: ProcessHandle, _address: usize, _data: &[u8]) -> (r: Result<
    usize,
    SystemError,
>)
    ensures
        r matches Err(e) && e is NotSupported,
{
    proof {
        reveal_strlit("Linux memory operations not implemented yet");
    }
    Err(SystemError::NotSupported(String::from_str("Linux memory operations not implemented yet")))
}

/// The per-process accessor of this platform.  It cannot be constructed
/// while the platform lacks an implementation path.
pub struct ProcessInstance {
    handle: ProcessHandle,
}

impl ProcessInstance {
    /// Construction by name has no implementation path on this platform.
    pub fn new_by_name(_process_name: &str) -> (r: Result<ProcessInstance, SystemError>)
        ensures
            r matches Err(e) && e is NotSupported,
    {
        proof {
            reveal_strlit("Linux memory operations not implemented yet");
        }
        Err(
            SystemError::NotSupported(
                String::from_str("Linux memory operations not implemented yet"),
            ),
        )
    }

    /// Construction by identifier has no implementation path on this
    /// platform.
    pub fn new_by_pid(_pid: u32) -> (r: Result<ProcessInstance, SystemError>)
        ensures
            r matches Err(e) && e is NotSupported,
    {
        proof {
            reveal_strlit("Linux memory operations not implemented yet");
        }
        Err(
            SystemError::NotSupported(
                String::from_str("Linux memory operations not implemented yet"),
            ),
        )
    }

    /// The placeholder identifier of an unconstructible instance.
    pub fn pid(&self) -> (r: u32)
        ensures
            r == 0,
    {
        0
    }

    /// The placeholder base address of an unconstructible instance.
    pub fn base_addr(&self) -> (r: usize)
        ensures
            r == 0,
    {
        0
    }

    /// The placeholder name of an unconstructible instance.
    pub fn name(&self) -> (r: Option<&str>)
        ensures
            r is None,
    {
        None
    }

    /// The placeholder handle of an unconstructible instance.
    pub fn handle(&self) -> (r: ProcessHandle)
        ensures
            r == -1,
    {
        let _ = self.handle;
        -1
    }
}

} // verus!
