//! Process memory access: byte marshalling, image-header parsing, the image
//! base locator, raw memory I/O against a region-described address space,
//! the process-instance wrapper that composes them, and the per-platform
//! faces of the subsystem.

use vstd::prelude::*;

pub mod capability;
pub mod image;
pub mod instance;
pub mod linux;
pub mod locator;
pub mod macos;
pub mod resolver;
pub mod target;
pub mod utils;
pub mod windows;

use crate::common::error::SystemError;
use crate::common::types::{MemoryOperationResult, ProcessMemoryInfo};
use crate::memory::resolver::{ProcessEntry, spec_resolution};

verus! {

/// The platform-dispatching entry point of the memory subsystem.
pub struct MemoryManager {
    _private: bool,
}

impl MemoryManager {
    /// A new manager.
    pub fn new() -> MemoryManager {
        MemoryManager { _private: false }
    }

    /// Creates a per-process memory instance by name.  This platform offers
    /// no implementation path.
    pub fn create_process_instance_by_name(&self, process_name: &str) -> (r: Result<
        ProcessMemoryInstance,
        SystemError,
    >)
        ensures
            r matches Err(e) && e is NotSupported,
    {
        ProcessMemoryInstance::new_by_name(process_name)
    }

    /// Creates a per-process memory instance by identifier.  This platform
    /// offers no implementation path.
    pub fn create_process_instance_by_pid(&self, pid: u32) -> (r: Result<
        ProcessMemoryInstance,
        SystemError,
    >)
        ensures
            r matches Err(e) && e is NotSupported,
    {
        ProcessMemoryInstance::new_by_pid(pid)
    }

    /// Memory accounting of one process; unimplemented on this platform.
    pub fn get_process_memory_info(&self, pid: u32) -> (r: Result<ProcessMemoryInfo, SystemError>)
        ensures
            r matches Err(e) && e is NotSupported,
    {
        crate::memory::linux::get_process_memory_info(pid)
    }

    /// Resolves a process name within an enumeration snapshot: the first
    /// entry whose name matches exactly.
    pub fn find_pid_by_name(&self, entries: &Vec<ProcessEntry>, process_name: &str) -> (r: Result<
        u32,
        SystemError,
    >)
        ensures
            match r {
                Ok(pid) => spec_resolution(entries@, process_name@) == Some(pid),
                Err(e) => e is NotFound && spec_resolution(entries@, process_name@) is None,
            },
    {
        crate::memory::linux::find_pid_by_name(entries, process_name)
    }

    /// Memory accounting of every process; unimplemented on this platform.
    pub fn list_process_memory_info(&self) -> (r: Result<Vec<ProcessMemoryInfo>, SystemError>)
        ensures
            r matches Err(e) && e is NotSupported,
    {
        crate::memory::linux::list_process_memory_info()
    }
}

impl Default for MemoryManager {
    /// A new manager.
    fn default() -> (r: MemoryManager) {
        MemoryManager::new()
    }
}

/// The cross-platform per-process memory accessor.  On a platform without
/// native memory primitives it cannot be constructed, so every constructor
/// answers `NotSupported`.
pub struct ProcessMemoryInstance {
    pid: u32,
    process_name: Option<String>,
    base_address: usize,
}

impl ProcessMemoryInstance {
    /// Construction by name; no implementation path on this platform.
    pub fn new_by_name(_process_name: &str) -> (r: Result<ProcessMemoryInstance, SystemError>)
        ensures
            r matches Err(e) && e is NotSupported,
    {
        proof {
            reveal_strlit("Platform not supported");
        }
        Err(SystemError::NotSupported(String::from_str("Platform not supported")))
    }

    /// Construction by identifier; no implementation path on this platform.
    pub fn new_by_pid(_pid: u32) -> (r: Result<ProcessMemoryInstance, SystemError>)
        ensures
            r matches Err(e) && e is NotSupported,
    {
        proof {
            reveal_strlit("Platform not supported");
        }
        Err(SystemError::NotSupported(String::from_str("Platform not supported")))
    }

    /// Offset-relative read; no implementation path on this platform.
    pub fn read_memory(&self, _offset: usize, _size: usize) -> (r: Result<Vec<u8>, SystemError>)
        ensures
            r matches Err(e) && e is NotSupported,
    {
        proof {
            reveal_strlit("Platform not supported");
        }
        Err(SystemError::NotSupported(String::from_str("Platform not supported")))
    }

    /// Offset-relative write; no implementation path on this platform.
    pub fn write_memory(&self, _offset: usize, _data: &[u8]) -> (r: Result<
        MemoryOperationResult,
        SystemError,
    >)
        ensures
            r matches Err(e) && e is NotSupported,
    {
        proof {
            reveal_strlit("Platform not supported");
        }
        Err(SystemError::NotSupported(String::from_str("Platform not supported")))
    }

    /// Reads a little-endian `u32` at an offset; no implementation path on
    /// this platform.
    pub fn read_u32(&self, offset: usize) -> (r: Result<u32, SystemError>)
        ensures
            r matches Err(e) && e is NotSupported,
    {
        match self.read_memory(offset, 4) {
            Ok(bytes) => Ok(crate::memory::utils::bytes_to_u32(bytes.as_slice())),
            Err(e) => Err(e),
        }
    }

    /// Reads a little-endian `u64` at an offset; no implementation path on
    /// this platform.
    pub fn read_u64(&self, offset: usize) -> (r: Result<u64, SystemError>)
        ensures
            r matches Err(e) && e is NotSupported,
    {
        match self.read_memory(offset, 8) {
            Ok(bytes) => Ok(crate::memory::utils::bytes_to_u64(bytes.as_slice())),
            Err(e) => Err(e),
        }
    }

    /// Reads a zero-terminated UTF-8 text at an offset; no implementation
    /// path on this platform.
    pub fn read_utf8_string(&self, offset: usize, size: usize) -> (r: Result<String, SystemError>)
        ensures
            r matches Err(e) && e is NotSupported,
    {
        match self.read_memory(offset, size) {
            Ok(bytes) => Ok(crate::memory::utils::bytes_to_utf8_string(bytes.as_slice())),
            Err(e) => Err(e),
        }
    }

    /// Writes a little-endian `u32` at an offset; no implementation path on
    /// this platform.
    pub fn write_u32(&self, offset: usize, value: u32) -> (r: Result<
        MemoryOperationResult,
        SystemError,
    >)
        ensures
            r matches Err(e) && e is NotSupported,
    {
        let bytes = vstd::bytes::u32_to_le_bytes(value);
        self.write_memory(offset, bytes.as_slice())
    }

    /// Writes a little-endian `u64` at an offset; no implementation path on
    /// this platform.
    pub fn write_u64(&self, offset: usize, value: u64) -> (r: Result<
        MemoryOperationResult,
        SystemError,
    >)
        ensures
            r matches Err(e) && e is NotSupported,
    {
        let bytes = vstd::bytes::u64_to_le_bytes(value);
        self.write_memory(offset, bytes.as_slice())
    }

    /// Writes a string's UTF-8 bytes at an offset; no implementation path
    /// on this platform.
    pub fn write_utf8_string(&self, offset: usize, s: &str) -> (r: Result<
        MemoryOperationResult,
        SystemError,
    >)
        ensures
            r matches Err(e) && e is NotSupported,
    {
        self.write_memory(offset, s.as_bytes())
    }

    /// The identifier of the target process.
    pub fn pid(&self) -> u32 {
        self.pid
    }

    /// The located base address of the main executable image.
    pub fn base_address(&self) -> usize {
        self.base_address
    }

    /// The name the instance was created by, if one was.
    pub fn process_name(&self) -> Option<&str> {
        match &self.process_name {
            Some(s) => Some(s.as_str()),
            None => None,
        }
    }
}

} // verus!
