//! Hardware information.

use vstd::prelude::*;
use crate::common::error::SystemError;

verus! {

/// One processor of the host.
#[derive(Debug, Clone)]
pub struct CpuInfo {
    pub name: String,
    pub cores: u32,
    pub frequency: u64,
}

/// Reports hardware facts.
pub struct HardwareInfo {
    _private: bool,
}

impl HardwareInfo {
    /// A new reporter.
    pub fn new() -> HardwareInfo {
        HardwareInfo { _private: false }
    }

    /// Reading processor facts is not implemented.
    pub fn get_cpu_info(&self) -> (r: Result<CpuInfo, SystemError>)
        ensures
            r matches Err(e) && e is NotSupported,
    {
        proof {
            reveal_strlit("Not implemented yet");
        }
        Err(SystemError::NotSupported(String::from_str("Not implemented yet")))
    }

}

} // verus!
