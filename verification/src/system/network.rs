//! Network tools.

use vstd::prelude::*;
use crate::common::error::SystemError;

verus! {

/// Network inspection tools.
pub struct NetworkTools {
    _private: bool,
}

impl NetworkTools {
    /// A new tool set.
    pub fn new() -> NetworkTools {
        NetworkTools { _private: false }
    }

    /// Port scanning is not implemented.
    pub fn scan_ports(&self, _target: &str, _start: u16, _end: u16) -> (r: Result<Vec<u16>, SystemError>)
        ensures
            r matches Err(e) && e is NotSupported,
    {
        proof {
            reveal_strlit("Not implemented yet");
        }
        Err(SystemError::NotSupported(String::from_str("Not implemented yet")))
    }

}

} // verus!
