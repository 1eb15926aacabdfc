//! Registry access.

use vstd::prelude::*;
use crate::common::error::SystemError;

verus! {

/// Reads the system registry, where the platform has one.
pub struct RegistryTools {
    _private: bool,
}

impl RegistryTools {
    /// A new reader.
    pub fn new() -> RegistryTools {
        RegistryTools { _private: false }
    }

    /// Reading a registry value is not implemented.
    pub fn read_value(&self, _hkey: &str, _subkey: &str, _value_name: &str) -> (r: Result<String, SystemError>)
        ensures
            r matches Err(e) && e is NotSupported,
    {
        proof {
            reveal_strlit("Not implemented yet");
        }
        Err(SystemError::NotSupported(String::from_str("Not implemented yet")))
    }

}

} // verus!
