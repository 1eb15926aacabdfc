//! Environment variable management.

use vstd::prelude::*;
use crate::common::error::SystemError;

verus! {

/// Manages environment variables.
pub struct EnvironmentManager {
    _private: bool,
}

impl EnvironmentManager {
    /// A new manager.
    pub fn new() -> EnvironmentManager {
        EnvironmentManager { _private: false }
    }

    /// Setting an environment variable is not implemented.
    pub fn set_env_var(&self, _name: &str, _value: &str) -> (r: Result<(), SystemError>)
        ensures
            r matches Err(e) && e is NotSupported,
    {
        proof {
            reveal_strlit("Not implemented yet");
        }
        Err(SystemError::NotSupported(String::from_str("Not implemented yet")))
    }

}

} // verus!
