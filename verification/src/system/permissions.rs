//! Permission management.

use vstd::prelude::*;
use crate::common::error::SystemError;

verus! {

use crate::common::types::PermissionStatus;

/// Answers questions about access rights.
pub struct PermissionManager {
    _private: bool,
}

impl PermissionManager {
    /// A new manager.
    pub fn new() -> PermissionManager {
        PermissionManager { _private: false }
    }

    /// Checking path permissions is not implemented.
    pub fn check_permissions(&self, _path: &str) -> (r: Result<PermissionStatus, SystemError>)
        ensures
            r matches Err(e) && e is NotSupported,
    {
        proof {
            reveal_strlit("Not implemented yet");
        }
        Err(SystemError::NotSupported(String::from_str("Not implemented yet")))
    }

}

} // verus!
