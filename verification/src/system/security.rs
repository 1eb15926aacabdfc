//! Security tools.

use vstd::prelude::*;
use crate::common::error::SystemError;

verus! {

/// Cryptographic helpers.
pub struct SecurityTools {
    _private: bool,
}

impl SecurityTools {
    /// A new tool set.
    pub fn new() -> SecurityTools {
        SecurityTools { _private: false }
    }

    /// Encryption is not implemented.
    pub fn encrypt_data(&self, _data: &[u8], _key: &[u8]) -> (r: Result<Vec<u8>, SystemError>)
        ensures
            r matches Err(e) && e is NotSupported,
    {
        proof {
            reveal_strlit("Not implemented yet");
        }
        Err(SystemError::NotSupported(String::from_str("Not implemented yet")))
    }

}

} // verus!
