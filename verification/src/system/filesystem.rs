//! File system tools.

use vstd::prelude::*;
use crate::common::error::SystemError;

verus! {

/// File system inspection tools.
pub struct FileSystemTools {
    _private: bool,
}

impl FileSystemTools {
    /// A new tool set.
    pub fn new() -> FileSystemTools {
        FileSystemTools { _private: false }
    }

    /// Watching a file is not implemented.
    pub fn watch_file(&self, _path: &str) -> (r: Result<(), SystemError>)
        ensures
            r matches Err(e) && e is NotSupported,
    {
        proof {
            reveal_strlit("Not implemented yet");
        }
        Err(SystemError::NotSupported(String::from_str("Not implemented yet")))
    }

}

} // verus!
