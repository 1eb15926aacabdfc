//! Linux startup management, not yet implemented: listing yields nothing,
//! changing anything is refused.

use vstd::prelude::*;
use crate::common::error::SystemError;
use crate::startup::types::{StartupEntry, StartupType};

verus! {

/// Lists the startup entries; none are enumerated yet.
pub fn list_all_startup_entries() -> (r: Result<Vec<StartupEntry>, SystemError>)
    ensures
        r matches Ok(v) && v@.len() == 0,
{
    Ok(Vec::new())
}

/// Registering a startup entry is not implemented.
pub fn add_startup_entry(entry: &StartupEntry) -> (r: Result<(), SystemError>)
    ensures
        r matches Err(e) && e is NotSupported,
{
    proof {
        reveal_strlit("Linux startup management not yet implemented");
    }
    let _ = entry;
    Err(
        SystemError::NotSupported(
            String::from_str("Linux startup management not yet implemented"),
        ),
    )
}

/// Removing a startup entry is not implemented.
pub fn remove_startup_entry(id: &str, startup_type: StartupType) -> (r: Result<(), SystemError>)
    ensures
        r matches Err(e) && e is NotSupported,
{
    proof {
        reveal_strlit("Linux startup management not yet implemented");
    }
    let _ = id;
    let _ = startup_type;
    Err(
        SystemError::NotSupported(
            String::from_str("Linux startup management not yet implemented"),
        ),
    )
}

} // verus!
