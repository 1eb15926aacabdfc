//! Startup-item management: listing, adding and removing the entries a
//! system runs at boot or login.

use vstd::prelude::*;

pub mod linux;
pub mod types;

use crate::common::error::SystemError;
use crate::startup::types::{StartupEntry, StartupType};

verus! {

/// The unified face of startup management, dispatching to the platform's
/// implementation.
pub struct StartupManager {
    _private: bool,
}

impl StartupManager {
    /// A new manager.
    pub fn new() -> StartupManager {
        StartupManager { _private: false }
    }

    /// Lists every startup entry the platform knows of.
    pub fn list_all(&self) -> (r: Result<Vec<StartupEntry>, SystemError>)
        ensures
            r matches Ok(v) && v@.len() == 0,
    {
        crate::startup::linux::list_all_startup_entries()
    }

    /// Registers a startup entry; unimplemented on this platform.
    pub fn add_entry(&self, entry: &StartupEntry) -> (r: Result<(), SystemError>)
        ensures
            r matches Err(e) && e is NotSupported,
    {
        crate::startup::linux::add_startup_entry(entry)
    }

    /// Removes a startup entry; unimplemented.
    pub fn remove_entry(&self, _id: &str, _startup_type: StartupType) -> (r: Result<
        (),
        SystemError,
    >)
        ensures
            r matches Err(e) && e is NotSupported,
    {
        proof {
            reveal_strlit("Unsupported platform");
        }
        Err(SystemError::NotSupported(String::from_str("Unsupported platform")))
    }

    /// The startup-entry kinds this platform supports.
    pub fn get_supported_types(&self) -> (r: Vec<StartupType>)
        ensures
            r@.len() == 3,
            r@[0] == StartupType::SystemdUser,
            r@[1] == StartupType::SystemdSystem,
            r@[2] == StartupType::DesktopAutostart,
    {
        let mut v: Vec<StartupType> = Vec::new();
        v.push(StartupType::SystemdUser);
        v.push(StartupType::SystemdSystem);
        v.push(StartupType::DesktopAutostart);
        v
    }
}

} // verus!
