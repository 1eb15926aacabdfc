//! The system toolkit: one entry point handing out the managers of each
//! subsystem.

use vstd::prelude::*;

pub mod environment;
pub mod filesystem;
pub mod hardware;
pub mod network;
pub mod permissions;
pub mod process;
pub mod registry;
pub mod scheduler;
pub mod security;
pub mod service;

verus! {

/// The unified entry point of the system toolkit.
pub struct SystemTools {
    _private: bool,
}

impl SystemTools {
    /// The startup manager.
    pub fn startup() -> crate::startup::StartupManager {
        crate::startup::StartupManager::new()
    }

    /// The process manager.
    pub fn process() -> process::ProcessManager {
        process::ProcessManager::new()
    }

    /// The service manager.
    pub fn service() -> service::ServiceManager {
        service::ServiceManager::new()
    }

    /// The file system tools.
    pub fn filesystem() -> filesystem::FileSystemTools {
        filesystem::FileSystemTools::new()
    }

    /// The network tools.
    pub fn network() -> network::NetworkTools {
        network::NetworkTools::new()
    }

    /// The permission manager.
    pub fn permissions() -> permissions::PermissionManager {
        permissions::PermissionManager::new()
    }

    /// The task scheduler.
    pub fn scheduler() -> scheduler::TaskScheduler {
        scheduler::TaskScheduler::new()
    }

    /// The environment variable manager.
    pub fn environment() -> environment::EnvironmentManager {
        environment::EnvironmentManager::new()
    }

    /// The hardware reporter.
    pub fn hardware() -> hardware::HardwareInfo {
        hardware::HardwareInfo::new()
    }

    /// The security tools.
    pub fn security() -> security::SecurityTools {
        security::SecurityTools::new()
    }

    /// The memory manager.
    pub fn memory() -> crate::memory::MemoryManager {
        crate::memory::MemoryManager::new()
    }

    /// The registry tools.
    pub fn registry() -> registry::RegistryTools {
        registry::RegistryTools::new()
    }
}

} // verus!
