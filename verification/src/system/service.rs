//! System service management.

use vstd::prelude::*;
use crate::common::error::SystemError;

verus! {

use crate::common::types::{ServiceStatus, ServiceStartType};

/// One system service.
#[derive(Debug, Clone)]
pub struct ServiceInfo {
    pub name: String,
    pub display_name: String,
    pub status: ServiceStatus,
    pub start_type: ServiceStartType,
    pub description: Option<String>,
}

/// Manages system services.
pub struct ServiceManager {
    _private: bool,
}

impl ServiceManager {
    /// A new manager.
    pub fn new() -> ServiceManager {
        ServiceManager { _private: false }
    }

    /// Lists the known services; none are enumerated yet.
    pub fn list_services(&self) -> (r: Result<Vec<ServiceInfo>, SystemError>)
        ensures
            r matches Ok(v) && v@.len() == 0,
    {
        Ok(Vec::new())
    }

    /// Starting a service is not implemented.
    pub fn start_service(&self, _service_name: &str) -> (r: Result<(), SystemError>)
        ensures
            r matches Err(e) && e is NotSupported,
    {
        proof {
            reveal_strlit("Not implemented yet");
        }
        Err(SystemError::NotSupported(String::from_str("Not implemented yet")))
    }

    /// Stopping a service is not implemented.
    pub fn stop_service(&self, _service_name: &str) -> (r: Result<(), SystemError>)
        ensures
            r matches Err(e) && e is NotSupported,
    {
        proof {
            reveal_strlit("Not implemented yet");
        }
        Err(SystemError::NotSupported(String::from_str("Not implemented yet")))
    }

}

} // verus!
