//! Shared error and data types of the system toolkit.

pub mod error;
pub mod types;
pub mod utils;
