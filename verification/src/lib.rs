//! Cross-platform process memory access toolkit.
//!
//! The core of the crate locates a foreign process's main executable image,
//! computes its load slide, and performs bounded byte-level reads and writes
//! against its address space, together with the byte-marshalling, logging and
//! formatting helpers that surround those operations.

pub mod common;
pub mod format;
pub mod logger;
pub mod math;
pub mod memory;
pub mod startup;
pub mod system;
pub mod text;
pub mod time;
