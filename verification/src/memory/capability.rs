//! Privileged handle acquisition: turning the operating system's answer to
//! an open request into an exclusively owned capability handle.
//!
//! A handle grants read, write and query rights over one target process.
//! It cannot be copied or cloned, and releasing it consumes it, so a double
//! release — or any use after release — does not compile.

use vstd::prelude::*;
use crate::common::error::SystemError;

verus! {

/// The operating system's answer to a request to open a target process for
/// memory access.
pub enum NativeOpenOutcome {
    /// The request was granted; the native token is attached.
    Granted(u64),
    /// The caller lacks the rights the request needs.
    Denied,
    /// The identifier no longer names a live process.
    NoSuchProcess,
}

/// An exclusively owned token granting memory-access rights over one target
/// process.  Only [`open_capability`] creates one; only
/// [`CapabilityHandle::release`] disposes of it, exactly once.
pub struct CapabilityHandle {
    token: u64,
    pid: u32,
}

impl CapabilityHandle {
    /// The native token behind the handle.
    pub closed spec fn spec_token(&self) -> u64 {
        self.token
    }

    /// The process the handle grants access to.
    pub closed spec fn spec_pid(&self) -> u32 {
        self.pid
    }

    /// The native token behind the handle.
    pub fn token(&self) -> (r: u64)
        ensures
            r == self.spec_token(),
    {
        self.token
    }

    /// The process the handle grants access to.
    pub fn pid(&self) -> (r: u32)
        ensures
            r == self.spec_pid(),
    {
        self.pid
    }

    /// Releases the handle, consuming it: after this call the handle is
    /// gone, so a second release or a later access through it does not
    /// compile.  Returns the native token for the caller to hand back to
    /// the operating system.
    pub fn release(self) -> (r: u64)
        ensures
            r == self.spec_token(),
    {
        self.token
    }
}

/// Interprets the outcome of an open request for `pid`.  A grant yields the
/// capability handle; a refusal of rights yields `PermissionDenied` and
/// never any other kind; a dead process yields `ProcessError`.
pub fn open_capability(pid: u32, outcome: NativeOpenOutcome) -> (r: Result<
    CapabilityHandle,
    SystemError,
>)
    ensures
        match outcome {
            NativeOpenOutcome::Granted(token) => r matches Ok(h) && h.spec_token() == token
                && h.spec_pid() == pid,
            NativeOpenOutcome::Denied => r matches Err(e) && e is PermissionDenied,
            NativeOpenOutcome::NoSuchProcess => r matches Err(e) && e is ProcessError,
        },
{
    proof {
        reveal_strlit("opening the target process was refused");
        reveal_strlit("the identifier names no live process");
    }
    match outcome {
        NativeOpenOutcome::Granted(token) => Ok(CapabilityHandle { token, pid }),
        NativeOpenOutcome::Denied => Err(
            SystemError::PermissionDenied(
                String::from_str("opening the target process was refused"),
            ),
        ),
        NativeOpenOutcome::NoSuchProcess => Err(
            SystemError::ProcessError(String::from_str("the identifier names no live process")),
        ),
    }
}

} // verus!
