//! The error type shared by every component of the system toolkit.

use vstd::prelude::*;

verus! {

/// A failure of a system operation, wrapped into one kind at the point where
/// the low-level failure occurs and returned to the immediate caller;
/// nothing is retried automatically.
#[derive(Debug, Clone)]
pub enum SystemError {
    /// The caller lacks the rights the operation needs.
    PermissionDenied(String),
    /// No process, module or segment matched.
    NotFound(String),
    /// The platform offers no implementation path.
    NotSupported(String),
    /// A system call failed, with its native status code when available.
    SystemCall(String, Option<i32>),
    /// An input/output failure.
    Io(String),
    /// A value could not be parsed.
    Parse(String),
    /// A network failure.
    Network(String),
    /// A configuration failure.
    Configuration(String),
    /// An operation timed out.
    Timeout(String),
    /// A resource is busy.
    Busy(String),
    /// An argument is invalid.
    InvalidArgument(String),
    /// An internal fault.
    Internal(String),
    /// The identified process could not be queried.
    ProcessError(String),
    /// A memory transfer failed for a reason other than permission.
    MemoryError(String),
    /// An unclassified failure.
    Unknown(String),
}

/// The classification of a host input/output failure, as the standard
/// library's error kinds report it; `Other` covers every kind this toolkit
/// does not map specially.
#[derive(Debug, Clone, Copy, PartialEq, Eq, Structural)]
pub enum IoFailureKind {
    /// The caller lacked the rights the operation needed.
    PermissionDenied,
    /// The named entity does not exist.
    NotFound,
    /// The operation's deadline elapsed.
    TimedOut,
    /// A parameter was rejected as incorrect.
    InvalidInput,
    /// Any other classification.
    Other,
}

/// The prefix [`SystemError::message`] puts before the wrapped text of each
/// kind.
pub open spec fn spec_error_prefix(e: SystemError) -> Seq<char> {
    match e {
        SystemError::PermissionDenied(_) => "Permission denied: "@,
        SystemError::NotFound(_) => "Not found: "@,
        SystemError::NotSupported(_) => "Not supported: "@,
        SystemError::SystemCall(_, _) => "System call failed: "@,
        SystemError::Io(_) => "IO error: "@,
        SystemError::Parse(_) => "Parse error: "@,
        SystemError::Network(_) => "Network error: "@,
        SystemError::Configuration(_) => "Configuration error: "@,
        SystemError::Timeout(_) => "Timeout: "@,
        SystemError::Busy(_) => "Resource busy: "@,
        SystemError::InvalidArgument(_) => "Invalid argument: "@,
        SystemError::Internal(_) => "Internal error: "@,
        SystemError::ProcessError(_) => "Process error: "@,
        SystemError::MemoryError(_) => "Memory error: "@,
        SystemError::Unknown(_) => "Unknown error: "@,
    }
}

/// The text wrapped inside an error.
pub open spec fn spec_error_text(e: SystemError) -> Seq<char> {
    match e {
        SystemError::PermissionDenied(m) => m@,
        SystemError::NotFound(m) => m@,
        SystemError::NotSupported(m) => m@,
        SystemError::SystemCall(m, _) => m@,
        SystemError::Io(m) => m@,
        SystemError::Parse(m) => m@,
        SystemError::Network(m) => m@,
        SystemError::Configuration(m) => m@,
        SystemError::Timeout(m) => m@,
        SystemError::Busy(m) => m@,
        SystemError::InvalidArgument(m) => m@,
        SystemError::Internal(m) => m@,
        SystemError::ProcessError(m) => m@,
        SystemError::MemoryError(m) => m@,
        SystemError::Unknown(m) => m@,
    }
}

impl SystemError {
    /// Wraps a host input/output failure into the matching error kind:
    /// refused rights become `PermissionDenied`, a missing entity
    /// `NotFound`, an elapsed deadline `Timeout`, a rejected parameter
    /// `InvalidArgument`, and every other classification `Io`, each
    /// carrying the failure's own message.
    pub fn from_io_failure(kind: IoFailureKind, message: String) -> (r: SystemError)
        ensures
            match kind {
                IoFailureKind::PermissionDenied => r matches SystemError::PermissionDenied(m)
                    && m@ == message@,
                IoFailureKind::NotFound => r matches SystemError::NotFound(m) && m@ == message@,
                IoFailureKind::TimedOut => r matches SystemError::Timeout(m) && m@ == message@,
                IoFailureKind::InvalidInput => r matches SystemError::InvalidArgument(m) && m@
                    == message@,
                IoFailureKind::Other => r matches SystemError::Io(m) && m@ == message@,
            },
    {
        match kind {
            IoFailureKind::PermissionDenied => SystemError::PermissionDenied(message),
            IoFailureKind::NotFound => SystemError::NotFound(message),
            IoFailureKind::TimedOut => SystemError::Timeout(message),
            IoFailureKind::InvalidInput => SystemError::InvalidArgument(message),
            IoFailureKind::Other => SystemError::Io(message),
        }
    }

    /// A human-readable description: the kind's prefix followed by the
    /// wrapped text.  A system-call error with a status code appends
    /// ` (code: N)`.
    pub fn message(&self) -> (r: String)
        ensures
            match self {
                SystemError::SystemCall(_, Some(code)) => r@ == spec_error_prefix(*self)
                    + spec_error_text(*self) + " (code: "@ + crate::text::spec_dec_i32(*code)
                    + ")"@,
                _ => r@ == spec_error_prefix(*self) + spec_error_text(*self),
            },
    {
        let mut r = String::new();
        match self {
            SystemError::PermissionDenied(m) => {
                r.append("Permission denied: ");
                r.append(m.as_str());
            },
            SystemError::NotFound(m) => {
                r.append("Not found: ");
                r.append(m.as_str());
            },
            SystemError::NotSupported(m) => {
                r.append("Not supported: ");
                r.append(m.as_str());
            },
            SystemError::SystemCall(m, code) => {
                r.append("System call failed: ");
                r.append(m.as_str());
                match code {
                    Some(c) => {
                        r.append(" (code: ");
                        let digits = crate::text::i32_to_dec(*c);
                        r.append(digits.as_str());
                        r.append(")");
                    },
                    None => {},
                }
            },
            SystemError::Io(m) => {
                r.append("IO error: ");
                r.append(m.as_str());
            },
            SystemError::Parse(m) => {
                r.append("Parse error: ");
                r.append(m.as_str());
            },
            SystemError::Network(m) => {
                r.append("Network error: ");
                r.append(m.as_str());
            },
            SystemError::Configuration(m) => {
                r.append("Configuration error: ");
                r.append(m.as_str());
            },
            SystemError::Timeout(m) => {
                r.append("Timeout: ");
                r.append(m.as_str());
            },
            SystemError::Busy(m) => {
                r.append("Resource busy: ");
                r.append(m.as_str());
            },
            SystemError::InvalidArgument(m) => {
                r.append("Invalid argument: ");
                r.append(m.as_str());
            },
            SystemError::Internal(m) => {
                r.append("Internal error: ");
                r.append(m.as_str());
            },
            SystemError::ProcessError(m) => {
                r.append("Process error: ");
                r.append(m.as_str());
            },
            SystemError::MemoryError(m) => {
                r.append("Memory error: ");
                r.append(m.as_str());
            },
            SystemError::Unknown(m) => {
                r.append("Unknown error: ");
                r.append(m.as_str());
            },
        }
        proof {
            match self {
                SystemError::SystemCall(_, code) => {
                    if code is Some {
                        assert(r@ =~= spec_error_prefix(*self) + spec_error_text(*self)
                            + " (code: "@ + crate::text::spec_dec_i32(code->0) + ")"@);
                    } else {
                        assert(r@ =~= spec_error_prefix(*self) + spec_error_text(*self));
                    }
                },
                _ => {
                    assert(r@ =~= spec_error_prefix(*self) + spec_error_text(*self));
                },
            }
        }
        r
    }
}

/// The result type of every system operation.
pub type SystemResult<T> = Result<T, SystemError>;

} // verus!
