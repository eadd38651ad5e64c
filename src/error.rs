use vstd::prelude::*;

verus! {

/// Win32 code for a caller without the rights that a call needs.
pub const ERROR_ACCESS_DENIED: u32 = 5;

/// Win32 code for a service name that is not registered.
pub const ERROR_SERVICE_DOES_NOT_EXIST: u32 = 1060;

/// The upper half of a failure code that wraps a Win32 error code.
pub const WIN32_FAILURE_PREFIX: u32 = 0x8007;

/// Why an operation on a service failed.
#[derive(Debug, Clone, PartialEq, Eq)]
pub enum Error {
    /// Any other rejection by the platform, with the code it gave.
    Windows(u32),
    /// A local failure outside the service registry, with its cause.
    Io(String),
    /// The executable path of a descriptor does not exist.
    InvalidPath(String),
    AccessDenied,
    ServiceNotFound,
    Other(String),
}

/// The Win32 error code that a platform failure code carries: a code whose
/// upper half marks a wrapped Win32 error stands for its lower half, any
/// other code for itself.
pub open spec fn win32_code_of(raw: u32) -> u32 {
    if raw / 0x10000 == WIN32_FAILURE_PREFIX {
        (raw % 0x10000) as u32
    } else {
        raw
    }
}

/// The error that a platform failure code is reported as.
pub open spec fn classify(raw: u32) -> Error {
    if win32_code_of(raw) == ERROR_ACCESS_DENIED {
        Error::AccessDenied
    } else if win32_code_of(raw) == ERROR_SERVICE_DOES_NOT_EXIST {
        Error::ServiceNotFound
    } else {
        Error::Windows(raw)
    }
}

/// The Win32 error code carried by a platform failure code.
pub fn win32_code(raw: u32) -> (r: u32)
    ensures
        r == win32_code_of(raw),
{
    if raw / 0x10000 == WIN32_FAILURE_PREFIX {
        raw % 0x10000
    } else {
        raw
    }
}

impl From<u32> for Error {
    /// Classifies a platform failure code: permission and missing-service
    /// codes get their own kinds, every other code is kept as it is.
    fn from(raw: u32) -> (r: Error)
        ensures
            r == classify(raw),
    {
        let code = win32_code(raw);
        if code == ERROR_ACCESS_DENIED {
            Error::AccessDenied
        } else if code == ERROR_SERVICE_DOES_NOT_EXIST {
            Error::ServiceNotFound
        } else {
            Error::Windows(raw)
        }
    }
}

impl vstd::std_specs::convert::FromSpecImpl<u32> for Error {
    open spec fn obeys_from_spec() -> bool {
        true
    }

    open spec fn from_spec(raw: u32) -> Error {
        classify(raw)
    }
}

} // verus!
