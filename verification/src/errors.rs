//! The structured error boundary: every fallible operation surfaces either
//! success or an error wrapping the platform's last-error information,
//! never a bare sentinel integer.

use vstd::prelude::*;

verus! {

/// The operating system's error value, carried through opaquely.
#[verifier::external_type_specification]
#[verifier::external_body]
pub struct ExIoError(std::io::Error);

/// A structured error from the privilege interface, wrapping the
/// platform's last-error information.
#[derive(Debug)]
pub enum PrivError {
    /// Native memory exhaustion during set construction.
    Allocation(std::io::Error),
    /// A mutating or process-level call returned the platform's failure
    /// sentinel.
    Operation(std::io::Error),
}

/// Relies on `std::io::Error::last_os_error`: captures the thread's last
/// OS error value as a structured error. The result depends on ambient
/// process state, so nothing is claimed of it.
#[verifier::external_body]
fn last_os_error() -> std::io::Error {
    std::io::Error::last_os_error()
}

impl PrivError {
    /// The wrapped OS-level error.
    pub fn into_os_error(self) -> std::io::Error {
        match self {
            PrivError::Allocation(e) => e,
            PrivError::Operation(e) => e,
        }
    }
}

/// Translates a nullable native handle into a structured result: a present
/// handle is passed through, an absent one becomes an allocation error
/// carrying the platform's last-error information.
pub fn ptr_or_err<T>(ptr: Option<T>) -> (r: Result<T, PrivError>)
    ensures
        r is Ok <==> ptr is Some,
        r matches Ok(v) ==> ptr matches Some(u) && u == v,
        r matches Err(e) ==> e is Allocation,
{
    match ptr {
        Some(v) => Ok(v),
        None => Err(PrivError::Allocation(last_os_error())),
    }
}

/// Translates a native sentinel return into a structured result: -1 — and
/// only -1 — becomes an operation error carrying the platform's last-error
/// information; every other value means success.
pub fn ret_or_err(ret: i32) -> (r: Result<(), PrivError>)
    ensures
        r is Ok <==> ret != -1,
        r matches Err(e) ==> e is Operation,
{
    if ret == -1 {
        Err(PrivError::Operation(last_os_error()))
    } else {
        Ok(())
    }
}

} // verus!
