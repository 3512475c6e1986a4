//! The error domain: native status codes and the typed errors they map to.
use vstd::prelude::*;

verus! {

/// Status code of a native call that succeeded.
pub const HV_SUCCESS: i32 = 0;

/// Native status: generic error (`0xfae94001`).
pub const HV_ERROR: i32 = -85377023;

/// Native status: the hypervisor is busy (`0xfae94002`).
pub const HV_BUSY: i32 = -85377022;

/// Native status: bad argument (`0xfae94003`).
pub const HV_BAD_ARGUMENT: i32 = -85377021;

/// Native status: illegal guest state (`0xfae94004`).
pub const HV_ILLEGAL_GUEST_STATE: i32 = -85377020;

/// Native status: no resources available (`0xfae94005`).
pub const HV_NO_RESOURCES: i32 = -85377019;

/// Native status: no device available (`0xfae94006`).
pub const HV_NO_DEVICE: i32 = -85377018;

/// Native status: access denied (`0xfae94007`).
pub const HV_DENIED: i32 = -85377017;

/// Native status: operation unsupported (`0xfae9400f`).
pub const HV_UNSUPPORTED: i32 = -85377009;

/// Represent an error returned by the Hypervisor.
#[derive(Copy, Clone, Debug, PartialEq, Eq, Structural)]
pub enum HypervisorError {
    /// A generic error was returned by the Hypervisor.
    Error,
    /// The Hypervisor is busy.
    Busy,
    /// A bad argument was received.
    BadArgument,
    /// The guest is in an illegal state.
    IllegalGuestState,
    /// No resources available.
    NoResources,
    /// No device available.
    NoDevice,
    /// Access was denied.
    Denied,
    /// Operation unsupported.
    Unsupported,
    /// Invalid handle sent.
    InvalidHandle,
    /// The given allocation handle is still mapped.
    AllocationStillMapped,
    /// A memory address was misaligned.
    MisalignedAddress,
    /// An unknown error was returned.
    Unknown(i32),
}

/// The error that a failing native status code stands for.
pub open spec fn error_of(code: i32) -> HypervisorError {
    if code == HV_ERROR {
        HypervisorError::Error
    } else if code == HV_BUSY {
        HypervisorError::Busy
    } else if code == HV_BAD_ARGUMENT {
        HypervisorError::BadArgument
    } else if code == HV_ILLEGAL_GUEST_STATE {
        HypervisorError::IllegalGuestState
    } else if code == HV_NO_RESOURCES {
        HypervisorError::NoResources
    } else if code == HV_NO_DEVICE {
        HypervisorError::NoDevice
    } else if code == HV_DENIED {
        HypervisorError::Denied
    } else if code == HV_UNSUPPORTED {
        HypervisorError::Unsupported
    } else {
        HypervisorError::Unknown(code)
    }
}

/// The outcome that a native status code stands for.
pub open spec fn status_result(code: i32) -> Result<(), HypervisorError> {
    if code == HV_SUCCESS {
        Ok(())
    } else {
        Err(error_of(code))
    }
}

impl HypervisorError {
    /// Converts a failing native status code into an error.
    ///
    /// A success code has no error: callers test for it first.
    pub fn from_status(code: i32) -> (r: HypervisorError)
        requires
            code != HV_SUCCESS,
        ensures
            r == error_of(code),
    {
        match code {
            HV_ERROR => HypervisorError::Error,
            HV_BUSY => HypervisorError::Busy,
            HV_BAD_ARGUMENT => HypervisorError::BadArgument,
            HV_ILLEGAL_GUEST_STATE => HypervisorError::IllegalGuestState,
            HV_NO_RESOURCES => HypervisorError::NoResources,
            HV_NO_DEVICE => HypervisorError::NoDevice,
            HV_DENIED => HypervisorError::Denied,
            HV_UNSUPPORTED => HypervisorError::Unsupported,
            _ => HypervisorError::Unknown(code),
        }
    }
}

/// Converts a native status code into a `Result`.
pub fn convert_hv_return(value: i32) -> (r: Result<(), HypervisorError>)
    ensures
        r == status_result(value),
        r is Ok <==> value == HV_SUCCESS,
{
    if value == HV_SUCCESS {
        Ok(())
    } else {
        Err(HypervisorError::from_status(value))
    }
}

/// Converts a native status code and the value that the call produced into a
/// `Result` that carries the value on success.
pub fn convert_hv_result<T>(status: i32, value: T) -> (r: Result<T, HypervisorError>)
    ensures
        status == HV_SUCCESS ==> r == Ok::<T, HypervisorError>(value),
        status != HV_SUCCESS ==> r == Err::<T, HypervisorError>(error_of(status)),
{
    match convert_hv_return(status) {
        Ok(()) => Ok(value),
        Err(e) => Err(e),
    }
}

} // verus!
