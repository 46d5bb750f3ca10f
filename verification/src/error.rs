//! Error kinds for facility calls.
//!
//! Every backend call returns a status code; the library turns it at the
//! call site into a structured [`HypervisorError`] kind and propagates it to
//! the caller without retrying or suppressing it.

use vstd::prelude::*;

use crate::backend::HV_BAD_ARGUMENT;
use crate::backend::HV_BUSY;
use crate::backend::HV_DENIED;
use crate::backend::HV_ERROR;
use crate::backend::HV_FAULT;
use crate::backend::HV_ILLEGAL_GUEST_STATE;
use crate::backend::HV_NO_DEVICE;
use crate::backend::HV_NO_RESOURCES;
use crate::backend::HV_SUCCESS;
use crate::backend::HV_UNSUPPORTED;

verus! {

/// The error type for hypervisor errors.
#[derive(Copy, Clone, Debug, PartialEq, Eq, Structural, Hash)]
pub enum HypervisorError {
    /// A bad argument was provided to the function called.
    BadArgument,
    /// The owning resource is busy.
    Busy,
    /// The operation was denied by the system.
    Denied,
    /// The operation was unsuccessful.
    Error,
    /// A hypervisor fault occured.
    Fault,
    /// The guest is in an illegal state.
    IllegalState,
    /// No VM or vCPU available.
    NoDevice,
    /// No host resources available to complete the request.
    NoResources,
    /// An unknown error type, carrying the raw status code.
    Unknown(i32),
    /// The operation is not supported.
    Unsupported,
}

/// The error kind a raw facility status code maps to.
pub open spec fn error_of_code(code: i32) -> HypervisorError {
    if code == HV_BAD_ARGUMENT {
        HypervisorError::BadArgument
    } else if code == HV_BUSY {
        HypervisorError::Busy
    } else if code == HV_DENIED {
        HypervisorError::Denied
    } else if code == HV_ERROR {
        HypervisorError::Error
    } else if code == HV_FAULT {
        HypervisorError::Fault
    } else if code == HV_ILLEGAL_GUEST_STATE {
        HypervisorError::IllegalState
    } else if code == HV_NO_DEVICE {
        HypervisorError::NoDevice
    } else if code == HV_NO_RESOURCES {
        HypervisorError::NoResources
    } else if code == HV_UNSUPPORTED {
        HypervisorError::Unsupported
    } else {
        HypervisorError::Unknown(code)
    }
}

/// The raw facility status code an error kind maps back to.
pub open spec fn code_of_error(err: HypervisorError) -> i32 {
    match err {
        HypervisorError::BadArgument => HV_BAD_ARGUMENT,
        HypervisorError::Busy => HV_BUSY,
        HypervisorError::Denied => HV_DENIED,
        HypervisorError::Error => HV_ERROR,
        HypervisorError::Fault => HV_FAULT,
        HypervisorError::IllegalState => HV_ILLEGAL_GUEST_STATE,
        HypervisorError::NoDevice => HV_NO_DEVICE,
        HypervisorError::NoResources => HV_NO_RESOURCES,
        HypervisorError::Unknown(code) => code,
        HypervisorError::Unsupported => HV_UNSUPPORTED,
    }
}

impl HypervisorError {
    /// Returns the error kind for a raw facility status code.
    pub fn from_code(code: i32) -> (r: HypervisorError)
        ensures
            r == error_of_code(code),
    {
        if code == HV_BAD_ARGUMENT {
            HypervisorError::BadArgument
        } else if code == HV_BUSY {
            HypervisorError::Busy
        } else if code == HV_DENIED {
            HypervisorError::Denied
        } else if code == HV_ERROR {
            HypervisorError::Error
        } else if code == HV_FAULT {
            HypervisorError::Fault
        } else if code == HV_ILLEGAL_GUEST_STATE {
            HypervisorError::IllegalState
        } else if code == HV_NO_DEVICE {
            HypervisorError::NoDevice
        } else if code == HV_NO_RESOURCES {
            HypervisorError::NoResources
        } else if code == HV_UNSUPPORTED {
            HypervisorError::Unsupported
        } else {
            HypervisorError::Unknown(code)
        }
    }

    /// Returns the raw facility status code for this error kind.
    pub fn code(&self) -> (r: i32)
        ensures
            r == code_of_error(*self),
    {
        match *self {
            HypervisorError::BadArgument => HV_BAD_ARGUMENT,
            HypervisorError::Busy => HV_BUSY,
            HypervisorError::Denied => HV_DENIED,
            HypervisorError::Error => HV_ERROR,
            HypervisorError::Fault => HV_FAULT,
            HypervisorError::IllegalState => HV_ILLEGAL_GUEST_STATE,
            HypervisorError::NoDevice => HV_NO_DEVICE,
            HypervisorError::NoResources => HV_NO_RESOURCES,
            HypervisorError::Unknown(code) => code,
            HypervisorError::Unsupported => HV_UNSUPPORTED,
        }
    }

    /// Returns a description for a given hypervisor error.
    pub fn as_str(&self) -> (r: &'static str)
        ensures
            r@ == error_description(*self),
    {
        match *self {
            HypervisorError::BadArgument => "function call has an invalid argument",
            HypervisorError::Busy => "owning resource is busy",
            HypervisorError::Denied => "operation not allowed by the system",
            HypervisorError::Error => "operation unsuccessful",
            HypervisorError::Fault => "hypervisor fault",
            HypervisorError::IllegalState => "guest in an illegal state",
            HypervisorError::NoDevice => "no VM or vCPU available",
            HypervisorError::NoResources => "no host resources available to complete the request",
            HypervisorError::Unknown(_) => "unknown error",
            HypervisorError::Unsupported => "unsupported operation",
        }
    }
}

/// The description of an error kind.
pub open spec fn error_description(err: HypervisorError) -> Seq<char> {
    match err {
        HypervisorError::BadArgument => "function call has an invalid argument"@,
        HypervisorError::Busy => "owning resource is busy"@,
        HypervisorError::Denied => "operation not allowed by the system"@,
        HypervisorError::Error => "operation unsuccessful"@,
        HypervisorError::Fault => "hypervisor fault"@,
        HypervisorError::IllegalState => "guest in an illegal state"@,
        HypervisorError::NoDevice => "no VM or vCPU available"@,
        HypervisorError::NoResources => "no host resources available to complete the request"@,
        HypervisorError::Unknown(_) => "unknown error"@,
        HypervisorError::Unsupported => "unsupported operation"@,
    }
}

/// Law: mapping any status code to an error kind and back yields the same
/// code, so no information about what the facility reported is lost.
pub proof fn lemma_error_code_round_trip(code: i32)
    ensures
        code_of_error(error_of_code(code)) == code,
{
}

/// Wraps a raw facility status code into the result callers receive: success
/// becomes `Ok` and every failure code becomes its error kind.
pub fn call_result(code: i32) -> (r: Result<(), HypervisorError>)
    ensures
        code == HV_SUCCESS <==> r is Ok,
        code != HV_SUCCESS ==> r == Result::<(), HypervisorError>::Err(error_of_code(code)),
{
    if code == HV_SUCCESS {
        Ok(())
    } else {
        Err(HypervisorError::from_code(code))
    }
}

} // verus!
