//! Tests of the error kinds and their status codes.

use applevisor::backend::HV_BAD_ARGUMENT;
use applevisor::backend::HV_BUSY;
use applevisor::backend::HV_DENIED;
use applevisor::backend::HV_ERROR;
use applevisor::backend::HV_FAULT;
use applevisor::backend::HV_ILLEGAL_GUEST_STATE;
use applevisor::backend::HV_NO_DEVICE;
use applevisor::backend::HV_NO_RESOURCES;
use applevisor::backend::HV_UNSUPPORTED;
use applevisor::HypervisorError;

#[test]
fn error_kinds_from_status_codes() {
    assert_eq!(
        HypervisorError::from_code(HV_BAD_ARGUMENT),
        HypervisorError::BadArgument
    );
    assert_eq!(HypervisorError::from_code(HV_BUSY), HypervisorError::Busy);
    assert_eq!(
        HypervisorError::from_code(HV_DENIED),
        HypervisorError::Denied
    );
    assert_eq!(HypervisorError::from_code(HV_ERROR), HypervisorError::Error);
    assert_eq!(HypervisorError::from_code(HV_FAULT), HypervisorError::Fault);
    assert_eq!(
        HypervisorError::from_code(HV_ILLEGAL_GUEST_STATE),
        HypervisorError::IllegalState
    );
    assert_eq!(
        HypervisorError::from_code(HV_NO_DEVICE),
        HypervisorError::NoDevice
    );
    assert_eq!(
        HypervisorError::from_code(HV_NO_RESOURCES),
        HypervisorError::NoResources
    );
    assert_eq!(
        HypervisorError::from_code(HV_UNSUPPORTED),
        HypervisorError::Unsupported
    );
    // A code outside the documented set is carried through unchanged.
    assert_eq!(
        HypervisorError::from_code(-12345),
        HypervisorError::Unknown(-12345)
    );
}

#[test]
fn error_code_round_trip() {
    let kinds = vec![
        HypervisorError::BadArgument,
        HypervisorError::Busy,
        HypervisorError::Denied,
        HypervisorError::Error,
        HypervisorError::Fault,
        HypervisorError::IllegalState,
        HypervisorError::NoDevice,
        HypervisorError::NoResources,
        HypervisorError::Unsupported,
    ];
    for kind in kinds {
        assert_eq!(HypervisorError::from_code(kind.code()), kind);
    }
}

#[test]
fn error_descriptions() {
    assert_eq!(
        HypervisorError::BadArgument.as_str(),
        "function call has an invalid argument"
    );
    assert_eq!(HypervisorError::Busy.as_str(), "owning resource is busy");
    assert_eq!(
        HypervisorError::Unsupported.as_str(),
        "unsupported operation"
    );
    assert_eq!(HypervisorError::Unknown(7).as_str(), "unknown error");
}
