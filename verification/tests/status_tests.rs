use openvx::InvalidErrorStatusError;
use openvx::VxError;
use openvx::VxStatus;
use openvx::VX_FAILURE;
use openvx::VX_STATUS_MIN;
use openvx::VX_SUCCESS;

#[test]
fn vxerror_vx_status_min() {
    assert_eq!(VX_STATUS_MIN, -25);
}

#[test]
fn vx_status_e_failure() {
    assert_eq!(VxError::try_from(VX_FAILURE).unwrap(), VxError::Failure);
}

#[test]
fn vx_status_e_not_implemented() {
    assert_eq!(VxError::try_from(-2).unwrap(), VxError::NotImplemented);
}

#[test]
fn invalid_error() {
    assert!(VxError::try_from(VX_SUCCESS).is_err());
}

#[test]
fn unknown_status() {
    assert_eq!(
        VxError::try_from(VX_STATUS_MIN).unwrap(),
        VxError::Unknown { code: VX_STATUS_MIN }
    );
}

#[test]
fn vxstatus_vx_status_min() {
    assert_eq!(VX_STATUS_MIN, -25);
}

#[test]
fn vx_status_e_success() {
    assert_eq!(VxStatus::from(VX_SUCCESS), VxStatus::Success);
}

#[test]
fn every_named_kind_round_trips() {
    let kinds = [
        VxError::Failure,
        VxError::NotImplemented,
        VxError::NotSupported,
        VxError::NotSufficient,
        VxError::NotAllocated,
        VxError::NotCompatible,
        VxError::NoResources,
        VxError::NoMemory,
        VxError::OptimizedAway,
        VxError::InvalidParameters,
        VxError::InvalidModule,
        VxError::InvalidReference,
        VxError::InvalidLink,
        VxError::InvalidFormat,
        VxError::InvalidDimension,
        VxError::InvalidValue,
        VxError::InvalidType,
        VxError::InvalidGraph,
        VxError::InvalidNode,
        VxError::InvalidScope,
        VxError::GraphScheduled,
        VxError::GraphAbandoned,
        VxError::MultipleWriters,
        VxError::ReferenceNonzero,
    ];
    for k in kinds {
        assert_eq!(VxError::new_unchecked(k.to_raw()), k);
    }
}

#[test]
fn error_codes_are_the_declared_ones() {
    assert_eq!(VxError::Failure.to_raw(), -1);
    assert_eq!(VxError::NotImplemented.to_raw(), -2);
    assert_eq!(VxError::InvalidParameters.to_raw(), -10);
    assert_eq!(VxError::InvalidGraph.to_raw(), -18);
    assert_eq!(VxError::GraphScheduled.to_raw(), -21);
    assert_eq!(VxError::GraphAbandoned.to_raw(), -22);
    assert_eq!(VxError::MultipleWriters.to_raw(), -23);
    assert_eq!(VxError::ReferenceNonzero.to_raw(), -24);
}

#[test]
fn success_code_is_not_an_error_kind() {
    // The zero code must fail loudly, never decode to a default kind.
    let rejected: Result<VxError, InvalidErrorStatusError> = VxError::try_from(0);
    assert!(rejected.is_err());
    assert_eq!(rejected.unwrap_err().code(), 0);
    // And a positive code is rejected the same way.
    assert!(VxError::try_from(7).is_err());
}

#[test]
fn status_decodes_success_and_errors() {
    assert!(VxStatus::new(0).is_ok());
    assert!(!VxStatus::new(0).is_err());
    let s = VxStatus::new(-23);
    assert!(s.is_err());
    assert_eq!(s, VxStatus::Error(VxError::MultipleWriters));
    assert_eq!(s.to_raw(), -23);
}

#[test]
fn status_folds_results() {
    let ok: Result<u32, VxError> = Ok(5);
    let err: Result<u32, VxError> = Err(VxError::NoMemory);
    assert_eq!(VxStatus::from_result(&ok), VxStatus::Success);
    assert_eq!(VxStatus::from_result(&err), VxStatus::Error(VxError::NoMemory));
}

#[test]
fn error_names() {
    assert_eq!(VxError::Failure.name(), "VX_FAILURE");
    assert_eq!(VxError::MultipleWriters.name(), "VX_ERROR_MULTIPLE_WRITERS");
    assert_eq!(VxError::Unknown { code: -77 }.name(), "VX_ERROR_UNKNOWN");
    assert_eq!(VxError::Unknown { code: -77 }.to_raw(), -77);
}

#[test]
fn unknown_shadowing_a_named_code_compares_by_code() {
    // Equality is by encoded status code, as the engine compares them.
    assert_eq!(VxError::Unknown { code: -1 }, VxError::Failure);
    assert_ne!(VxError::Unknown { code: -26 }, VxError::Failure);
}
