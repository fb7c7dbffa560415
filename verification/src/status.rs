//! The engine's signed status codes and the closed error taxonomy built on
//! top of them.
//!
//! The engine reports outcomes as signed integers: `0` is success, negative
//! values are errors. This module maps each code to a named [`VxError`] kind,
//! preserves unrecognised codes verbatim in [`VxError::Unknown`], and keeps
//! success strictly apart from every error in [`VxStatus`].

use vstd::prelude::*;

verus! {

/// The success status code. Success is not an error kind.
pub const VX_SUCCESS: i32 = 0;
/// The generic error code, used when no other code describes the error.
pub const VX_FAILURE: i32 = -1;
/// The requested kernel is missing.
pub const VX_ERROR_NOT_IMPLEMENTED: i32 = -2;
/// The requested configuration cannot be supported.
pub const VX_ERROR_NOT_SUPPORTED: i32 = -3;
/// Graph verification found too few required parameters.
pub const VX_ERROR_NOT_SUFFICIENT: i32 = -4;
/// The parameter must be allocated by the system.
pub const VX_ERROR_NOT_ALLOCATED: i32 = -5;
/// Linking two parameters failed due to type incompatibility.
pub const VX_ERROR_NOT_COMPATIBLE: i32 = -6;
/// An internal or implicit resource cannot be acquired (not memory).
pub const VX_ERROR_NO_RESOURCES: i32 = -7;
/// An internal or implicit allocation failed.
pub const VX_ERROR_NO_MEMORY: i32 = -8;
/// The object referred to has been optimized out of existence.
pub const VX_ERROR_OPTIMIZED_AWAY: i32 = -9;
/// The supplied parameter information does not match the kernel contract.
pub const VX_ERROR_INVALID_PARAMETERS: i32 = -10;
/// The module does not contain the expected entry point.
pub const VX_ERROR_INVALID_MODULE: i32 = -11;
/// The reference provided is not valid.
pub const VX_ERROR_INVALID_REFERENCE: i32 = -12;
/// The link is not possible as specified; the parameters are incompatible.
pub const VX_ERROR_INVALID_LINK: i32 = -13;
/// The supplied parameter is in an invalid format.
pub const VX_ERROR_INVALID_FORMAT: i32 = -14;
/// The supplied parameter is too big or too small in dimension.
pub const VX_ERROR_INVALID_DIMENSION: i32 = -15;
/// The supplied parameter has an incorrect value.
pub const VX_ERROR_INVALID_VALUE: i32 = -16;
/// The supplied type parameter is incorrect.
pub const VX_ERROR_INVALID_TYPE: i32 = -17;
/// The supplied graph has invalid connections (cycles).
pub const VX_ERROR_INVALID_GRAPH: i32 = -18;
/// The supplied node could not be created.
pub const VX_ERROR_INVALID_NODE: i32 = -19;
/// The supplied parameter is from another scope.
pub const VX_ERROR_INVALID_SCOPE: i32 = -20;
/// The graph has already been scheduled and may be executing.
pub const VX_ERROR_GRAPH_SCHEDULED: i32 = -21;
/// The graph was stopped by an error or by a callback that abandoned it.
pub const VX_ERROR_GRAPH_ABANDONED: i32 = -22;
/// More than one node outputs to the same data object.
pub const VX_ERROR_MULTIPLE_WRITERS: i32 = -23;
/// An operation did not complete because a reference count is non-zero.
pub const VX_ERROR_REFERENCE_NONZERO: i32 = -24;
/// One less than the most negative status code the engine defines.
pub const VX_STATUS_MIN: i32 = -25;

/// The enumeration of all error status codes.
#[derive(Debug, Eq, Copy, Clone)]
pub enum VxError {
    /// A generic error, used when no other kind describes the error.
    Failure,
    /// The requested kernel is missing.
    NotImplemented,
    /// The requested set of parameters produces a configuration that cannot
    /// be supported, or a read-only attribute was written.
    NotSupported,
    /// Graph verification found an insufficient number of required
    /// parameters, which cannot be created automatically.
    NotSufficient,
    /// The parameter must be allocated by the system.
    NotAllocated,
    /// Linking two parameters failed due to type incompatibility.
    NotCompatible,
    /// An internal or implicit resource cannot be acquired (not memory).
    /// Typically catastrophic; deconstruct the context after detection.
    NoResources,
    /// An internal or implicit allocation failed. Typically catastrophic;
    /// deconstruct the context after detection.
    NoMemory,
    /// The object referred to has been optimized out of existence.
    OptimizedAway,
    /// The supplied parameter information does not match the kernel contract.
    InvalidParameters,
    /// The module does not contain the expected entry point.
    InvalidModule,
    /// The reference provided is not valid.
    InvalidReference,
    /// The link is not possible as specified; the parameters are
    /// incompatible.
    InvalidLink,
    /// The supplied parameter is in an invalid format.
    InvalidFormat,
    /// The supplied parameter is too big or too small in dimension.
    InvalidDimension,
    /// The supplied parameter has an incorrect value.
    InvalidValue,
    /// The supplied type parameter is incorrect.
    InvalidType,
    /// The supplied graph has invalid connections (cycles).
    InvalidGraph,
    /// The supplied node could not be created.
    InvalidNode,
    /// The supplied parameter is from another scope and cannot be used in
    /// the current scope.
    InvalidScope,
    /// The supplied graph has already been scheduled and may be executing.
    GraphScheduled,
    /// The graph is stopped due to an error or a callback that abandoned
    /// execution.
    GraphAbandoned,
    /// The graph has more than one node outputting to the same data object.
    MultipleWriters,
    /// An operation did not complete because a reference count is non-zero.
    ReferenceNonzero,
    /// An unknown status code, preserved verbatim for diagnostics.
    Unknown { code: i32 },
}

/// The signed status code that encodes an error kind.
pub open spec fn error_code(e: VxError) -> i32 {
    match e {
        VxError::Failure => VX_FAILURE,
        VxError::NotImplemented => VX_ERROR_NOT_IMPLEMENTED,
        VxError::NotSupported => VX_ERROR_NOT_SUPPORTED,
        VxError::NotSufficient => VX_ERROR_NOT_SUFFICIENT,
        VxError::NotAllocated => VX_ERROR_NOT_ALLOCATED,
        VxError::NotCompatible => VX_ERROR_NOT_COMPATIBLE,
        VxError::NoResources => VX_ERROR_NO_RESOURCES,
        VxError::NoMemory => VX_ERROR_NO_MEMORY,
        VxError::OptimizedAway => VX_ERROR_OPTIMIZED_AWAY,
        VxError::InvalidParameters => VX_ERROR_INVALID_PARAMETERS,
        VxError::InvalidModule => VX_ERROR_INVALID_MODULE,
        VxError::InvalidReference => VX_ERROR_INVALID_REFERENCE,
        VxError::InvalidLink => VX_ERROR_INVALID_LINK,
        VxError::InvalidFormat => VX_ERROR_INVALID_FORMAT,
        VxError::InvalidDimension => VX_ERROR_INVALID_DIMENSION,
        VxError::InvalidValue => VX_ERROR_INVALID_VALUE,
        VxError::InvalidType => VX_ERROR_INVALID_TYPE,
        VxError::InvalidGraph => VX_ERROR_INVALID_GRAPH,
        VxError::InvalidNode => VX_ERROR_INVALID_NODE,
        VxError::InvalidScope => VX_ERROR_INVALID_SCOPE,
        VxError::GraphScheduled => VX_ERROR_GRAPH_SCHEDULED,
        VxError::GraphAbandoned => VX_ERROR_GRAPH_ABANDONED,
        VxError::MultipleWriters => VX_ERROR_MULTIPLE_WRITERS,
        VxError::ReferenceNonzero => VX_ERROR_REFERENCE_NONZERO,
        VxError::Unknown { code } => code,
    }
}

/// The error kind a signed status code decodes to. A code outside the named
/// set (the success code included) decodes to `Unknown` and is preserved
/// verbatim.
pub open spec fn error_of(code: i32) -> VxError {
    if code == VX_FAILURE {
        VxError::Failure
    } else if code == VX_ERROR_NOT_IMPLEMENTED {
        VxError::NotImplemented
    } else if code == VX_ERROR_NOT_SUPPORTED {
        VxError::NotSupported
    } else if code == VX_ERROR_NOT_SUFFICIENT {
        VxError::NotSufficient
    } else if code == VX_ERROR_NOT_ALLOCATED {
        VxError::NotAllocated
    } else if code == VX_ERROR_NOT_COMPATIBLE {
        VxError::NotCompatible
    } else if code == VX_ERROR_NO_RESOURCES {
        VxError::NoResources
    } else if code == VX_ERROR_NO_MEMORY {
        VxError::NoMemory
    } else if code == VX_ERROR_OPTIMIZED_AWAY {
        VxError::OptimizedAway
    } else if code == VX_ERROR_INVALID_PARAMETERS {
        VxError::InvalidParameters
    } else if code == VX_ERROR_INVALID_MODULE {
        VxError::InvalidModule
    } else if code == VX_ERROR_INVALID_REFERENCE {
        VxError::InvalidReference
    } else if code == VX_ERROR_INVALID_LINK {
        VxError::InvalidLink
    } else if code == VX_ERROR_INVALID_FORMAT {
        VxError::InvalidFormat
    } else if code == VX_ERROR_INVALID_DIMENSION {
        VxError::InvalidDimension
    } else if code == VX_ERROR_INVALID_VALUE {
        VxError::InvalidValue
    } else if code == VX_ERROR_INVALID_TYPE {
        VxError::InvalidType
    } else if code == VX_ERROR_INVALID_GRAPH {
        VxError::InvalidGraph
    } else if code == VX_ERROR_INVALID_NODE {
        VxError::InvalidNode
    } else if code == VX_ERROR_INVALID_SCOPE {
        VxError::InvalidScope
    } else if code == VX_ERROR_GRAPH_SCHEDULED {
        VxError::GraphScheduled
    } else if code == VX_ERROR_GRAPH_ABANDONED {
        VxError::GraphAbandoned
    } else if code == VX_ERROR_MULTIPLE_WRITERS {
        VxError::MultipleWriters
    } else if code == VX_ERROR_REFERENCE_NONZERO {
        VxError::ReferenceNonzero
    } else {
        VxError::Unknown { code }
    }
}

impl VxError {
    /// Decodes a status code known to lie strictly between the engine's
    /// minimum and the success code.
    pub fn new(status: i32) -> (r: VxError)
        requires
            VX_STATUS_MIN < status < 0,
        ensures
            r == error_of(status),
    {
        Self::new_unchecked(status)
    }

    /// Decodes any status code; codes outside the named set are preserved
    /// verbatim as `Unknown`.
    pub fn new_unchecked(status: i32) -> (r: VxError)
        ensures
            r == error_of(status),
    {
        if status == VX_FAILURE {
            VxError::Failure
        } else if status == VX_ERROR_NOT_IMPLEMENTED {
            VxError::NotImplemented
        } else if status == VX_ERROR_NOT_SUPPORTED {
            VxError::NotSupported
        } else if status == VX_ERROR_NOT_SUFFICIENT {
            VxError::NotSufficient
        } else if status == VX_ERROR_NOT_ALLOCATED {
            VxError::NotAllocated
        } else if status == VX_ERROR_NOT_COMPATIBLE {
            VxError::NotCompatible
        } else if status == VX_ERROR_NO_RESOURCES {
            VxError::NoResources
        } else if status == VX_ERROR_NO_MEMORY {
            VxError::NoMemory
        } else if status == VX_ERROR_OPTIMIZED_AWAY {
            VxError::OptimizedAway
        } else if status == VX_ERROR_INVALID_PARAMETERS {
            VxError::InvalidParameters
        } else if status == VX_ERROR_INVALID_MODULE {
            VxError::InvalidModule
        } else if status == VX_ERROR_INVALID_REFERENCE {
            VxError::InvalidReference
        } else if status == VX_ERROR_INVALID_LINK {
            VxError::InvalidLink
        } else if status == VX_ERROR_INVALID_FORMAT {
            VxError::InvalidFormat
        } else if status == VX_ERROR_INVALID_DIMENSION {
            VxError::InvalidDimension
        } else if status == VX_ERROR_INVALID_VALUE {
            VxError::InvalidValue
        } else if status == VX_ERROR_INVALID_TYPE {
            VxError::InvalidType
        } else if status == VX_ERROR_INVALID_GRAPH {
            VxError::InvalidGraph
        } else if status == VX_ERROR_INVALID_NODE {
            VxError::InvalidNode
        } else if status == VX_ERROR_INVALID_SCOPE {
            VxError::InvalidScope
        } else if status == VX_ERROR_GRAPH_SCHEDULED {
            VxError::GraphScheduled
        } else if status == VX_ERROR_GRAPH_ABANDONED {
            VxError::GraphAbandoned
        } else if status == VX_ERROR_MULTIPLE_WRITERS {
            VxError::MultipleWriters
        } else if status == VX_ERROR_REFERENCE_NONZERO {
            VxError::ReferenceNonzero
        } else {
            VxError::Unknown { code: status }
        }
    }

    /// Encodes this error kind back into its signed status code.
    pub fn to_raw(&self) -> (r: i32)
        ensures
            r == error_code(*self),
    {
        match *self {
            VxError::Failure => VX_FAILURE,
            VxError::NotImplemented => VX_ERROR_NOT_IMPLEMENTED,
            VxError::NotSupported => VX_ERROR_NOT_SUPPORTED,
            VxError::NotSufficient => VX_ERROR_NOT_SUFFICIENT,
            VxError::NotAllocated => VX_ERROR_NOT_ALLOCATED,
            VxError::NotCompatible => VX_ERROR_NOT_COMPATIBLE,
            VxError::NoResources => VX_ERROR_NO_RESOURCES,
            VxError::NoMemory => VX_ERROR_NO_MEMORY,
            VxError::OptimizedAway => VX_ERROR_OPTIMIZED_AWAY,
            VxError::InvalidParameters => VX_ERROR_INVALID_PARAMETERS,
            VxError::InvalidModule => VX_ERROR_INVALID_MODULE,
            VxError::InvalidReference => VX_ERROR_INVALID_REFERENCE,
            VxError::InvalidLink => VX_ERROR_INVALID_LINK,
            VxError::InvalidFormat => VX_ERROR_INVALID_FORMAT,
            VxError::InvalidDimension => VX_ERROR_INVALID_DIMENSION,
            VxError::InvalidValue => VX_ERROR_INVALID_VALUE,
            VxError::InvalidType => VX_ERROR_INVALID_TYPE,
            VxError::InvalidGraph => VX_ERROR_INVALID_GRAPH,
            VxError::InvalidNode => VX_ERROR_INVALID_NODE,
            VxError::InvalidScope => VX_ERROR_INVALID_SCOPE,
            VxError::GraphScheduled => VX_ERROR_GRAPH_SCHEDULED,
            VxError::GraphAbandoned => VX_ERROR_GRAPH_ABANDONED,
            VxError::MultipleWriters => VX_ERROR_MULTIPLE_WRITERS,
            VxError::ReferenceNonzero => VX_ERROR_REFERENCE_NONZERO,
            VxError::Unknown { code } => code,
        }
    }

    /// Decodes a status code that is expected to encode an error. Codes at
    /// or above the success code are rejected: success is a distinct state,
    /// never an error kind.
    pub fn try_from(value: i32) -> (r: Result<VxError, InvalidErrorStatusError>)
        ensures
            value >= 0 ==> (r matches Err(e) && e.value == value),
            value < 0 ==> r == Ok::<VxError, InvalidErrorStatusError>(error_of(value)),
    {
        if value >= 0 {
            Err(InvalidErrorStatusError { value })
        } else {
            Ok(Self::new_unchecked(value))
        }
    }

    /// The engine-facing name of this error kind. Unknown codes share one
    /// name; their code is preserved in the variant itself.
    pub fn name(&self) -> (r: &'static str)
        ensures
            r@ == error_name(*self),
    {
        match *self {
            VxError::Failure => "VX_FAILURE",
            VxError::NotImplemented => "VX_ERROR_NOT_IMPLEMENTED",
            VxError::NotSupported => "VX_ERROR_NOT_SUPPORTED",
            VxError::NotSufficient => "VX_ERROR_NOT_SUFFICIENT",
            VxError::NotAllocated => "VX_ERROR_NOT_ALLOCATED",
            VxError::NotCompatible => "VX_ERROR_NOT_COMPATIBLE",
            VxError::NoResources => "VX_ERROR_NO_RESOURCES",
            VxError::NoMemory => "VX_ERROR_NO_MEMORY",
            VxError::OptimizedAway => "VX_ERROR_OPTIMIZED_AWAY",
            VxError::InvalidParameters => "VX_ERROR_INVALID_PARAMETERS",
            VxError::InvalidModule => "VX_ERROR_INVALID_MODULE",
            VxError::InvalidReference => "VX_ERROR_INVALID_REFERENCE",
            VxError::InvalidLink => "VX_ERROR_INVALID_LINK",
            VxError::InvalidFormat => "VX_ERROR_INVALID_FORMAT",
            VxError::InvalidDimension => "VX_ERROR_INVALID_DIMENSION",
            VxError::InvalidValue => "VX_ERROR_INVALID_VALUE",
            VxError::InvalidType => "VX_ERROR_INVALID_TYPE",
            VxError::InvalidGraph => "VX_ERROR_INVALID_GRAPH",
            VxError::InvalidNode => "VX_ERROR_INVALID_NODE",
            VxError::InvalidScope => "VX_ERROR_INVALID_SCOPE",
            VxError::GraphScheduled => "VX_ERROR_GRAPH_SCHEDULED",
            VxError::GraphAbandoned => "VX_ERROR_GRAPH_ABANDONED",
            VxError::MultipleWriters => "VX_ERROR_MULTIPLE_WRITERS",
            VxError::ReferenceNonzero => "VX_ERROR_REFERENCE_NONZERO",
            VxError::Unknown { .. } => "VX_ERROR_UNKNOWN",
        }
    }
}

/// The engine-facing name of each error kind.
pub open spec fn error_name(e: VxError) -> Seq<char> {
    match e {
        VxError::Failure => "VX_FAILURE"@,
        VxError::NotImplemented => "VX_ERROR_NOT_IMPLEMENTED"@,
        VxError::NotSupported => "VX_ERROR_NOT_SUPPORTED"@,
        VxError::NotSufficient => "VX_ERROR_NOT_SUFFICIENT"@,
        VxError::NotAllocated => "VX_ERROR_NOT_ALLOCATED"@,
        VxError::NotCompatible => "VX_ERROR_NOT_COMPATIBLE"@,
        VxError::NoResources => "VX_ERROR_NO_RESOURCES"@,
        VxError::NoMemory => "VX_ERROR_NO_MEMORY"@,
        VxError::OptimizedAway => "VX_ERROR_OPTIMIZED_AWAY"@,
        VxError::InvalidParameters => "VX_ERROR_INVALID_PARAMETERS"@,
        VxError::InvalidModule => "VX_ERROR_INVALID_MODULE"@,
        VxError::InvalidReference => "VX_ERROR_INVALID_REFERENCE"@,
        VxError::InvalidLink => "VX_ERROR_INVALID_LINK"@,
        VxError::InvalidFormat => "VX_ERROR_INVALID_FORMAT"@,
        VxError::InvalidDimension => "VX_ERROR_INVALID_DIMENSION"@,
        VxError::InvalidValue => "VX_ERROR_INVALID_VALUE"@,
        VxError::InvalidType => "VX_ERROR_INVALID_TYPE"@,
        VxError::InvalidGraph => "VX_ERROR_INVALID_GRAPH"@,
        VxError::InvalidNode => "VX_ERROR_INVALID_NODE"@,
        VxError::InvalidScope => "VX_ERROR_INVALID_SCOPE"@,
        VxError::GraphScheduled => "VX_ERROR_GRAPH_SCHEDULED"@,
        VxError::GraphAbandoned => "VX_ERROR_GRAPH_ABANDONED"@,
        VxError::MultipleWriters => "VX_ERROR_MULTIPLE_WRITERS"@,
        VxError::ReferenceNonzero => "VX_ERROR_REFERENCE_NONZERO"@,
        VxError::Unknown { .. } => "VX_ERROR_UNKNOWN"@,
    }
}

impl PartialEq for VxError {
    /// Two error kinds are equal when they encode to the same status code,
    /// so an `Unknown` that shadows a named code compares equal to it.
    fn eq(&self, other: &Self) -> (r: bool) {
        self.to_raw() == other.to_raw()
    }
}

impl vstd::std_specs::cmp::PartialEqSpecImpl for VxError {
    open spec fn obeys_eq_spec() -> bool {
        true
    }

    open spec fn eq_spec(&self, other: &Self) -> bool {
        error_code(*self) == error_code(*other)
    }
}

/// Reports that a status code expected to encode an error did not.
#[derive(Debug, Eq, PartialEq, Copy, Clone)]
pub struct InvalidErrorStatusError {
    /// The offending status code.
    pub value: i32,
}

impl InvalidErrorStatusError {
    /// The offending status code.
    pub fn code(&self) -> (r: i32)
        ensures
            r == self.value,
    {
        self.value
    }

    /// What went wrong, for diagnostics: the status code was expected to
    /// lie below the success code.
    pub fn describe(&self) -> (r: &'static str)
        ensures
            r@ == "status code does not encode an error"@,
    {
        "status code does not encode an error"
    }
}

/// The outcome of a fallible engine operation: success, or a tagged error.
#[derive(Debug, Eq, Copy, Clone)]
pub enum VxStatus {
    /// The operation succeeded.
    Success,
    /// The operation failed with the contained error kind.
    Error(VxError),
}

/// The signed status code that encodes a status.
pub open spec fn status_code(s: VxStatus) -> i32 {
    match s {
        VxStatus::Success => VX_SUCCESS,
        VxStatus::Error(e) => error_code(e),
    }
}

/// The status a signed code decodes to: the success code decodes to
/// `Success`, every other code to the error kind it names.
pub open spec fn status_of(code: i32) -> VxStatus {
    if code == VX_SUCCESS {
        VxStatus::Success
    } else {
        VxStatus::Error(error_of(code))
    }
}

impl VxStatus {
    /// Decodes a signed status code.
    pub fn new(status: i32) -> (r: VxStatus)
        ensures
            r == status_of(status),
    {
        if status == VX_SUCCESS {
            VxStatus::Success
        } else {
            VxStatus::Error(VxError::new_unchecked(status))
        }
    }

    /// Encodes this status back into its signed status code.
    pub fn to_raw(&self) -> (r: i32)
        ensures
            r == status_code(*self),
    {
        match *self {
            VxStatus::Success => VX_SUCCESS,
            VxStatus::Error(err) => err.to_raw(),
        }
    }

    /// Whether the status encodes success.
    pub fn is_ok(&self) -> (r: bool)
        ensures
            r <==> status_code(*self) == VX_SUCCESS,
    {
        self.to_raw() == VX_SUCCESS
    }

    /// Whether the status encodes an error.
    pub fn is_err(&self) -> (r: bool)
        ensures
            r <==> status_code(*self) != VX_SUCCESS,
    {
        !self.is_ok()
    }

    /// Folds a result into a status, dropping any success value.
    pub fn from_result<T>(result: &Result<T, VxError>) -> (r: VxStatus)
        ensures
            result is Ok ==> r == VxStatus::Success,
            result matches Err(e) ==> r == VxStatus::Error(*e),
    {
        match result {
            Ok(_) => VxStatus::Success,
            Err(error) => VxStatus::Error(*error),
        }
    }
}

impl PartialEq for VxStatus {
    /// Two statuses are equal when they encode to the same status code.
    fn eq(&self, other: &Self) -> (r: bool) {
        self.to_raw() == other.to_raw()
    }
}

impl vstd::std_specs::cmp::PartialEqSpecImpl for VxStatus {
    open spec fn obeys_eq_spec() -> bool {
        true
    }

    open spec fn eq_spec(&self, other: &Self) -> bool {
        status_code(*self) == status_code(*other)
    }
}

impl From<i32> for VxStatus {
    /// Decodes a signed status code, as [`VxStatus::new`] does.
    fn from(status: i32) -> (r: VxStatus) {
        VxStatus::new(status)
    }
}

impl vstd::std_specs::convert::FromSpecImpl<i32> for VxStatus {
    open spec fn obeys_from_spec() -> bool {
        true
    }

    open spec fn from_spec(status: i32) -> VxStatus {
        status_of(status)
    }
}

/// Every named error kind survives the round trip through its status code:
/// decoding the code an error kind encodes to yields that same kind back.
pub proof fn lemma_error_code_round_trip(k: VxError)
    requires
        !(k is Unknown),
    ensures
        error_of(error_code(k)) == k,
{
}

/// The success code is not an error: it decodes to `Success`, and no status
/// that decodes from the success code carries an error kind.
pub proof fn lemma_success_is_not_an_error()
    ensures
        status_of(VX_SUCCESS) == VxStatus::Success,
        !(status_of(VX_SUCCESS) is Error),
        forall|k: VxError| !(k is Unknown) ==> error_code(k) != VX_SUCCESS,
{
}

} // verus!
