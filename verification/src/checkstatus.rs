//! Non-panicking status checks.
//!
//! Checking a resource's status queries the error the engine associates
//! with its handle and surfaces it as a result. Panics and fail-fasts are
//! not permitted here; callers decide how to react.

use crate::status::status_code;
use crate::status::VxError;
use crate::status::VxStatus;
use crate::status::VX_SUCCESS;
use vstd::prelude::*;

verus! {

/// The capability of querying the status associated with a resource.
pub trait CheckStatus {
    /// The status the engine associates with this resource.
    spec fn spec_status(&self) -> VxStatus;

    /// Queries the status associated with this resource: `Ok` exactly when
    /// the status is success, and the error kind otherwise.
    fn check_status(&self) -> (r: Result<(), VxError>)
        ensures
            r is Ok <==> status_code(self.spec_status()) == VX_SUCCESS,
            r matches Err(e) ==> VxStatus::Error(e) == self.spec_status(),
    ;
}

} // verus!
