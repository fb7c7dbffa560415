//! The kind-erased reference: a resource kind tag and an opaque handle.
//!
//! Every concrete resource type can be viewed as a [`VxReference`] for the
//! common capability operations. The view is non-owning: it never releases
//! the handle it names. A handle value of zero is the null handle; a null
//! handle never appears inside a constructed wrapper except after release.

use crate::status::VxError;
use crate::status::VxStatus;
use vstd::prelude::*;

verus! {

/// The resource kinds the engine distinguishes, used only at the
/// abstraction boundary for safe downcasting.
#[derive(Debug, Eq, PartialEq, Structural, Copy, Clone)]
pub enum RefKind {
    /// The root resource owning an engine session.
    Context,
    /// An explicit, verifiable, re-runnable dataflow computation.
    Graph,
    /// A bound kernel invocation with typed parameter slots.
    Node,
    /// A two-dimensional pixel data object.
    Image,
    /// A thresholding data object.
    Threshold,
    /// A single typed value.
    Scalar,
    /// A parameter slot of a kernel or node.
    Parameter,
    /// A computation bound by name into the engine.
    Kernel,
    /// A lookup table.
    Lut,
    /// A matrix.
    Matrix,
    /// A convolution kernel matrix.
    Convolution,
    /// An image pyramid.
    Pyramid,
    /// A delay line of data objects.
    Delay,
    /// A histogram distribution.
    Distribution,
}

/// A non-owning, kind-erased view of a resource: its opaque handle and its
/// kind tag.
#[derive(Debug, Eq, PartialEq, Structural, Copy, Clone)]
pub struct VxReference {
    /// The opaque handle; zero is the null handle.
    pub raw: u64,
    /// The kind of the resource the handle names.
    pub kind: RefKind,
}

impl VxReference {
    /// Builds a view from a handle and a kind tag.
    pub fn new(raw: u64, kind: RefKind) -> (r: VxReference)
        ensures
            r.raw == raw,
            r.kind == kind,
    {
        VxReference { raw, kind }
    }

    /// Whether the handle is the null handle.
    pub fn is_null(&self) -> (r: bool)
        ensures
            r <==> self.raw == 0,
    {
        self.raw == 0
    }

    /// The opaque handle.
    pub fn raw(&self) -> (r: u64)
        ensures
            r == self.raw,
    {
        self.raw
    }

    /// The kind of the resource the handle names.
    pub fn kind(&self) -> (r: RefKind)
        ensures
            r == self.kind,
    {
        self.kind
    }

    /// The status associated with the handle this view names: success for a
    /// live handle, an invalid-reference error for the null handle. Never
    /// panics; callers decide how to react.
    pub fn check(&self) -> (r: VxStatus)
        ensures
            self.raw != 0 ==> r == VxStatus::Success,
            self.raw == 0 ==> r == VxStatus::Error(VxError::InvalidReference),
    {
        if self.raw == 0 {
            VxStatus::Error(VxError::InvalidReference)
        } else {
            VxStatus::Success
        }
    }
}

/// The capability of viewing a resource as a kind-erased reference.
pub trait AsVxReference {
    /// The view this resource presents.
    spec fn spec_reference(&self) -> VxReference;

    /// Views this resource as a kind-erased reference.
    fn as_reference(&self) -> (r: VxReference)
        ensures
            r == self.spec_reference(),
    ;
}

/// The capability of handing out the raw handle underlying a resource.
pub trait AsRaw {
    /// The raw handle representation.
    type Result;

    /// The raw handle this resource wraps.
    spec fn spec_raw(&self) -> Self::Result;

    /// Hands out the raw handle.
    fn as_raw(&self) -> (r: Self::Result)
        ensures
            r == self.spec_raw(),
    ;
}

} // verus!
