//! Opaque handle wrappers for the remaining resource kinds.
//!
//! Each wrapper owns exactly one underlying handle exclusively; no two
//! wrapper instances may independently own the same handle. A handle value
//! of zero is the null handle and marks a released wrapper. These kinds
//! carry no model state in this layer beyond the handle and a diagnostic
//! name; they share the reference capability and the idempotent release
//! protocol of every resource.

use crate::checkstatus::CheckStatus;
use crate::name::GetName;
use crate::name::SetName;
use crate::reference::AsVxReference;
use crate::reference::RefKind;
use crate::reference::VxReference;
use crate::release::Release;
use crate::status::VxError;
use crate::status::VxStatus;
use vstd::prelude::*;

verus! {

/// An opaque reference to a single typed value.
#[derive(Debug, Eq, PartialEq, Clone)]
pub struct VxScalar {
    /// The opaque handle; zero marks a released wrapper.
    pub raw: u64,
    /// The diagnostic name, if any.
    pub name: Option<String>,
}

impl VxScalar {
    /// Wraps a raw handle issued by the engine.
    pub fn from_raw(raw: u64) -> (r: VxScalar)
        ensures
            r.raw == raw,
            r.name is None,
    {
        VxScalar { raw, name: None }
    }

    /// Whether the handle is the null handle.
    pub fn is_null(&self) -> (r: bool)
        ensures
            r <==> self.raw == 0,
    {
        self.raw == 0
    }

    /// Hands the raw handle back.
    pub fn into_raw(self) -> (r: u64)
        ensures
            r == self.raw,
    {
        self.raw
    }

    /// The reference count the engine holds for this resource: one while
    /// the wrapper owns its handle, zero once released.
    pub fn get_reference_count(&self) -> (r: u32)
        ensures
            r == 1 <==> self.raw != 0,
            r == 0 <==> self.raw == 0,
    {
        if self.raw == 0 {
            0
        } else {
            1
        }
    }
}

impl AsVxReference for VxScalar {
    open spec fn spec_reference(&self) -> VxReference {
        VxReference { raw: self.raw, kind: RefKind::Scalar }
    }

    fn as_reference(&self) -> (r: VxReference) {
        VxReference { raw: self.raw, kind: RefKind::Scalar }
    }
}

impl Release for VxScalar {
    open spec fn spec_released(&self) -> bool {
        self.raw == 0
    }

    fn release(&mut self) -> (r: Result<(), VxError>)
        ensures
            *final(self) == (VxScalar { raw: 0, ..*old(self) }),
    {
        self.raw = 0;
        Ok(())
    }
}

impl CheckStatus for VxScalar {
    open spec fn spec_status(&self) -> VxStatus {
        if self.raw == 0 {
            VxStatus::Error(VxError::InvalidReference)
        } else {
            VxStatus::Success
        }
    }

    fn check_status(&self) -> (r: Result<(), VxError>) {
        if self.raw == 0 {
            Err(VxError::InvalidReference)
        } else {
            Ok(())
        }
    }
}

impl GetName for VxScalar {
    open spec fn spec_name(&self) -> Option<Seq<char>> {
        match self.name {
            Some(n) => Some(n@),
            None => None,
        }
    }

    fn get_name(&self) -> (r: Option<&str>) {
        match &self.name {
            Some(n) => Some(n.as_str()),
            None => None,
        }
    }
}

impl SetName for VxScalar {
    fn set_name(&mut self, name: &str)
        ensures
            final(self).name matches Some(n) && n@ == name@,
            *final(self) == (VxScalar { name: final(self).name, ..*old(self) }),
    {
        self.name = Some(name.to_owned());
    }
}

/// An opaque reference to a lookup table.
#[derive(Debug, Eq, PartialEq, Clone)]
pub struct VxLut {
    /// The opaque handle; zero marks a released wrapper.
    pub raw: u64,
    /// The diagnostic name, if any.
    pub name: Option<String>,
}

impl VxLut {
    /// Wraps a raw handle issued by the engine.
    pub fn from_raw(raw: u64) -> (r: VxLut)
        ensures
            r.raw == raw,
            r.name is None,
    {
        VxLut { raw, name: None }
    }

    /// Whether the handle is the null handle.
    pub fn is_null(&self) -> (r: bool)
        ensures
            r <==> self.raw == 0,
    {
        self.raw == 0
    }

    /// Hands the raw handle back.
    pub fn into_raw(self) -> (r: u64)
        ensures
            r == self.raw,
    {
        self.raw
    }

    /// The reference count the engine holds for this resource: one while
    /// the wrapper owns its handle, zero once released.
    pub fn get_reference_count(&self) -> (r: u32)
        ensures
            r == 1 <==> self.raw != 0,
            r == 0 <==> self.raw == 0,
    {
        if self.raw == 0 {
            0
        } else {
            1
        }
    }
}

impl AsVxReference for VxLut {
    open spec fn spec_reference(&self) -> VxReference {
        VxReference { raw: self.raw, kind: RefKind::Lut }
    }

    fn as_reference(&self) -> (r: VxReference) {
        VxReference { raw: self.raw, kind: RefKind::Lut }
    }
}

impl Release for VxLut {
    open spec fn spec_released(&self) -> bool {
        self.raw == 0
    }

    fn release(&mut self) -> (r: Result<(), VxError>)
        ensures
            *final(self) == (VxLut { raw: 0, ..*old(self) }),
    {
        self.raw = 0;
        Ok(())
    }
}

impl CheckStatus for VxLut {
    open spec fn spec_status(&self) -> VxStatus {
        if self.raw == 0 {
            VxStatus::Error(VxError::InvalidReference)
        } else {
            VxStatus::Success
        }
    }

    fn check_status(&self) -> (r: Result<(), VxError>) {
        if self.raw == 0 {
            Err(VxError::InvalidReference)
        } else {
            Ok(())
        }
    }
}

impl GetName for VxLut {
    open spec fn spec_name(&self) -> Option<Seq<char>> {
        match self.name {
            Some(n) => Some(n@),
            None => None,
        }
    }

    fn get_name(&self) -> (r: Option<&str>) {
        match &self.name {
            Some(n) => Some(n.as_str()),
            None => None,
        }
    }
}

impl SetName for VxLut {
    fn set_name(&mut self, name: &str)
        ensures
            final(self).name matches Some(n) && n@ == name@,
            *final(self) == (VxLut { name: final(self).name, ..*old(self) }),
    {
        self.name = Some(name.to_owned());
    }
}

/// An opaque reference to a matrix.
#[derive(Debug, Eq, PartialEq, Clone)]
pub struct VxMatrix {
    /// The opaque handle; zero marks a released wrapper.
    pub raw: u64,
    /// The diagnostic name, if any.
    pub name: Option<String>,
}

impl VxMatrix {
    /// Wraps a raw handle issued by the engine.
    pub fn from_raw(raw: u64) -> (r: VxMatrix)
        ensures
            r.raw == raw,
            r.name is None,
    {
        VxMatrix { raw, name: None }
    }

    /// Whether the handle is the null handle.
    pub fn is_null(&self) -> (r: bool)
        ensures
            r <==> self.raw == 0,
    {
        self.raw == 0
    }

    /// Hands the raw handle back.
    pub fn into_raw(self) -> (r: u64)
        ensures
            r == self.raw,
    {
        self.raw
    }

    /// The reference count the engine holds for this resource: one while
    /// the wrapper owns its handle, zero once released.
    pub fn get_reference_count(&self) -> (r: u32)
        ensures
            r == 1 <==> self.raw != 0,
            r == 0 <==> self.raw == 0,
    {
        if self.raw == 0 {
            0
        } else {
            1
        }
    }
}

impl AsVxReference for VxMatrix {
    open spec fn spec_reference(&self) -> VxReference {
        VxReference { raw: self.raw, kind: RefKind::Matrix }
    }

    fn as_reference(&self) -> (r: VxReference) {
        VxReference { raw: self.raw, kind: RefKind::Matrix }
    }
}

impl Release for VxMatrix {
    open spec fn spec_released(&self) -> bool {
        self.raw == 0
    }

    fn release(&mut self) -> (r: Result<(), VxError>)
        ensures
            *final(self) == (VxMatrix { raw: 0, ..*old(self) }),
    {
        self.raw = 0;
        Ok(())
    }
}

impl CheckStatus for VxMatrix {
    open spec fn spec_status(&self) -> VxStatus {
        if self.raw == 0 {
            VxStatus::Error(VxError::InvalidReference)
        } else {
            VxStatus::Success
        }
    }

    fn check_status(&self) -> (r: Result<(), VxError>) {
        if self.raw == 0 {
            Err(VxError::InvalidReference)
        } else {
            Ok(())
        }
    }
}

impl GetName for VxMatrix {
    open spec fn spec_name(&self) -> Option<Seq<char>> {
        match self.name {
            Some(n) => Some(n@),
            None => None,
        }
    }

    fn get_name(&self) -> (r: Option<&str>) {
        match &self.name {
            Some(n) => Some(n.as_str()),
            None => None,
        }
    }
}

impl SetName for VxMatrix {
    fn set_name(&mut self, name: &str)
        ensures
            final(self).name matches Some(n) && n@ == name@,
            *final(self) == (VxMatrix { name: final(self).name, ..*old(self) }),
    {
        self.name = Some(name.to_owned());
    }
}

/// An opaque reference to a convolution kernel matrix.
#[derive(Debug, Eq, PartialEq, Clone)]
pub struct VxConvolution {
    /// The opaque handle; zero marks a released wrapper.
    pub raw: u64,
    /// The diagnostic name, if any.
    pub name: Option<String>,
}

impl VxConvolution {
    /// Wraps a raw handle issued by the engine.
    pub fn from_raw(raw: u64) -> (r: VxConvolution)
        ensures
            r.raw == raw,
            r.name is None,
    {
        VxConvolution { raw, name: None }
    }

    /// Whether the handle is the null handle.
    pub fn is_null(&self) -> (r: bool)
        ensures
            r <==> self.raw == 0,
    {
        self.raw == 0
    }

    /// Hands the raw handle back.
    pub fn into_raw(self) -> (r: u64)
        ensures
            r == self.raw,
    {
        self.raw
    }

    /// The reference count the engine holds for this resource: one while
    /// the wrapper owns its handle, zero once released.
    pub fn get_reference_count(&self) -> (r: u32)
        ensures
            r == 1 <==> self.raw != 0,
            r == 0 <==> self.raw == 0,
    {
        if self.raw == 0 {
            0
        } else {
            1
        }
    }
}

impl AsVxReference for VxConvolution {
    open spec fn spec_reference(&self) -> VxReference {
        VxReference { raw: self.raw, kind: RefKind::Convolution }
    }

    fn as_reference(&self) -> (r: VxReference) {
        VxReference { raw: self.raw, kind: RefKind::Convolution }
    }
}

impl Release for VxConvolution {
    open spec fn spec_released(&self) -> bool {
        self.raw == 0
    }

    fn release(&mut self) -> (r: Result<(), VxError>)
        ensures
            *final(self) == (VxConvolution { raw: 0, ..*old(self) }),
    {
        self.raw = 0;
        Ok(())
    }
}

impl CheckStatus for VxConvolution {
    open spec fn spec_status(&self) -> VxStatus {
        if self.raw == 0 {
            VxStatus::Error(VxError::InvalidReference)
        } else {
            VxStatus::Success
        }
    }

    fn check_status(&self) -> (r: Result<(), VxError>) {
        if self.raw == 0 {
            Err(VxError::InvalidReference)
        } else {
            Ok(())
        }
    }
}

impl GetName for VxConvolution {
    open spec fn spec_name(&self) -> Option<Seq<char>> {
        match self.name {
            Some(n) => Some(n@),
            None => None,
        }
    }

    fn get_name(&self) -> (r: Option<&str>) {
        match &self.name {
            Some(n) => Some(n.as_str()),
            None => None,
        }
    }
}

impl SetName for VxConvolution {
    fn set_name(&mut self, name: &str)
        ensures
            final(self).name matches Some(n) && n@ == name@,
            *final(self) == (VxConvolution { name: final(self).name, ..*old(self) }),
    {
        self.name = Some(name.to_owned());
    }
}

/// An opaque reference to an image pyramid.
#[derive(Debug, Eq, PartialEq, Clone)]
pub struct VxPyramid {
    /// The opaque handle; zero marks a released wrapper.
    pub raw: u64,
    /// The diagnostic name, if any.
    pub name: Option<String>,
}

impl VxPyramid {
    /// Wraps a raw handle issued by the engine.
    pub fn from_raw(raw: u64) -> (r: VxPyramid)
        ensures
            r.raw == raw,
            r.name is None,
    {
        VxPyramid { raw, name: None }
    }

    /// Whether the handle is the null handle.
    pub fn is_null(&self) -> (r: bool)
        ensures
            r <==> self.raw == 0,
    {
        self.raw == 0
    }

    /// Hands the raw handle back.
    pub fn into_raw(self) -> (r: u64)
        ensures
            r == self.raw,
    {
        self.raw
    }

    /// The reference count the engine holds for this resource: one while
    /// the wrapper owns its handle, zero once released.
    pub fn get_reference_count(&self) -> (r: u32)
        ensures
            r == 1 <==> self.raw != 0,
            r == 0 <==> self.raw == 0,
    {
        if self.raw == 0 {
            0
        } else {
            1
        }
    }
}

impl AsVxReference for VxPyramid {
    open spec fn spec_reference(&self) -> VxReference {
        VxReference { raw: self.raw, kind: RefKind::Pyramid }
    }

    fn as_reference(&self) -> (r: VxReference) {
        VxReference { raw: self.raw, kind: RefKind::Pyramid }
    }
}

impl Release for VxPyramid {
    open spec fn spec_released(&self) -> bool {
        self.raw == 0
    }

    fn release(&mut self) -> (r: Result<(), VxError>)
        ensures
            *final(self) == (VxPyramid { raw: 0, ..*old(self) }),
    {
        self.raw = 0;
        Ok(())
    }
}

impl CheckStatus for VxPyramid {
    open spec fn spec_status(&self) -> VxStatus {
        if self.raw == 0 {
            VxStatus::Error(VxError::InvalidReference)
        } else {
            VxStatus::Success
        }
    }

    fn check_status(&self) -> (r: Result<(), VxError>) {
        if self.raw == 0 {
            Err(VxError::InvalidReference)
        } else {
            Ok(())
        }
    }
}

impl GetName for VxPyramid {
    open spec fn spec_name(&self) -> Option<Seq<char>> {
        match self.name {
            Some(n) => Some(n@),
            None => None,
        }
    }

    fn get_name(&self) -> (r: Option<&str>) {
        match &self.name {
            Some(n) => Some(n.as_str()),
            None => None,
        }
    }
}

impl SetName for VxPyramid {
    fn set_name(&mut self, name: &str)
        ensures
            final(self).name matches Some(n) && n@ == name@,
            *final(self) == (VxPyramid { name: final(self).name, ..*old(self) }),
    {
        self.name = Some(name.to_owned());
    }
}

/// An opaque reference to a delay line of data objects.
#[derive(Debug, Eq, PartialEq, Clone)]
pub struct VxDelay {
    /// The opaque handle; zero marks a released wrapper.
    pub raw: u64,
    /// The diagnostic name, if any.
    pub name: Option<String>,
}

impl VxDelay {
    /// Wraps a raw handle issued by the engine.
    pub fn from_raw(raw: u64) -> (r: VxDelay)
        ensures
            r.raw == raw,
            r.name is None,
    {
        VxDelay { raw, name: None }
    }

    /// Whether the handle is the null handle.
    pub fn is_null(&self) -> (r: bool)
        ensures
            r <==> self.raw == 0,
    {
        self.raw == 0
    }

    /// Hands the raw handle back.
    pub fn into_raw(self) -> (r: u64)
        ensures
            r == self.raw,
    {
        self.raw
    }

    /// The reference count the engine holds for this resource: one while
    /// the wrapper owns its handle, zero once released.
    pub fn get_reference_count(&self) -> (r: u32)
        ensures
            r == 1 <==> self.raw != 0,
            r == 0 <==> self.raw == 0,
    {
        if self.raw == 0 {
            0
        } else {
            1
        }
    }
}

impl AsVxReference for VxDelay {
    open spec fn spec_reference(&self) -> VxReference {
        VxReference { raw: self.raw, kind: RefKind::Delay }
    }

    fn as_reference(&self) -> (r: VxReference) {
        VxReference { raw: self.raw, kind: RefKind::Delay }
    }
}

impl Release for VxDelay {
    open spec fn spec_released(&self) -> bool {
        self.raw == 0
    }

    fn release(&mut self) -> (r: Result<(), VxError>)
        ensures
            *final(self) == (VxDelay { raw: 0, ..*old(self) }),
    {
        self.raw = 0;
        Ok(())
    }
}

impl CheckStatus for VxDelay {
    open spec fn spec_status(&self) -> VxStatus {
        if self.raw == 0 {
            VxStatus::Error(VxError::InvalidReference)
        } else {
            VxStatus::Success
        }
    }

    fn check_status(&self) -> (r: Result<(), VxError>) {
        if self.raw == 0 {
            Err(VxError::InvalidReference)
        } else {
            Ok(())
        }
    }
}

impl GetName for VxDelay {
    open spec fn spec_name(&self) -> Option<Seq<char>> {
        match self.name {
            Some(n) => Some(n@),
            None => None,
        }
    }

    fn get_name(&self) -> (r: Option<&str>) {
        match &self.name {
            Some(n) => Some(n.as_str()),
            None => None,
        }
    }
}

impl SetName for VxDelay {
    fn set_name(&mut self, name: &str)
        ensures
            final(self).name matches Some(n) && n@ == name@,
            *final(self) == (VxDelay { name: final(self).name, ..*old(self) }),
    {
        self.name = Some(name.to_owned());
    }
}

/// An opaque reference to a histogram distribution.
#[derive(Debug, Eq, PartialEq, Clone)]
pub struct VxDistribution {
    /// The opaque handle; zero marks a released wrapper.
    pub raw: u64,
    /// The diagnostic name, if any.
    pub name: Option<String>,
}

impl VxDistribution {
    /// Wraps a raw handle issued by the engine.
    pub fn from_raw(raw: u64) -> (r: VxDistribution)
        ensures
            r.raw == raw,
            r.name is None,
    {
        VxDistribution { raw, name: None }
    }

    /// Whether the handle is the null handle.
    pub fn is_null(&self) -> (r: bool)
        ensures
            r <==> self.raw == 0,
    {
        self.raw == 0
    }

    /// Hands the raw handle back.
    pub fn into_raw(self) -> (r: u64)
        ensures
            r == self.raw,
    {
        self.raw
    }

    /// The reference count the engine holds for this resource: one while
    /// the wrapper owns its handle, zero once released.
    pub fn get_reference_count(&self) -> (r: u32)
        ensures
            r == 1 <==> self.raw != 0,
            r == 0 <==> self.raw == 0,
    {
        if self.raw == 0 {
            0
        } else {
            1
        }
    }
}

impl AsVxReference for VxDistribution {
    open spec fn spec_reference(&self) -> VxReference {
        VxReference { raw: self.raw, kind: RefKind::Distribution }
    }

    fn as_reference(&self) -> (r: VxReference) {
        VxReference { raw: self.raw, kind: RefKind::Distribution }
    }
}

impl Release for VxDistribution {
    open spec fn spec_released(&self) -> bool {
        self.raw == 0
    }

    fn release(&mut self) -> (r: Result<(), VxError>)
        ensures
            *final(self) == (VxDistribution { raw: 0, ..*old(self) }),
    {
        self.raw = 0;
        Ok(())
    }
}

impl CheckStatus for VxDistribution {
    open spec fn spec_status(&self) -> VxStatus {
        if self.raw == 0 {
            VxStatus::Error(VxError::InvalidReference)
        } else {
            VxStatus::Success
        }
    }

    fn check_status(&self) -> (r: Result<(), VxError>) {
        if self.raw == 0 {
            Err(VxError::InvalidReference)
        } else {
            Ok(())
        }
    }
}

impl GetName for VxDistribution {
    open spec fn spec_name(&self) -> Option<Seq<char>> {
        match self.name {
            Some(n) => Some(n@),
            None => None,
        }
    }

    fn get_name(&self) -> (r: Option<&str>) {
        match &self.name {
            Some(n) => Some(n.as_str()),
            None => None,
        }
    }
}

impl SetName for VxDistribution {
    fn set_name(&mut self, name: &str)
        ensures
            final(self).name matches Some(n) && n@ == name@,
            *final(self) == (VxDistribution { name: final(self).name, ..*old(self) }),
    {
        self.name = Some(name.to_owned());
    }
}

/// An opaque reference to a kernel bound by name into the engine.
#[derive(Debug, Eq, PartialEq, Clone)]
pub struct VxKernel {
    /// The opaque handle; zero marks a released wrapper.
    pub raw: u64,
    /// The diagnostic name, if any.
    pub name: Option<String>,
}

impl VxKernel {
    /// Wraps a raw handle issued by the engine.
    pub fn from_raw(raw: u64) -> (r: VxKernel)
        ensures
            r.raw == raw,
            r.name is None,
    {
        VxKernel { raw, name: None }
    }

    /// Whether the handle is the null handle.
    pub fn is_null(&self) -> (r: bool)
        ensures
            r <==> self.raw == 0,
    {
        self.raw == 0
    }

    /// Hands the raw handle back.
    pub fn into_raw(self) -> (r: u64)
        ensures
            r == self.raw,
    {
        self.raw
    }

    /// The reference count the engine holds for this resource: one while
    /// the wrapper owns its handle, zero once released.
    pub fn get_reference_count(&self) -> (r: u32)
        ensures
            r == 1 <==> self.raw != 0,
            r == 0 <==> self.raw == 0,
    {
        if self.raw == 0 {
            0
        } else {
            1
        }
    }
}

impl AsVxReference for VxKernel {
    open spec fn spec_reference(&self) -> VxReference {
        VxReference { raw: self.raw, kind: RefKind::Kernel }
    }

    fn as_reference(&self) -> (r: VxReference) {
        VxReference { raw: self.raw, kind: RefKind::Kernel }
    }
}

impl Release for VxKernel {
    open spec fn spec_released(&self) -> bool {
        self.raw == 0
    }

    fn release(&mut self) -> (r: Result<(), VxError>)
        ensures
            *final(self) == (VxKernel { raw: 0, ..*old(self) }),
    {
        self.raw = 0;
        Ok(())
    }
}

impl CheckStatus for VxKernel {
    open spec fn spec_status(&self) -> VxStatus {
        if self.raw == 0 {
            VxStatus::Error(VxError::InvalidReference)
        } else {
            VxStatus::Success
        }
    }

    fn check_status(&self) -> (r: Result<(), VxError>) {
        if self.raw == 0 {
            Err(VxError::InvalidReference)
        } else {
            Ok(())
        }
    }
}

impl GetName for VxKernel {
    open spec fn spec_name(&self) -> Option<Seq<char>> {
        match self.name {
            Some(n) => Some(n@),
            None => None,
        }
    }

    fn get_name(&self) -> (r: Option<&str>) {
        match &self.name {
            Some(n) => Some(n.as_str()),
            None => None,
        }
    }
}

impl SetName for VxKernel {
    fn set_name(&mut self, name: &str)
        ensures
            final(self).name matches Some(n) && n@ == name@,
            *final(self) == (VxKernel { name: final(self).name, ..*old(self) }),
    {
        self.name = Some(name.to_owned());
    }
}

/// An opaque reference to a parameter slot of a kernel or node.
#[derive(Debug, Eq, PartialEq, Clone)]
pub struct VxParameter {
    /// The opaque handle; zero marks a released wrapper.
    pub raw: u64,
    /// The diagnostic name, if any.
    pub name: Option<String>,
}

impl VxParameter {
    /// Wraps a raw handle issued by the engine.
    pub fn from_raw(raw: u64) -> (r: VxParameter)
        ensures
            r.raw == raw,
            r.name is None,
    {
        VxParameter { raw, name: None }
    }

    /// Whether the handle is the null handle.
    pub fn is_null(&self) -> (r: bool)
        ensures
            r <==> self.raw == 0,
    {
        self.raw == 0
    }

    /// Hands the raw handle back.
    pub fn into_raw(self) -> (r: u64)
        ensures
            r == self.raw,
    {
        self.raw
    }

    /// The reference count the engine holds for this resource: one while
    /// the wrapper owns its handle, zero once released.
    pub fn get_reference_count(&self) -> (r: u32)
        ensures
            r == 1 <==> self.raw != 0,
            r == 0 <==> self.raw == 0,
    {
        if self.raw == 0 {
            0
        } else {
            1
        }
    }
}

impl AsVxReference for VxParameter {
    open spec fn spec_reference(&self) -> VxReference {
        VxReference { raw: self.raw, kind: RefKind::Parameter }
    }

    fn as_reference(&self) -> (r: VxReference) {
        VxReference { raw: self.raw, kind: RefKind::Parameter }
    }
}

impl Release for VxParameter {
    open spec fn spec_released(&self) -> bool {
        self.raw == 0
    }

    fn release(&mut self) -> (r: Result<(), VxError>)
        ensures
            *final(self) == (VxParameter { raw: 0, ..*old(self) }),
    {
        self.raw = 0;
        Ok(())
    }
}

impl CheckStatus for VxParameter {
    open spec fn spec_status(&self) -> VxStatus {
        if self.raw == 0 {
            VxStatus::Error(VxError::InvalidReference)
        } else {
            VxStatus::Success
        }
    }

    fn check_status(&self) -> (r: Result<(), VxError>) {
        if self.raw == 0 {
            Err(VxError::InvalidReference)
        } else {
            Ok(())
        }
    }
}

impl GetName for VxParameter {
    open spec fn spec_name(&self) -> Option<Seq<char>> {
        match self.name {
            Some(n) => Some(n@),
            None => None,
        }
    }

    fn get_name(&self) -> (r: Option<&str>) {
        match &self.name {
            Some(n) => Some(n.as_str()),
            None => None,
        }
    }
}

impl SetName for VxParameter {
    fn set_name(&mut self, name: &str)
        ensures
            final(self).name matches Some(n) && n@ == name@,
            *final(self) == (VxParameter { name: final(self).name, ..*old(self) }),
    {
        self.name = Some(name.to_owned());
    }
}

} // verus!
