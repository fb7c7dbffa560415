//! Image data objects: persistent images owned by a context, virtual
//! images scoped to a graph, and the rectangle and layout descriptors of
//! the patch transfer protocol.
//!
//! An image's type metadata (format and dimensions) is fixed at creation
//! and validated at verify time. A virtual image is valid only between its
//! graph's construction and that graph's release; it has no data path of
//! its own, so stale pixel memory can never be read through one.

use crate::checkstatus::CheckStatus;
use crate::imagetype::ImageType;
use crate::name::GetName;
use crate::name::SetName;
use crate::reference::AsVxReference;
use crate::reference::RefKind;
use crate::reference::VxReference;
use crate::release::Release;
use crate::status::VxError;
use crate::status::VxStatus;
use vstd::prelude::*;

verus! {

/// The immutable descriptor of a persistent image: its handle, pixel
/// format and dimensions, all fixed at creation.
#[derive(Debug, Eq, PartialEq, Structural, Copy, Clone)]
pub struct ImageDesc {
    /// The opaque handle of the image.
    pub raw: u64,
    /// The pixel format, fixed at creation.
    pub format: ImageType,
    /// The width in pixels, fixed at creation.
    pub width: u32,
    /// The height in pixels, fixed at creation.
    pub height: u32,
}

/// A data object bound into a node parameter slot: a persistent image
/// described by its descriptor, or a virtual image named by its owning
/// graph and its index in that graph's table.
#[derive(Debug, Eq, PartialEq, Structural, Copy, Clone)]
pub enum ImageParam {
    /// A persistent image, owned by a context.
    Image(ImageDesc),
    /// A virtual image, owned by the graph whose handle is given.
    Virtual {
        /// The handle of the owning graph.
        graph: u64,
        /// The index in the owning graph's virtual-object table.
        index: usize,
    },
}

/// A persistent image data object, owned by the context that created it.
/// The pixel storage lives with the owning context; this wrapper owns the
/// handle and the fixed type metadata.
#[derive(Debug, Eq, PartialEq, Clone)]
pub struct VxImage {
    /// The opaque handle; zero marks a released wrapper.
    pub raw: u64,
    /// The handle of the owning context.
    pub context: u64,
    /// The pixel format, fixed at creation.
    pub format: ImageType,
    /// The width in pixels, fixed at creation.
    pub width: u32,
    /// The height in pixels, fixed at creation.
    pub height: u32,
    /// The diagnostic name, if any.
    pub name: Option<String>,
}

impl VxImage {
    /// Whether the handle is the null handle.
    pub fn is_null(&self) -> (r: bool)
        ensures
            r <==> self.raw == 0,
    {
        self.raw == 0
    }

    /// This image's immutable descriptor.
    pub fn desc(&self) -> (r: ImageDesc)
        ensures
            r == (ImageDesc {
                raw: self.raw,
                format: self.format,
                width: self.width,
                height: self.height,
            }),
    {
        ImageDesc { raw: self.raw, format: self.format, width: self.width, height: self.height }
    }

    /// Views this image as a node parameter.
    pub fn as_param(&self) -> (r: ImageParam)
        ensures
            r == ImageParam::Image(
                ImageDesc {
                    raw: self.raw,
                    format: self.format,
                    width: self.width,
                    height: self.height,
                },
            ),
    {
        ImageParam::Image(self.desc())
    }

    /// The reference count the engine holds for this image: one while the
    /// wrapper owns its handle, zero once released.
    pub fn get_reference_count(&self) -> (r: u32)
        ensures
            r == 1 <==> self.raw != 0,
            r == 0 <==> self.raw == 0,
    {
        if self.raw == 0 {
            0
        } else {
            1
        }
    }
}

/// A virtual image data object, owned by one graph and valid only while
/// that graph is. It carries no data path: pixel transfer against a
/// virtual image is refused, so stale memory can never be read through one.
#[derive(Debug, Eq, PartialEq, Structural, Copy, Clone)]
pub struct VxVirtualImage {
    /// The graph-scoped handle; zero marks a released wrapper.
    pub raw: u64,
    /// The handle of the owning graph.
    pub graph: u64,
    /// The index in the owning graph's virtual-object table.
    pub index: usize,
    /// The pixel format, fixed at creation; may be the virtual format.
    pub format: ImageType,
    /// The width in pixels; zero lets verification infer it.
    pub width: u32,
    /// The height in pixels; zero lets verification infer it.
    pub height: u32,
}

impl VxVirtualImage {
    /// Whether the handle is the null handle.
    pub fn is_null(&self) -> (r: bool)
        ensures
            r <==> self.raw == 0,
    {
        self.raw == 0
    }

    /// Views this virtual image as a node parameter. The parameter names
    /// the owning graph, which rejects it from any other scope.
    pub fn as_param(&self) -> (r: ImageParam)
        ensures
            r == (ImageParam::Virtual { graph: self.graph, index: self.index }),
    {
        ImageParam::Virtual { graph: self.graph, index: self.index }
    }

    /// The reference count the engine holds for this virtual image: one
    /// while the wrapper owns its handle, zero once released.
    pub fn get_reference_count(&self) -> (r: u32)
        ensures
            r == 1 <==> self.raw != 0,
            r == 0 <==> self.raw == 0,
    {
        if self.raw == 0 {
            0
        } else {
            1
        }
    }
}

/// A rectangular region of an image: start inclusive, end exclusive.
#[derive(Debug, Eq, PartialEq, Structural, Copy, Clone)]
pub struct Rect {
    /// The first column of the region.
    pub start_x: u32,
    /// The first row of the region.
    pub start_y: u32,
    /// One past the last column of the region.
    pub end_x: u32,
    /// One past the last row of the region.
    pub end_y: u32,
}

/// The stride and layout descriptor of a caller-side pixel buffer, carried
/// through the patch protocol without reinterpretation or padding.
#[derive(Debug, Eq, PartialEq, Structural, Copy, Clone)]
pub struct PatchLayout {
    /// The bytes between two pixels of one row.
    pub stride_x: i32,
    /// The bytes between two rows.
    pub stride_y: i32,
    /// The width of the addressable region, in pixels.
    pub dim_x: u32,
    /// The height of the addressable region, in pixels.
    pub dim_y: u32,
    /// The horizontal sub-sampling scale.
    pub scale_x: u32,
    /// The vertical sub-sampling scale.
    pub scale_y: u32,
    /// The horizontal pixel step.
    pub step_x: u32,
    /// The vertical pixel step.
    pub step_y: u16,
    /// The bits between two pixels of one row, for sub-byte formats.
    pub stride_x_bits: u16,
}

impl AsVxReference for VxImage {
    open spec fn spec_reference(&self) -> VxReference {
        VxReference { raw: self.raw, kind: RefKind::Image }
    }

    fn as_reference(&self) -> (r: VxReference) {
        VxReference { raw: self.raw, kind: RefKind::Image }
    }
}

impl Release for VxImage {
    open spec fn spec_released(&self) -> bool {
        self.raw == 0
    }

    fn release(&mut self) -> (r: Result<(), VxError>)
        ensures
            *final(self) == (VxImage { raw: 0, ..*old(self) }),
    {
        self.raw = 0;
        Ok(())
    }
}

impl CheckStatus for VxImage {
    open spec fn spec_status(&self) -> VxStatus {
        if self.raw == 0 {
            VxStatus::Error(VxError::InvalidReference)
        } else {
            VxStatus::Success
        }
    }

    fn check_status(&self) -> (r: Result<(), VxError>) {
        if self.raw == 0 {
            Err(VxError::InvalidReference)
        } else {
            Ok(())
        }
    }
}

impl GetName for VxImage {
    open spec fn spec_name(&self) -> Option<Seq<char>> {
        match self.name {
            Some(n) => Some(n@),
            None => None,
        }
    }

    fn get_name(&self) -> (r: Option<&str>) {
        match &self.name {
            Some(n) => Some(n.as_str()),
            None => None,
        }
    }
}

impl SetName for VxImage {
    fn set_name(&mut self, name: &str)
        ensures
            final(self).name matches Some(n) && n@ == name@,
            *final(self) == (VxImage { name: final(self).name, ..*old(self) }),
    {
        self.name = Some(name.to_owned());
    }
}

impl AsVxReference for VxVirtualImage {
    open spec fn spec_reference(&self) -> VxReference {
        VxReference { raw: self.raw, kind: RefKind::Image }
    }

    fn as_reference(&self) -> (r: VxReference) {
        VxReference { raw: self.raw, kind: RefKind::Image }
    }
}

impl Release for VxVirtualImage {
    open spec fn spec_released(&self) -> bool {
        self.raw == 0
    }

    fn release(&mut self) -> (r: Result<(), VxError>)
        ensures
            *final(self) == (VxVirtualImage { raw: 0, ..*old(self) }),
    {
        self.raw = 0;
        Ok(())
    }
}

impl CheckStatus for VxVirtualImage {
    open spec fn spec_status(&self) -> VxStatus {
        if self.raw == 0 {
            VxStatus::Error(VxError::InvalidReference)
        } else {
            VxStatus::Success
        }
    }

    fn check_status(&self) -> (r: Result<(), VxError>) {
        if self.raw == 0 {
            Err(VxError::InvalidReference)
        } else {
            Ok(())
        }
    }
}

} // verus!
