//! The context: the root resource owning an engine session.
//!
//! A context owns every top-level allocation: it issues handles, stores the
//! pixel data of the persistent images created under it, toggles the
//! logging and performance directives, and hands out graphs. Exactly one
//! context stands per independent engine session; its lifetime bounds every
//! resource created under it directly or transitively.

use crate::checkstatus::CheckStatus;
use crate::directives::VxDirective;
use crate::graph::VxGraph;
use crate::image::ImageDesc;
use crate::image::PatchLayout;
use crate::image::Rect;
use crate::image::VxImage;
use crate::imagetype::ImageType;
use crate::imagetype::image_type_pixel_bytes;
use crate::name::GetName;
use crate::name::SetName;
use crate::performance::performance_is_zero;
use crate::reference::AsRaw;
use crate::reference::AsVxReference;
use crate::reference::RefKind;
use crate::reference::VxReference;
use crate::release::Release;
use crate::status::VxError;
use crate::status::VxStatus;
use crate::threshold::VxThreshold;
use vstd::prelude::*;

verus! {

/// The largest width or height this engine model accepts for an image.
pub const VX_MAX_IMAGE_DIMENSION: u32 = 16384;

/// One persistent image as the owning context stores it: the immutable
/// descriptor, the populated flag, and the pixel bytes for single-plane
/// formats.
#[derive(Debug, Eq, PartialEq, Clone)]
pub struct ImageRec {
    /// The immutable descriptor of the image.
    pub desc: ImageDesc,
    /// Whether any write or any graph execution has populated the image.
    pub populated: bool,
    /// The pixel bytes, row-major; empty for formats without a single
    /// per-pixel byte width.
    pub data: Vec<u8>,
}

/// The bytes a context allocates for an image of the given descriptor:
/// width times height times the per-pixel bytes, or none for formats
/// without a single per-pixel byte width.
pub open spec fn image_buffer_len(desc: ImageDesc) -> int {
    match image_type_pixel_bytes(desc.format) {
        Some(bpp) => desc.width * desc.height * bpp,
        None => 0,
    }
}

/// Whether an image descriptor is one a context can have issued: a
/// non-null handle, a concrete named format, and dimensions between one
/// and the model's maximum.
pub open spec fn image_desc_wf(desc: ImageDesc) -> bool {
    &&& desc.raw != 0
    &&& !(desc.format is Virtual)
    &&& !(desc.format is Other)
    &&& 1 <= desc.width <= VX_MAX_IMAGE_DIMENSION
    &&& 1 <= desc.height <= VX_MAX_IMAGE_DIMENSION
}

/// The root resource owning an engine session.
#[derive(Debug, Eq, PartialEq, Clone)]
pub struct VxContext {
    /// The opaque handle; zero marks a released wrapper.
    pub raw: u64,
    /// The next handle this context will issue.
    pub next_handle: u64,
    /// The persistent images created under this context, in creation
    /// order.
    pub images: Vec<ImageRec>,
    /// Whether the logging directive is enabled.
    pub logging_enabled: bool,
    /// Whether the performance-counter directive is enabled. Disabled by
    /// default.
    pub perf_enabled: bool,
    /// The diagnostic name, if any.
    pub name: Option<String>,
}

impl VxContext {
    /// The well-formedness of a context: every stored image has a
    /// well-formed descriptor, a buffer of exactly the declared length and
    /// a handle below the next one to be issued, no two stored images
    /// share a handle, and the next handle is positive.
    pub open spec fn wf(&self) -> bool {
        &&& self.next_handle >= 1
        &&& forall|i: int|
            0 <= i < self.images@.len() ==> image_desc_wf(#[trigger] self.images@[i].desc)
                && self.images@[i].data@.len() == image_buffer_len(self.images@[i].desc)
                && self.images@[i].desc.raw < self.next_handle
        &&& forall|i: int, j: int|
            0 <= i < j < self.images@.len() ==> #[trigger] self.images@[i].desc.raw
                != #[trigger] self.images@[j].desc.raw
    }

    /// Obtains a fresh root resource under the first session id. In this
    /// model creation always succeeds; an engine would fail only on
    /// catastrophic allocation failure, surfaced as a null handle.
    pub fn create() -> (r: VxContext)
        ensures
            r.wf(),
            r.raw == 1,
            r.next_handle == 2,
            r.images@.len() == 0,
            !r.logging_enabled,
            !r.perf_enabled,
            r.name is None,
    {
        Self::create_with_session(1)
    }

    /// Obtains a fresh root resource under the given session id, which
    /// becomes its handle. The engine issues every context a distinct
    /// opaque handle; this model asks the caller to number independent
    /// sessions distinctly instead, so that a resource of one session is
    /// recognisably out of scope in another.
    pub fn create_with_session(session: u64) -> (r: VxContext)
        requires
            0 < session < u64::MAX,
        ensures
            r.wf(),
            r.raw == session,
            r.next_handle == session + 1,
            r.images@.len() == 0,
            !r.logging_enabled,
            !r.perf_enabled,
            r.name is None,
    {
        VxContext {
            raw: session,
            next_handle: session + 1,
            images: Vec::new(),
            logging_enabled: false,
            perf_enabled: false,
            name: None,
        }
    }

    /// Whether the handle is the null handle.
    pub fn is_null(&self) -> (r: bool)
        ensures
            r <==> self.raw == 0,
    {
        self.raw == 0
    }

    /// Applies a directive to this context. A context accepts all four
    /// named directives, the performance ones included; an unknown
    /// directive is refused as unsupported, and a released context refuses
    /// everything.
    pub fn set_directive(&mut self, directive: VxDirective) -> (r: Result<(), VxError>)
        ensures
            old(self).raw == 0 ==> r == Err::<(), VxError>(VxError::InvalidReference)
                && *final(self) == *old(self),
            old(self).raw != 0 && directive is Other ==> r == Err::<(), VxError>(
                VxError::NotSupported,
            ) && *final(self) == *old(self),
            old(self).raw != 0 && !(directive is Other) ==> r == Ok::<(), VxError>(()),
            old(self).raw != 0 ==> *final(self) == (VxContext {
                logging_enabled: if directive is EnableLogging {
                    true
                } else if directive is DisableLogging {
                    false
                } else {
                    old(self).logging_enabled
                },
                perf_enabled: if directive is EnablePerformance {
                    true
                } else if directive is DisablePerformance {
                    false
                } else {
                    old(self).perf_enabled
                },
                ..*old(self)
            }),
    {
        if self.raw == 0 {
            return Err(VxError::InvalidReference);
        }
        match directive {
            VxDirective::DisableLogging => {
                self.logging_enabled = false;
                Ok(())
            },
            VxDirective::EnableLogging => {
                self.logging_enabled = true;
                Ok(())
            },
            VxDirective::DisablePerformance => {
                self.perf_enabled = false;
                Ok(())
            },
            VxDirective::EnablePerformance => {
                self.perf_enabled = true;
                Ok(())
            },
            VxDirective::Other { .. } => Err(VxError::NotSupported),
        }
    }

    /// Enables recording information for graph debugging.
    pub fn enable_logging(&mut self) -> (r: Result<(), VxError>)
        ensures
            old(self).raw == 0 ==> r == Err::<(), VxError>(VxError::InvalidReference)
                && *final(self) == *old(self),
            old(self).raw != 0 ==> r == Ok::<(), VxError>(()) && *final(self) == (VxContext {
                logging_enabled: true,
                ..*old(self)
            }),
    {
        self.set_directive(VxDirective::EnableLogging)
    }

    /// Disables recording information for graph debugging.
    pub fn disable_logging(&mut self) -> (r: Result<(), VxError>)
        ensures
            old(self).raw == 0 ==> r == Err::<(), VxError>(VxError::InvalidReference)
                && *final(self) == *old(self),
            old(self).raw != 0 ==> r == Ok::<(), VxError>(()) && *final(self) == (VxContext {
                logging_enabled: false,
                ..*old(self)
            }),
    {
        self.set_directive(VxDirective::DisableLogging)
    }

    /// Enables performance counters for the context.
    pub fn enable_performance_counters(&mut self) -> (r: Result<(), VxError>)
        ensures
            old(self).raw == 0 ==> r == Err::<(), VxError>(VxError::InvalidReference)
                && *final(self) == *old(self),
            old(self).raw != 0 ==> r == Ok::<(), VxError>(()) && *final(self) == (VxContext {
                perf_enabled: true,
                ..*old(self)
            }),
    {
        self.set_directive(VxDirective::EnablePerformance)
    }

    /// Disables performance counters for the context. By default
    /// performance counters are disabled.
    pub fn disable_performance_counters(&mut self) -> (r: Result<(), VxError>)
        ensures
            old(self).raw == 0 ==> r == Err::<(), VxError>(VxError::InvalidReference)
                && *final(self) == *old(self),
            old(self).raw != 0 ==> r == Ok::<(), VxError>(()) && *final(self) == (VxContext {
                perf_enabled: false,
                ..*old(self)
            }),
    {
        self.set_directive(VxDirective::DisablePerformance)
    }

    /// The reference count the engine holds for this context: one while
    /// the wrapper owns its handle, zero once released.
    pub fn get_reference_count(&self) -> (r: u32)
        ensures
            r == 1 <==> self.raw != 0,
            r == 0 <==> self.raw == 0,
    {
        if self.raw == 0 {
            0
        } else {
            1
        }
    }

    /// Creates a persistent image of the given format and dimensions.
    ///
    /// Fails with `InvalidReference` on a released context, with
    /// `InvalidFormat` for the virtual format or an unknown format, with
    /// `InvalidDimension` when a dimension is zero or above the model's
    /// maximum, and with `NoResources` when the handle space is exhausted;
    /// each failure leaves the context unchanged. On success the image is
    /// recorded under a fresh handle with a zeroed, unpopulated buffer.
    pub fn create_image(&mut self, format: ImageType, width: u32, height: u32) -> (r: Result<
        VxImage,
        VxError,
    >)
        requires
            old(self).wf(),
        ensures
            final(self).wf(),
            old(self).raw == 0 ==> r == Err::<VxImage, VxError>(VxError::InvalidReference)
                && *final(self) == *old(self),
            old(self).raw != 0 && (format is Virtual || format is Other) ==> r == Err::<
                VxImage,
                VxError,
            >(VxError::InvalidFormat) && *final(self) == *old(self),
            old(self).raw != 0 && !(format is Virtual) && !(format is Other) && !(1 <= width
                <= VX_MAX_IMAGE_DIMENSION && 1 <= height <= VX_MAX_IMAGE_DIMENSION) ==> r == Err::<
                VxImage,
                VxError,
            >(VxError::InvalidDimension) && *final(self) == *old(self),
            old(self).raw != 0 && !(format is Virtual) && !(format is Other) && (1 <= width
                <= VX_MAX_IMAGE_DIMENSION && 1 <= height <= VX_MAX_IMAGE_DIMENSION) && old(self).next_handle == u64::MAX ==> r == Err::<VxImage, VxError>(VxError::NoResources)
                && *final(self) == *old(self),
            old(self).raw != 0 && !(format is Virtual) && !(format is Other) && (1 <= width
                <= VX_MAX_IMAGE_DIMENSION && 1 <= height <= VX_MAX_IMAGE_DIMENSION) && old(self).next_handle < u64::MAX ==> (r matches Ok(img) && img.raw == old(self).next_handle
                && img.context == old(self).raw && img.format == format && img.width == width
                && img.height == height && img.name is None && final(self).next_handle == old(self).next_handle + 1 && final(self).images@.len() == old(self).images@.len() + 1 && final(self).images@.last().desc == (ImageDesc {
                raw: old(self).next_handle,
                format,
                width,
                height,
            }) && final(self).images@.last().populated == false && final(self).images@.last().data@
                =~= Seq::new(image_buffer_len(final(self).images@.last().desc) as nat, |i: int| 0u8)
                && final(self).images@.subrange(0, old(self).images@.len() as int) =~= old(self).images@ && final(self).raw == old(self).raw && final(self).logging_enabled == old(self).logging_enabled && final(self).perf_enabled == old(self).perf_enabled && final(self).name == old(self).name),
    {
        if self.raw == 0 {
            return Err(VxError::InvalidReference);
        }
        if matches!(format, ImageType::Virtual) || matches!(format, ImageType::Other { .. }) {
            return Err(VxError::InvalidFormat);
        }
        if width < 1 || width > VX_MAX_IMAGE_DIMENSION || height < 1 || height
            > VX_MAX_IMAGE_DIMENSION {
            return Err(VxError::InvalidDimension);
        }
        if self.next_handle == u64::MAX {
            return Err(VxError::NoResources);
        }
        let raw = self.next_handle;
        self.next_handle = self.next_handle + 1;
        let desc = ImageDesc { raw, format, width, height };
        let buflen: usize = match format.pixel_bytes() {
            Some(bpp) => {
                proof {
                    assert((width as int) * (height as int) <= 0x10000000int) by (nonlinear_arith)
                        requires
                            1 <= width <= 16384,
                            1 <= height <= 16384,
                    ;
                    assert((width as int) * (height as int) * (bpp as int) <= 0x40000000int)
                        by (nonlinear_arith)
                        requires
                            (width as int) * (height as int) <= 0x10000000,
                            1 <= width,
                            1 <= height,
                            1 <= bpp <= 4,
                    ;
                }
                (width as usize) * (height as usize) * bpp
            },
            None => 0,
        };
        let data = zero_bytes(buflen);
        self.images.push(ImageRec { desc, populated: false, data });
        Ok(
            VxImage {
                raw,
                context: self.raw,
                format,
                width,
                height,
                name: None,
            },
        )
    }

    /// Creates a threshold of the given value type and element type.
    ///
    /// Fails with `InvalidReference` on a released context, with
    /// `InvalidType` when the value type is neither binary nor range or
    /// the element type is not an integral scalar type, and with
    /// `NoResources` when the handle space is exhausted. On success the
    /// threshold starts with zero bounds, TRUE value 255 and FALSE value 0.
    pub fn create_threshold(&mut self, thresh_type: i32, data_type: u32) -> (r: Result<
        VxThreshold,
        VxError,
    >)
        ensures
            old(self).raw == 0 ==> r == Err::<VxThreshold, VxError>(VxError::InvalidReference)
                && *final(self) == *old(self),
            old(self).raw != 0 && !(thresh_type == crate::attribute::VX_THRESHOLD_TYPE_BINARY
                || thresh_type == crate::attribute::VX_THRESHOLD_TYPE_RANGE) ==> r == Err::<
                VxThreshold,
                VxError,
            >(VxError::InvalidType) && *final(self) == *old(self),
            old(self).raw != 0 && (thresh_type == crate::attribute::VX_THRESHOLD_TYPE_BINARY
                || thresh_type == crate::attribute::VX_THRESHOLD_TYPE_RANGE) && !(1 <= data_type
                <= 9) ==> r == Err::<VxThreshold, VxError>(VxError::InvalidType) && *final(self)
                == *old(self),
            old(self).raw != 0 && (thresh_type == crate::attribute::VX_THRESHOLD_TYPE_BINARY
                || thresh_type == crate::attribute::VX_THRESHOLD_TYPE_RANGE) && (1 <= data_type
                <= 9) && old(self).next_handle == u64::MAX ==> r == Err::<VxThreshold, VxError>(
                VxError::NoResources,
            ) && *final(self) == *old(self),
            old(self).raw != 0 && (thresh_type == crate::attribute::VX_THRESHOLD_TYPE_BINARY
                || thresh_type == crate::attribute::VX_THRESHOLD_TYPE_RANGE) && (1 <= data_type
                <= 9) && old(self).next_handle < u64::MAX ==> (r matches Ok(t) && t == (VxThreshold {
                raw: old(self).next_handle,
                context: old(self).raw,
                thresh_type,
                data_type,
                value: 0,
                lower: 0,
                upper: 0,
                true_value: 255,
                false_value: 0,
                name: None,
            }) && *final(self) == (VxContext {
                next_handle: (old(self).next_handle + 1) as u64,
                ..*old(self)
            })),
    {
        if self.raw == 0 {
            return Err(VxError::InvalidReference);
        }
        if !(thresh_type == crate::attribute::VX_THRESHOLD_TYPE_BINARY || thresh_type
            == crate::attribute::VX_THRESHOLD_TYPE_RANGE) {
            return Err(VxError::InvalidType);
        }
        if data_type < 1 || data_type > 9 {
            return Err(VxError::InvalidType);
        }
        if self.next_handle == u64::MAX {
            return Err(VxError::NoResources);
        }
        let raw = self.next_handle;
        self.next_handle = self.next_handle + 1;
        Ok(
            VxThreshold {
                raw,
                context: self.raw,
                thresh_type,
                data_type,
                value: 0,
                lower: 0,
                upper: 0,
                true_value: 255,
                false_value: 0,
                name: None,
            },
        )
    }

    /// Creates a graph logically scoped to this context. A graph with a
    /// null handle marks a failed allocation: the engine reports creation
    /// failures through the handle, checked separately via the status
    /// query.
    pub fn create_graph(&mut self) -> (r: VxGraph)
        ensures
            r.context == old(self).raw,
            r.state is Unverified,
            r.nodes@.len() == 0,
            r.virtuals@.len() == 0,
            performance_is_zero(r.perf),
            r.name is None,
            old(self).raw == 0 || old(self).next_handle == u64::MAX ==> r.raw == 0 && *final(self)
                == *old(self),
            old(self).raw != 0 && old(self).next_handle < u64::MAX ==> r.raw == old(
                self,
            ).next_handle && *final(self) == (VxContext {
                next_handle: (old(self).next_handle + 1) as u64,
                ..*old(self)
            }),
    {
        if self.raw == 0 || self.next_handle == u64::MAX {
            return VxGraph::construct(0, self.raw);
        }
        let raw = self.next_handle;
        self.next_handle = self.next_handle + 1;
        VxGraph::construct(raw, self.raw)
    }

    /// Whether this context stores an image under the given handle.
    pub(crate) fn has_image(&self, raw: u64) -> (r: bool)
        ensures
            r <==> image_live(self.images@, raw),
    {
        match self.find_image(raw) {
            Some(_) => true,
            None => false,
        }
    }

    /// Marks the image stored under the given handle, if any, as
    /// populated; everything else stays as it was.
    pub(crate) fn mark_image_populated(&mut self, raw: u64)
        requires
            old(self).wf(),
        ensures
            final(self).wf(),
            final(self).images@.len() == old(self).images@.len(),
            forall|k: int|
                0 <= k < old(self).images@.len() ==> #[trigger] final(self).images@[k].desc == old(
                    self,
                ).images@[k].desc && final(self).images@[k].data == old(self).images@[k].data
                    && final(self).images@[k].populated == (old(self).images@[k].populated || old(
                    self,
                ).images@[k].desc.raw == raw),
            final(self).raw == old(self).raw,
            final(self).next_handle == old(self).next_handle,
            final(self).logging_enabled == old(self).logging_enabled,
            final(self).perf_enabled == old(self).perf_enabled,
            final(self).name == old(self).name,
    {
        let k = match self.find_image(raw) {
            Some(k) => k,
            None => {
                return ;
            },
        };
        let mut rec = self.images.remove(k);
        rec.populated = true;
        self.images.insert(k, rec);
        proof {
            assert(final(self).images@ =~= old(self).images@.update(
                k as int,
                final(self).images@[k as int],
            ));
            assert forall|k2: int|
                0 <= k2 < old(self).images@.len() && #[trigger] old(
                    self,
                ).images@[k2].desc.raw == raw implies k2 == k by {
                if k2 < k as int {
                    assert(old(self).images@[k2].desc.raw != old(self).images@[k as int].desc.raw);
                } else if k2 > k as int {
                    assert(old(self).images@[k as int].desc.raw != old(self).images@[k2].desc.raw);
                }
            }
        }
    }

    /// Finds the index of the stored image with the given handle.
    fn find_image(&self, raw: u64) -> (r: Option<usize>)
        ensures
            r matches Some(i) ==> i < self.images@.len() && self.images@[i as int].desc.raw == raw,
            r is None ==> forall|i: int|
                0 <= i < self.images@.len() ==> #[trigger] self.images@[i].desc.raw != raw,
    {
        let mut i: usize = 0;
        while i < self.images.len()
            invariant
                i <= self.images@.len(),
                forall|k: int| 0 <= k < i ==> #[trigger] self.images@[k].desc.raw != raw,
            decreases self.images@.len() - i,
        {
            if self.images[i].desc.raw == raw {
                return Some(i);
            }
            i = i + 1;
        }
        None
    }

    /// Whether a write or a graph execution has populated the image.
    ///
    /// Fails with `InvalidReference` on a released context, a released
    /// image, or a handle this context did not issue, and with
    /// `InvalidScope` for an image of another context.
    pub fn is_image_populated(&self, image: &VxImage) -> (r: Result<bool, VxError>)
        ensures
            self.raw == 0 || image.raw == 0 ==> r == Err::<bool, VxError>(
                VxError::InvalidReference,
            ),
            self.raw != 0 && image.raw != 0 && image.context != self.raw ==> r == Err::<
                bool,
                VxError,
            >(VxError::InvalidScope),
            self.raw != 0 && image.raw != 0 && image.context == self.raw ==> (match r {
                Ok(p) => exists|i: int|
                    0 <= i < self.images@.len() && #[trigger] self.images@[i].desc.raw == image.raw
                        && p == self.images@[i].populated,
                Err(e) => e == VxError::InvalidReference && forall|i: int|
                    0 <= i < self.images@.len() ==> #[trigger] self.images@[i].desc.raw
                        != image.raw,
            }),
    {
        if self.raw == 0 || image.raw == 0 {
            return Err(VxError::InvalidReference);
        }
        if image.context != self.raw {
            return Err(VxError::InvalidScope);
        }
        match self.find_image(image.raw) {
            Some(i) => Ok(self.images[i].populated),
            None => Err(VxError::InvalidReference),
        }
    }
}

/// Whether a sequence of stored images holds one under the given handle.
pub open spec fn image_live(images: Seq<ImageRec>, raw: u64) -> bool {
    exists|i: int| 0 <= i < images.len() && #[trigger] images[i].desc.raw == raw
}

/// Whether a linear buffer index of an image falls inside a rectangular
/// region: its row and column, recovered from the row-major layout, lie
/// between the region's bounds.
pub open spec fn patch_covered(i: int, width: int, bpp: int, rect: Rect) -> bool {
    let y = i / (width * bpp);
    let x = (i % (width * bpp)) / bpp;
    rect.start_y <= y < rect.end_y && rect.start_x <= x < rect.end_x
}

/// The index in a caller-side buffer of the byte that lands at a covered
/// linear image index: rows advance by the caller's stride, pixels by the
/// pixel width.
pub open spec fn patch_source_index(i: int, width: int, bpp: int, rect: Rect, stride_y: int) -> int {
    let y = i / (width * bpp);
    let rem = i % (width * bpp);
    let x = rem / bpp;
    let b = rem % bpp;
    (y - rect.start_y) * stride_y + (x - rect.start_x) * bpp + b
}

/// An image buffer after a rectangular region has been written from a
/// caller-side buffer: covered bytes come from the caller, all others stay.
pub open spec fn patched_data(
    dst: Seq<u8>,
    src: Seq<u8>,
    width: int,
    bpp: int,
    rect: Rect,
    stride_y: int,
) -> Seq<u8> {
    Seq::new(
        dst.len(),
        |i: int|
            if patch_covered(i, width, bpp, rect) {
                src[patch_source_index(i, width, bpp, rect, stride_y)]
            } else {
                dst[i]
            },
    )
}

/// The index in an image buffer of the byte that a tightly packed read of
/// a rectangular region places at position `j`: packed rows of the region
/// follow each other without padding.
pub open spec fn packed_source_index(j: int, width: int, bpp: int, rect: Rect) -> int {
    let rowlen = (rect.end_x - rect.start_x) * bpp;
    let y = j / rowlen;
    let rem = j % rowlen;
    ((rect.start_y + y) * width + rect.start_x) * bpp + rem
}

/// Whether a rectangle selects a non-empty region inside an image of the
/// given dimensions.
pub open spec fn rect_within(rect: Rect, width: u32, height: u32) -> bool {
    rect.start_x < rect.end_x && rect.start_y < rect.end_y && rect.end_x <= width && rect.end_y
        <= height
}

/// Whether a caller-side layout can carry a write of the given region: the
/// pixel stride equals the pixel width and the row stride covers a packed
/// row of the region.
pub open spec fn layout_fits_rect(layout: PatchLayout, rect: Rect, bpp: int) -> bool {
    layout.stride_x == bpp && layout.stride_y >= (rect.end_x - rect.start_x) * bpp
}

impl VxContext {
    /// Writes a rectangular region of pixel bytes into a persistent image
    /// from a caller-side buffer described by a stride layout. The layout
    /// is honoured exactly as given, never reinterpreted or padded.
    ///
    /// Fails with `InvalidReference` on a released context, a released
    /// image or a handle this context did not issue; with `InvalidScope`
    /// for an image of another context; with `NotSupported` for a format
    /// without a single per-pixel byte width; and with `InvalidParameters`
    /// for a rectangle outside the image, a layout whose pixel stride is
    /// not the pixel width or whose row stride cannot carry a region row,
    /// or a buffer shorter than the region the layout describes. Each
    /// failure leaves the context unchanged. On success exactly the
    /// covered bytes change and the image counts as populated.
    pub fn write_image_patch(
        &mut self,
        image: &VxImage,
        rect: &Rect,
        layout: &PatchLayout,
        data: &Vec<u8>,
    ) -> (r: Result<(), VxError>)
        requires
            old(self).wf(),
        ensures
            final(self).wf(),
            r is Err ==> *final(self) == *old(self),
            old(self).raw == 0 || image.raw == 0 ==> r == Err::<(), VxError>(
                VxError::InvalidReference,
            ),
            old(self).raw != 0 && image.raw != 0 && image.context != old(self).raw ==> r == Err::<
                (),
                VxError,
            >(VxError::InvalidScope),
            old(self).raw != 0 && image.raw != 0 && image.context == old(self).raw && (forall|
                k: int,
            |
                0 <= k < old(self).images@.len() ==> #[trigger] old(self).images@[k].desc.raw
                    != image.raw) ==> r == Err::<(), VxError>(VxError::InvalidReference),
            old(self).raw != 0 && image.raw != 0 && image.context == old(self).raw ==> forall|
                k: int,
            |
                0 <= k < old(self).images@.len() && #[trigger] old(self).images@[k].desc.raw
                    == image.raw ==> {
                    let desc = old(self).images@[k].desc;
                    match image_type_pixel_bytes(desc.format) {
                        None => r == Err::<(), VxError>(VxError::NotSupported),
                        Some(bpp) => {
                            if !rect_within(*rect, desc.width, desc.height) {
                                r == Err::<(), VxError>(VxError::InvalidParameters)
                            } else if !layout_fits_rect(*layout, *rect, bpp as int) {
                                r == Err::<(), VxError>(VxError::InvalidParameters)
                            } else if data@.len() < (rect.end_y - rect.start_y)
                                * layout.stride_y {
                                r == Err::<(), VxError>(VxError::InvalidParameters)
                            } else {
                                r == Ok::<(), VxError>(()) && final(self).images@.len() == old(self).images@.len() && (forall|m: int|
                                    0 <= m < old(self).images@.len() && m != k
                                        ==> #[trigger] final(self).images@[m] == old(self).images@[m]) && final(self).images@[k].desc == desc && final(self).images@[k].populated && final(self).images@[k].data@
                                    =~= patched_data(
                                    old(self).images@[k].data@,
                                    data@,
                                    desc.width as int,
                                    bpp as int,
                                    *rect,
                                    layout.stride_y as int,
                                ) && final(self).raw == old(self).raw && final(self).next_handle
                                    == old(self).next_handle && final(self).logging_enabled == old(self).logging_enabled && final(self).perf_enabled == old(self).perf_enabled && final(self).name == old(self).name
                            }
                        },
                    }
                },
    {
        if self.raw == 0 || image.raw == 0 {
            return Err(VxError::InvalidReference);
        }
        if image.context != self.raw {
            return Err(VxError::InvalidScope);
        }
        let k = match self.find_image(image.raw) {
            Some(k) => k,
            None => {
                return Err(VxError::InvalidReference);
            },
        };
        let desc = self.images[k].desc;
        let bpp: usize = match desc.format.pixel_bytes() {
            Some(b) => b,
            None => {
                return Err(VxError::NotSupported);
            },
        };
        if !(rect.start_x < rect.end_x && rect.start_y < rect.end_y && rect.end_x <= desc.width
            && rect.end_y <= desc.height) {
            return Err(VxError::InvalidParameters);
        }
        let rw: usize = (rect.end_x - rect.start_x) as usize;
        let rh: usize = (rect.end_y - rect.start_y) as usize;
        proof {
            assert((rw as int) * (bpp as int) <= 65536int) by (nonlinear_arith)
                requires
                    rw <= 16384,
                    bpp <= 4,
            ;
        }
        if !(layout.stride_x >= 0 && layout.stride_x as usize == bpp && layout.stride_y >= 0
            && layout.stride_y as usize >= rw * bpp) {
            return Err(VxError::InvalidParameters);
        }
        let stride: usize = layout.stride_y as usize;
        proof {
            assert((rh as int) * (stride as int) <= 0x4000_0000_0000int) by (nonlinear_arith)
                requires
                    rh <= 16384,
                    stride <= 0x8000_0000,
            ;
        }
        if (data.len() as u64) < (rh as u64) * (stride as u64) {
            return Err(VxError::InvalidParameters);
        }
        let width: usize = desc.width as usize;
        proof {
            assert(1int <= (width as int) * (bpp as int) <= 65536int) by (nonlinear_arith)
                requires
                    1 <= width <= 16384,
                    1 <= bpp <= 4,
            ;
        }
        let rowbytes: usize = width * bpp;
        let len: usize = self.images[k].data.len();
        let ghost old_data: Seq<u8> = self.images@[k as int].data@;
        let mut newbuf: Vec<u8> = Vec::new();
        let mut i: usize = 0;
        while i < len
            invariant
                self == old(self),
                old(self).wf(),
                k < self.images@.len(),
                i <= len,
                len == old_data.len(),
                old_data == self.images@[k as int].data@,
                rowbytes == (desc.width as int) * (bpp as int),
                rowbytes >= 1,
                desc == self.images@[k as int].desc,
                image_type_pixel_bytes(desc.format) == Some(bpp),
                1 <= bpp <= 4,
                1 <= desc.width <= 16384,
                1 <= desc.height <= 16384,
                rect.start_x < rect.end_x <= desc.width,
                rect.start_y < rect.end_y <= desc.height,
                rw == rect.end_x - rect.start_x,
                rh == rect.end_y - rect.start_y,
                rw * bpp <= stride,
                stride <= 0x8000_0000,
                data@.len() >= (rh as int) * (stride as int),
                data@.len() <= usize::MAX,
                newbuf@ =~= patched_data(
                    old_data,
                    data@,
                    desc.width as int,
                    bpp as int,
                    *rect,
                    stride as int,
                ).take(i as int),
            decreases len - i,
        {
            let y: usize = i / rowbytes;
            let rem: usize = i % rowbytes;
            let x: usize = rem / bpp;
            let b: usize = rem % bpp;
            let covered = rect.start_y as usize <= y && y < rect.end_y as usize
                && rect.start_x as usize <= x && x < rect.end_x as usize;
            if covered {
                proof {
                    assert((y - rect.start_y) * (stride as int) <= (rh - 1) * (stride as int))
                        by (nonlinear_arith)
                        requires
                            y - rect.start_y <= rh - 1,
                            stride >= 0,
                    ;
                    assert((x - rect.start_x) * (bpp as int) + (b as int) < (rw as int) * (
                    bpp as int)) by (nonlinear_arith)
                        requires
                            0 <= x - rect.start_x <= rw - 1,
                            0 <= b < bpp,
                            1 <= bpp,
                    ;
                    assert((rh - 1) * (stride as int) + (stride as int) == (rh as int) * (
                    stride as int)) by (nonlinear_arith);
                    assert(((y - rect.start_y as usize) as int) * (stride as int) == (y
                        - rect.start_y) * (stride as int));
                    assert(((x - rect.start_x as usize) as int) * (bpp as int) == (x
                        - rect.start_x) * (bpp as int));
                    assert((x - rect.start_x) * (bpp as int) + (b as int) < (stride as int));
                    assert((y - rect.start_y) * (stride as int) + (x - rect.start_x) * (bpp as int)
                        + (b as int) < (rh as int) * (stride as int));
                }
                let s: usize = (y - rect.start_y as usize) * stride + (x - rect.start_x as usize)
                    * bpp + b;
                newbuf.push(data[s]);
            } else {
                newbuf.push(self.images[k].data[i]);
            }
            proof {
                let full = patched_data(
                    old_data,
                    data@,
                    desc.width as int,
                    bpp as int,
                    *rect,
                    stride as int,
                );
                assert(full[i as int] == newbuf@.last());
                assert(newbuf@ =~= full.take(i + 1));
            }
            i = i + 1;
        }
        proof {
            let full = patched_data(
                old_data,
                data@,
                desc.width as int,
                bpp as int,
                *rect,
                stride as int,
            );
            assert(newbuf@ =~= full);
        }
        let mut rec = self.images.remove(k);
        rec.populated = true;
        rec.data = newbuf;
        self.images.insert(k, rec);
        proof {
            assert(final(self).images@ =~= old(self).images@.update(
                k as int,
                final(self).images@[k as int],
            ));
            assert forall|k2: int|
                0 <= k2 < old(self).images@.len() && #[trigger] old(self).images@[k2].desc.raw == image.raw implies k2 == k by {
                if k2 < k as int {
                    assert(old(self).images@[k2].desc.raw != old(self).images@[k as int].desc.raw);
                } else if k2 > k as int {
                    assert(old(self).images@[k as int].desc.raw != old(self).images@[k2].desc.raw);
                }
            }
        }
        Ok(())
    }

    /// Reads a rectangular region of pixel bytes out of a persistent
    /// image, packed row by row without padding.
    ///
    /// Fails with `InvalidReference` on a released context, a released
    /// image or a handle this context did not issue; with `InvalidScope`
    /// for an image of another context; with `NotSupported` for a format
    /// without a single per-pixel byte width; and with `InvalidParameters`
    /// for a rectangle outside the image.
    pub fn read_image_patch(&self, image: &VxImage, rect: &Rect) -> (r: Result<Vec<u8>, VxError>)
        requires
            self.wf(),
        ensures
            self.raw == 0 || image.raw == 0 ==> r == Err::<Vec<u8>, VxError>(
                VxError::InvalidReference,
            ),
            self.raw != 0 && image.raw != 0 && image.context != self.raw ==> r == Err::<
                Vec<u8>,
                VxError,
            >(VxError::InvalidScope),
            self.raw != 0 && image.raw != 0 && image.context == self.raw && (forall|k: int|
                0 <= k < self.images@.len() ==> #[trigger] self.images@[k].desc.raw != image.raw)
                ==> r == Err::<Vec<u8>, VxError>(VxError::InvalidReference),
            self.raw != 0 && image.raw != 0 && image.context == self.raw ==> forall|k: int|
                0 <= k < self.images@.len() && #[trigger] self.images@[k].desc.raw == image.raw
                    ==> {
                    let desc = self.images@[k].desc;
                    match image_type_pixel_bytes(desc.format) {
                        None => r == Err::<Vec<u8>, VxError>(VxError::NotSupported),
                        Some(bpp) => {
                            if !rect_within(*rect, desc.width, desc.height) {
                                r == Err::<Vec<u8>, VxError>(VxError::InvalidParameters)
                            } else {
                                r matches Ok(out) && out@.len() == (rect.end_y - rect.start_y) * (
                                rect.end_x - rect.start_x) * bpp && forall|j: int|
                                    0 <= j < out@.len() ==> #[trigger] out@[j]
                                        == self.images@[k].data@[packed_source_index(
                                        j,
                                        desc.width as int,
                                        bpp as int,
                                        *rect,
                                    )]
                            }
                        },
                    }
                },
    {
        if self.raw == 0 || image.raw == 0 {
            return Err(VxError::InvalidReference);
        }
        if image.context != self.raw {
            return Err(VxError::InvalidScope);
        }
        let k = match self.find_image(image.raw) {
            Some(k) => k,
            None => {
                return Err(VxError::InvalidReference);
            },
        };
        let desc = self.images[k].desc;
        let bpp: usize = match desc.format.pixel_bytes() {
            Some(b) => b,
            None => {
                return Err(VxError::NotSupported);
            },
        };
        if !(rect.start_x < rect.end_x && rect.start_y < rect.end_y && rect.end_x <= desc.width
            && rect.end_y <= desc.height) {
            return Err(VxError::InvalidParameters);
        }
        let rw: usize = (rect.end_x - rect.start_x) as usize;
        let rh: usize = (rect.end_y - rect.start_y) as usize;
        proof {
            assert(1int <= (rw as int) * (bpp as int) <= 65536int) by (nonlinear_arith)
                requires
                    1 <= rw <= 16384,
                    1 <= bpp <= 4,
            ;
        }
        let rowlen: usize = rw * bpp;
        proof {
            assert((rh as int) * (rowlen as int) <= 0x4000_0000int) by (nonlinear_arith)
                requires
                    rh <= 16384,
                    rowlen <= 65536,
            ;
        }
        let total: usize = rh * rowlen;
        let width: usize = desc.width as usize;
        let mut out: Vec<u8> = Vec::new();
        let mut j: usize = 0;
        while j < total
            invariant
                self.wf(),
                k < self.images@.len(),
                j <= total,
                desc == self.images@[k as int].desc,
                image_type_pixel_bytes(desc.format) == Some(bpp),
                1 <= bpp <= 4,
                1 <= desc.width <= 16384,
                1 <= desc.height <= 16384,
                width == desc.width,
                rect.start_x < rect.end_x <= desc.width,
                rect.start_y < rect.end_y <= desc.height,
                rw == rect.end_x - rect.start_x,
                rh == rect.end_y - rect.start_y,
                rowlen == rw * bpp,
                1 <= rowlen <= 65536,
                total == (rh as int) * (rowlen as int),
                self.images@[k as int].data@.len() == image_buffer_len(desc),
                out@.len() == j,
                forall|m: int|
                    0 <= m < j ==> #[trigger] out@[m] == self.images@[k as int].data@[packed_source_index(
                        m,
                        desc.width as int,
                        bpp as int,
                        *rect,
                    )],
            decreases total - j,
        {
            let y: usize = j / rowlen;
            let rem: usize = j % rowlen;
            proof {
                vstd::arithmetic::div_mod::lemma_fundamental_div_mod(j as int, rowlen as int);
                assert((y as int) * (rowlen as int) + (rem as int) == j as int) by (nonlinear_arith)
                    requires
                        j as int == (rowlen as int) * ((j as int) / (rowlen as int)) + ((j as int)
                            % (rowlen as int)),
                        y as int == (j as int) / (rowlen as int),
                        rem as int == (j as int) % (rowlen as int),
                ;
                assert((y as int) < rh as int) by (nonlinear_arith)
                    requires
                        (y as int) * (rowlen as int) + (rem as int) == j as int,
                        0 <= rem < rowlen,
                        0 <= j < (rh as int) * (rowlen as int),
                        rowlen >= 1,
                        y >= 0,
                ;
                assert((rect.start_y + y) * (desc.width as int) <= 0x10000000int)
                    by (nonlinear_arith)
                    requires
                        0 <= rect.start_y + y <= 16384,
                        0 <= desc.width <= 16384,
                ;
                assert(((rect.start_y + y) * (desc.width as int) + rect.start_x) * (bpp as int)
                    <= 0x40010000int) by (nonlinear_arith)
                    requires
                        0 <= (rect.start_y + y) * (desc.width as int) <= 0x10000000,
                        0 <= rect.start_x <= 16384,
                        1 <= bpp <= 4,
                ;
                assert(((rect.start_y + y) * (desc.width as int) + rect.start_x) * (bpp as int) + (
                rem as int) < (desc.width as int) * (desc.height as int) * (bpp as int))
                    by (nonlinear_arith)
                    requires
                        0 <= y,
                        rect.start_y + y < rect.end_y <= desc.height,
                        0 <= rect.start_x < rect.end_x <= desc.width,
                        0 <= rem < rowlen,
                        rowlen == (rect.end_x - rect.start_x) * (bpp as int),
                        1 <= bpp,
                        1 <= desc.width,
                ;
            }
            let row: usize = rect.start_y as usize + y;
            proof {
                assert(row * width == (rect.start_y + y) * (desc.width as int));
            }
            let rowbase: usize = row * width;
            let pixbase: usize = rowbase + rect.start_x as usize;
            proof {
                assert(pixbase * bpp == ((rect.start_y + y) * (desc.width as int) + rect.start_x)
                    * (bpp as int));
            }
            let src: usize = pixbase * bpp + rem;
            out.push(self.images[k].data[src]);
            j = j + 1;
        }
        proof {
            assert((rh as int) * ((rw as int) * (bpp as int)) == ((rect.end_y - rect.start_y)
                as int) * ((rect.end_x - rect.start_x) as int) * (bpp as int)) by (nonlinear_arith)
                requires
                    rh == rect.end_y - rect.start_y,
                    rw == rect.end_x - rect.start_x,
            ;
            assert forall|k2: int|
                0 <= k2 < self.images@.len() && #[trigger] self.images@[k2].desc.raw
                    == image.raw implies k2 == k by {
                if k2 < k as int {
                    assert(self.images@[k2].desc.raw != self.images@[k as int].desc.raw);
                } else if k2 > k as int {
                    assert(self.images@[k as int].desc.raw != self.images@[k2].desc.raw);
                }
            }
        }
        Ok(out)
    }
}

/// A vector of the given length holding only zero bytes.
fn zero_bytes(n: usize) -> (r: Vec<u8>)
    ensures
        r@ =~= Seq::new(n as nat, |i: int| 0u8),
{
    let mut v: Vec<u8> = Vec::new();
    let mut i: usize = 0;
    while i < n
        invariant
            i <= n,
            v@ =~= Seq::new(i as nat, |k: int| 0u8),
        decreases n - i,
    {
        v.push(0u8);
        i = i + 1;
    }
    v
}

/// Whether a diagnostic callback should emit anything for a message: an
/// absent or empty message is a no-op, never an error.
pub fn log_message_should_emit(message: &str) -> (r: bool)
    ensures
        r <==> message@.len() > 0,
{
    message.unicode_len() > 0
}

/// Whether an emitted diagnostic line still needs a trailing line break.
pub fn log_message_needs_linebreak(message: &str) -> (r: bool)
    ensures
        r <==> message@.len() > 0 && message@.last() != '\n',
{
    let n = message.unicode_len();
    if n == 0 {
        false
    } else {
        message.get_char(n - 1) != '\n'
    }
}

impl AsRaw for VxContext {
    type Result = u64;

    open spec fn spec_raw(&self) -> u64 {
        self.raw
    }

    fn as_raw(&self) -> (r: u64) {
        self.raw
    }
}

impl AsVxReference for VxContext {
    open spec fn spec_reference(&self) -> VxReference {
        VxReference { raw: self.raw, kind: RefKind::Context }
    }

    fn as_reference(&self) -> (r: VxReference) {
        VxReference { raw: self.raw, kind: RefKind::Context }
    }
}

impl Release for VxContext {
    open spec fn spec_released(&self) -> bool {
        self.raw == 0
    }

    fn release(&mut self) -> (r: Result<(), VxError>)
        ensures
            *final(self) == (VxContext { raw: 0, ..*old(self) }),
    {
        self.raw = 0;
        Ok(())
    }
}

impl CheckStatus for VxContext {
    open spec fn spec_status(&self) -> VxStatus {
        if self.raw == 0 {
            VxStatus::Error(VxError::InvalidReference)
        } else {
            VxStatus::Success
        }
    }

    fn check_status(&self) -> (r: Result<(), VxError>) {
        if self.raw == 0 {
            Err(VxError::InvalidReference)
        } else {
            Ok(())
        }
    }
}

impl crate::directives::SetDirective for VxContext {
    open spec fn spec_directive_accepted(&self, directive: VxDirective) -> bool {
        self.raw != 0 && !(directive is Other)
    }

    fn set_directive(&mut self, directive: VxDirective) -> (r: Result<(), VxError>)
        ensures
            old(self).raw == 0 || directive is Other ==> *final(self) == *old(self),
            old(self).raw != 0 ==> *final(self) == (VxContext {
                logging_enabled: if directive is EnableLogging {
                    true
                } else if directive is DisableLogging {
                    false
                } else {
                    old(self).logging_enabled
                },
                perf_enabled: if directive is EnablePerformance {
                    true
                } else if directive is DisablePerformance {
                    false
                } else {
                    old(self).perf_enabled
                },
                ..*old(self)
            }),
    {
        VxContext::set_directive(self, directive)
    }
}

impl GetName for VxContext {
    open spec fn spec_name(&self) -> Option<Seq<char>> {
        match self.name {
            Some(n) => Some(n@),
            None => None,
        }
    }

    fn get_name(&self) -> (r: Option<&str>) {
        match &self.name {
            Some(n) => Some(n.as_str()),
            None => None,
        }
    }
}

impl SetName for VxContext {
    fn set_name(&mut self, name: &str)
        ensures
            final(self).name matches Some(n) && n@ == name@,
            *final(self) == (VxContext { name: final(self).name, ..*old(self) }),
    {
        self.name = Some(name.to_owned());
    }
}

} // verus!
