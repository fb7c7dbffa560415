//! Engine-defined identifiers: vendor, object-type and enumeration ids, the
//! attribute ids built from them, and the helpers that combine or take apart
//! such ids.
//!
//! An attribute id packs a vendor id, an object-type id and an attribute
//! index into one integer; an enumeration value packs a vendor id and an
//! enumeration-type id the same way. The helpers here state that packing
//! arithmetically, and the constants below are proved against it.

use crate::graphstate::VX_GRAPH_STATE_UNVERIFIED;
use vstd::prelude::*;

verus! {

/// The Khronos vendor id.
pub const VX_ID_KHRONOS: u32 = 0;

/// The object-type id of the kind-erased reference type.
pub const VX_TYPE_REFERENCE: u32 = 0x800;
/// The object-type id of the context type.
pub const VX_TYPE_CONTEXT: u32 = 0x801;
/// The object-type id of the graph type.
pub const VX_TYPE_GRAPH: u32 = 0x802;
/// The object-type id of the node type.
pub const VX_TYPE_NODE: u32 = 0x803;
/// The object-type id of the kernel type.
pub const VX_TYPE_KERNEL: u32 = 0x804;
/// The object-type id of the parameter type.
pub const VX_TYPE_PARAMETER: u32 = 0x805;
/// The object-type id of the delay type.
pub const VX_TYPE_DELAY: u32 = 0x806;
/// The object-type id of the lookup-table type.
pub const VX_TYPE_LUT: u32 = 0x807;
/// The object-type id of the distribution type.
pub const VX_TYPE_DISTRIBUTION: u32 = 0x808;
/// The object-type id of the pyramid type.
pub const VX_TYPE_PYRAMID: u32 = 0x809;
/// The object-type id of the threshold type.
pub const VX_TYPE_THRESHOLD: u32 = 0x80A;
/// The object-type id of the matrix type.
pub const VX_TYPE_MATRIX: u32 = 0x80B;
/// The object-type id of the convolution type.
pub const VX_TYPE_CONVOLUTION: u32 = 0x80C;
/// The object-type id of the scalar type.
pub const VX_TYPE_SCALAR: u32 = 0x80D;
/// The object-type id of the image type.
pub const VX_TYPE_IMAGE: u32 = 0x80F;

/// The element-type id of an unsigned 8-bit scalar.
pub const VX_TYPE_UINT8: u32 = 0x003;
/// The element-type id of a signed 32-bit scalar.
pub const VX_TYPE_INT32: u32 = 0x006;
/// The element-type id of an enumeration scalar.
pub const VX_TYPE_ENUM: u32 = 0x00C;

/// The enumeration-type id of directions.
pub const VX_ENUM_DIRECTION: u32 = 0x00;
/// The enumeration-type id of directives.
pub const VX_ENUM_DIRECTIVE: u32 = 0x03;
/// The enumeration-type id of channels.
pub const VX_ENUM_CHANNEL: u32 = 0x09;
/// The enumeration-type id of threshold types.
pub const VX_ENUM_THRESHOLD_TYPE: u32 = 0x0B;
/// The enumeration-type id of norm types.
pub const VX_ENUM_NORM_TYPE: u32 = 0x10;
/// The enumeration-type id of graph states.
pub const VX_ENUM_GRAPH_STATE: u32 = 0x15;

/// The base value of an attribute id: the vendor id in bits 20 and up, the
/// object-type id in bits 8 to 19.
pub open spec fn attribute_base(vendor: u32, object: u32) -> int {
    vendor * 0x100000 + object * 0x100
}

/// The base value of an enumeration: the vendor id in bits 20 and up, the
/// enumeration-type id in bits 12 to 19.
pub open spec fn enum_base(vendor: u32, id: u32) -> int {
    vendor * 0x100000 + id * 0x1000
}

/// The base value of a kernel enumeration: the vendor id in bits 20 and up,
/// the library id in bits 12 to 19.
pub open spec fn kernel_base(vendor: u32, library: u32) -> int {
    vendor * 0x100000 + library * 0x1000
}

/// Combines a vendor id and an object-type id into the base value of the
/// object's attribute ids.
pub fn vx_attribute_base(vendor: u32, object: u32) -> (r: i32)
    requires
        vendor < 0x800,
        object < 0x1000,
    ensures
        r == attribute_base(vendor, object),
{
    (vendor * 0x100000 + object * 0x100) as i32
}

/// Combines a vendor id and an enumeration-type id into the base value of
/// the enumeration.
pub fn vx_enum_base(vendor: u32, id: u32) -> (r: i32)
    requires
        vendor < 0x800,
        id < 0x100,
    ensures
        r == enum_base(vendor, id),
{
    (vendor * 0x100000 + id * 0x1000) as i32
}

/// Combines a vendor id and a library id into the base value of the
/// library's kernel enumeration.
pub fn vx_kernel_base(vendor: u32, library: u32) -> (r: i32)
    requires
        vendor < 0x800,
        library < 0x100,
    ensures
        r == kernel_base(vendor, library),
{
    (vendor * 0x100000 + library * 0x1000) as i32
}

/// The object-type id packed into an enumerated attribute value (bits 8 to
/// 19).
pub open spec fn type_of_enum(e: i32) -> int
    recommends
        e >= 0,
{
    (e / 0x100) % 0x1000
}

/// The enumeration-type id packed into an enumerated value (bits 12 to 19).
pub open spec fn enum_type_of_enum(e: i32) -> int
    recommends
        e >= 0,
{
    (e / 0x1000) % 0x100
}

/// Extracts the object-type id from an enumerated attribute value.
pub fn vx_type(e: i32) -> (r: u32)
    requires
        e >= 0,
    ensures
        r == type_of_enum(e),
{
    ((e / 0x100) % 0x1000) as u32
}

/// Extracts the enumeration-type id from an enumerated value.
pub fn vx_enum_type(e: i32) -> (r: u32)
    requires
        e >= 0,
    ensures
        r == enum_type_of_enum(e),
{
    ((e / 0x1000) % 0x100) as u32
}

/// Extracts the library id from an enumerated kernel value; the library id
/// occupies the same bits as an enumeration-type id.
pub fn vx_library(e: i32) -> (r: u32)
    requires
        e >= 0,
    ensures
        r == enum_type_of_enum(e),
{
    ((e / 0x1000) % 0x100) as u32
}

/// The reference count of the object. Read-only; a 32-bit unsigned value.
pub const VX_REFERENCE_COUNT: i32 = 524288;
/// The object-type id of the object. Read-only; an enumeration value.
pub const VX_REFERENCE_TYPE: i32 = 524289;
/// The diagnostic name of the object. Read-write.
pub const VX_REFERENCE_NAME: i32 = 524290;

/// The number of nodes in a graph. Read-only; a 32-bit unsigned value.
pub const VX_GRAPH_NUMNODES: i32 = 524800;
/// The overall performance of a graph. Read-only; a performance record.
pub const VX_GRAPH_PERFORMANCE: i32 = 524801;
/// The number of explicitly declared graph parameters. Read-only; a 32-bit
/// unsigned value.
pub const VX_GRAPH_NUMPARAMETERS: i32 = 524802;
/// The state of a graph. Read-only; a graph state enumeration value.
pub const VX_GRAPH_STATE: i32 = 524803;

/// The status of a node after the most recent execution. Read-only; a
/// status code.
pub const VX_NODE_STATUS: i32 = 525056;
/// The performance of a node. Read-only; a performance record.
pub const VX_NODE_PERFORMANCE: i32 = 525057;
/// The number of parameters of a node's kernel. Read-only; a 32-bit
/// unsigned value.
pub const VX_NODE_PARAMETERS: i32 = 525061;

/// The value type of the threshold. Read-only; an enumeration value.
pub const VX_THRESHOLD_TYPE: i32 = 526848;
/// The value of the single threshold. Read-write; a signed 32-bit value.
pub const VX_THRESHOLD_THRESHOLD_VALUE: i32 = 526849;
/// The value of the lower threshold. Read-write; a signed 32-bit value.
pub const VX_THRESHOLD_THRESHOLD_LOWER: i32 = 526850;
/// The value of the upper threshold. Read-write; a signed 32-bit value.
pub const VX_THRESHOLD_THRESHOLD_UPPER: i32 = 526851;
/// The value of the TRUE threshold (default 255). Read-write; a signed
/// 32-bit value.
pub const VX_THRESHOLD_TRUE_VALUE: i32 = 526852;
/// The value of the FALSE threshold (default 0). Read-write; a signed
/// 32-bit value.
pub const VX_THRESHOLD_FALSE_VALUE: i32 = 526853;
/// The data type of the threshold's value. Read-only; an enumeration value.
pub const VX_THRESHOLD_DATA_TYPE: i32 = 526854;
/// The input image format the threshold was created for. Read-only; an
/// enumeration value.
pub const VX_THRESHOLD_INPUT_FORMAT: i32 = 526855;
/// The output image format the threshold was created for. Read-only; an
/// enumeration value.
pub const VX_THRESHOLD_OUTPUT_FORMAT: i32 = 526856;

/// A threshold with one value: below it false, above it true.
pub const VX_THRESHOLD_TYPE_BINARY: i32 = 45056;
/// A threshold with lower and upper bounds: inside the range true.
pub const VX_THRESHOLD_TYPE_RANGE: i32 = 45057;

/// The first plane channel of a planar image.
pub const VX_CHANNEL_0: i32 = 36864;
/// The second plane channel of a planar image.
pub const VX_CHANNEL_1: i32 = 36865;
/// The third plane channel of a planar image.
pub const VX_CHANNEL_2: i32 = 36866;
/// The fourth plane channel of a planar image.
pub const VX_CHANNEL_3: i32 = 36867;
/// The luma channel of a YUV image.
pub const VX_CHANNEL_Y: i32 = 36884;
/// The first chroma channel of a YUV image.
pub const VX_CHANNEL_U: i32 = 36885;
/// The second chroma channel of a YUV image.
pub const VX_CHANNEL_V: i32 = 36886;
/// The red channel of an RGB or RGBX image.
pub const VX_CHANNEL_R: i32 = 36880;
/// The green channel of an RGB or RGBX image.
pub const VX_CHANNEL_G: i32 = 36881;
/// The blue channel of an RGB or RGBX image.
pub const VX_CHANNEL_B: i32 = 36882;
/// The alpha channel of an RGBX image.
pub const VX_CHANNEL_A: i32 = 36883;

/// The L1 norm.
pub const VX_NORM_L1: i32 = 65536;
/// The L2 norm.
pub const VX_NORM_L2: i32 = 65537;

/// A bidirectional parameter direction.
pub const VX_BIDIRECTIONAL: i32 = 2;

/// The invalid kernel, used for conformance failures in kernel operations.
pub const VX_KERNEL_INVALID: i32 = 0;
/// The color conversion kernel.
pub const VX_KERNEL_COLOR_CONVERT: i32 = 1;
/// The channel extraction kernel.
pub const VX_KERNEL_CHANNEL_EXTRACT: i32 = 2;
/// The accumulation kernel.
pub const VX_KERNEL_ACCUMULATE: i32 = 22;
/// The weighted accumulation kernel.
pub const VX_KERNEL_ACCUMULATE_WEIGHTED: i32 = 23;
/// The squared accumulation kernel.
pub const VX_KERNEL_ACCUMULATE_SQUARE: i32 = 24;
/// The Canny edge detection kernel.
pub const VX_KERNEL_CANNY_EDGE_DETECTOR: i32 = 27;

/// The byte size the engine declares for an attribute, where this layer
/// knows it: four bytes for every counter, status, enumeration and signed
/// 32-bit value it reads or writes.
pub open spec fn attribute_size(attr: i32) -> Option<usize> {
    if attr == VX_REFERENCE_COUNT || attr == VX_GRAPH_NUMNODES || attr == VX_GRAPH_NUMPARAMETERS
        || attr == VX_GRAPH_STATE || attr == VX_NODE_STATUS || attr == VX_NODE_PARAMETERS
        || attr == VX_THRESHOLD_TYPE || attr == VX_THRESHOLD_THRESHOLD_VALUE
        || attr == VX_THRESHOLD_THRESHOLD_LOWER || attr == VX_THRESHOLD_THRESHOLD_UPPER
        || attr == VX_THRESHOLD_TRUE_VALUE || attr == VX_THRESHOLD_FALSE_VALUE
        || attr == VX_THRESHOLD_DATA_TYPE || attr == VX_THRESHOLD_INPUT_FORMAT
        || attr == VX_THRESHOLD_OUTPUT_FORMAT {
        Some(4usize)
    } else {
        None
    }
}

/// Each id constant equals the packed form the engine declares for it.
pub proof fn lemma_attribute_ids_are_packed()
    ensures
        VX_REFERENCE_COUNT == attribute_base(VX_ID_KHRONOS, VX_TYPE_REFERENCE),
        VX_REFERENCE_NAME == attribute_base(VX_ID_KHRONOS, VX_TYPE_REFERENCE) + 2,
        VX_GRAPH_NUMNODES == attribute_base(VX_ID_KHRONOS, VX_TYPE_GRAPH),
        VX_GRAPH_PERFORMANCE == attribute_base(VX_ID_KHRONOS, VX_TYPE_GRAPH) + 1,
        VX_GRAPH_NUMPARAMETERS == attribute_base(VX_ID_KHRONOS, VX_TYPE_GRAPH) + 2,
        VX_GRAPH_STATE == attribute_base(VX_ID_KHRONOS, VX_TYPE_GRAPH) + 3,
        VX_NODE_STATUS == attribute_base(VX_ID_KHRONOS, VX_TYPE_NODE),
        VX_NODE_PERFORMANCE == attribute_base(VX_ID_KHRONOS, VX_TYPE_NODE) + 1,
        VX_NODE_PARAMETERS == attribute_base(VX_ID_KHRONOS, VX_TYPE_NODE) + 5,
        VX_THRESHOLD_TYPE == attribute_base(VX_ID_KHRONOS, VX_TYPE_THRESHOLD),
        VX_THRESHOLD_THRESHOLD_LOWER == attribute_base(VX_ID_KHRONOS, VX_TYPE_THRESHOLD) + 2,
        VX_THRESHOLD_THRESHOLD_UPPER == attribute_base(VX_ID_KHRONOS, VX_TYPE_THRESHOLD) + 3,
        VX_THRESHOLD_TYPE_BINARY == enum_base(VX_ID_KHRONOS, VX_ENUM_THRESHOLD_TYPE),
        VX_THRESHOLD_TYPE_RANGE == enum_base(VX_ID_KHRONOS, VX_ENUM_THRESHOLD_TYPE) + 1,
        VX_CHANNEL_Y == enum_base(VX_ID_KHRONOS, VX_ENUM_CHANNEL) + 0x14,
        VX_NORM_L1 == enum_base(VX_ID_KHRONOS, VX_ENUM_NORM_TYPE),
        VX_NORM_L2 == enum_base(VX_ID_KHRONOS, VX_ENUM_NORM_TYPE) + 1,
        VX_GRAPH_STATE_UNVERIFIED == enum_base(VX_ID_KHRONOS, VX_ENUM_GRAPH_STATE),
        VX_BIDIRECTIONAL == enum_base(VX_ID_KHRONOS, VX_ENUM_DIRECTION) + 2,
        VX_KERNEL_ACCUMULATE == kernel_base(VX_ID_KHRONOS, 0) + 0x16,
        VX_KERNEL_CANNY_EDGE_DETECTOR == kernel_base(VX_ID_KHRONOS, 0) + 0x1B,
{
}

} // verus!
