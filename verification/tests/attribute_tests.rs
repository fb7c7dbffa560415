use openvx::vx_attribute_base;
use openvx::vx_enum_base;
use openvx::vx_kernel_base;
use openvx::vx_type;
use openvx::VxContext;
use openvx::VxError;
use openvx::VX_GRAPH_NUMNODES;
use openvx::VX_GRAPH_STATE;
use openvx::VX_ID_KHRONOS;
use openvx::VX_KERNEL_ACCUMULATE;
use openvx::VX_KERNEL_CANNY_EDGE_DETECTOR;
use openvx::VX_REFERENCE_COUNT;
use openvx::VX_THRESHOLD_DATA_TYPE;
use openvx::VX_THRESHOLD_THRESHOLD_LOWER;
use openvx::VX_THRESHOLD_THRESHOLD_UPPER;
use openvx::VX_THRESHOLD_TYPE;
use openvx::VX_THRESHOLD_TYPE_RANGE;
use openvx::VX_TYPE_GRAPH;
use openvx::VX_TYPE_REFERENCE;
use openvx::VX_TYPE_THRESHOLD;
use openvx::VX_TYPE_UINT8;

#[test]
fn vx_attribute_base_works() {
    assert_eq!(VX_THRESHOLD_THRESHOLD_LOWER, 526850);
    assert_eq!(VX_THRESHOLD_THRESHOLD_UPPER, 526851);
}

#[test]
fn attribute_bases_pack_vendor_and_object() {
    assert_eq!(
        vx_attribute_base(VX_ID_KHRONOS, VX_TYPE_THRESHOLD),
        VX_THRESHOLD_TYPE
    );
    assert_eq!(
        vx_attribute_base(VX_ID_KHRONOS, VX_TYPE_GRAPH),
        VX_GRAPH_NUMNODES
    );
    assert_eq!(
        vx_attribute_base(VX_ID_KHRONOS, VX_TYPE_GRAPH) + 3,
        VX_GRAPH_STATE
    );
    assert_eq!(
        vx_attribute_base(VX_ID_KHRONOS, VX_TYPE_REFERENCE),
        VX_REFERENCE_COUNT
    );
}

#[test]
fn enum_and_kernel_bases() {
    assert_eq!(vx_enum_base(VX_ID_KHRONOS, 0x0B) + 1, VX_THRESHOLD_TYPE_RANGE);
    assert_eq!(vx_kernel_base(VX_ID_KHRONOS, 0) + 0x16, VX_KERNEL_ACCUMULATE);
    assert_eq!(
        vx_kernel_base(VX_ID_KHRONOS, 0) + 0x1B,
        VX_KERNEL_CANNY_EDGE_DETECTOR
    );
}

#[test]
fn type_extraction() {
    assert_eq!(vx_type(VX_THRESHOLD_THRESHOLD_LOWER), VX_TYPE_THRESHOLD);
    assert_eq!(vx_type(VX_GRAPH_STATE), VX_TYPE_GRAPH);
}

#[test]
fn threshold_attributes_read_and_write() {
    let mut ctx = VxContext::create();
    let mut hyst = ctx
        .create_threshold(VX_THRESHOLD_TYPE_RANGE, VX_TYPE_UINT8)
        .unwrap();
    assert_eq!(
        hyst.query_attribute(VX_THRESHOLD_TYPE, 4).unwrap(),
        VX_THRESHOLD_TYPE_RANGE
    );
    assert_eq!(
        hyst.query_attribute(VX_THRESHOLD_DATA_TYPE, 4).unwrap(),
        VX_TYPE_UINT8 as i32
    );
    hyst.set_attribute(VX_THRESHOLD_THRESHOLD_LOWER, 130, 4).unwrap();
    hyst.set_attribute(VX_THRESHOLD_THRESHOLD_UPPER, 150, 4).unwrap();
    assert_eq!(
        hyst.query_attribute(VX_THRESHOLD_THRESHOLD_LOWER, 4).unwrap(),
        130
    );
    assert_eq!(
        hyst.query_attribute(VX_THRESHOLD_THRESHOLD_UPPER, 4).unwrap(),
        150
    );
}

#[test]
fn threshold_attribute_size_mismatch_is_invalid_type() {
    // The size defense of the attribute protocol: a request whose size is
    // not the engine-declared four bytes must fail with InvalidType, not
    // read or write out of bounds.
    let mut ctx = VxContext::create();
    let mut hyst = ctx
        .create_threshold(VX_THRESHOLD_TYPE_RANGE, VX_TYPE_UINT8)
        .unwrap();
    assert_eq!(
        hyst.set_attribute(VX_THRESHOLD_THRESHOLD_LOWER, 130, 8),
        Err(VxError::InvalidType)
    );
    assert_eq!(
        hyst.query_attribute(VX_THRESHOLD_THRESHOLD_LOWER, 2),
        Err(VxError::InvalidType)
    );
    // The failed write left the value untouched.
    assert_eq!(
        hyst.query_attribute(VX_THRESHOLD_THRESHOLD_LOWER, 4).unwrap(),
        0
    );
}

#[test]
fn threshold_read_only_attribute_is_not_supported() {
    let mut ctx = VxContext::create();
    let mut hyst = ctx
        .create_threshold(VX_THRESHOLD_TYPE_RANGE, VX_TYPE_UINT8)
        .unwrap();
    assert_eq!(
        hyst.set_attribute(VX_THRESHOLD_TYPE, 0, 4),
        Err(VxError::NotSupported)
    );
    assert_eq!(
        hyst.set_attribute(VX_THRESHOLD_DATA_TYPE, 0, 4),
        Err(VxError::NotSupported)
    );
    // An id outside the threshold set is refused the same way.
    assert_eq!(
        hyst.query_attribute(VX_GRAPH_STATE, 4),
        Err(VxError::NotSupported)
    );
}

#[test]
fn threshold_defaults() {
    let mut ctx = VxContext::create();
    let hyst = ctx
        .create_threshold(VX_THRESHOLD_TYPE_RANGE, VX_TYPE_UINT8)
        .unwrap();
    assert_eq!(hyst.query_attribute(openvx::VX_THRESHOLD_TRUE_VALUE, 4).unwrap(), 255);
    assert_eq!(hyst.query_attribute(openvx::VX_THRESHOLD_FALSE_VALUE, 4).unwrap(), 0);
}

#[test]
fn threshold_creation_rejects_bad_types() {
    let mut ctx = VxContext::create();
    assert_eq!(
        ctx.create_threshold(12345, VX_TYPE_UINT8).unwrap_err(),
        VxError::InvalidType
    );
    assert_eq!(
        ctx.create_threshold(VX_THRESHOLD_TYPE_RANGE, 0).unwrap_err(),
        VxError::InvalidType
    );
}
