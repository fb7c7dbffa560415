use openvx::ImageType;
use openvx::Release;
use openvx::RefKind;
use openvx::VxContext;
use openvx::VxConvolution;
use openvx::VxDelay;
use openvx::VxDistribution;
use openvx::VxKernel;
use openvx::VxLut;
use openvx::VxMatrix;
use openvx::VxParameter;
use openvx::VxPyramid;
use openvx::VxReference;
use openvx::VxScalar;
use openvx::VX_THRESHOLD_TYPE_RANGE;
use openvx::VX_TYPE_UINT8;

#[test]
fn reference_is_null() {
    assert!(VxReference::new(0, RefKind::Image).is_null());
}

#[test]
fn convolution_is_null() {
    assert!(VxConvolution::from_raw(0).is_null());
}

#[test]
fn delay_is_null() {
    assert!(VxDelay::from_raw(0).is_null());
}

#[test]
fn distribution_is_null() {
    assert!(VxDistribution::from_raw(0).is_null());
}

#[test]
fn kernel_is_null() {
    assert!(VxKernel::from_raw(0).is_null());
}

#[test]
fn lut_is_null() {
    assert!(VxLut::from_raw(0).is_null());
}

#[test]
fn matrix_is_null() {
    assert!(VxMatrix::from_raw(0).is_null());
}

#[test]
fn parameter_is_null() {
    assert!(VxParameter::from_raw(0).is_null());
}

#[test]
fn pyramid_is_null() {
    assert!(VxPyramid::from_raw(0).is_null());
}

#[test]
fn scalar_is_null() {
    assert!(VxScalar::from_raw(0).is_null());
}

#[test]
fn graph_is_null() {
    // A graph wrapper reports null exactly once released.
    let mut ctx = VxContext::create();
    let mut graph = ctx.create_graph();
    assert!(!graph.is_null());
    graph.release().unwrap();
    assert!(graph.is_null());
}

#[test]
fn image_is_null() {
    let mut ctx = VxContext::create();
    let mut image = ctx.create_image(ImageType::U8, 4, 4).unwrap();
    assert!(!image.is_null());
    image.release().unwrap();
    assert!(image.is_null());
}

#[test]
fn node_is_null() {
    let mut ctx = VxContext::create();
    let mut graph = ctx.create_graph();
    let a = ctx.create_image(ImageType::RGB, 4, 4).unwrap();
    let y = graph.create_virtual_image(ImageType::IYUV, 4, 4).unwrap();
    let mut node = graph.color_convert_node(a.as_param(), y.as_param()).unwrap();
    assert!(!node.is_null());
    node.release().unwrap();
    assert!(node.is_null());
}

#[test]
fn threshold_is_null() {
    let mut ctx = VxContext::create();
    let mut hyst = ctx
        .create_threshold(VX_THRESHOLD_TYPE_RANGE, VX_TYPE_UINT8)
        .unwrap();
    assert!(!hyst.is_null());
    hyst.release().unwrap();
    assert!(hyst.is_null());
}

#[test]
fn context_is_null_after_release() {
    let mut ctx = VxContext::create();
    assert!(!ctx.is_null());
    ctx.release().unwrap();
    assert!(ctx.is_null());
}
