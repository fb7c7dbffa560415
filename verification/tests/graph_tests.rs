use openvx::ImageType;
use openvx::Release;
use openvx::VxContext;
use openvx::VxError;
use openvx::VxGraphState;
use openvx::VX_CHANNEL_Y;
use openvx::VX_NORM_L1;
use openvx::VX_THRESHOLD_TYPE_BINARY;
use openvx::VX_THRESHOLD_TYPE_RANGE;
use openvx::VX_TYPE_UINT8;

#[test]
fn process_on_unverified_graph_is_a_structural_error() {
    // An unverified graph rejects execution with a structural error, not
    // a crash, and stays unverified.
    let mut ctx = VxContext::create();
    let mut graph = ctx.create_graph();
    assert_eq!(graph.process(&mut ctx), Err(VxError::InvalidGraph));
    assert_eq!(graph.get_state(), VxGraphState::Unverified);
}

#[test]
fn verify_twice_is_idempotent() {
    // Verifying twice in a row yields Verified both times with no side
    // effects observable to the caller.
    let mut ctx = VxContext::create();
    let mut graph = ctx.create_graph();
    let a = ctx.create_image(ImageType::RGB, 16, 16).unwrap();
    let y = graph.create_virtual_image(ImageType::IYUV, 16, 16).unwrap();
    graph.color_convert_node(a.as_param(), y.as_param()).unwrap();
    assert_eq!(graph.verify(), Ok(()));
    assert_eq!(graph.get_state(), VxGraphState::Verified);
    let snapshot = graph.clone();
    assert_eq!(graph.verify(), Ok(()));
    assert_eq!(graph.get_state(), VxGraphState::Verified);
    assert_eq!(graph, snapshot);
}

#[test]
fn two_writers_fail_verification_with_multiple_writers() {
    // Two nodes writing the same non-virtual data object fail with the
    // distinct MultipleWriters error, not a generic invalid-graph error,
    // and the graph stays unverified.
    let mut ctx = VxContext::create();
    let mut graph = ctx.create_graph();
    let a = ctx.create_image(ImageType::RGB, 16, 16).unwrap();
    let b = ctx.create_image(ImageType::RGBX, 16, 16).unwrap();
    let out = ctx.create_image(ImageType::IYUV, 16, 16).unwrap();
    graph.color_convert_node(a.as_param(), out.as_param()).unwrap();
    graph.color_convert_node(b.as_param(), out.as_param()).unwrap();
    assert_eq!(graph.verify(), Err(VxError::MultipleWriters));
    assert_eq!(graph.get_state(), VxGraphState::Unverified);
}

#[test]
fn virtual_objects_die_with_their_graph() {
    // A virtual object created under a graph is invalid once the graph is
    // released: every query against it fails rather than touch stale
    // state, and no pixel path exists for it at all.
    let mut ctx = VxContext::create();
    let mut graph = ctx.create_graph();
    let y = graph.create_virtual_image(ImageType::U8, 16, 16).unwrap();
    assert_eq!(
        graph.virtual_image_info(&y).unwrap(),
        (ImageType::U8, 16, 16)
    );
    graph.release().unwrap();
    assert_eq!(
        graph.virtual_image_info(&y).unwrap_err(),
        VxError::InvalidReference
    );
}

#[test]
fn virtual_objects_of_another_graph_are_out_of_scope() {
    let mut ctx = VxContext::create();
    let mut graph_one = ctx.create_graph();
    let mut graph_two = ctx.create_graph();
    let y = graph_one.create_virtual_image(ImageType::U8, 16, 16).unwrap();
    assert_eq!(
        graph_two.virtual_image_info(&y).unwrap_err(),
        VxError::InvalidScope
    );
    // Binding it into the wrong graph is caught at verification.
    let b = ctx.create_image(ImageType::U8, 16, 16).unwrap();
    graph_two
        .channel_extract_node(y.as_param(), VX_CHANNEL_Y, b.as_param())
        .unwrap();
    assert_eq!(graph_two.verify(), Err(VxError::InvalidScope));
}

#[test]
fn cyclic_graphs_fail_verification() {
    // Two nodes that each read the other's output have no execution
    // order; verification reports the graph structurally invalid.
    let mut ctx = VxContext::create();
    let mut graph = ctx.create_graph();
    let x = ctx.create_image(ImageType::RGB, 16, 16).unwrap();
    let y = ctx.create_image(ImageType::RGB, 16, 16).unwrap();
    graph.color_convert_node(x.as_param(), y.as_param()).unwrap();
    graph.color_convert_node(y.as_param(), x.as_param()).unwrap();
    assert_eq!(graph.verify(), Err(VxError::InvalidGraph));
}

#[test]
fn kernel_argument_checks() {
    let mut ctx = VxContext::create();
    let hyst = ctx
        .create_threshold(VX_THRESHOLD_TYPE_RANGE, VX_TYPE_UINT8)
        .unwrap();
    let luma = ctx.create_image(ImageType::U8, 16, 16).unwrap();
    let out = ctx.create_image(ImageType::U8, 16, 16).unwrap();

    // A gradient size outside {3, 5, 7} is an invalid value.
    let mut g1 = ctx.create_graph();
    g1.canny_edge_detector_node(luma.as_param(), &hyst, 4, VX_NORM_L1, out.as_param())
        .unwrap();
    assert_eq!(g1.verify(), Err(VxError::InvalidValue));

    // A binary threshold cannot drive hysteresis: invalid type.
    let binary = ctx
        .create_threshold(VX_THRESHOLD_TYPE_BINARY, VX_TYPE_UINT8)
        .unwrap();
    let mut g2 = ctx.create_graph();
    g2.canny_edge_detector_node(luma.as_param(), &binary, 3, VX_NORM_L1, out.as_param())
        .unwrap();
    assert_eq!(g2.verify(), Err(VxError::InvalidType));

    // A color input to edge detection is an invalid format.
    let rgb = ctx.create_image(ImageType::RGB, 16, 16).unwrap();
    let mut g3 = ctx.create_graph();
    g3.canny_edge_detector_node(rgb.as_param(), &hyst, 3, VX_NORM_L1, out.as_param())
        .unwrap();
    assert_eq!(g3.verify(), Err(VxError::InvalidFormat));

    // Mismatched dimensions are an invalid dimension.
    let small = ctx.create_image(ImageType::U8, 8, 8).unwrap();
    let mut g4 = ctx.create_graph();
    g4.canny_edge_detector_node(luma.as_param(), &hyst, 3, VX_NORM_L1, small.as_param())
        .unwrap();
    assert_eq!(g4.verify(), Err(VxError::InvalidDimension));

    // An unknown channel is an invalid parameter.
    let mut g5 = ctx.create_graph();
    g5.channel_extract_node(rgb.as_param(), 7, out.as_param()).unwrap();
    assert_eq!(g5.verify(), Err(VxError::InvalidParameters));
}

#[test]
fn node_creation_rejects_released_references() {
    let mut ctx = VxContext::create();
    let mut graph = ctx.create_graph();
    let mut a = ctx.create_image(ImageType::RGB, 16, 16).unwrap();
    let out = ctx.create_image(ImageType::IYUV, 16, 16).unwrap();
    let dead = a.as_param();
    a.release().unwrap();
    // The parameter snapshot still names a live handle, but a parameter
    // built from the released wrapper is null and refused.
    let null_param = a.as_param();
    assert_eq!(
        graph.color_convert_node(null_param, out.as_param()).unwrap_err(),
        VxError::InvalidReference
    );
    // The snapshot taken before release still binds.
    graph.color_convert_node(dead, out.as_param()).unwrap();
}

#[test]
fn adding_a_node_reverts_verification() {
    let mut ctx = VxContext::create();
    let mut graph = ctx.create_graph();
    let a = ctx.create_image(ImageType::RGB, 16, 16).unwrap();
    let y = ctx.create_image(ImageType::IYUV, 16, 16).unwrap();
    graph.color_convert_node(a.as_param(), y.as_param()).unwrap();
    graph.verify().unwrap();
    assert_eq!(graph.get_state(), VxGraphState::Verified);
    let b = ctx.create_image(ImageType::RGBX, 16, 16).unwrap();
    let z = ctx.create_image(ImageType::YUV4, 16, 16).unwrap();
    graph.color_convert_node(b.as_param(), z.as_param()).unwrap();
    assert_eq!(graph.get_state(), VxGraphState::Unverified);
}

#[test]
fn graph_queries() {
    let mut ctx = VxContext::create();
    let mut graph = ctx.create_graph();
    assert_eq!(graph.get_num_nodes(), 0);
    assert_eq!(graph.get_num_parameters(), 0);
    let a = ctx.create_image(ImageType::RGB, 16, 16).unwrap();
    let y = ctx.create_image(ImageType::IYUV, 16, 16).unwrap();
    let node = graph.color_convert_node(a.as_param(), y.as_param()).unwrap();
    assert_eq!(graph.get_num_nodes(), 1);
    assert_eq!(graph.node_num_parameters(&node).unwrap(), 2);
    assert!(graph.get_performance().is_zero());
    graph.set_node_name(&node, "RGB_TO_YUV").unwrap();
    assert_eq!(graph.node_get_name(&node).unwrap(), Some("RGB_TO_YUV"));
    // A released graph reports the defaults the engine would.
    graph.release().unwrap();
    assert_eq!(graph.get_num_nodes(), 0);
    assert_eq!(graph.get_state(), VxGraphState::Unknown { state: 0 });
    assert!(graph.get_performance().is_zero());
    assert_eq!(
        graph.node_status(&node).unwrap_err(),
        VxError::InvalidReference
    );
}

#[test]
fn process_needs_the_live_owning_context() {
    let mut ctx = VxContext::create();
    let mut graph = ctx.create_graph();
    let a = ctx.create_image(ImageType::RGB, 16, 16).unwrap();
    let y = ctx.create_image(ImageType::IYUV, 16, 16).unwrap();
    graph.color_convert_node(a.as_param(), y.as_param()).unwrap();
    graph.verify().unwrap();
    // A released context is an invalid reference, and a fresh context
    // cannot stand in for the owning one.
    ctx.release().unwrap();
    assert_eq!(graph.process(&mut ctx), Err(VxError::InvalidReference));
    let mut other = VxContext::create_with_session(2);
    assert_eq!(graph.process(&mut other), Err(VxError::InvalidScope));
}

#[test]
fn process_with_lost_objects_abandons_the_graph() {
    // A session that no longer stores the bound data objects aborts the
    // run mid-flight: the graph moves to Abandoned, and a later run is
    // refused as abandoned.
    let mut ctx = VxContext::create();
    let mut graph = ctx.create_graph();
    let a = ctx.create_image(ImageType::RGB, 16, 16).unwrap();
    let y = ctx.create_image(ImageType::IYUV, 16, 16).unwrap();
    graph.color_convert_node(a.as_param(), y.as_param()).unwrap();
    graph.verify().unwrap();
    let mut bare_session = VxContext::create();
    assert_eq!(graph.process(&mut bare_session), Err(VxError::GraphAbandoned));
    assert_eq!(graph.get_state(), VxGraphState::Abandoned);
    assert_eq!(graph.process(&mut ctx), Err(VxError::GraphAbandoned));
}
