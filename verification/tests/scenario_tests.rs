use openvx::CheckStatus;
use openvx::ImageType;
use openvx::Release;
use openvx::SetName;
use openvx::VxContext;
use openvx::VxError;
use openvx::VxGraphState;
use openvx::VxStatus;
use openvx::VX_CHANNEL_Y;
use openvx::VX_NORM_L1;
use openvx::VX_THRESHOLD_THRESHOLD_LOWER;
use openvx::VX_THRESHOLD_THRESHOLD_UPPER;
use openvx::VX_THRESHOLD_TYPE_RANGE;
use openvx::VX_TYPE_UINT8;

#[test]
fn edge_detection_pipeline_runs_to_completion() {
    // Build the full pipeline: convert a color image to YUV, extract the
    // luma plane, detect edges against a hysteresis threshold, then
    // verify, run, and tear everything down in order.
    let mut context = VxContext::create();
    context.check_status().expect("context was invalid");
    context.enable_logging().expect("unable to enable logging");
    context
        .enable_performance_counters()
        .expect("unable to enable performance counters");

    let mut graph = context.create_graph();
    graph.check_status().expect("graph was invalid");
    graph.set_name("CANNY_GRAPH");

    let mut input_rgb_image = context.create_image(ImageType::RGB, 512, 512).unwrap();
    let mut output_filtered_image = context.create_image(ImageType::U8, 512, 512).unwrap();

    let mut yuv_image = graph.create_virtual_image(ImageType::IYUV, 512, 512).unwrap();
    let mut luma_image = graph.create_virtual_image(ImageType::U8, 512, 512).unwrap();

    let mut hyst = context
        .create_threshold(VX_THRESHOLD_TYPE_RANGE, VX_TYPE_UINT8)
        .unwrap();
    hyst.set_attribute(VX_THRESHOLD_THRESHOLD_LOWER, 130, 4).unwrap();
    hyst.set_attribute(VX_THRESHOLD_THRESHOLD_UPPER, 150, 4).unwrap();

    let gradient_size = 3;
    let mut node1 = graph
        .color_convert_node(input_rgb_image.as_param(), yuv_image.as_param())
        .unwrap();
    graph.set_node_name(&node1, "RGB_TO_YUV").unwrap();
    let mut node2 = graph
        .channel_extract_node(yuv_image.as_param(), VX_CHANNEL_Y, luma_image.as_param())
        .unwrap();
    graph.set_node_name(&node2, "EXTRACT_LUMA").unwrap();
    let mut node3 = graph
        .canny_edge_detector_node(
            luma_image.as_param(),
            &hyst,
            gradient_size,
            VX_NORM_L1,
            output_filtered_image.as_param(),
        )
        .unwrap();
    graph.set_node_name(&node3, "CANNY_EDGE").unwrap();

    assert_eq!(graph.verify(), Ok(()));
    assert_eq!(graph.get_state(), VxGraphState::Verified);

    assert_eq!(graph.process(&mut context), Ok(()));
    assert_eq!(graph.get_state(), VxGraphState::Completed);
    assert!(context.is_image_populated(&output_filtered_image).unwrap());
    assert!(!context.is_image_populated(&input_rgb_image).unwrap());

    // With performance counters enabled, the run was counted for the
    // graph and for each node.
    assert_eq!(graph.get_performance().num, 1);
    assert_eq!(graph.node_performance(&node3).unwrap().num, 1);
    assert_eq!(graph.node_status(&node1).unwrap(), VxStatus::Success);

    // A completed graph is re-runnable.
    assert_eq!(graph.process(&mut context), Ok(()));
    assert_eq!(graph.get_performance().num, 2);

    // Release everything in order; each release succeeds.
    assert_eq!(node1.release(), Ok(()));
    assert_eq!(node2.release(), Ok(()));
    assert_eq!(node3.release(), Ok(()));
    assert_eq!(graph.release(), Ok(()));
    assert_eq!(yuv_image.release(), Ok(()));
    assert_eq!(luma_image.release(), Ok(()));
    assert_eq!(input_rgb_image.release(), Ok(()));
    assert_eq!(output_filtered_image.release(), Ok(()));
    assert_eq!(context.release(), Ok(()));
    assert!(context.is_null());
}

#[test]
fn edge_detection_pipeline_with_two_writers_fails() {
    // The same pipeline, but the first node also writes the final output:
    // two writers to one data object. Verification must fail with the
    // distinct MultipleWriters error and the graph must stay unverified.
    let mut context = VxContext::create();
    let mut graph = context.create_graph();

    let input_rgb_image = context.create_image(ImageType::RGB, 512, 512).unwrap();
    let output_filtered_image = context.create_image(ImageType::U8, 512, 512).unwrap();
    let yuv_image = graph.create_virtual_image(ImageType::IYUV, 512, 512).unwrap();
    let luma_image = graph.create_virtual_image(ImageType::U8, 512, 512).unwrap();
    let mut hyst = context
        .create_threshold(VX_THRESHOLD_TYPE_RANGE, VX_TYPE_UINT8)
        .unwrap();
    hyst.set_attribute(VX_THRESHOLD_THRESHOLD_LOWER, 130, 4).unwrap();
    hyst.set_attribute(VX_THRESHOLD_THRESHOLD_UPPER, 150, 4).unwrap();

    // Node1's output is wired to the same object as Node3's output.
    graph
        .color_convert_node(input_rgb_image.as_param(), output_filtered_image.as_param())
        .unwrap();
    graph
        .channel_extract_node(yuv_image.as_param(), VX_CHANNEL_Y, luma_image.as_param())
        .unwrap();
    graph
        .canny_edge_detector_node(
            luma_image.as_param(),
            &hyst,
            3,
            VX_NORM_L1,
            output_filtered_image.as_param(),
        )
        .unwrap();

    assert_eq!(graph.verify(), Err(VxError::MultipleWriters));
    assert_eq!(graph.get_state(), VxGraphState::Unverified);
    // The failed verification blocks execution.
    assert_eq!(graph.process(&mut context), Err(VxError::InvalidGraph));
}
