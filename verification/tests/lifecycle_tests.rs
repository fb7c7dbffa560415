use openvx::AsVxReference;
use openvx::CheckStatus;
use openvx::GetName;
use openvx::ImageType;
use openvx::RefKind;
use openvx::Release;
use openvx::SetDirective;
use openvx::SetName;
use openvx::VxContext;
use openvx::VxDirective;
use openvx::VxError;
use openvx::VxScalar;
use openvx::VxStatus;
use openvx::VX_THRESHOLD_TYPE_RANGE;
use openvx::VX_TYPE_UINT8;

#[test]
fn release_is_idempotent_for_every_kind() {
    // Releasing a resource twice is a no-op the second time: the second
    // call succeeds and changes nothing, never a double-free or a panic.
    let mut ctx = VxContext::create();
    let mut graph = ctx.create_graph();
    let mut image = ctx.create_image(ImageType::U8, 8, 8).unwrap();
    let mut hyst = ctx
        .create_threshold(VX_THRESHOLD_TYPE_RANGE, VX_TYPE_UINT8)
        .unwrap();
    let mut scalar = VxScalar::from_raw(42);

    assert_eq!(graph.release(), Ok(()));
    assert_eq!(graph.release(), Ok(()));
    assert!(graph.is_null());

    assert_eq!(image.release(), Ok(()));
    assert_eq!(image.release(), Ok(()));
    assert!(image.is_null());

    assert_eq!(hyst.release(), Ok(()));
    assert_eq!(hyst.release(), Ok(()));

    assert_eq!(scalar.release(), Ok(()));
    assert_eq!(scalar.release(), Ok(()));

    assert_eq!(ctx.release(), Ok(()));
    assert_eq!(ctx.release(), Ok(()));
    assert!(ctx.is_null());
}

#[test]
fn check_status_reports_released_handles() {
    let mut ctx = VxContext::create();
    assert_eq!(ctx.check_status(), Ok(()));
    let mut graph = ctx.create_graph();
    assert_eq!(graph.check_status(), Ok(()));
    graph.release().unwrap();
    assert_eq!(graph.check_status(), Err(VxError::InvalidReference));
    ctx.release().unwrap();
    assert_eq!(ctx.check_status(), Err(VxError::InvalidReference));
}

#[test]
fn references_carry_kind_and_nullness() {
    let mut ctx = VxContext::create();
    let r = ctx.as_reference();
    assert_eq!(r.kind(), RefKind::Context);
    assert!(!r.is_null());
    assert_eq!(r.check(), VxStatus::Success);
    let graph = ctx.create_graph();
    assert_eq!(graph.as_reference().kind(), RefKind::Graph);
    let mut graph = graph;
    graph.release().unwrap();
    let r2 = graph.as_reference();
    assert!(r2.is_null());
    assert_eq!(r2.check(), VxStatus::Error(VxError::InvalidReference));
}

#[test]
fn reference_counts_follow_ownership() {
    let mut ctx = VxContext::create();
    assert_eq!(ctx.get_reference_count(), 1);
    let mut graph = ctx.create_graph();
    assert_eq!(graph.get_reference_count(), 1);
    graph.release().unwrap();
    assert_eq!(graph.get_reference_count(), 0);
}

#[test]
fn every_resource_kind_has_the_reference_capability() {
    // The uniform capability: naming, reference count and status check,
    // here on one of the plain handle kinds.
    let mut scalar = VxScalar::from_raw(7);
    assert_eq!(scalar.get_name(), None);
    scalar.set_name("GRADIENT_SIZE");
    assert_eq!(scalar.get_name(), Some("GRADIENT_SIZE"));
    assert_eq!(scalar.get_reference_count(), 1);
    assert_eq!(scalar.check_status(), Ok(()));
    scalar.release().unwrap();
    assert_eq!(scalar.get_reference_count(), 0);
    assert_eq!(scalar.check_status(), Err(VxError::InvalidReference));
}

#[test]
fn names_are_diagnostic_labels() {
    let mut ctx = VxContext::create();
    let mut graph = ctx.create_graph();
    assert_eq!(graph.get_name(), None);
    graph.set_name("CANNY_GRAPH");
    assert_eq!(graph.get_name(), Some("CANNY_GRAPH"));
    let mut image = ctx.create_image(ImageType::U8, 8, 8).unwrap();
    image.set_name("OUTPUT");
    assert_eq!(image.get_name(), Some("OUTPUT"));
}

#[test]
fn context_directives_toggle_flags() {
    let mut ctx = VxContext::create();
    assert_eq!(ctx.enable_logging(), Ok(()));
    assert!(ctx.logging_enabled);
    assert_eq!(ctx.disable_logging(), Ok(()));
    assert!(!ctx.logging_enabled);
    assert_eq!(ctx.enable_performance_counters(), Ok(()));
    assert!(ctx.perf_enabled);
    assert_eq!(ctx.disable_performance_counters(), Ok(()));
    assert!(!ctx.perf_enabled);
}

#[test]
fn unknown_directive_is_not_supported() {
    let mut ctx = VxContext::create();
    assert_eq!(
        VxContext::set_directive(&mut ctx, VxDirective::Other { directive: 99999 }),
        Err(VxError::NotSupported)
    );
}

#[test]
fn performance_directives_are_context_only() {
    // A graph accepts the logging directives but refuses the performance
    // ones: those belong to the context alone.
    let mut ctx = VxContext::create();
    let mut graph = ctx.create_graph();
    assert_eq!(
        SetDirective::set_directive(&mut graph, VxDirective::EnableLogging),
        Ok(())
    );
    assert_eq!(
        SetDirective::set_directive(&mut graph, VxDirective::EnablePerformance),
        Err(VxError::NotSupported)
    );
    assert_eq!(
        SetDirective::set_directive(&mut ctx, VxDirective::EnablePerformance),
        Ok(())
    );
}

#[test]
fn released_context_refuses_directives() {
    let mut ctx = VxContext::create();
    ctx.release().unwrap();
    assert_eq!(ctx.enable_logging(), Err(VxError::InvalidReference));
    assert_eq!(
        ctx.create_image(ImageType::U8, 8, 8).unwrap_err(),
        VxError::InvalidReference
    );
}

#[test]
fn log_message_rules() {
    // An absent or empty diagnostic message is a no-op; a message without
    // a trailing line break needs one added.
    assert!(!openvx::log_message_should_emit(""));
    assert!(openvx::log_message_should_emit("graph failed"));
    assert!(openvx::log_message_needs_linebreak("graph failed"));
    assert!(!openvx::log_message_needs_linebreak("graph failed\n"));
    assert!(!openvx::log_message_needs_linebreak(""));
}
