use openvx::vx_enum_type;
use openvx::VxDirective;
use openvx::VX_DIRECTIVE_DISABLE_LOGGING;
use openvx::VX_DIRECTIVE_DISABLE_PERFORMANCE;
use openvx::VX_DIRECTIVE_ENABLE_LOGGING;
use openvx::VX_DIRECTIVE_ENABLE_PERFORMANCE;
use openvx::VX_ENUM_DIRECTIVE;

#[test]
fn constants_are_enum_directive() {
    assert_eq!(vx_enum_type(VX_DIRECTIVE_DISABLE_LOGGING), VX_ENUM_DIRECTIVE);
}

#[test]
fn directives_new() {
    assert_eq!(
        VxDirective::new(VX_DIRECTIVE_DISABLE_LOGGING),
        VxDirective::DisableLogging
    );
    assert_eq!(
        VxDirective::new(VX_DIRECTIVE_ENABLE_LOGGING),
        VxDirective::EnableLogging
    );
    assert_eq!(
        VxDirective::new(VX_DIRECTIVE_DISABLE_PERFORMANCE),
        VxDirective::DisablePerformance
    );
    assert_eq!(
        VxDirective::new(VX_DIRECTIVE_ENABLE_PERFORMANCE),
        VxDirective::EnablePerformance
    );
    assert_eq!(
        VxDirective::new(VX_DIRECTIVE_ENABLE_PERFORMANCE + 1),
        VxDirective::Other {
            directive: VX_DIRECTIVE_ENABLE_PERFORMANCE + 1
        }
    );
}

#[test]
fn directives_toraw() {
    assert_eq!(
        VxDirective::DisableLogging.to_raw(),
        VX_DIRECTIVE_DISABLE_LOGGING
    );
    assert_eq!(
        VxDirective::EnableLogging.to_raw(),
        VX_DIRECTIVE_ENABLE_LOGGING
    );
    assert_eq!(
        VxDirective::DisablePerformance.to_raw(),
        VX_DIRECTIVE_DISABLE_PERFORMANCE
    );
    assert_eq!(
        VxDirective::EnablePerformance.to_raw(),
        VX_DIRECTIVE_ENABLE_PERFORMANCE
    );
    assert_eq!(
        VxDirective::Other {
            directive: VX_DIRECTIVE_ENABLE_PERFORMANCE + 1
        }
        .to_raw(),
        VX_DIRECTIVE_ENABLE_PERFORMANCE + 1
    );
}

#[test]
fn directive_codes_are_the_declared_ones() {
    assert_eq!(VX_DIRECTIVE_DISABLE_LOGGING, 12288);
    assert_eq!(VX_DIRECTIVE_ENABLE_LOGGING, 12289);
    assert_eq!(VX_DIRECTIVE_DISABLE_PERFORMANCE, 12290);
    assert_eq!(VX_DIRECTIVE_ENABLE_PERFORMANCE, 12291);
}

#[test]
fn performance_classification() {
    assert!(VxDirective::EnablePerformance.is_performance());
    assert!(VxDirective::DisablePerformance.is_performance());
    assert!(!VxDirective::EnableLogging.is_performance());
    assert!(!VxDirective::Other { directive: 99 }.is_performance());
}
