//! Engine directives: behavioral toggles applied to a resource.
//!
//! A directive enables or disables an engine feature such as logging or
//! performance counters. The directive codes live in the directive
//! enumeration range; unknown codes are preserved verbatim for
//! vendor-specific extensions.

use crate::attribute::enum_type_of_enum;
use crate::attribute::VX_ENUM_DIRECTIVE;
use crate::status::VxError;
use vstd::prelude::*;

verus! {

/// Disables recording information for graph debugging.
pub const VX_DIRECTIVE_DISABLE_LOGGING: i32 = 12288;
/// Enables recording information for graph debugging.
pub const VX_DIRECTIVE_ENABLE_LOGGING: i32 = 12289;
/// Disables performance counters for the context. By default performance
/// counters are disabled.
pub const VX_DIRECTIVE_DISABLE_PERFORMANCE: i32 = 12290;
/// Enables performance counters for the context.
pub const VX_DIRECTIVE_ENABLE_PERFORMANCE: i32 = 12291;

/// These enumerations are given to the directive interface to enable or
/// disable platform optimizations and features. Directives are not optional
/// and usually are vendor-specific, by defining a vendor range of directives
/// and starting their enumeration from there.
#[derive(Debug, Eq, PartialEq, Structural, Copy, Clone)]
pub enum VxDirective {
    /// Disables recording information for graph debugging.
    DisableLogging,
    /// Enables recording information for graph debugging.
    EnableLogging,
    /// Disables performance counters for the context. By default
    /// performance counters are disabled.
    DisablePerformance,
    /// Enables performance counters for the context.
    EnablePerformance,
    /// An unknown directive, preserved verbatim.
    Other { directive: i32 },
}

/// The directive a directive code decodes to. A code outside the named set
/// decodes to `Other` and is preserved verbatim.
pub open spec fn directive_of(code: i32) -> VxDirective {
    if code == VX_DIRECTIVE_DISABLE_LOGGING {
        VxDirective::DisableLogging
    } else if code == VX_DIRECTIVE_ENABLE_LOGGING {
        VxDirective::EnableLogging
    } else if code == VX_DIRECTIVE_DISABLE_PERFORMANCE {
        VxDirective::DisablePerformance
    } else if code == VX_DIRECTIVE_ENABLE_PERFORMANCE {
        VxDirective::EnablePerformance
    } else {
        VxDirective::Other { directive: code }
    }
}

/// The directive code that encodes a directive.
pub open spec fn directive_code(d: VxDirective) -> i32 {
    match d {
        VxDirective::DisableLogging => VX_DIRECTIVE_DISABLE_LOGGING,
        VxDirective::EnableLogging => VX_DIRECTIVE_ENABLE_LOGGING,
        VxDirective::DisablePerformance => VX_DIRECTIVE_DISABLE_PERFORMANCE,
        VxDirective::EnablePerformance => VX_DIRECTIVE_ENABLE_PERFORMANCE,
        VxDirective::Other { directive } => directive,
    }
}

impl VxDirective {
    /// Decodes a directive code, which must lie in the directive
    /// enumeration range.
    pub fn new(directive: i32) -> (r: VxDirective)
        requires
            directive >= 0,
            enum_type_of_enum(directive) == VX_ENUM_DIRECTIVE,
        ensures
            r == directive_of(directive),
    {
        if directive == VX_DIRECTIVE_DISABLE_LOGGING {
            VxDirective::DisableLogging
        } else if directive == VX_DIRECTIVE_ENABLE_LOGGING {
            VxDirective::EnableLogging
        } else if directive == VX_DIRECTIVE_DISABLE_PERFORMANCE {
            VxDirective::DisablePerformance
        } else if directive == VX_DIRECTIVE_ENABLE_PERFORMANCE {
            VxDirective::EnablePerformance
        } else {
            VxDirective::Other { directive }
        }
    }

    /// Encodes this directive back into its directive code.
    pub fn to_raw(&self) -> (r: i32)
        ensures
            r == directive_code(*self),
    {
        match *self {
            VxDirective::DisableLogging => VX_DIRECTIVE_DISABLE_LOGGING,
            VxDirective::EnableLogging => VX_DIRECTIVE_ENABLE_LOGGING,
            VxDirective::DisablePerformance => VX_DIRECTIVE_DISABLE_PERFORMANCE,
            VxDirective::EnablePerformance => VX_DIRECTIVE_ENABLE_PERFORMANCE,
            VxDirective::Other { directive } => directive,
        }
    }

    /// Whether this directive toggles performance counters. Performance
    /// directives are accepted only by a context.
    pub fn is_performance(&self) -> (r: bool)
        ensures
            r <==> directive_is_performance(*self),
    {
        match *self {
            VxDirective::DisablePerformance => true,
            VxDirective::EnablePerformance => true,
            _ => false,
        }
    }
}

/// Whether a directive toggles performance counters.
pub open spec fn directive_is_performance(d: VxDirective) -> bool {
    d is DisablePerformance || d is EnablePerformance
}

/// Whether a directive toggles logging.
pub open spec fn directive_is_logging(d: VxDirective) -> bool {
    d is DisableLogging || d is EnableLogging
}

/// The capability of applying engine directives to a resource.
pub trait SetDirective {
    /// Whether this resource, in its current state, accepts a directive.
    /// Performance directives are accepted only by a context; a released
    /// resource accepts none.
    spec fn spec_directive_accepted(&self, directive: VxDirective) -> bool;

    /// Applies a directive to this resource: success exactly when the
    /// resource accepts it.
    fn set_directive(&mut self, directive: VxDirective) -> (r: Result<(), VxError>)
        ensures
            r is Ok <==> old(self).spec_directive_accepted(directive),
    ;
}

/// Every named directive survives the round trip through its code, and
/// every named directive code lies in the directive enumeration range.
pub proof fn lemma_directive_round_trip(d: VxDirective)
    requires
        !(d is Other),
    ensures
        directive_of(directive_code(d)) == d,
        enum_type_of_enum(directive_code(d)) == VX_ENUM_DIRECTIVE,
{
}

} // verus!
