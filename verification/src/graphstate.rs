//! The graph state enumeration and its engine codes.

use vstd::prelude::*;

verus! {

/// The graph should be verified before execution.
pub const VX_GRAPH_STATE_UNVERIFIED: i32 = 86016;
/// The graph has been verified and not yet executed or scheduled.
pub const VX_GRAPH_STATE_VERIFIED: i32 = 86017;
/// The graph has been scheduled and not completed, or is being executed.
pub const VX_GRAPH_STATE_RUNNING: i32 = 86018;
/// The graph execution was abandoned.
pub const VX_GRAPH_STATE_ABANDONED: i32 = 86019;
/// The graph execution completed and the graph is not scheduled again.
pub const VX_GRAPH_STATE_COMPLETED: i32 = 86020;

/// The graph state enumeration.
#[derive(Debug, PartialEq, Eq, Structural, Copy, Clone)]
pub enum VxGraphState {
    /// The graph should be verified before execution.
    Unverified,
    /// The graph has been verified and has not been executed or scheduled
    /// for execution yet.
    Verified,
    /// The graph either has been scheduled and not completed, or is being
    /// executed.
    Running,
    /// The graph execution was abandoned.
    Abandoned,
    /// The graph execution is completed and the graph is not scheduled for
    /// execution.
    Completed,
    /// An unknown graph state, preserved verbatim for diagnostics.
    Unknown { state: i32 },
}

/// The graph state a state code decodes to. A code outside the named set
/// decodes to `Unknown` and is preserved verbatim.
pub open spec fn graph_state_of(code: i32) -> VxGraphState {
    if code == VX_GRAPH_STATE_UNVERIFIED {
        VxGraphState::Unverified
    } else if code == VX_GRAPH_STATE_VERIFIED {
        VxGraphState::Verified
    } else if code == VX_GRAPH_STATE_RUNNING {
        VxGraphState::Running
    } else if code == VX_GRAPH_STATE_ABANDONED {
        VxGraphState::Abandoned
    } else if code == VX_GRAPH_STATE_COMPLETED {
        VxGraphState::Completed
    } else {
        VxGraphState::Unknown { state: code }
    }
}

impl VxGraphState {
    /// Decodes a graph state code.
    pub fn new(status: i32) -> (r: VxGraphState)
        ensures
            r == graph_state_of(status),
    {
        if status == VX_GRAPH_STATE_UNVERIFIED {
            VxGraphState::Unverified
        } else if status == VX_GRAPH_STATE_VERIFIED {
            VxGraphState::Verified
        } else if status == VX_GRAPH_STATE_RUNNING {
            VxGraphState::Running
        } else if status == VX_GRAPH_STATE_ABANDONED {
            VxGraphState::Abandoned
        } else if status == VX_GRAPH_STATE_COMPLETED {
            VxGraphState::Completed
        } else {
            VxGraphState::Unknown { state: status }
        }
    }

    /// The engine-facing name of this state. Unknown states share one name;
    /// their code is preserved in the variant itself.
    pub fn name(&self) -> (r: &'static str)
        ensures
            r@ == graph_state_name(*self),
    {
        match *self {
            VxGraphState::Unverified => "VX_GRAPH_STATE_UNVERIFIED",
            VxGraphState::Verified => "VX_GRAPH_STATE_VERIFIED",
            VxGraphState::Running => "VX_GRAPH_STATE_RUNNING",
            VxGraphState::Abandoned => "VX_GRAPH_STATE_ABANDONED",
            VxGraphState::Completed => "VX_GRAPH_STATE_COMPLETED",
            VxGraphState::Unknown { .. } => "VX_GRAPH_STATE_UNKNOWN",
        }
    }
}

/// The engine-facing name of each graph state.
pub open spec fn graph_state_name(s: VxGraphState) -> Seq<char> {
    match s {
        VxGraphState::Unverified => "VX_GRAPH_STATE_UNVERIFIED"@,
        VxGraphState::Verified => "VX_GRAPH_STATE_VERIFIED"@,
        VxGraphState::Running => "VX_GRAPH_STATE_RUNNING"@,
        VxGraphState::Abandoned => "VX_GRAPH_STATE_ABANDONED"@,
        VxGraphState::Completed => "VX_GRAPH_STATE_COMPLETED"@,
        VxGraphState::Unknown { .. } => "VX_GRAPH_STATE_UNKNOWN"@,
    }
}

impl From<i32> for VxGraphState {
    /// Decodes a graph state code, as [`VxGraphState::new`] does.
    fn from(status: i32) -> (r: VxGraphState) {
        VxGraphState::new(status)
    }
}

impl vstd::std_specs::convert::FromSpecImpl<i32> for VxGraphState {
    open spec fn obeys_from_spec() -> bool {
        true
    }

    open spec fn from_spec(status: i32) -> VxGraphState {
        graph_state_of(status)
    }
}

} // verus!
