//! The graph: an explicit, verifiable, re-runnable dataflow computation.
//!
//! A graph is owned by a context but does not hold a strong reference to
//! it: the caller keeps the context alive. The graph owns its nodes, in
//! insertion order, and its virtual data objects, whose lifetime is bounded
//! by the graph's own. Its state machine is
//! `Unverified -> Verified -> Running -> {Completed | Abandoned}`:
//! verification checks every node's parameters against its kernel's
//! declared contract, rejects more than one writer per data object as the
//! distinct multiple-writers failure, and rejects cyclic connections;
//! execution requires a verified (or previously completed) graph.
//!
//! Validation policy: node creation records a binding and checks only that
//! the graph and the bound references are live; every semantic check (scope,
//! format, dimensions, kernel arguments, writers, cycles) is deferred to
//! `verify`, matching the engine's deferred-validation model. Creating a
//! node reverts the graph to `Unverified`.

use crate::attribute::VX_CHANNEL_0;
use crate::attribute::VX_CHANNEL_3;
use crate::attribute::VX_CHANNEL_R;
use crate::attribute::VX_CHANNEL_V;
use crate::attribute::VX_NORM_L1;
use crate::attribute::VX_NORM_L2;
use crate::attribute::VX_THRESHOLD_TYPE_RANGE;
use crate::checkstatus::CheckStatus;
use crate::context::VX_MAX_IMAGE_DIMENSION;
use crate::context::VxContext;
use crate::directives::VxDirective;
use crate::directives::directive_is_logging;
use crate::graphstate::VxGraphState;
use crate::image::ImageParam;
use crate::image::VxVirtualImage;
use crate::imagetype::ImageType;
use crate::imagetype::image_type_is_color;
use crate::name::GetName;
use crate::name::SetName;
use crate::performance::Performance;
use crate::performance::performance_is_zero;
use crate::performance::performance_recorded;
use crate::reference::AsRaw;
use crate::reference::AsVxReference;
use crate::reference::RefKind;
use crate::reference::VxReference;
use crate::release::Release;
use crate::status::VxError;
use crate::status::VxStatus;
use crate::threshold::VxThreshold;
use vstd::prelude::*;

verus! {

/// The descriptor of a threshold as bound into a node: a copy of its
/// handle, types and values at binding time.
#[derive(Debug, Eq, PartialEq, Structural, Copy, Clone)]
pub struct ThresholdDesc {
    /// The handle of the bound threshold.
    pub raw: u64,
    /// The value type of the threshold: binary or range.
    pub thresh_type: i32,
    /// The element type of the threshold's values.
    pub data_type: u32,
    /// The value of the single threshold.
    pub value: i32,
    /// The value of the lower threshold.
    pub lower: i32,
    /// The value of the upper threshold.
    pub upper: i32,
}

/// A kernel invocation: the kernel and its ordered, typed parameters.
#[derive(Debug, Eq, PartialEq, Structural, Copy, Clone)]
pub enum KernelOp {
    /// Converts the color format of an image.
    ColorConvert {
        /// The image read.
        input: ImageParam,
        /// The image written.
        output: ImageParam,
    },
    /// Extracts one channel of an image into a single-plane image.
    ChannelExtract {
        /// The image read.
        input: ImageParam,
        /// The channel to extract.
        channel: i32,
        /// The image written.
        output: ImageParam,
    },
    /// Detects edges with hysteresis thresholding.
    CannyEdgeDetector {
        /// The image read.
        input: ImageParam,
        /// The hysteresis threshold, which must be a range threshold.
        hyst: ThresholdDesc,
        /// The gradient window size: three, five or seven.
        gradient_size: i32,
        /// The norm used for the gradient magnitude.
        norm_type: i32,
        /// The image written.
        output: ImageParam,
    },
}

/// One node as its graph stores it.
#[derive(Debug, Eq, PartialEq, Clone)]
pub struct NodeRec {
    /// The graph-scoped handle of the node.
    pub raw: u64,
    /// The kernel invocation the node is bound to.
    pub op: KernelOp,
    /// The status the most recent execution left this node in.
    pub status: VxStatus,
    /// The performance record of this node.
    pub perf: Performance,
    /// The diagnostic name, if any.
    pub name: Option<String>,
}

/// One virtual data object as its graph stores it.
#[derive(Debug, Eq, PartialEq, Structural, Copy, Clone)]
pub struct VirtualRec {
    /// The graph-scoped handle of the virtual object.
    pub raw: u64,
    /// The pixel format; may be the virtual format.
    pub format: ImageType,
    /// The width in pixels; zero lets verification infer it.
    pub width: u32,
    /// The height in pixels; zero lets verification infer it.
    pub height: u32,
}

/// An opaque reference to a node, owned by its graph; the wrapper can be
/// released independently while the node stays in the graph until the
/// graph itself is released.
#[derive(Debug, Eq, PartialEq, Structural, Copy, Clone)]
pub struct VxNode {
    /// The graph-scoped handle; zero marks a released wrapper.
    pub raw: u64,
    /// The handle of the owning graph.
    pub graph: u64,
    /// The index of the node in its graph, in insertion order.
    pub index: usize,
}

/// An explicit dataflow graph: nodes in insertion order, virtual data
/// objects scoped to the graph, and the verification state machine.
#[derive(Debug, Eq, PartialEq, Clone)]
pub struct VxGraph {
    /// The opaque handle; zero marks a released wrapper.
    pub raw: u64,
    /// The handle of the owning context.
    pub context: u64,
    /// The state of the graph's verification and execution state machine.
    pub state: VxGraphState,
    /// The nodes of the graph, in insertion order.
    pub nodes: Vec<NodeRec>,
    /// The virtual data objects owned by this graph.
    pub virtuals: Vec<VirtualRec>,
    /// The next graph-scoped handle this graph will issue.
    pub next_local: u64,
    /// The overall performance record of the graph.
    pub perf: Performance,
    /// The diagnostic name, if any.
    pub name: Option<String>,
}

/// Whether a bound parameter names a released persistent image.
pub open spec fn param_is_null(p: ImageParam) -> bool {
    p matches ImageParam::Image(d) && d.raw == 0
}

/// Whether a bound parameter lies in the scope of the given graph: a
/// persistent image always does, a virtual object only when this graph
/// owns it and the index names one of its virtual objects.
pub open spec fn param_scope_ok(p: ImageParam, graph_raw: u64, virtuals: Seq<VirtualRec>) -> bool {
    match p {
        ImageParam::Image(_) => true,
        ImageParam::Virtual { graph, index } => graph == graph_raw && index < virtuals.len(),
    }
}

/// The pixel format a bound parameter resolves to.
pub open spec fn param_format(p: ImageParam, virtuals: Seq<VirtualRec>) -> ImageType {
    match p {
        ImageParam::Image(d) => d.format,
        ImageParam::Virtual { index, .. } => virtuals[index as int].format,
    }
}

/// The width a bound parameter resolves to.
pub open spec fn param_width(p: ImageParam, virtuals: Seq<VirtualRec>) -> u32 {
    match p {
        ImageParam::Image(d) => d.width,
        ImageParam::Virtual { index, .. } => virtuals[index as int].width,
    }
}

/// The height a bound parameter resolves to.
pub open spec fn param_height(p: ImageParam, virtuals: Seq<VirtualRec>) -> u32 {
    match p {
        ImageParam::Image(d) => d.height,
        ImageParam::Virtual { index, .. } => virtuals[index as int].height,
    }
}

/// Whether two bound parameters name the same data object: persistent
/// images by handle, virtual objects by owning graph and index. A
/// persistent image and a virtual object are never the same object.
pub open spec fn same_data_object(a: ImageParam, b: ImageParam) -> bool {
    match (a, b) {
        (ImageParam::Image(d1), ImageParam::Image(d2)) => d1.raw == d2.raw,
        (
            ImageParam::Virtual { graph: g1, index: i1 },
            ImageParam::Virtual { graph: g2, index: i2 },
        ) => g1 == g2 && i1 == i2,
        _ => false,
    }
}

/// The data object a kernel invocation writes.
pub open spec fn op_output(op: KernelOp) -> ImageParam {
    match op {
        KernelOp::ColorConvert { output, .. } => output,
        KernelOp::ChannelExtract { output, .. } => output,
        KernelOp::CannyEdgeDetector { output, .. } => output,
    }
}

/// The data object a kernel invocation reads.
pub open spec fn op_input(op: KernelOp) -> ImageParam {
    match op {
        KernelOp::ColorConvert { input, .. } => input,
        KernelOp::ChannelExtract { input, .. } => input,
        KernelOp::CannyEdgeDetector { input, .. } => input,
    }
}

/// The number of parameters the kernel of an invocation declares.
pub open spec fn op_num_parameters(op: KernelOp) -> u32 {
    match op {
        KernelOp::ColorConvert { .. } => 2,
        KernelOp::ChannelExtract { .. } => 3,
        KernelOp::CannyEdgeDetector { .. } => 5,
    }
}

/// Whether two resolved dimension pairs are compatible: equal, or open on
/// either side because a virtual object left a dimension zero for
/// verification to infer.
pub open spec fn dims_compatible(wi: u32, hi: u32, wo: u32, ho: u32) -> bool {
    wi == 0 || hi == 0 || wo == 0 || ho == 0 || (wi == wo && hi == ho)
}

/// Whether a channel enumeration value names a channel.
pub open spec fn channel_valid(channel: i32) -> bool {
    VX_CHANNEL_0 <= channel <= VX_CHANNEL_3 || VX_CHANNEL_R <= channel <= VX_CHANNEL_V
}

/// Whether a resolved format can be read as a color image: a color format,
/// or the virtual format left for verification to infer.
pub open spec fn format_color_or_virtual(f: ImageType) -> bool {
    image_type_is_color(f) || f is Virtual
}

/// Whether a resolved format can serve as a single-plane 8-bit image: the
/// unsigned 8-bit format, or the virtual format left for verification to
/// infer.
pub open spec fn format_u8_or_virtual(f: ImageType) -> bool {
    f is U8 || f is Virtual
}

/// The first failure verification finds in one node, if any: a parameter
/// outside the graph's scope, then the kernel's format, argument and
/// dimension rules, in the order the kernel declares its parameters.
pub open spec fn node_check(op: KernelOp, graph_raw: u64, virtuals: Seq<VirtualRec>) -> Option<
    VxError,
> {
    match op {
        KernelOp::ColorConvert { input, output } => {
            if !param_scope_ok(input, graph_raw, virtuals) || !param_scope_ok(
                output,
                graph_raw,
                virtuals,
            ) {
                Some(VxError::InvalidScope)
            } else if !format_color_or_virtual(param_format(input, virtuals)) {
                Some(VxError::InvalidFormat)
            } else if !format_color_or_virtual(param_format(output, virtuals)) {
                Some(VxError::InvalidFormat)
            } else if !dims_compatible(
                param_width(input, virtuals),
                param_height(input, virtuals),
                param_width(output, virtuals),
                param_height(output, virtuals),
            ) {
                Some(VxError::InvalidDimension)
            } else {
                None
            }
        },
        KernelOp::ChannelExtract { input, channel, output } => {
            if !param_scope_ok(input, graph_raw, virtuals) || !param_scope_ok(
                output,
                graph_raw,
                virtuals,
            ) {
                Some(VxError::InvalidScope)
            } else if !format_color_or_virtual(param_format(input, virtuals)) {
                Some(VxError::InvalidFormat)
            } else if !channel_valid(channel) {
                Some(VxError::InvalidParameters)
            } else if !format_u8_or_virtual(param_format(output, virtuals)) {
                Some(VxError::InvalidFormat)
            } else if !dims_compatible(
                param_width(input, virtuals),
                param_height(input, virtuals),
                param_width(output, virtuals),
                param_height(output, virtuals),
            ) {
                Some(VxError::InvalidDimension)
            } else {
                None
            }
        },
        KernelOp::CannyEdgeDetector { input, hyst, gradient_size, norm_type, output } => {
            if !param_scope_ok(input, graph_raw, virtuals) || !param_scope_ok(
                output,
                graph_raw,
                virtuals,
            ) {
                Some(VxError::InvalidScope)
            } else if !format_u8_or_virtual(param_format(input, virtuals)) {
                Some(VxError::InvalidFormat)
            } else if hyst.thresh_type != VX_THRESHOLD_TYPE_RANGE {
                Some(VxError::InvalidType)
            } else if !(gradient_size == 3 || gradient_size == 5 || gradient_size == 7) {
                Some(VxError::InvalidValue)
            } else if !(norm_type == VX_NORM_L1 || norm_type == VX_NORM_L2) {
                Some(VxError::InvalidValue)
            } else if !format_u8_or_virtual(param_format(output, virtuals)) {
                Some(VxError::InvalidFormat)
            } else if !dims_compatible(
                param_width(input, virtuals),
                param_height(input, virtuals),
                param_width(output, virtuals),
                param_height(output, virtuals),
            ) {
                Some(VxError::InvalidDimension)
            } else {
                None
            }
        },
    }
}

/// The first failure verification finds over the nodes in insertion order,
/// if any.
pub open spec fn first_node_error(
    nodes: Seq<NodeRec>,
    graph_raw: u64,
    virtuals: Seq<VirtualRec>,
) -> Option<VxError>
    decreases nodes.len(),
{
    if nodes.len() == 0 {
        None
    } else {
        match node_check(nodes[0].op, graph_raw, virtuals) {
            Some(e) => Some(e),
            None => first_node_error(nodes.drop_first(), graph_raw, virtuals),
        }
    }
}

/// Whether some data object has more than one writer among the nodes.
pub open spec fn has_multiple_writers(nodes: Seq<NodeRec>) -> bool {
    exists|i: int, j: int|
        0 <= i < j < nodes.len() && same_data_object(
            op_output(#[trigger] nodes[i].op),
            op_output(#[trigger] nodes[j].op),
        )
}

/// Whether the node at index `j` depends on the node at index `i`: `j`
/// reads the data object that `i` writes.
pub open spec fn depends(nodes: Seq<NodeRec>, i: int, j: int) -> bool {
    same_data_object(op_output(nodes[i].op), op_input(nodes[j].op))
}

/// Whether a sequence of node indices is an execution order of the nodes:
/// it lists every node exactly once, and every node stands after each node
/// it depends on.
pub open spec fn is_execution_order(nodes: Seq<NodeRec>, order: Seq<int>) -> bool {
    &&& order.len() == nodes.len()
    &&& forall|a: int| 0 <= a < order.len() ==> 0 <= #[trigger] order[a] < nodes.len()
    &&& forall|a: int, b: int| 0 <= a < b < order.len() ==> order[a] != order[b]
    &&& forall|i: int| 0 <= i < nodes.len() ==> order.contains(i)
    &&& forall|a: int, b: int|
        0 <= a < order.len() && 0 <= b < order.len() && depends(
            nodes,
            #[trigger] order[a],
            #[trigger] order[b],
        ) ==> a < b
}

/// Whether the dependency relation of the nodes admits an execution order:
/// the graph's connections are acyclic.
pub open spec fn graph_acyclic(nodes: Seq<NodeRec>) -> bool {
    exists|order: Seq<int>| is_execution_order(nodes, order)
}

impl VxNode {
    /// Whether the handle is the null handle.
    pub fn is_null(&self) -> (r: bool)
        ensures
            r <==> self.raw == 0,
    {
        self.raw == 0
    }

    /// The reference count the engine holds for this node wrapper: one
    /// while the wrapper owns its handle, zero once released. The node
    /// itself stays in its graph either way.
    pub fn get_reference_count(&self) -> (r: u32)
        ensures
            r == 1 <==> self.raw != 0,
            r == 0 <==> self.raw == 0,
    {
        if self.raw == 0 {
            0
        } else {
            1
        }
    }
}

impl AsVxReference for VxNode {
    open spec fn spec_reference(&self) -> VxReference {
        VxReference { raw: self.raw, kind: RefKind::Node }
    }

    fn as_reference(&self) -> (r: VxReference) {
        VxReference { raw: self.raw, kind: RefKind::Node }
    }
}

impl Release for VxNode {
    open spec fn spec_released(&self) -> bool {
        self.raw == 0
    }

    fn release(&mut self) -> (r: Result<(), VxError>)
        ensures
            *final(self) == (VxNode { raw: 0, ..*old(self) }),
    {
        self.raw = 0;
        Ok(())
    }
}

impl CheckStatus for VxNode {
    open spec fn spec_status(&self) -> VxStatus {
        if self.raw == 0 {
            VxStatus::Error(VxError::InvalidReference)
        } else {
            VxStatus::Success
        }
    }

    fn check_status(&self) -> (r: Result<(), VxError>) {
        if self.raw == 0 {
            Err(VxError::InvalidReference)
        } else {
            Ok(())
        }
    }
}

impl VxGraph {
    /// Builds the graph a context hands out: empty, unverified, with no
    /// measurements. A null graph handle marks a failed allocation.
    pub(crate) fn construct(raw: u64, context: u64) -> (r: VxGraph)
        ensures
            r.raw == raw,
            r.context == context,
            r.state is Unverified,
            r.nodes@.len() == 0,
            r.virtuals@.len() == 0,
            r.next_local == 1,
            performance_is_zero(r.perf),
            r.name is None,
    {
        VxGraph {
            raw,
            context,
            state: VxGraphState::Unverified,
            nodes: Vec::new(),
            virtuals: Vec::new(),
            next_local: 1,
            perf: Performance::zero(),
            name: None,
        }
    }

    /// The raw handle of the graph.
    pub fn as_raw(&self) -> (r: u64)
        ensures
            r == self.raw,
    {
        self.raw
    }

    /// Whether the handle is the null handle.
    pub fn is_null(&self) -> (r: bool)
        ensures
            r <==> self.raw == 0,
    {
        self.raw == 0
    }

    /// The number of nodes in the graph; zero for a released graph.
    pub fn get_num_nodes(&self) -> (r: usize)
        ensures
            self.raw != 0 ==> r == self.nodes@.len(),
            self.raw == 0 ==> r == 0,
    {
        if self.raw == 0 {
            0
        } else {
            self.nodes.len()
        }
    }

    /// The number of explicitly declared graph parameters. This layer
    /// offers no way to declare one, so the count is zero for every live
    /// graph, as for a released one.
    pub fn get_num_parameters(&self) -> (r: usize)
        ensures
            r == 0,
    {
        0
    }

    /// The state of the graph; the unknown state with code zero for a
    /// released graph, whose state the engine no longer reports.
    pub fn get_state(&self) -> (r: VxGraphState)
        ensures
            self.raw != 0 ==> r == self.state,
            self.raw == 0 ==> r == (VxGraphState::Unknown { state: 0 }),
    {
        if self.raw == 0 {
            VxGraphState::Unknown { state: 0 }
        } else {
            self.state
        }
    }

    /// The overall performance of the graph: zero before any successful
    /// execution, and zero again for a released graph.
    pub fn get_performance(&self) -> (r: Performance)
        ensures
            self.raw != 0 ==> r == self.perf,
            self.raw == 0 ==> performance_is_zero(r),
    {
        if self.raw == 0 {
            Performance::zero()
        } else {
            self.perf
        }
    }

    /// The reference count the engine holds for this graph: one while the
    /// wrapper owns its handle, zero once released.
    pub fn get_reference_count(&self) -> (r: u32)
        ensures
            r == 1 <==> self.raw != 0,
            r == 0 <==> self.raw == 0,
    {
        if self.raw == 0 {
            0
        } else {
            1
        }
    }

    /// Creates a virtual image scoped to this graph. Its format may be the
    /// virtual format and either dimension may be zero; verification then
    /// infers them. The object is valid only until the graph is released.
    pub fn create_virtual_image(&mut self, format: ImageType, width: u32, height: u32) -> (r:
        Result<VxVirtualImage, VxError>)
        ensures
            old(self).raw == 0 ==> r == Err::<VxVirtualImage, VxError>(VxError::InvalidReference)
                && *final(self) == *old(self),
            old(self).raw != 0 && format is Other ==> r == Err::<VxVirtualImage, VxError>(
                VxError::InvalidFormat,
            ) && *final(self) == *old(self),
            old(self).raw != 0 && !(format is Other) && !(width <= VX_MAX_IMAGE_DIMENSION && height
                <= VX_MAX_IMAGE_DIMENSION) ==> r == Err::<VxVirtualImage, VxError>(
                VxError::InvalidDimension,
            ) && *final(self) == *old(self),
            old(self).raw != 0 && !(format is Other) && width <= VX_MAX_IMAGE_DIMENSION && height
                <= VX_MAX_IMAGE_DIMENSION && old(self).next_local == u64::MAX ==> r == Err::<
                VxVirtualImage,
                VxError,
            >(VxError::NoResources) && *final(self) == *old(self),
            old(self).raw != 0 && !(format is Other) && width <= VX_MAX_IMAGE_DIMENSION && height
                <= VX_MAX_IMAGE_DIMENSION && old(self).next_local < u64::MAX ==> r == Ok::<
                VxVirtualImage,
                VxError,
            >(
                VxVirtualImage {
                    raw: old(self).next_local,
                    graph: old(self).raw,
                    index: old(self).virtuals@.len() as usize,
                    format,
                    width,
                    height,
                },
            ) && final(self).virtuals@ =~= old(self).virtuals@.push(
                VirtualRec { raw: old(self).next_local, format, width, height },
            ) && final(self).next_local == old(self).next_local + 1 && final(self).raw == old(self).raw && final(self).context == old(self).context && final(self).state == old(self).state && final(self).nodes == old(self).nodes && final(self).perf == old(self).perf
                && final(self).name == old(self).name,
    {
        if self.raw == 0 {
            return Err(VxError::InvalidReference);
        }
        if matches!(format, ImageType::Other { .. }) {
            return Err(VxError::InvalidFormat);
        }
        if width > VX_MAX_IMAGE_DIMENSION || height > VX_MAX_IMAGE_DIMENSION {
            return Err(VxError::InvalidDimension);
        }
        if self.next_local == u64::MAX {
            return Err(VxError::NoResources);
        }
        let raw = self.next_local;
        self.next_local = self.next_local + 1;
        let index = self.virtuals.len();
        self.virtuals.push(VirtualRec { raw, format, width, height });
        Ok(VxVirtualImage { raw, graph: self.raw, index, format, width, height })
    }

    /// Appends a node; shared tail of every node constructor. Creating a
    /// node reverts the graph to the unverified state.
    fn push_node(&mut self, op: KernelOp) -> (r: Result<VxNode, VxError>)
        requires
            old(self).raw != 0,
        ensures
            old(self).next_local == u64::MAX ==> r == Err::<VxNode, VxError>(VxError::NoResources)
                && *final(self) == *old(self),
            old(self).next_local < u64::MAX ==> r == Ok::<VxNode, VxError>(
                VxNode {
                    raw: old(self).next_local,
                    graph: old(self).raw,
                    index: old(self).nodes@.len() as usize,
                },
            ) && final(self).nodes@ =~= old(self).nodes@.push(
                NodeRec {
                    raw: old(self).next_local,
                    op,
                    status: VxStatus::Success,
                    perf: Performance {
                        tmp: 0,
                        beg: 0,
                        end: 0,
                        sum: 0,
                        avg: 0,
                        min: 0,
                        num: 0,
                        max: 0,
                    },
                    name: None,
                },
            ) && final(self).state is Unverified && final(self).next_local == old(self).next_local
                + 1 && final(self).raw == old(self).raw && final(self).context == old(self).context
                && final(self).virtuals == old(self).virtuals && final(self).perf == old(self).perf
                && final(self).name == old(self).name,
    {
        if self.next_local == u64::MAX {
            return Err(VxError::NoResources);
        }
        let raw = self.next_local;
        self.next_local = self.next_local + 1;
        let index = self.nodes.len();
        self.nodes.push(
            NodeRec {
                raw,
                op,
                status: VxStatus::Success,
                perf: Performance::zero(),
                name: None,
            },
        );
        self.state = VxGraphState::Unverified;
        Ok(VxNode { raw, graph: self.raw, index })
    }

    /// Creates a color-conversion node reading `input` and writing
    /// `output`.
    ///
    /// Fails with `InvalidReference` on a released graph or a parameter
    /// naming a released image, and with `NoResources` when the handle
    /// space is exhausted; semantic checks are deferred to `verify`.
    pub fn color_convert_node(&mut self, input: ImageParam, output: ImageParam) -> (r: Result<
        VxNode,
        VxError,
    >)
        ensures
            node_creation_contract(
                *old(self),
                *final(self),
                r,
                (KernelOp::ColorConvert { input, output }),
                param_is_null(input) || param_is_null(output),
            ),
    {
        if self.raw == 0 {
            return Err(VxError::InvalidReference);
        }
        if param_null_exec(&input) || param_null_exec(&output) {
            return Err(VxError::InvalidReference);
        }
        self.push_node(KernelOp::ColorConvert { input, output })
    }

    /// Creates a channel-extraction node reading one channel of `input`
    /// into `output`.
    ///
    /// Fails with `InvalidReference` on a released graph or a parameter
    /// naming a released image, and with `NoResources` when the handle
    /// space is exhausted; semantic checks are deferred to `verify`.
    pub fn channel_extract_node(
        &mut self,
        input: ImageParam,
        channel: i32,
        output: ImageParam,
    ) -> (r: Result<VxNode, VxError>)
        ensures
            node_creation_contract(
                *old(self),
                *final(self),
                r,
                (KernelOp::ChannelExtract { input, channel, output }),
                param_is_null(input) || param_is_null(output),
            ),
    {
        if self.raw == 0 {
            return Err(VxError::InvalidReference);
        }
        if param_null_exec(&input) || param_null_exec(&output) {
            return Err(VxError::InvalidReference);
        }
        self.push_node(KernelOp::ChannelExtract { input, channel, output })
    }

    /// Creates an edge-detection node reading `input`, thresholding with
    /// `hyst`, and writing `output`.
    ///
    /// Fails with `InvalidReference` on a released graph, a released
    /// threshold or a parameter naming a released image, and with
    /// `NoResources` when the handle space is exhausted; semantic checks
    /// are deferred to `verify`.
    pub fn canny_edge_detector_node(
        &mut self,
        input: ImageParam,
        hyst: &VxThreshold,
        gradient_size: i32,
        norm_type: i32,
        output: ImageParam,
    ) -> (r: Result<VxNode, VxError>)
        ensures
            node_creation_contract(
                *old(self),
                *final(self),
                r,
                (KernelOp::CannyEdgeDetector {
                    input,
                    hyst: ThresholdDesc {
                        raw: hyst.raw,
                        thresh_type: hyst.thresh_type,
                        data_type: hyst.data_type,
                        value: hyst.value,
                        lower: hyst.lower,
                        upper: hyst.upper,
                    },
                    gradient_size,
                    norm_type,
                    output,
                }),
                param_is_null(input) || param_is_null(output) || hyst.raw == 0,
            ),
    {
        if self.raw == 0 {
            return Err(VxError::InvalidReference);
        }
        if param_null_exec(&input) || param_null_exec(&output) || hyst.raw == 0 {
            return Err(VxError::InvalidReference);
        }
        self.push_node(
            KernelOp::CannyEdgeDetector {
                input,
                hyst: ThresholdDesc {
                    raw: hyst.raw,
                    thresh_type: hyst.thresh_type,
                    data_type: hyst.data_type,
                    value: hyst.value,
                    lower: hyst.lower,
                    upper: hyst.upper,
                },
                gradient_size,
                norm_type,
                output,
            },
        )
    }

    /// Whether a node wrapper names a node of this graph.
    pub open spec fn node_valid(&self, node: VxNode) -> bool {
        &&& self.raw != 0
        &&& node.raw != 0
        &&& node.graph == self.raw
        &&& node.index < self.nodes@.len()
        &&& self.nodes@[node.index as int].raw == node.raw
    }

    /// Tests whether a node wrapper names a node of this graph.
    fn check_node(&self, node: &VxNode) -> (r: bool)
        ensures
            r <==> self.node_valid(*node),
    {
        self.raw != 0 && node.raw != 0 && node.graph == self.raw && node.index < self.nodes.len()
            && self.nodes[node.index].raw == node.raw
    }

    /// Labels a node of this graph with a diagnostic name.
    ///
    /// Fails with `InvalidReference` when the wrapper does not name a node
    /// of this live graph, leaving the graph unchanged.
    pub fn set_node_name(&mut self, node: &VxNode, name: &str) -> (r: Result<(), VxError>)
        ensures
            !old(self).node_valid(*node) ==> r == Err::<(), VxError>(VxError::InvalidReference)
                && *final(self) == *old(self),
            old(self).node_valid(*node) ==> r == Ok::<(), VxError>(()) && final(self).nodes@.len()
                == old(self).nodes@.len() && (forall|m: int|
                0 <= m < old(self).nodes@.len() && m != node.index ==> #[trigger] final(self).nodes@[m] == old(self).nodes@[m]) && final(self).nodes@[node.index as int].raw
                == old(self).nodes@[node.index as int].raw && final(self).nodes@[node.index as int].op == old(self).nodes@[node.index as int].op && final(self).nodes@[node.index as int].status == old(self).nodes@[node.index as int].status
                && final(self).nodes@[node.index as int].perf == old(self).nodes@[node.index as int].perf && (final(self).nodes@[node.index as int].name matches Some(n)
                && n@ == name@) && final(self).raw == old(self).raw && final(self).context
                == old(self).context && final(self).state == old(self).state && final(self).virtuals == old(self).virtuals && final(self).next_local == old(self).next_local
                && final(self).perf == old(self).perf && final(self).name == old(self).name,
    {
        if !self.check_node(node) {
            return Err(VxError::InvalidReference);
        }
        let mut rec = self.nodes.remove(node.index);
        rec.name = Some(name.to_owned());
        self.nodes.insert(node.index, rec);
        proof {
            assert(final(self).nodes@ =~= old(self).nodes@.update(
                node.index as int,
                final(self).nodes@[node.index as int],
            ));
        }
        Ok(())
    }

    /// Reads the diagnostic name of a node of this graph.
    pub fn node_get_name(&self, node: &VxNode) -> (r: Result<Option<&str>, VxError>)
        ensures
            !self.node_valid(*node) ==> r == Err::<Option<&str>, VxError>(
                VxError::InvalidReference,
            ),
            self.node_valid(*node) ==> (match r {
                Ok(Some(n)) => self.nodes@[node.index as int].name matches Some(m) && m@ == n@,
                Ok(None) => self.nodes@[node.index as int].name is None,
                Err(_) => false,
            }),
    {
        if !self.check_node(node) {
            return Err(VxError::InvalidReference);
        }
        match &self.nodes[node.index].name {
            Some(n) => Ok(Some(n.as_str())),
            None => Ok(None),
        }
    }

    /// The status the most recent execution left a node of this graph in.
    pub fn node_status(&self, node: &VxNode) -> (r: Result<VxStatus, VxError>)
        ensures
            !self.node_valid(*node) ==> r == Err::<VxStatus, VxError>(VxError::InvalidReference),
            self.node_valid(*node) ==> r == Ok::<VxStatus, VxError>(
                self.nodes@[node.index as int].status,
            ),
    {
        if !self.check_node(node) {
            return Err(VxError::InvalidReference);
        }
        Ok(self.nodes[node.index].status)
    }

    /// The performance record of a node of this graph.
    pub fn node_performance(&self, node: &VxNode) -> (r: Result<Performance, VxError>)
        ensures
            !self.node_valid(*node) ==> r == Err::<Performance, VxError>(
                VxError::InvalidReference,
            ),
            self.node_valid(*node) ==> r == Ok::<Performance, VxError>(
                self.nodes@[node.index as int].perf,
            ),
    {
        if !self.check_node(node) {
            return Err(VxError::InvalidReference);
        }
        Ok(self.nodes[node.index].perf)
    }

    /// The number of parameters the kernel of a node of this graph
    /// declares.
    pub fn node_num_parameters(&self, node: &VxNode) -> (r: Result<u32, VxError>)
        ensures
            !self.node_valid(*node) ==> r == Err::<u32, VxError>(VxError::InvalidReference),
            self.node_valid(*node) ==> r == Ok::<u32, VxError>(
                op_num_parameters(self.nodes@[node.index as int].op),
            ),
    {
        if !self.check_node(node) {
            return Err(VxError::InvalidReference);
        }
        match self.nodes[node.index].op {
            KernelOp::ColorConvert { .. } => Ok(2),
            KernelOp::ChannelExtract { .. } => Ok(3),
            KernelOp::CannyEdgeDetector { .. } => Ok(5),
        }
    }

    /// The format and dimensions of a virtual image of this graph.
    ///
    /// Fails with `InvalidReference` on a released graph or a released or
    /// unknown virtual wrapper, and with `InvalidScope` for a virtual
    /// object of another graph: once its graph is released, a virtual
    /// object answers no query.
    pub fn virtual_image_info(&self, v: &VxVirtualImage) -> (r: Result<
        (ImageType, u32, u32),
        VxError,
    >)
        ensures
            self.raw == 0 || v.raw == 0 ==> r == Err::<(ImageType, u32, u32), VxError>(
                VxError::InvalidReference,
            ),
            self.raw != 0 && v.raw != 0 && v.graph != self.raw ==> r == Err::<
                (ImageType, u32, u32),
                VxError,
            >(VxError::InvalidScope),
            self.raw != 0 && v.raw != 0 && v.graph == self.raw && !(v.index
                < self.virtuals@.len() && self.virtuals@[v.index as int].raw == v.raw) ==> r
                == Err::<(ImageType, u32, u32), VxError>(VxError::InvalidReference),
            self.raw != 0 && v.raw != 0 && v.graph == self.raw && v.index < self.virtuals@.len()
                && self.virtuals@[v.index as int].raw == v.raw ==> r == Ok::<
                (ImageType, u32, u32),
                VxError,
            >(
                (
                    self.virtuals@[v.index as int].format,
                    self.virtuals@[v.index as int].width,
                    self.virtuals@[v.index as int].height,
                ),
            ),
    {
        if self.raw == 0 || v.raw == 0 {
            return Err(VxError::InvalidReference);
        }
        if v.graph != self.raw {
            return Err(VxError::InvalidScope);
        }
        if !(v.index < self.virtuals.len() && self.virtuals[v.index].raw == v.raw) {
            return Err(VxError::InvalidReference);
        }
        let rec = self.virtuals[v.index];
        Ok((rec.format, rec.width, rec.height))
    }
}

/// The shared contract of the node constructors: a released graph or a
/// null bound reference is refused as an invalid reference, handle
/// exhaustion as missing resources; otherwise the node is appended with
/// the given kernel invocation and the graph reverts to the unverified
/// state.
pub open spec fn node_creation_contract(
    pre: VxGraph,
    post: VxGraph,
    r: Result<VxNode, VxError>,
    op: KernelOp,
    null_param: bool,
) -> bool {
    &&& (pre.raw == 0 ==> r == Err::<VxNode, VxError>(VxError::InvalidReference) && post == pre)
    &&& (pre.raw != 0 && null_param ==> r == Err::<VxNode, VxError>(VxError::InvalidReference)
        && post == pre)
    &&& (pre.raw != 0 && !null_param && pre.next_local == u64::MAX ==> r == Err::<VxNode, VxError>(
        VxError::NoResources,
    ) && post == pre)
    &&& (pre.raw != 0 && !null_param && pre.next_local < u64::MAX ==> r == Ok::<VxNode, VxError>(
        VxNode { raw: pre.next_local, graph: pre.raw, index: pre.nodes@.len() as usize },
    ) && post.nodes@ =~= pre.nodes@.push(
        NodeRec {
            raw: pre.next_local,
            op,
            status: VxStatus::Success,
            perf: Performance { tmp: 0, beg: 0, end: 0, sum: 0, avg: 0, min: 0, num: 0, max: 0 },
            name: None,
        },
    ) && post.state is Unverified && post.next_local == pre.next_local + 1 && post.raw == pre.raw
        && post.context == pre.context && post.virtuals == pre.virtuals && post.perf == pre.perf
        && post.name == pre.name)
}

/// Tests whether a bound parameter names a released persistent image.
fn param_null_exec(p: &ImageParam) -> (r: bool)
    ensures
        r <==> param_is_null(*p),
{
    match p {
        ImageParam::Image(d) => d.raw == 0,
        ImageParam::Virtual { .. } => false,
    }
}

/// The verdict of graph verification: a released graph is refused; a
/// scheduled graph fails as such; a graph already decided verified (or
/// completed) passes again as a no-op; otherwise the distinct
/// multiple-writers failure comes first, then the first failing node's
/// error, then the cyclic failure, else success.
pub open spec fn verify_verdict(g: VxGraph) -> Result<(), VxError> {
    if g.raw == 0 {
        Err(VxError::InvalidReference)
    } else if g.state is Running {
        Err(VxError::GraphScheduled)
    } else if g.state is Verified || g.state is Completed {
        Ok(())
    } else if has_multiple_writers(g.nodes@) {
        Err(VxError::MultipleWriters)
    } else {
        match first_node_error(g.nodes@, g.raw, g.virtuals@) {
            Some(e) => Err(e),
            None => if !graph_acyclic(g.nodes@) {
                Err(VxError::InvalidGraph)
            } else {
                Ok(())
            },
        }
    }
}

/// Whether some node writes the persistent image with the given handle.
pub open spec fn graph_writes(nodes: Seq<NodeRec>, raw: u64) -> bool {
    exists|i: int|
        0 <= i < nodes.len() && (op_output(#[trigger] nodes[i].op) matches ImageParam::Image(d)
            && d.raw == raw)
}

/// Whether a bound parameter's persistent image, if it is one, is still
/// stored by the owning context.
pub open spec fn param_live(p: ImageParam, images: Seq<crate::context::ImageRec>) -> bool {
    match p {
        ImageParam::Image(d) => crate::context::image_live(images, d.raw),
        ImageParam::Virtual { .. } => true,
    }
}

/// Whether every persistent image bound into the nodes is still stored by
/// the owning context.
pub open spec fn all_refs_live(nodes: Seq<NodeRec>, images: Seq<crate::context::ImageRec>) -> bool {
    forall|i: int|
        0 <= i < nodes.len() ==> param_live(op_input(#[trigger] nodes[i].op), images) && param_live(
            op_output(nodes[i].op),
            images,
        )
}

/// The verdict of graph execution: released graph or context refused; a
/// graph of another context out of scope; the state machine demands a
/// verified or previously completed graph; and execution against a
/// released data object aborts as abandoned.
pub open spec fn process_verdict(g: VxGraph, c: VxContext) -> Result<(), VxError> {
    if g.raw == 0 || c.raw == 0 {
        Err(VxError::InvalidReference)
    } else if g.context != c.raw {
        Err(VxError::InvalidScope)
    } else if g.state is Running {
        Err(VxError::GraphScheduled)
    } else if g.state is Abandoned {
        Err(VxError::GraphAbandoned)
    } else if !(g.state is Verified || g.state is Completed) {
        Err(VxError::InvalidGraph)
    } else if !all_refs_live(g.nodes@, c.images@) {
        Err(VxError::GraphAbandoned)
    } else {
        Ok(())
    }
}

/// Resolves a bound parameter to the same data object as another.
fn same_object_exec(a: &ImageParam, b: &ImageParam) -> (r: bool)
    ensures
        r <==> same_data_object(*a, *b),
{
    match (a, b) {
        (ImageParam::Image(d1), ImageParam::Image(d2)) => d1.raw == d2.raw,
        (
            ImageParam::Virtual { graph: g1, index: i1 },
            ImageParam::Virtual { graph: g2, index: i2 },
        ) => g1 == g2 && i1 == i2,
        _ => false,
    }
}

/// The data object a kernel invocation writes.
fn op_output_exec(op: &KernelOp) -> (r: ImageParam)
    ensures
        r == op_output(*op),
{
    match op {
        KernelOp::ColorConvert { output, .. } => *output,
        KernelOp::ChannelExtract { output, .. } => *output,
        KernelOp::CannyEdgeDetector { output, .. } => *output,
    }
}

/// The data object a kernel invocation reads.
fn op_input_exec(op: &KernelOp) -> (r: ImageParam)
    ensures
        r == op_input(*op),
{
    match op {
        KernelOp::ColorConvert { input, .. } => *input,
        KernelOp::ChannelExtract { input, .. } => *input,
        KernelOp::CannyEdgeDetector { input, .. } => *input,
    }
}

/// Tests whether a bound parameter lies in the scope of the given graph.
fn param_scope_exec(p: &ImageParam, graph_raw: u64, virtuals: &Vec<VirtualRec>) -> (r: bool)
    ensures
        r <==> param_scope_ok(*p, graph_raw, virtuals@),
{
    match p {
        ImageParam::Image(_) => true,
        ImageParam::Virtual { graph, index } => *graph == graph_raw && *index < virtuals.len(),
    }
}

/// Resolves the format and dimensions of a bound parameter.
fn param_resolve(p: &ImageParam, virtuals: &Vec<VirtualRec>) -> (r: (ImageType, u32, u32))
    requires
        p matches ImageParam::Virtual { index, .. } ==> index < virtuals@.len(),
    ensures
        r.0 == param_format(*p, virtuals@),
        r.1 == param_width(*p, virtuals@),
        r.2 == param_height(*p, virtuals@),
{
    match p {
        ImageParam::Image(d) => (d.format, d.width, d.height),
        ImageParam::Virtual { index, .. } => {
            let rec = virtuals[*index];
            (rec.format, rec.width, rec.height)
        },
    }
}

/// The first failure verification finds in one node, if any.
fn node_check_exec(op: &KernelOp, graph_raw: u64, virtuals: &Vec<VirtualRec>) -> (r: Option<
    VxError,
>)
    ensures
        r == node_check(*op, graph_raw, virtuals@),
{
    match op {
        KernelOp::ColorConvert { input, output } => {
            if !param_scope_exec(input, graph_raw, virtuals) || !param_scope_exec(
                output,
                graph_raw,
                virtuals,
            ) {
                return Some(VxError::InvalidScope);
            }
            let (fi, wi, hi) = param_resolve(input, virtuals);
            let (fo, wo, ho) = param_resolve(output, virtuals);
            if !(fi.is_color() || matches!(fi, ImageType::Virtual)) {
                Some(VxError::InvalidFormat)
            } else if !(fo.is_color() || matches!(fo, ImageType::Virtual)) {
                Some(VxError::InvalidFormat)
            } else if !(wi == 0 || hi == 0 || wo == 0 || ho == 0 || (wi == wo && hi == ho)) {
                Some(VxError::InvalidDimension)
            } else {
                None
            }
        },
        KernelOp::ChannelExtract { input, channel, output } => {
            if !param_scope_exec(input, graph_raw, virtuals) || !param_scope_exec(
                output,
                graph_raw,
                virtuals,
            ) {
                return Some(VxError::InvalidScope);
            }
            let (fi, wi, hi) = param_resolve(input, virtuals);
            let (fo, wo, ho) = param_resolve(output, virtuals);
            if !(fi.is_color() || matches!(fi, ImageType::Virtual)) {
                Some(VxError::InvalidFormat)
            } else if !(VX_CHANNEL_0 <= *channel && *channel <= VX_CHANNEL_3 || VX_CHANNEL_R
                <= *channel && *channel <= VX_CHANNEL_V) {
                Some(VxError::InvalidParameters)
            } else if !(matches!(fo, ImageType::U8) || matches!(fo, ImageType::Virtual)) {
                Some(VxError::InvalidFormat)
            } else if !(wi == 0 || hi == 0 || wo == 0 || ho == 0 || (wi == wo && hi == ho)) {
                Some(VxError::InvalidDimension)
            } else {
                None
            }
        },
        KernelOp::CannyEdgeDetector { input, hyst, gradient_size, norm_type, output } => {
            if !param_scope_exec(input, graph_raw, virtuals) || !param_scope_exec(
                output,
                graph_raw,
                virtuals,
            ) {
                return Some(VxError::InvalidScope);
            }
            let (fi, wi, hi) = param_resolve(input, virtuals);
            let (fo, wo, ho) = param_resolve(output, virtuals);
            if !(matches!(fi, ImageType::U8) || matches!(fi, ImageType::Virtual)) {
                Some(VxError::InvalidFormat)
            } else if hyst.thresh_type != VX_THRESHOLD_TYPE_RANGE {
                Some(VxError::InvalidType)
            } else if !(*gradient_size == 3 || *gradient_size == 5 || *gradient_size == 7) {
                Some(VxError::InvalidValue)
            } else if !(*norm_type == VX_NORM_L1 || *norm_type == VX_NORM_L2) {
                Some(VxError::InvalidValue)
            } else if !(matches!(fo, ImageType::U8) || matches!(fo, ImageType::Virtual)) {
                Some(VxError::InvalidFormat)
            } else if !(wi == 0 || hi == 0 || wo == 0 || ho == 0 || (wi == wo && hi == ho)) {
                Some(VxError::InvalidDimension)
            } else {
                None
            }
        },
    }
}

/// The first failure verification finds over the nodes in insertion order.
fn first_node_error_exec(nodes: &Vec<NodeRec>, graph_raw: u64, virtuals: &Vec<VirtualRec>) -> (r:
    Option<VxError>)
    ensures
        r == first_node_error(nodes@, graph_raw, virtuals@),
{
    proof {
        assert(nodes@.skip(0) =~= nodes@);
    }
    let mut i: usize = 0;
    while i < nodes.len()
        invariant
            i <= nodes@.len(),
            first_node_error(nodes@, graph_raw, virtuals@) == first_node_error(
                nodes@.skip(i as int),
                graph_raw,
                virtuals@,
            ),
            forall|k: int|
                0 <= k < i ==> node_check(#[trigger] nodes@[k].op, graph_raw, virtuals@) is None,
        decreases nodes@.len() - i,
    {
        let r = node_check_exec(&nodes[i].op, graph_raw, virtuals);
        proof {
            assert(nodes@.skip(i as int)[0] == nodes@[i as int]);
            assert(nodes@.skip(i as int).drop_first() =~= nodes@.skip(i as int + 1));
        }
        if let Some(e) = r {
            return Some(e);
        }
        i = i + 1;
    }
    proof {
        assert(nodes@.skip(i as int).len() == 0);
    }
    None
}

/// Whether some data object has more than one writer among the nodes.
fn multiple_writers_exec(nodes: &Vec<NodeRec>) -> (r: bool)
    ensures
        r <==> has_multiple_writers(nodes@),
{
    let n = nodes.len();
    let mut i: usize = 0;
    while i < n
        invariant
            n == nodes@.len(),
            i <= n,
            forall|a: int, b: int|
                0 <= a < i && a < b < n ==> !same_data_object(
                    op_output(#[trigger] nodes@[a].op),
                    op_output(#[trigger] nodes@[b].op),
                ),
        decreases n - i,
    {
        let out_i = op_output_exec(&nodes[i].op);
        let mut j: usize = i + 1;
        while j < n
            invariant
                n == nodes@.len(),
                i < n,
                i < j <= n,
                out_i == op_output(nodes@[i as int].op),
                forall|b: int|
                    i < b < j ==> !same_data_object(
                        op_output(nodes@[i as int].op),
                        op_output(#[trigger] nodes@[b].op),
                    ),
            decreases n - j,
        {
            if same_object_exec(&out_i, &op_output_exec(&nodes[j].op)) {
                return true;
            }
            j = j + 1;
        }
        i = i + 1;
    }
    false
}

/// Tests whether the node at index `j` depends on the node at index `i`.
fn depends_exec(nodes: &Vec<NodeRec>, i: usize, j: usize) -> (r: bool)
    requires
        i < nodes@.len(),
        j < nodes@.len(),
    ensures
        r <==> depends(nodes@, i as int, j as int),
{
    let out = op_output_exec(&nodes[i].op);
    let inp = op_input_exec(&nodes[j].op);
    same_object_exec(&out, &inp)
}

/// The number of true entries in a placement.
pub open spec fn count_true(s: Seq<bool>) -> int
    decreases s.len(),
{
    if s.len() == 0 {
        0
    } else {
        count_true(s.drop_last()) + if s.last() {
            1int
        } else {
            0int
        }
    }
}

/// A placement holds between zero and all-of-them true entries.
proof fn lemma_count_true_le(s: Seq<bool>)
    ensures
        0 <= count_true(s) <= s.len(),
    decreases s.len(),
{
    if s.len() > 0 {
        lemma_count_true_le(s.drop_last());
    }
}

/// Marking one false entry true raises the count by exactly one.
proof fn lemma_count_true_update(s: Seq<bool>, i: int)
    requires
        0 <= i < s.len(),
        !s[i],
    ensures
        count_true(s.update(i, true)) == count_true(s) + 1,
    decreases s.len(),
{
    if i == s.len() - 1 {
        assert(s.update(i, true).drop_last() =~= s.drop_last());
    } else {
        lemma_count_true_update(s.drop_last(), i);
        assert(s.update(i, true).drop_last() =~= s.drop_last().update(i, true));
    }
}

/// A placement with no true entry counts none.
proof fn lemma_count_true_none(s: Seq<bool>)
    requires
        forall|v: int| 0 <= v < s.len() ==> !s[v],
    ensures
        count_true(s) == 0,
    decreases s.len(),
{
    if s.len() > 0 {
        lemma_count_true_none(s.drop_last());
    }
}

/// A placement with every entry true counts them all.
proof fn lemma_count_true_all(s: Seq<bool>)
    requires
        forall|v: int| 0 <= v < s.len() ==> s[v],
    ensures
        count_true(s) == s.len(),
    decreases s.len(),
{
    if s.len() > 0 {
        lemma_count_true_all(s.drop_last());
    }
}

/// Finds, among the positions from `from` on, the first whose value the
/// placement marks as unplaced.
proof fn lemma_first_unplaced_pos(order: Seq<int>, placed: Seq<bool>, from: int) -> (m: int)
    requires
        0 <= from,
        forall|a: int| 0 <= a < order.len() ==> 0 <= #[trigger] order[a] < placed.len(),
        exists|b: int| from <= b < order.len() && !placed[#[trigger] order[b]],
    ensures
        from <= m < order.len(),
        !placed[order[m]],
        forall|b: int| from <= b < m ==> placed[#[trigger] order[b]],
    decreases order.len() - from,
{
    if !placed[order[from]] {
        from
    } else {
        let m = lemma_first_unplaced_pos(order, placed, from + 1);
        m
    }
}

/// A placement that is stuck — some node is unplaced, and every unplaced
/// node depends on an unplaced node — witnesses a cycle: no execution
/// order exists.
proof fn lemma_stuck_means_cyclic(nodes: Seq<NodeRec>, placed: Seq<bool>, u0: int)
    requires
        placed.len() == nodes.len(),
        0 <= u0 < nodes.len(),
        !placed[u0],
        forall|i: int|
            0 <= i < nodes.len() && !placed[i] ==> exists|j: int|
                0 <= j < nodes.len() && !(#[trigger] placed[j]) && depends(nodes, j, i),
    ensures
        !graph_acyclic(nodes),
{
    if graph_acyclic(nodes) {
        let order = choose|order: Seq<int>| is_execution_order(nodes, order);
        assert(order.contains(u0));
        let b0 = choose|b: int| 0 <= b < order.len() && order[b] == u0;
        assert(!placed[order[b0]]);
        let m = lemma_first_unplaced_pos(order, placed, 0);
        let u = order[m];
        assert(!placed[u]);
        let j = choose|j: int|
            0 <= j < nodes.len() && !(#[trigger] placed[j]) && depends(nodes, j, u);
        assert(order.contains(j));
        let a = choose|a: int| 0 <= a < order.len() && order[a] == j;
        assert(depends(nodes, order[a], order[m]));
        assert(a < m);
        assert(placed[order[a]]);
        assert(false);
    }
}

/// Decides whether the dependency relation of the nodes admits an
/// execution order, by repeatedly placing nodes whose writers are all
/// placed.
fn acyclic_exec(nodes: &Vec<NodeRec>) -> (r: bool)
    ensures
        r <==> graph_acyclic(nodes@),
{
    let n = nodes.len();
    let mut placed: Vec<bool> = vec![false; n];
    let mut order: Vec<usize> = Vec::new();
    proof {
        lemma_count_true_none(placed@);
    }
    let mut progress = true;
    while progress
        invariant
            n == nodes@.len(),
            placed@.len() == n,
            count_true(placed@) == order@.len(),
            order@.len() <= n,
            forall|v: int|
                0 <= v < n ==> (placed@[v] <==> exists|a: int|
                    0 <= a < order@.len() && #[trigger] order@[a] as int == v),
            forall|a: int| 0 <= a < order@.len() ==> 0 <= (#[trigger] order@[a] as int) < n,
            forall|a: int, b: int| 0 <= a < b < order@.len() ==> order@[a] != order@[b],
            forall|b: int, i: int|
                0 <= b < order@.len() && 0 <= i < n && #[trigger] depends(
                    nodes@,
                    i,
                    order@[b] as int,
                ) ==> exists|a: int| 0 <= a < b && #[trigger] order@[a] as int == i,
            !progress ==> forall|ii: int|
                0 <= ii < n && !placed@[ii] ==> exists|jj: int|
                    0 <= jj < n && !(#[trigger] placed@[jj]) && depends(nodes@, jj, ii),
        decreases n - order@.len() + (if progress {
            1int
        } else {
            0int
        }),
    {
        progress = false;
        let ghost start_len = order@.len();
        let mut i: usize = 0;
        while i < n
            invariant
                n == nodes@.len(),
                placed@.len() == n,
                count_true(placed@) == order@.len(),
                order@.len() <= n,
                i <= n,
                start_len <= order@.len(),
                progress ==> order@.len() > start_len,
                !progress ==> order@.len() == start_len,
                forall|v: int|
                    0 <= v < n ==> (placed@[v] <==> exists|a: int|
                        0 <= a < order@.len() && #[trigger] order@[a] as int == v),
                forall|a: int| 0 <= a < order@.len() ==> 0 <= (#[trigger] order@[a] as int) < n,
                forall|a: int, b: int| 0 <= a < b < order@.len() ==> order@[a] != order@[b],
                forall|b: int, ii: int|
                    0 <= b < order@.len() && 0 <= ii < n && #[trigger] depends(
                        nodes@,
                        ii,
                        order@[b] as int,
                    ) ==> exists|a: int| 0 <= a < b && #[trigger] order@[a] as int == ii,
                !progress ==> forall|ii: int|
                    0 <= ii < i && !placed@[ii] ==> exists|jj: int|
                        0 <= jj < n && !(#[trigger] placed@[jj]) && depends(nodes@, jj, ii),
            decreases n - i,
        {
            if !placed[i] {
                let mut ready = true;
                let mut j: usize = 0;
                while j < n
                    invariant
                        n == nodes@.len(),
                        placed@.len() == n,
                        i < n,
                        j <= n,
                        ready <==> forall|jj: int|
                            0 <= jj < j && depends(nodes@, jj, i as int) ==> #[trigger] placed@[jj],
                    decreases n - j,
                {
                    if !placed[j] && depends_exec(nodes, j, i) {
                        ready = false;
                    }
                    j = j + 1;
                }
                if ready {
                    let ghost old_placed = placed@;
                    let ghost old_order = order@;
                    placed.remove(i);
                    placed.insert(i, true);
                    order.push(i);
                    progress = true;
                    proof {
                        assert(placed@ =~= old_placed.update(i as int, true));
                        lemma_count_true_update(old_placed, i as int);
                        lemma_count_true_le(placed@);
                        assert forall|v: int| 0 <= v < n implies (placed@[v] <==> exists|a: int|
                            0 <= a < order@.len() && #[trigger] order@[a] as int == v) by {
                            if v == i as int {
                                assert(order@[order@.len() - 1] as int == v);
                            } else {
                                if placed@[v] {
                                    let a = choose|a: int|
                                        0 <= a < old_order.len() && #[trigger] old_order[a] as int
                                            == v;
                                    assert(order@[a] as int == v);
                                } else {
                                    assert forall|a: int|
                                        0 <= a < order@.len() implies #[trigger] order@[a] as int
                                        != v by {
                                        if a < old_order.len() {
                                            assert(old_order[a] == order@[a]);
                                        }
                                    }
                                }
                            }
                        }
                        assert forall|b: int, ii: int|
                            0 <= b < order@.len() && 0 <= ii < n && #[trigger] depends(
                                nodes@,
                                ii,
                                order@[b] as int,
                            ) implies exists|a: int|
                            0 <= a < b && #[trigger] order@[a] as int == ii by {
                            if b < old_order.len() {
                                let a = choose|a: int|
                                    0 <= a < b && #[trigger] old_order[a] as int == ii;
                                assert(order@[a] as int == ii);
                            } else {
                                assert(order@[b] as int == i as int);
                                assert(old_placed[ii]);
                                let a = choose|a: int|
                                    0 <= a < old_order.len() && #[trigger] old_order[a] as int
                                        == ii;
                                assert(order@[a] as int == ii);
                            }
                        }
                    }
                }
            }
            i = i + 1;
        }
    }
    let mut all_placed = true;
    let mut u: usize = 0;
    let mut v: usize = 0;
    while v < n
        invariant
            n == nodes@.len(),
            placed@.len() == n,
            v <= n,
            all_placed <==> forall|w: int| 0 <= w < v ==> #[trigger] placed@[w],
            !all_placed ==> u < n && !placed@[u as int],
        decreases n - v,
    {
        if !placed[v] {
            all_placed = false;
            u = v;
        }
        v = v + 1;
    }
    if all_placed {
        proof {
            lemma_count_true_all(placed@);
            let gorder = order@.map_values(|x: usize| x as int);
            assert forall|idx: int| 0 <= idx < nodes@.len() implies gorder.contains(idx) by {
                assert(placed@[idx]);
                let a = choose|a: int| 0 <= a < order@.len() && #[trigger] order@[a] as int == idx;
                assert(gorder[a] == idx);
            }
            assert forall|a: int, b: int|
                0 <= a < gorder.len() && 0 <= b < gorder.len() && depends(
                    nodes@,
                    #[trigger] gorder[a],
                    #[trigger] gorder[b],
                ) implies a < b by {
                let ii = gorder[a];
                let a2 = choose|a2: int| 0 <= a2 < b && #[trigger] order@[a2] as int == ii;
                if a2 != a {
                    assert(order@[a2] != order@[a] || a2 == a);
                    assert(order@[a2] as int == order@[a] as int);
                    assert(false);
                }
            }
            assert(is_execution_order(nodes@, gorder));
        }
        true
    } else {
        proof {
            lemma_stuck_means_cyclic(nodes@, placed@, u as int);
        }
        false
    }
}

impl VxGraph {
    /// Verifies the graph for structural and type correctness.
    ///
    /// Verification transitions an unverified (or abandoned, or unknown)
    /// graph to `Verified` exactly when every node's parameters pass its
    /// kernel's declared checks, no data object has more than one writer
    /// — reported as the distinct `MultipleWriters` failure — and the
    /// connections are acyclic. On a graph already decided `Verified` (or
    /// `Completed`) it is a no-op success with no observable side effect;
    /// on a scheduled graph it fails with `GraphScheduled`; every failure
    /// leaves the graph exactly as it was.
    pub fn verify(&mut self) -> (r: Result<(), VxError>)
        ensures
            r == verify_verdict(*old(self)),
            r is Err ==> *final(self) == *old(self),
            r is Ok && (old(self).state is Verified || old(self).state is Completed) ==> *final(self) == *old(self),
            r is Ok && !(old(self).state is Verified || old(self).state is Completed) ==> *final(self) == (VxGraph { state: VxGraphState::Verified, ..*old(self) }),
    {
        if self.raw == 0 {
            return Err(VxError::InvalidReference);
        }
        match self.state {
            VxGraphState::Running => {
                return Err(VxError::GraphScheduled);
            },
            VxGraphState::Verified => {
                return Ok(());
            },
            VxGraphState::Completed => {
                return Ok(());
            },
            _ => {},
        }
        if multiple_writers_exec(&self.nodes) {
            return Err(VxError::MultipleWriters);
        }
        if let Some(e) = first_node_error_exec(&self.nodes, self.raw, &self.virtuals) {
            return Err(e);
        }
        if !acyclic_exec(&self.nodes) {
            return Err(VxError::InvalidGraph);
        }
        self.state = VxGraphState::Verified;
        Ok(())
    }

    /// Executes the graph against its owning context: a blocking call that
    /// returns once the whole graph has completed or been abandoned.
    ///
    /// Execution requires a `Verified` (or previously `Completed`, and
    /// then re-runnable) graph; an unverified graph is rejected with the
    /// structural `InvalidGraph` error, never a crash. Execution against a
    /// data object the context no longer stores aborts the run: the graph
    /// moves to `Abandoned` and the call reports `GraphAbandoned`. On
    /// success the graph moves to `Completed`; every persistent image some
    /// node writes counts as populated, while its pixel contents are the
    /// engine's work and stay as they were; every node reports success;
    /// and, when the context has performance counters enabled, the graph's
    /// and each node's run is counted. This layer has no clock of its own:
    /// durations come from the engine, so a counted run records zero
    /// nanoseconds.
    #[verifier::rlimit(60)]
    #[verifier::spinoff_prover]
    pub fn process(&mut self, context: &mut VxContext) -> (r: Result<(), VxError>)
        requires
            old(context).wf(),
        ensures
            final(context).wf(),
            r == process_verdict(*old(self), *old(context)),
            r is Err ==> *final(context) == *old(context),
            r is Err && !(old(self).raw != 0 && old(context).raw != 0 && old(self).context == old(context).raw && (old(self).state is Verified || old(self).state is Completed)) ==> *final(self) == *old(self),
            r is Err && (old(self).raw != 0 && old(context).raw != 0 && old(self).context == old(context).raw && (old(self).state is Verified || old(self).state is Completed)) ==> *final(self) == (VxGraph { state: VxGraphState::Abandoned, ..*old(self) }),
            r is Ok ==> final(self).state is Completed,
            r is Ok ==> final(self).raw == old(self).raw && final(self).context == old(self).context && final(self).virtuals == old(self).virtuals && final(self).next_local
                == old(self).next_local && final(self).name == old(self).name,
            r is Ok ==> final(self).perf == (if old(context).perf_enabled {
                performance_recorded(old(self).perf, 0)
            } else {
                old(self).perf
            }),
            r is Ok ==> final(self).nodes@.len() == old(self).nodes@.len(),
            r is Ok ==> forall|k: int|
                0 <= k < old(self).nodes@.len() ==> node_after_run(
                    old(self).nodes@[k],
                    #[trigger] final(self).nodes@[k],
                    old(context).perf_enabled,
                ),
            r is Ok ==> final(context).raw == old(context).raw && final(context).next_handle
                == old(context).next_handle && final(context).logging_enabled == old(context).logging_enabled && final(context).perf_enabled == old(context).perf_enabled && final(context).name == old(context).name,
            r is Ok ==> final(context).images@.len() == old(context).images@.len(),
            r is Ok ==> forall|k: int|
                0 <= k < old(context).images@.len() ==> (#[trigger] final(context).images@[k].desc
                    == old(context).images@[k].desc && final(context).images@[k].data == old(context).images@[k].data && final(context).images@[k].populated == (old(context).images@[k].populated || graph_writes(
                    old(self).nodes@,
                    old(context).images@[k].desc.raw,
                ))),
    {
        if self.raw == 0 || context.raw == 0 {
            return Err(VxError::InvalidReference);
        }
        if self.context != context.raw {
            return Err(VxError::InvalidScope);
        }
        match self.state {
            VxGraphState::Running => {
                return Err(VxError::GraphScheduled);
            },
            VxGraphState::Abandoned => {
                return Err(VxError::GraphAbandoned);
            },
            VxGraphState::Verified => {},
            VxGraphState::Completed => {},
            _ => {
                return Err(VxError::InvalidGraph);
            },
        }
        let n = self.nodes.len();
        let mut live = true;
        let mut i: usize = 0;
        while i < n
            invariant
                n == self.nodes@.len(),
                i <= n,
                live <==> forall|k: int|
                    0 <= k < i ==> param_live(
                        op_input(#[trigger] self.nodes@[k].op),
                        context.images@,
                    ) && param_live(op_output(self.nodes@[k].op), context.images@),
            decreases n - i,
        {
            let inp = op_input_exec(&self.nodes[i].op);
            let outp = op_output_exec(&self.nodes[i].op);
            let inp_live = match inp {
                ImageParam::Image(d) => context.has_image(d.raw),
                ImageParam::Virtual { .. } => true,
            };
            let outp_live = match outp {
                ImageParam::Image(d) => context.has_image(d.raw),
                ImageParam::Virtual { .. } => true,
            };
            if !(inp_live && outp_live) {
                live = false;
            }
            i = i + 1;
        }
        if !live {
            self.state = VxGraphState::Abandoned;
            return Err(VxError::GraphAbandoned);
        }
        let perf_on = context.perf_enabled;
        let ghost old_images = context.images@;
        let mut i: usize = 0;
        while i < n
            invariant
                n == self.nodes@.len(),
                i <= n,
                context.wf(),
                context.raw == old(context).raw,
                context.next_handle == old(context).next_handle,
                context.logging_enabled == old(context).logging_enabled,
                context.perf_enabled == old(context).perf_enabled,
                context.name == old(context).name,
                context.images@.len() == old_images.len(),
                forall|k: int|
                    0 <= k < old_images.len() ==> #[trigger] context.images@[k].desc
                        == old_images[k].desc && context.images@[k].data == old_images[k].data
                        && context.images@[k].populated == (old_images[k].populated
                        || graph_writes_upto(self.nodes@, old_images[k].desc.raw, i as int)),
            decreases n - i,
        {
            let outp = op_output_exec(&self.nodes[i].op);
            match outp {
                ImageParam::Image(d) => {
                    context.mark_image_populated(d.raw);
                },
                ImageParam::Virtual { .. } => {},
            }
            proof {
                assert forall|k: int| 0 <= k < old_images.len() implies #[trigger] context.images@[k].populated
                    == (old_images[k].populated || graph_writes_upto(
                    self.nodes@,
                    old_images[k].desc.raw,
                    i as int + 1,
                )) by {
                    lemma_writes_upto_step(self.nodes@, old_images[k].desc.raw, i as int);
                    assert(context.images@[k].desc == old_images[k].desc);
                }
            }
            i = i + 1;
        }
        proof {
            assert forall|k: int| 0 <= k < old_images.len() implies graph_writes_upto(
                self.nodes@,
                old_images[k].desc.raw,
                n as int,
            ) == graph_writes(self.nodes@, old_images[k].desc.raw) by {
                lemma_writes_upto_full(self.nodes@, old_images[k].desc.raw);
            }
        }
        let ghost old_nodes = self.nodes@;
        let mut done: Vec<NodeRec> = Vec::new();
        proof {
            assert(old_nodes.skip(0) =~= old_nodes);
        }
        while self.nodes.len() > 0
            invariant
                self.raw == old(self).raw,
                self.context == old(self).context,
                self.state == old(self).state,
                self.virtuals == old(self).virtuals,
                self.next_local == old(self).next_local,
                self.perf == old(self).perf,
                self.name == old(self).name,
                done@.len() + self.nodes@.len() == old_nodes.len(),
                self.nodes@ =~= old_nodes.skip(done@.len() as int),
                forall|k: int|
                    0 <= k < done@.len() ==> node_after_run(
                        old_nodes[k],
                        #[trigger] done@[k],
                        perf_on,
                    ),
            decreases self.nodes@.len(),
        {
            let mut rec = self.nodes.remove(0);
            rec.status = VxStatus::Success;
            if perf_on {
                rec.perf.record(0);
            }
            done.push(rec);
            proof {
                assert(old_nodes.skip(done@.len() - 1).drop_first() =~= old_nodes.skip(
                    done@.len() as int,
                ));
            }
        }
        self.nodes = done;
        proof {
            assert forall|k: int| 0 <= k < old(self).nodes@.len() implies node_after_run(
                old(self).nodes@[k],
                #[trigger] self.nodes@[k],
                perf_on,
            ) by {
                assert(self.nodes@[k] == done@[k]);
                assert(node_after_run(old_nodes[k], done@[k], perf_on));
            }
        }
        if perf_on {
            self.perf.record(0);
        }
        self.state = VxGraphState::Completed;
        Ok(())
    }
}

/// Whether one of the first `m` nodes writes the persistent image with
/// the given handle.
pub open spec fn graph_writes_upto(nodes: Seq<NodeRec>, raw: u64, m: int) -> bool {
    exists|i: int|
        0 <= i < m && i < nodes.len() && (op_output(#[trigger] nodes[i].op) matches
            ImageParam::Image(d) && d.raw == raw)
}


/// How one execution leaves a node: same binding and name, success
/// status, and — with performance counters on — one more counted run.
pub open spec fn node_after_run(pre: NodeRec, post: NodeRec, perf_on: bool) -> bool {
    &&& post.raw == pre.raw
    &&& post.op == pre.op
    &&& post.name == pre.name
    &&& post.status == VxStatus::Success
    &&& post.perf == (if perf_on {
        performance_recorded(pre.perf, 0)
    } else {
        pre.perf
    })
}

/// Extending the prefix by one node adds exactly that node's write.
proof fn lemma_writes_upto_step(nodes: Seq<NodeRec>, raw: u64, m: int)
    requires
        0 <= m < nodes.len(),
    ensures
        graph_writes_upto(nodes, raw, m + 1) == (graph_writes_upto(nodes, raw, m) || (op_output(
            nodes[m].op,
        ) matches ImageParam::Image(d) && d.raw == raw)),
{
    if graph_writes_upto(nodes, raw, m + 1) {
        let i = choose|i: int|
            0 <= i < m + 1 && i < nodes.len() && (op_output(#[trigger] nodes[i].op) matches
                ImageParam::Image(d) && d.raw == raw);
        if i < m {
            assert(graph_writes_upto(nodes, raw, m));
        } else {
            assert(i == m);
        }
    }
    if graph_writes_upto(nodes, raw, m) {
        let i = choose|i: int|
            0 <= i < m && i < nodes.len() && (op_output(#[trigger] nodes[i].op) matches
                ImageParam::Image(d) && d.raw == raw);
        assert(0 <= i < m + 1 && (op_output(nodes[i].op) matches ImageParam::Image(d) && d.raw
            == raw));
    }
    if op_output(nodes[m].op) matches ImageParam::Image(d) && d.raw == raw {
        assert(0 <= m < m + 1 && (op_output(nodes[m].op) matches ImageParam::Image(d2) && d2.raw
            == raw));
        assert(graph_writes_upto(nodes, raw, m + 1));
    }
}

/// The full prefix covers exactly the nodes' writes.
proof fn lemma_writes_upto_full(nodes: Seq<NodeRec>, raw: u64)
    ensures
        graph_writes_upto(nodes, raw, nodes.len() as int) == graph_writes(nodes, raw),
{
    if graph_writes_upto(nodes, raw, nodes.len() as int) {
        let i = choose|i: int|
            0 <= i < nodes.len() && i < nodes.len() && (op_output(#[trigger] nodes[i].op) matches
                ImageParam::Image(d) && d.raw == raw);
        assert(graph_writes(nodes, raw));
    }
    if graph_writes(nodes, raw) {
        let i = choose|i: int|
            0 <= i < nodes.len() && (op_output(#[trigger] nodes[i].op) matches ImageParam::Image(d)
                && d.raw == raw);
        assert(graph_writes_upto(nodes, raw, nodes.len() as int));
    }
}

impl AsRaw for VxGraph {
    type Result = u64;

    open spec fn spec_raw(&self) -> u64 {
        self.raw
    }

    fn as_raw(&self) -> (r: u64) {
        self.raw
    }
}

impl AsVxReference for VxGraph {
    open spec fn spec_reference(&self) -> VxReference {
        VxReference { raw: self.raw, kind: RefKind::Graph }
    }

    fn as_reference(&self) -> (r: VxReference) {
        VxReference { raw: self.raw, kind: RefKind::Graph }
    }
}

impl Release for VxGraph {
    open spec fn spec_released(&self) -> bool {
        self.raw == 0
    }

    fn release(&mut self) -> (r: Result<(), VxError>)
        ensures
            *final(self) == (VxGraph { raw: 0, ..*old(self) }),
    {
        self.raw = 0;
        Ok(())
    }
}

impl CheckStatus for VxGraph {
    open spec fn spec_status(&self) -> VxStatus {
        if self.raw == 0 {
            VxStatus::Error(VxError::InvalidReference)
        } else {
            VxStatus::Success
        }
    }

    fn check_status(&self) -> (r: Result<(), VxError>) {
        if self.raw == 0 {
            Err(VxError::InvalidReference)
        } else {
            Ok(())
        }
    }
}

impl crate::directives::SetDirective for VxGraph {
    open spec fn spec_directive_accepted(&self, directive: VxDirective) -> bool {
        self.raw != 0 && directive_is_logging(directive)
    }

    fn set_directive(&mut self, directive: VxDirective) -> (r: Result<(), VxError>)
        ensures
            *final(self) == *old(self),
    {
        if self.raw == 0 {
            return Err(VxError::InvalidReference);
        }
        match directive {
            VxDirective::DisableLogging => Ok(()),
            VxDirective::EnableLogging => Ok(()),
            _ => Err(VxError::NotSupported),
        }
    }
}

impl GetName for VxGraph {
    open spec fn spec_name(&self) -> Option<Seq<char>> {
        match self.name {
            Some(n) => Some(n@),
            None => None,
        }
    }

    fn get_name(&self) -> (r: Option<&str>) {
        match &self.name {
            Some(n) => Some(n.as_str()),
            None => None,
        }
    }
}

impl SetName for VxGraph {
    fn set_name(&mut self, name: &str)
        ensures
            final(self).name matches Some(n) && n@ == name@,
            *final(self) == (VxGraph { name: final(self).name, ..*old(self) }),
    {
        self.name = Some(name.to_owned());
    }
}

} // verus!
