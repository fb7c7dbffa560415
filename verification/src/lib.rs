//! A typed resource-ownership and graph-lifecycle layer for a dataflow
//! compute engine in the OpenVX style.
//!
//! A caller creates a context, builds graphs of processing nodes over typed
//! data objects (images, thresholds, ...), verifies each graph for structural
//! and type correctness, executes it, and tears every resource down
//! deterministically. Engine status codes are mapped to a closed error
//! taxonomy, every release is idempotent, and the graph state machine
//! (`Unverified -> Verified -> Running -> {Completed | Abandoned}`) is
//! enforced by contract.

use vstd::prelude::*;

mod attribute;
mod checkstatus;
mod context;
mod directives;
mod graph;
mod graphstate;
mod image;
mod imagetype;
mod name;
mod performance;
mod reference;
mod release;
mod status;
mod threshold;
mod types;

pub use attribute::attribute_base;
pub use attribute::attribute_size;
pub use attribute::enum_base;
pub use attribute::enum_type_of_enum;
pub use attribute::kernel_base;
pub use attribute::lemma_attribute_ids_are_packed;
pub use attribute::type_of_enum;
pub use attribute::vx_attribute_base;
pub use attribute::vx_enum_base;
pub use attribute::vx_enum_type;
pub use attribute::vx_kernel_base;
pub use attribute::vx_library;
pub use attribute::vx_type;
pub use attribute::VX_BIDIRECTIONAL;
pub use attribute::VX_CHANNEL_A;
pub use attribute::VX_CHANNEL_B;
pub use attribute::VX_CHANNEL_G;
pub use attribute::VX_CHANNEL_R;
pub use attribute::VX_CHANNEL_U;
pub use attribute::VX_CHANNEL_V;
pub use attribute::VX_CHANNEL_Y;
pub use attribute::VX_ENUM_CHANNEL;
pub use attribute::VX_ENUM_DIRECTION;
pub use attribute::VX_ENUM_DIRECTIVE;
pub use attribute::VX_ENUM_GRAPH_STATE;
pub use attribute::VX_ENUM_NORM_TYPE;
pub use attribute::VX_ENUM_THRESHOLD_TYPE;
pub use attribute::VX_GRAPH_NUMNODES;
pub use attribute::VX_GRAPH_NUMPARAMETERS;
pub use attribute::VX_GRAPH_PERFORMANCE;
pub use attribute::VX_GRAPH_STATE;
pub use attribute::VX_ID_KHRONOS;
pub use attribute::VX_KERNEL_ACCUMULATE;
pub use attribute::VX_KERNEL_ACCUMULATE_SQUARE;
pub use attribute::VX_KERNEL_ACCUMULATE_WEIGHTED;
pub use attribute::VX_KERNEL_CANNY_EDGE_DETECTOR;
pub use attribute::VX_KERNEL_CHANNEL_EXTRACT;
pub use attribute::VX_KERNEL_COLOR_CONVERT;
pub use attribute::VX_KERNEL_INVALID;
pub use attribute::VX_NODE_PARAMETERS;
pub use attribute::VX_NODE_PERFORMANCE;
pub use attribute::VX_NODE_STATUS;
pub use attribute::VX_NORM_L1;
pub use attribute::VX_NORM_L2;
pub use attribute::VX_REFERENCE_COUNT;
pub use attribute::VX_REFERENCE_NAME;
pub use attribute::VX_REFERENCE_TYPE;
pub use attribute::VX_THRESHOLD_DATA_TYPE;
pub use attribute::VX_THRESHOLD_FALSE_VALUE;
pub use attribute::VX_THRESHOLD_INPUT_FORMAT;
pub use attribute::VX_THRESHOLD_OUTPUT_FORMAT;
pub use attribute::VX_THRESHOLD_THRESHOLD_LOWER;
pub use attribute::VX_THRESHOLD_THRESHOLD_UPPER;
pub use attribute::VX_THRESHOLD_THRESHOLD_VALUE;
pub use attribute::VX_THRESHOLD_TRUE_VALUE;
pub use attribute::VX_THRESHOLD_TYPE;
pub use attribute::VX_THRESHOLD_TYPE_BINARY;
pub use attribute::VX_THRESHOLD_TYPE_RANGE;
pub use attribute::VX_TYPE_CONTEXT;
pub use attribute::VX_TYPE_CONVOLUTION;
pub use attribute::VX_TYPE_DELAY;
pub use attribute::VX_TYPE_DISTRIBUTION;
pub use attribute::VX_TYPE_ENUM;
pub use attribute::VX_TYPE_GRAPH;
pub use attribute::VX_TYPE_IMAGE;
pub use attribute::VX_TYPE_INT32;
pub use attribute::VX_TYPE_KERNEL;
pub use attribute::VX_TYPE_LUT;
pub use attribute::VX_TYPE_MATRIX;
pub use attribute::VX_TYPE_NODE;
pub use attribute::VX_TYPE_PARAMETER;
pub use attribute::VX_TYPE_PYRAMID;
pub use attribute::VX_TYPE_REFERENCE;
pub use attribute::VX_TYPE_SCALAR;
pub use attribute::VX_TYPE_THRESHOLD;
pub use attribute::VX_TYPE_UINT8;
pub use checkstatus::CheckStatus;
pub use context::image_buffer_len;
pub use context::image_live;
pub use context::layout_fits_rect;
pub use context::packed_source_index;
pub use context::patch_covered;
pub use context::patch_source_index;
pub use context::patched_data;
pub use context::rect_within;
pub use context::image_desc_wf;
pub use context::log_message_needs_linebreak;
pub use context::log_message_should_emit;
pub use context::ImageRec;
pub use context::VxContext;
pub use context::VX_MAX_IMAGE_DIMENSION;
pub use directives::directive_code;
pub use directives::directive_is_logging;
pub use directives::directive_is_performance;
pub use directives::directive_of;
pub use directives::lemma_directive_round_trip;
pub use directives::SetDirective;
pub use directives::VxDirective;
pub use directives::VX_DIRECTIVE_DISABLE_LOGGING;
pub use directives::VX_DIRECTIVE_DISABLE_PERFORMANCE;
pub use directives::VX_DIRECTIVE_ENABLE_LOGGING;
pub use directives::VX_DIRECTIVE_ENABLE_PERFORMANCE;
pub use graph::all_refs_live;
pub use graph::channel_valid;
pub use graph::depends;
pub use graph::dims_compatible;
pub use graph::first_node_error;
pub use graph::format_color_or_virtual;
pub use graph::format_u8_or_virtual;
pub use graph::graph_acyclic;
pub use graph::graph_writes;
pub use graph::graph_writes_upto;
pub use graph::has_multiple_writers;
pub use graph::is_execution_order;
pub use graph::node_after_run;
pub use graph::node_check;
pub use graph::node_creation_contract;
pub use graph::op_input;
pub use graph::op_num_parameters;
pub use graph::op_output;
pub use graph::param_format;
pub use graph::param_live;
pub use graph::param_height;
pub use graph::param_is_null;
pub use graph::param_scope_ok;
pub use graph::param_width;
pub use graph::process_verdict;
pub use graph::same_data_object;
pub use graph::verify_verdict;
pub use graph::KernelOp;
pub use graph::NodeRec;
pub use graph::ThresholdDesc;
pub use graph::VirtualRec;
pub use graph::VxGraph;
pub use graph::VxNode;
pub use graphstate::graph_state_name;
pub use graphstate::graph_state_of;
pub use graphstate::VxGraphState;
pub use graphstate::VX_GRAPH_STATE_ABANDONED;
pub use graphstate::VX_GRAPH_STATE_COMPLETED;
pub use graphstate::VX_GRAPH_STATE_RUNNING;
pub use graphstate::VX_GRAPH_STATE_UNVERIFIED;
pub use graphstate::VX_GRAPH_STATE_VERIFIED;
pub use image::ImageDesc;
pub use image::ImageParam;
pub use image::PatchLayout;
pub use image::Rect;
pub use image::VxImage;
pub use image::VxVirtualImage;
pub use imagetype::df_image_code;
pub use imagetype::image_type_code;
pub use imagetype::image_type_is_color;
pub use imagetype::image_type_of;
pub use imagetype::image_type_pixel_bytes;
pub use imagetype::lemma_image_codes_are_packed;
pub use imagetype::lemma_image_type_round_trip;
pub use imagetype::vx_df_image;
pub use imagetype::ImageType;
pub use imagetype::VX_DF_IMAGE_IYUV;
pub use imagetype::VX_DF_IMAGE_NV12;
pub use imagetype::VX_DF_IMAGE_NV21;
pub use imagetype::VX_DF_IMAGE_RGB;
pub use imagetype::VX_DF_IMAGE_RGBX;
pub use imagetype::VX_DF_IMAGE_S16;
pub use imagetype::VX_DF_IMAGE_S32;
pub use imagetype::VX_DF_IMAGE_U1;
pub use imagetype::VX_DF_IMAGE_U16;
pub use imagetype::VX_DF_IMAGE_U32;
pub use imagetype::VX_DF_IMAGE_U8;
pub use imagetype::VX_DF_IMAGE_UYVY;
pub use imagetype::VX_DF_IMAGE_VIRT;
pub use imagetype::VX_DF_IMAGE_YUV4;
pub use imagetype::VX_DF_IMAGE_YUYV;
pub use name::GetName;
pub use name::SetName;
pub use performance::performance_is_zero;
pub use performance::performance_recorded;
pub use performance::saturating_add_u64;
pub use performance::Performance;
pub use reference::AsRaw;
pub use reference::AsVxReference;
pub use reference::RefKind;
pub use reference::VxReference;
pub use release::Release;
pub use status::InvalidErrorStatusError;
pub use status::VxError;
pub use status::VxStatus;
pub use status::error_code;
pub use status::error_of;
pub use status::lemma_error_code_round_trip;
pub use status::lemma_success_is_not_an_error;
pub use status::status_code;
pub use status::status_of;
pub use status::VX_FAILURE;
pub use status::VX_STATUS_MIN;
pub use status::VX_SUCCESS;
pub use threshold::lemma_threshold_attribute_sizes;
pub use threshold::threshold_attribute_readable;
pub use threshold::threshold_attribute_value;
pub use threshold::threshold_attribute_writable;
pub use threshold::threshold_with_attribute;
pub use threshold::VxThreshold;
pub use types::VxConvolution;
pub use types::VxDelay;
pub use types::VxDistribution;
pub use types::VxKernel;
pub use types::VxLut;
pub use types::VxMatrix;
pub use types::VxParameter;
pub use types::VxPyramid;
pub use types::VxScalar;
