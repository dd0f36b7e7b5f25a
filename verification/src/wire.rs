use vstd::prelude::*;

verus! {

// Wire-format descriptors, as a caller hands them across the call surface.
// Handles are plain `u32` values that only the handle table can interpret.
// Colors and depth clear values travel as IEEE-754 bit patterns (`u64` for the
// four double-precision color channels, `u32` for the single-precision depth
// channel), so that translation can be stated and proved bit-exactly; the
// process edge that speaks to the native backend reconstitutes the floating
// point values from these bits.

/// An RGBA clear color; each channel is the bit pattern of a double-precision
/// IEEE-754 value, carried verbatim.
#[derive(Clone, Copy, Debug, PartialEq, Eq, Structural)]
pub struct GpuColor {
    pub r: u64,
    pub g: u64,
    pub b: u64,
    pub a: u64,
}

/// How a pass begins on an attachment channel: keep what is there, or clear it
/// to a concrete value. `Load` carries no payload: it is a distinct state, not
/// "clear with a default".
#[derive(Clone, Copy, Debug, PartialEq, Eq, Structural)]
pub enum GpuLoadOp<T> {
    Load,
    Clear(T),
}

/// How a pass ends on an attachment channel.
#[derive(Clone, Copy, Debug, PartialEq, Eq, Structural)]
pub enum GpuStoreOp {
    Store,
    Discard,
}

/// Which aspect of a texture an image copy addresses.
#[derive(Clone, Copy, Debug, PartialEq, Eq, Structural)]
pub enum GpuTextureAspect {
    All,
    StencilOnly,
    DepthOnly,
}

/// Texel origin of an image copy region.
#[derive(Clone, Copy, Debug, PartialEq, Eq, Structural)]
pub struct GpuOrigin3D {
    pub x: u32,
    pub y: u32,
    pub z: u32,
}

/// Three-dimensional extent of an image copy region.
#[derive(Clone, Copy, Debug, PartialEq, Eq, Structural)]
pub struct GpuExtent3D {
    pub width: u32,
    pub height: u32,
    pub depth_or_array_layers: u32,
}

/// One color attachment of a render pass. `view` and `resolve_target` are
/// texture-view handles.
#[derive(Clone, Copy, Debug, PartialEq, Eq, Structural)]
pub struct GpuRenderPassColorAttachment {
    pub view: u32,
    pub resolve_target: Option<u32>,
    pub load_op: GpuLoadOp<GpuColor>,
    pub store_op: GpuStoreOp,
}

/// The depth/stencil attachment of a render pass. The depth clear value is the
/// bit pattern of a single-precision IEEE-754 value; the stencil clear value
/// is an ordinary integer.
#[derive(Clone, Copy, Debug, PartialEq, Eq, Structural)]
pub struct GpuRenderPassDepthStencilAttachment {
    pub view: u32,
    pub depth_load_op: GpuLoadOp<u32>,
    pub depth_store_op: GpuStoreOp,
    pub depth_read_only: bool,
    pub stencil_load_op: GpuLoadOp<u32>,
    pub stencil_store_op: GpuStoreOp,
    pub stencil_read_only: bool,
}

/// Buffer side of a buffer<->texture copy. A `bytes_per_row` or
/// `rows_per_image` that is absent, or present as `0`, is the wire sentinel
/// for "unspecified".
#[derive(Clone, Copy, Debug, PartialEq, Eq, Structural)]
pub struct GpuImageCopyBuffer {
    pub buffer: u32,
    pub offset: u64,
    pub bytes_per_row: Option<u32>,
    pub rows_per_image: Option<u32>,
}

/// Texture side of an image copy.
#[derive(Clone, Copy, Debug, PartialEq, Eq, Structural)]
pub struct GpuImageCopyTexture {
    pub texture: u32,
    pub mip_level: u32,
    pub origin: GpuOrigin3D,
    pub aspect: GpuTextureAspect,
}

// Argument records of the call surface, one per operation.

pub struct CreateCommandEncoderArgs {
    pub device_rid: u32,
    pub label: Option<String>,
}

pub struct CommandEncoderBeginRenderPassArgs {
    pub command_encoder_rid: u32,
    pub label: Option<String>,
    pub color_attachments: Vec<GpuRenderPassColorAttachment>,
    pub depth_stencil_attachment: Option<GpuRenderPassDepthStencilAttachment>,
}

pub struct CommandEncoderBeginComputePassArgs {
    pub command_encoder_rid: u32,
    pub label: Option<String>,
}

#[derive(Clone, Copy, Debug, PartialEq, Eq, Structural)]
pub struct CommandEncoderCopyBufferToBufferArgs {
    pub command_encoder_rid: u32,
    pub source: u32,
    pub source_offset: u64,
    pub destination: u32,
    pub destination_offset: u64,
    pub size: u64,
}

#[derive(Clone, Copy, Debug, PartialEq, Eq, Structural)]
pub struct CommandEncoderCopyBufferToTextureArgs {
    pub command_encoder_rid: u32,
    pub source: GpuImageCopyBuffer,
    pub destination: GpuImageCopyTexture,
    pub copy_size: GpuExtent3D,
}

#[derive(Clone, Copy, Debug, PartialEq, Eq, Structural)]
pub struct CommandEncoderCopyTextureToBufferArgs {
    pub command_encoder_rid: u32,
    pub source: GpuImageCopyTexture,
    pub destination: GpuImageCopyBuffer,
    pub copy_size: GpuExtent3D,
}

#[derive(Clone, Copy, Debug, PartialEq, Eq, Structural)]
pub struct CommandEncoderCopyTextureToTextureArgs {
    pub command_encoder_rid: u32,
    pub source: GpuImageCopyTexture,
    pub destination: GpuImageCopyTexture,
    pub copy_size: GpuExtent3D,
}

pub struct CommandEncoderPushDebugGroupArgs {
    pub command_encoder_rid: u32,
    pub group_label: String,
}

#[derive(Clone, Copy, Debug, PartialEq, Eq, Structural)]
pub struct CommandEncoderPopDebugGroupArgs {
    pub command_encoder_rid: u32,
}

pub struct CommandEncoderInsertDebugMarkerArgs {
    pub command_encoder_rid: u32,
    pub marker_label: String,
}

#[derive(Clone, Copy, Debug, PartialEq, Eq, Structural)]
pub struct CommandEncoderWriteTimestampArgs {
    pub command_encoder_rid: u32,
    pub query_set: u32,
    pub query_index: u32,
}

#[derive(Clone, Copy, Debug, PartialEq, Eq, Structural)]
pub struct CommandEncoderResolveQuerySetArgs {
    pub command_encoder_rid: u32,
    pub query_set: u32,
    pub first_query: u32,
    pub query_count: u32,
    pub destination: u32,
    pub destination_offset: u64,
}

pub struct CommandEncoderFinishArgs {
    pub command_encoder_rid: u32,
    pub label: Option<String>,
}

#[derive(Clone, Copy, Debug, PartialEq, Eq, Structural)]
pub struct RenderPassEndPassArgs {
    pub command_encoder_rid: u32,
    pub render_pass_rid: u32,
}

#[derive(Clone, Copy, Debug, PartialEq, Eq, Structural)]
pub struct ComputePassEndPassArgs {
    pub command_encoder_rid: u32,
    pub compute_pass_rid: u32,
}

/// The label of an option-valued wire label, at the specification level.
pub open spec fn label_view(l: Option<String>) -> Option<Seq<char>> {
    match l {
        Option::Some(s) => Option::Some(s@),
        Option::None => Option::None,
    }
}

} // verus!
