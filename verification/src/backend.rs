use vstd::prelude::*;

use crate::wire::label_view;

verus! {

// The strongly-typed records this layer hands to the graphics backend.
// Every field is a plain value; backend-native object identifiers are `u64`.
// Clear values keep the bit-pattern representation of the wire layer, so a
// record is a bit-exact image of what the translator decided.

#[derive(Clone, Copy, Debug, PartialEq, Eq, Structural)]
pub enum BackendLoadOp {
    Load,
    Clear,
}

#[derive(Clone, Copy, Debug, PartialEq, Eq, Structural)]
pub enum BackendStoreOp {
    Store,
    Discard,
}

#[derive(Clone, Copy, Debug, PartialEq, Eq, Structural)]
pub enum BackendTextureAspect {
    All,
    StencilOnly,
    DepthOnly,
}

/// RGBA clear color as four double-precision bit patterns.
#[derive(Clone, Copy, Debug, PartialEq, Eq, Structural)]
pub struct BackendColor {
    pub r: u64,
    pub g: u64,
    pub b: u64,
    pub a: u64,
}

#[derive(Clone, Copy, Debug, PartialEq, Eq, Structural)]
pub struct BackendOrigin3d {
    pub x: u32,
    pub y: u32,
    pub z: u32,
}

#[derive(Clone, Copy, Debug, PartialEq, Eq, Structural)]
pub struct BackendExtent3d {
    pub width: u32,
    pub height: u32,
    pub depth_or_array_layers: u32,
}

/// Linear layout of the buffer side of an image copy. `None` in
/// `bytes_per_row` / `rows_per_image` is the backend's "unspecified"
/// representation ("infer from the copy extent"), distinct from an explicit
/// row length; a present value is never zero.
#[derive(Clone, Copy, Debug, PartialEq, Eq, Structural)]
pub struct BackendImageDataLayout {
    pub offset: u64,
    pub bytes_per_row: Option<u32>,
    pub rows_per_image: Option<u32>,
}

#[derive(Clone, Copy, Debug, PartialEq, Eq, Structural)]
pub struct BackendImageCopyBuffer {
    pub buffer: u64,
    pub layout: BackendImageDataLayout,
}

#[derive(Clone, Copy, Debug, PartialEq, Eq, Structural)]
pub struct BackendImageCopyTexture {
    pub texture: u64,
    pub mip_level: u32,
    pub origin: BackendOrigin3d,
    pub aspect: BackendTextureAspect,
}

/// One channel of a pass attachment. When `load_op` is `Load`, `clear_value`
/// is a structurally required zero placeholder the backend never consumes.
#[derive(Clone, Copy, Debug, PartialEq, Eq, Structural)]
pub struct BackendPassChannel<T> {
    pub load_op: BackendLoadOp,
    pub store_op: BackendStoreOp,
    pub clear_value: T,
    pub read_only: bool,
}

#[derive(Clone, Copy, Debug, PartialEq, Eq, Structural)]
pub struct BackendRenderPassColorAttachment {
    pub view: u64,
    pub resolve_target: Option<u64>,
    pub channel: BackendPassChannel<BackendColor>,
}

/// Depth and stencil channels of a render pass; the depth clear value is a
/// single-precision bit pattern, the stencil clear value an integer.
#[derive(Clone, Copy, Debug, PartialEq, Eq, Structural)]
pub struct BackendRenderPassDepthStencilAttachment {
    pub view: u64,
    pub depth: BackendPassChannel<u32>,
    pub stencil: BackendPassChannel<u32>,
}

pub struct BackendRenderPassDescriptor {
    pub label: Option<String>,
    pub color_attachments: Vec<BackendRenderPassColorAttachment>,
    pub depth_stencil_attachment: Option<BackendRenderPassDepthStencilAttachment>,
}

pub struct BackendComputePassDescriptor {
    pub label: Option<String>,
}

/// One recorded command of an encoder's stream, in backend form.
pub enum BackendCommand {
    CopyBufferToBuffer {
        source: u64,
        source_offset: u64,
        destination: u64,
        destination_offset: u64,
        size: u64,
    },
    CopyBufferToTexture {
        source: BackendImageCopyBuffer,
        destination: BackendImageCopyTexture,
        copy_size: BackendExtent3d,
    },
    CopyTextureToBuffer {
        source: BackendImageCopyTexture,
        destination: BackendImageCopyBuffer,
        copy_size: BackendExtent3d,
    },
    CopyTextureToTexture {
        source: BackendImageCopyTexture,
        destination: BackendImageCopyTexture,
        copy_size: BackendExtent3d,
    },
    PushDebugGroup {
        label: String,
    },
    PopDebugGroup,
    InsertDebugMarker {
        label: String,
    },
    WriteTimestamp {
        query_set: u64,
        query_index: u32,
    },
    ResolveQuerySet {
        query_set: u64,
        first_query: u32,
        query_count: u32,
        destination: u64,
        destination_offset: u64,
    },
    RenderPass {
        descriptor: BackendRenderPassDescriptor,
    },
    ComputePass {
        descriptor: BackendComputePassDescriptor,
    },
}

// Specification-level images of the records that hold a `String` or a `Vec`.

pub struct RenderPassDescriptorModel {
    pub label: Option<Seq<char>>,
    pub color_attachments: Seq<BackendRenderPassColorAttachment>,
    pub depth_stencil_attachment: Option<BackendRenderPassDepthStencilAttachment>,
}

pub struct ComputePassDescriptorModel {
    pub label: Option<Seq<char>>,
}

pub enum CommandModel {
    CopyBufferToBuffer {
        source: u64,
        source_offset: u64,
        destination: u64,
        destination_offset: u64,
        size: u64,
    },
    CopyBufferToTexture {
        source: BackendImageCopyBuffer,
        destination: BackendImageCopyTexture,
        copy_size: BackendExtent3d,
    },
    CopyTextureToBuffer {
        source: BackendImageCopyTexture,
        destination: BackendImageCopyBuffer,
        copy_size: BackendExtent3d,
    },
    CopyTextureToTexture {
        source: BackendImageCopyTexture,
        destination: BackendImageCopyTexture,
        copy_size: BackendExtent3d,
    },
    PushDebugGroup {
        label: Seq<char>,
    },
    PopDebugGroup,
    InsertDebugMarker {
        label: Seq<char>,
    },
    WriteTimestamp {
        query_set: u64,
        query_index: u32,
    },
    ResolveQuerySet {
        query_set: u64,
        first_query: u32,
        query_count: u32,
        destination: u64,
        destination_offset: u64,
    },
    RenderPass {
        descriptor: RenderPassDescriptorModel,
    },
    ComputePass {
        descriptor: ComputePassDescriptorModel,
    },
}

impl View for BackendRenderPassDescriptor {
    type V = RenderPassDescriptorModel;

    open spec fn view(&self) -> RenderPassDescriptorModel {
        RenderPassDescriptorModel {
            label: label_view(self.label),
            color_attachments: self.color_attachments@,
            depth_stencil_attachment: self.depth_stencil_attachment,
        }
    }
}

impl View for BackendComputePassDescriptor {
    type V = ComputePassDescriptorModel;

    open spec fn view(&self) -> ComputePassDescriptorModel {
        ComputePassDescriptorModel { label: label_view(self.label) }
    }
}

impl View for BackendCommand {
    type V = CommandModel;

    open spec fn view(&self) -> CommandModel {
        match self {
            BackendCommand::CopyBufferToBuffer {
                source,
                source_offset,
                destination,
                destination_offset,
                size,
            } => CommandModel::CopyBufferToBuffer {
                source: *source,
                source_offset: *source_offset,
                destination: *destination,
                destination_offset: *destination_offset,
                size: *size,
            },
            BackendCommand::CopyBufferToTexture { source, destination, copy_size } => {
                CommandModel::CopyBufferToTexture {
                    source: *source,
                    destination: *destination,
                    copy_size: *copy_size,
                }
            },
            BackendCommand::CopyTextureToBuffer { source, destination, copy_size } => {
                CommandModel::CopyTextureToBuffer {
                    source: *source,
                    destination: *destination,
                    copy_size: *copy_size,
                }
            },
            BackendCommand::CopyTextureToTexture { source, destination, copy_size } => {
                CommandModel::CopyTextureToTexture {
                    source: *source,
                    destination: *destination,
                    copy_size: *copy_size,
                }
            },
            BackendCommand::PushDebugGroup { label } => {
                CommandModel::PushDebugGroup { label: label@ }
            },
            BackendCommand::PopDebugGroup => CommandModel::PopDebugGroup,
            BackendCommand::InsertDebugMarker { label } => {
                CommandModel::InsertDebugMarker { label: label@ }
            },
            BackendCommand::WriteTimestamp { query_set, query_index } => {
                CommandModel::WriteTimestamp { query_set: *query_set, query_index: *query_index }
            },
            BackendCommand::ResolveQuerySet {
                query_set,
                first_query,
                query_count,
                destination,
                destination_offset,
            } => CommandModel::ResolveQuerySet {
                query_set: *query_set,
                first_query: *first_query,
                query_count: *query_count,
                destination: *destination,
                destination_offset: *destination_offset,
            },
            BackendCommand::RenderPass { descriptor } => {
                CommandModel::RenderPass { descriptor: descriptor@ }
            },
            BackendCommand::ComputePass { descriptor } => {
                CommandModel::ComputePass { descriptor: descriptor@ }
            },
        }
    }
}

/// The number of debug groups a command stream leaves open: pushes minus the
/// pops that close one. A stream recorded through this layer never pops an
/// empty stack, so the balance never goes below zero.
pub open spec fn debug_balance(s: Seq<CommandModel>) -> int
    decreases s.len(),
{
    if s.len() == 0 {
        0
    } else {
        let rest = debug_balance(s.drop_last());
        match s.last() {
            CommandModel::PushDebugGroup { label } => rest + 1,
            CommandModel::PopDebugGroup => rest - 1,
            _ => rest,
        }
    }
}

/// How one command changes the number of open debug groups.
pub open spec fn command_balance_delta(c: CommandModel) -> int {
    match c {
        CommandModel::PushDebugGroup { label } => 1,
        CommandModel::PopDebugGroup => -1,
        _ => 0,
    }
}

pub proof fn lemma_balance_push(s: Seq<CommandModel>, c: CommandModel)
    ensures
        debug_balance(s.push(c)) == debug_balance(s) + command_balance_delta(c),
{
    assert(s.push(c).drop_last() =~= s);
}

/// The balance never exceeds the stream's length: at most every command is a
/// push.
pub proof fn lemma_balance_le_len(s: Seq<CommandModel>)
    ensures
        debug_balance(s) <= s.len(),
    decreases s.len(),
{
    if s.len() > 0 {
        lemma_balance_le_len(s.drop_last());
    }
}

} // verus!
