use vstd::prelude::*;

use crate::backend::{
    BackendColor, BackendExtent3d, BackendImageCopyBuffer, BackendImageCopyTexture,
    BackendImageDataLayout, BackendLoadOp, BackendOrigin3d, BackendPassChannel,
    BackendRenderPassColorAttachment, BackendRenderPassDepthStencilAttachment, BackendStoreOp,
    BackendTextureAspect,
};
use crate::wire::{
    GpuColor, GpuExtent3D, GpuImageCopyBuffer, GpuImageCopyTexture, GpuLoadOp, GpuOrigin3D,
    GpuRenderPassColorAttachment, GpuRenderPassDepthStencilAttachment, GpuStoreOp,
    GpuTextureAspect,
};

verus! {

// Pure descriptor translation: wire form in, backend record out. Handle
// resolution happens in the recording operations; everything here is a total
// function of its arguments, with a specification twin that pins the result.

pub open spec fn spec_store_op(op: GpuStoreOp) -> BackendStoreOp {
    match op {
        GpuStoreOp::Store => BackendStoreOp::Store,
        GpuStoreOp::Discard => BackendStoreOp::Discard,
    }
}

pub fn translate_store_op(op: GpuStoreOp) -> (r: BackendStoreOp)
    ensures
        r == spec_store_op(op),
{
    match op {
        GpuStoreOp::Store => BackendStoreOp::Store,
        GpuStoreOp::Discard => BackendStoreOp::Discard,
    }
}

pub open spec fn spec_aspect(aspect: GpuTextureAspect) -> BackendTextureAspect {
    match aspect {
        GpuTextureAspect::All => BackendTextureAspect::All,
        GpuTextureAspect::StencilOnly => BackendTextureAspect::StencilOnly,
        GpuTextureAspect::DepthOnly => BackendTextureAspect::DepthOnly,
    }
}

pub fn translate_aspect(aspect: GpuTextureAspect) -> (r: BackendTextureAspect)
    ensures
        r == spec_aspect(aspect),
{
    match aspect {
        GpuTextureAspect::All => BackendTextureAspect::All,
        GpuTextureAspect::StencilOnly => BackendTextureAspect::StencilOnly,
        GpuTextureAspect::DepthOnly => BackendTextureAspect::DepthOnly,
    }
}

pub open spec fn spec_origin(origin: GpuOrigin3D) -> BackendOrigin3d {
    BackendOrigin3d { x: origin.x, y: origin.y, z: origin.z }
}

pub fn translate_origin(origin: GpuOrigin3D) -> (r: BackendOrigin3d)
    ensures
        r == spec_origin(origin),
{
    BackendOrigin3d { x: origin.x, y: origin.y, z: origin.z }
}

pub open spec fn spec_extent(extent: GpuExtent3D) -> BackendExtent3d {
    BackendExtent3d {
        width: extent.width,
        height: extent.height,
        depth_or_array_layers: extent.depth_or_array_layers,
    }
}

pub fn translate_extent(extent: GpuExtent3D) -> (r: BackendExtent3d)
    ensures
        r == spec_extent(extent),
{
    BackendExtent3d {
        width: extent.width,
        height: extent.height,
        depth_or_array_layers: extent.depth_or_array_layers,
    }
}

/// The backend image of a wire row count: absent or zero means "unspecified"
/// (`None`), anything else is kept as an explicit, necessarily nonzero count.
pub open spec fn spec_row_count(v: Option<u32>) -> Option<u32> {
    match v {
        Option::None => Option::None,
        Option::Some(n) => if n == 0 {
            Option::None
        } else {
            Option::Some(n)
        },
    }
}

pub fn translate_row_count(v: Option<u32>) -> (r: Option<u32>)
    ensures
        r == spec_row_count(v),
{
    match v {
        Option::None => Option::None,
        Option::Some(n) => if n == 0 {
            Option::None
        } else {
            Option::Some(n)
        },
    }
}

pub open spec fn spec_image_copy_buffer(wire: GpuImageCopyBuffer, buffer: u64)
    -> BackendImageCopyBuffer {
    BackendImageCopyBuffer {
        buffer,
        layout: BackendImageDataLayout {
            offset: wire.offset,
            bytes_per_row: spec_row_count(wire.bytes_per_row),
            rows_per_image: spec_row_count(wire.rows_per_image),
        },
    }
}

/// Builds the buffer side of an image copy around the already resolved
/// backend buffer identifier.
pub fn translate_image_copy_buffer(wire: &GpuImageCopyBuffer, buffer: u64)
    -> (r: BackendImageCopyBuffer)
    ensures
        r == spec_image_copy_buffer(*wire, buffer),
{
    BackendImageCopyBuffer {
        buffer,
        layout: BackendImageDataLayout {
            offset: wire.offset,
            bytes_per_row: translate_row_count(wire.bytes_per_row),
            rows_per_image: translate_row_count(wire.rows_per_image),
        },
    }
}

pub open spec fn spec_image_copy_texture(wire: GpuImageCopyTexture, texture: u64)
    -> BackendImageCopyTexture {
    BackendImageCopyTexture {
        texture,
        mip_level: wire.mip_level,
        origin: spec_origin(wire.origin),
        aspect: spec_aspect(wire.aspect),
    }
}

/// Builds the texture side of an image copy around the already resolved
/// backend texture identifier.
pub fn translate_image_copy_texture(wire: &GpuImageCopyTexture, texture: u64)
    -> (r: BackendImageCopyTexture)
    ensures
        r == spec_image_copy_texture(*wire, texture),
{
    BackendImageCopyTexture {
        texture,
        mip_level: wire.mip_level,
        origin: translate_origin(wire.origin),
        aspect: translate_aspect(wire.aspect),
    }
}

/// A zero-valued color, the placeholder clear value of a `Load` channel.
pub open spec fn spec_zero_color() -> BackendColor {
    BackendColor { r: 0, g: 0, b: 0, a: 0 }
}

pub open spec fn spec_color_channel(load_op: GpuLoadOp<GpuColor>, store_op: GpuStoreOp)
    -> BackendPassChannel<BackendColor> {
    match load_op {
        GpuLoadOp::Load => BackendPassChannel {
            load_op: BackendLoadOp::Load,
            store_op: spec_store_op(store_op),
            clear_value: spec_zero_color(),
            read_only: false,
        },
        GpuLoadOp::Clear(c) => BackendPassChannel {
            load_op: BackendLoadOp::Clear,
            store_op: spec_store_op(store_op),
            clear_value: BackendColor { r: c.r, g: c.g, b: c.b, a: c.a },
            read_only: false,
        },
    }
}

/// Translates the color channel of a color attachment. A `Clear` keeps its
/// RGBA payload verbatim; a `Load` gets a zero placeholder the backend must
/// ignore.
pub fn translate_color_channel(load_op: GpuLoadOp<GpuColor>, store_op: GpuStoreOp)
    -> (r: BackendPassChannel<BackendColor>)
    ensures
        r == spec_color_channel(load_op, store_op),
{
    match load_op {
        GpuLoadOp::Load => BackendPassChannel {
            load_op: BackendLoadOp::Load,
            store_op: translate_store_op(store_op),
            clear_value: BackendColor { r: 0, g: 0, b: 0, a: 0 },
            read_only: false,
        },
        GpuLoadOp::Clear(c) => BackendPassChannel {
            load_op: BackendLoadOp::Clear,
            store_op: translate_store_op(store_op),
            clear_value: BackendColor { r: c.r, g: c.g, b: c.b, a: c.a },
            read_only: false,
        },
    }
}

pub open spec fn spec_scalar_channel(load_op: GpuLoadOp<u32>, store_op: GpuStoreOp, read_only: bool)
    -> BackendPassChannel<u32> {
    match load_op {
        GpuLoadOp::Load => BackendPassChannel {
            load_op: BackendLoadOp::Load,
            store_op: spec_store_op(store_op),
            clear_value: 0u32,
            read_only,
        },
        GpuLoadOp::Clear(v) => BackendPassChannel {
            load_op: BackendLoadOp::Clear,
            store_op: spec_store_op(store_op),
            clear_value: v,
            read_only,
        },
    }
}

/// Translates a depth or stencil channel. Both carry a `u32` payload (the
/// depth clear value as a single-precision bit pattern, the stencil clear
/// value as an integer), and the zero placeholder of a `Load` is the zero bit
/// pattern in either reading.
pub fn translate_scalar_channel(load_op: GpuLoadOp<u32>, store_op: GpuStoreOp, read_only: bool)
    -> (r: BackendPassChannel<u32>)
    ensures
        r == spec_scalar_channel(load_op, store_op, read_only),
{
    match load_op {
        GpuLoadOp::Load => BackendPassChannel {
            load_op: BackendLoadOp::Load,
            store_op: translate_store_op(store_op),
            clear_value: 0u32,
            read_only,
        },
        GpuLoadOp::Clear(v) => BackendPassChannel {
            load_op: BackendLoadOp::Clear,
            store_op: translate_store_op(store_op),
            clear_value: v,
            read_only,
        },
    }
}

pub open spec fn spec_depth_stencil_attachment(
    wire: GpuRenderPassDepthStencilAttachment,
    view: u64,
) -> BackendRenderPassDepthStencilAttachment {
    BackendRenderPassDepthStencilAttachment {
        view,
        depth: spec_scalar_channel(wire.depth_load_op, wire.depth_store_op, wire.depth_read_only),
        stencil: spec_scalar_channel(
            wire.stencil_load_op,
            wire.stencil_store_op,
            wire.stencil_read_only,
        ),
    }
}

/// Builds the depth/stencil attachment record around the already resolved
/// backend view identifier.
pub fn translate_depth_stencil_attachment(
    wire: &GpuRenderPassDepthStencilAttachment,
    view: u64,
) -> (r: BackendRenderPassDepthStencilAttachment)
    ensures
        r == spec_depth_stencil_attachment(*wire, view),
{
    BackendRenderPassDepthStencilAttachment {
        view,
        depth: translate_scalar_channel(
            wire.depth_load_op,
            wire.depth_store_op,
            wire.depth_read_only,
        ),
        stencil: translate_scalar_channel(
            wire.stencil_load_op,
            wire.stencil_store_op,
            wire.stencil_read_only,
        ),
    }
}

pub open spec fn spec_color_attachment(
    wire: GpuRenderPassColorAttachment,
    view: u64,
    resolve_target: Option<u64>,
) -> BackendRenderPassColorAttachment {
    BackendRenderPassColorAttachment {
        view,
        resolve_target,
        channel: spec_color_channel(wire.load_op, wire.store_op),
    }
}

/// Builds a color attachment record around the already resolved backend view
/// identifiers.
pub fn translate_color_attachment(
    wire: &GpuRenderPassColorAttachment,
    view: u64,
    resolve_target: Option<u64>,
) -> (r: BackendRenderPassColorAttachment)
    ensures
        r == spec_color_attachment(*wire, view, resolve_target),
{
    BackendRenderPassColorAttachment {
        view,
        resolve_target,
        channel: translate_color_channel(wire.load_op, wire.store_op),
    }
}

/// Translating `Clear(color)` yields a record tagged `Clear` that carries the
/// four channel bit patterns exactly; translating `Load` yields a record
/// tagged `Load` whatever clear payload might be suggested alongside it.
pub proof fn lemma_clear_round_trip(color: GpuColor, store_op: GpuStoreOp)
    ensures
        spec_color_channel(GpuLoadOp::Clear(color), store_op).load_op == BackendLoadOp::Clear,
        spec_color_channel(GpuLoadOp::Clear(color), store_op).clear_value == (BackendColor {
            r: color.r,
            g: color.g,
            b: color.b,
            a: color.a,
        }),
        spec_color_channel(GpuLoadOp::Load, store_op).load_op == BackendLoadOp::Load,
{
}

/// Descriptor translation is a function of the wire value and the resolved
/// identifiers alone: two translations of the same inputs are structurally
/// identical records.
pub proof fn lemma_translation_deterministic(
    wire: GpuRenderPassColorAttachment,
    view: u64,
    resolve_target: Option<u64>,
    r1: BackendRenderPassColorAttachment,
    r2: BackendRenderPassColorAttachment,
)
    requires
        r1 == spec_color_attachment(wire, view, resolve_target),
        r2 == spec_color_attachment(wire, view, resolve_target),
    ensures
        r1 == r2,
{
}

/// As `lemma_translation_deterministic`, for the buffer side of an image
/// copy; in particular an omitted row count comes out "unspecified" both
/// times, never as an explicit zero.
pub proof fn lemma_copy_translation_deterministic(
    wire: GpuImageCopyBuffer,
    buffer: u64,
    r1: BackendImageCopyBuffer,
    r2: BackendImageCopyBuffer,
)
    requires
        r1 == spec_image_copy_buffer(wire, buffer),
        r2 == spec_image_copy_buffer(wire, buffer),
    ensures
        r1 == r2,
        wire.bytes_per_row is None ==> r1.layout.bytes_per_row is None,
        wire.rows_per_image is None ==> r1.layout.rows_per_image is None,
{
}

} // verus!
