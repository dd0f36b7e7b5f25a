use vstd::prelude::*;

use crate::backend::{
    BackendCommand, BackendRenderPassColorAttachment, BackendRenderPassDepthStencilAttachment,
    BackendRenderPassDescriptor, CommandModel, ComputePassDescriptorModel,
    RenderPassDescriptorModel,
};
use crate::error::WebGpuError;
use crate::table::{
    is_compute_pass, is_encoder, is_render_pass, is_texture_view, spec_append,
    ComputePassModel, ComputePassRecorder, EntryModel, HandleTable, RenderPassModel,
    RenderPassRecorder, ResourceEntry,
};
use crate::translate::{
    spec_color_attachment, spec_depth_stencil_attachment, translate_color_attachment,
    translate_depth_stencil_attachment,
};
use crate::wire::{
    label_view, CommandEncoderBeginComputePassArgs, CommandEncoderBeginRenderPassArgs,
    ComputePassEndPassArgs, GpuRenderPassColorAttachment, GpuRenderPassDepthStencilAttachment,
    RenderPassEndPassArgs,
};
use crate::backend::BackendComputePassDescriptor;

verus! {

// Opening and closing of pass recorders. A pass is a secondary, table-resident
// recorder bound to its parent encoder; ending it destructively takes its
// entry and folds its translated descriptor back into the parent's stream.

/// All handles of one color attachment resolve to texture views.
pub open spec fn spec_color_att_ok(
    m: Map<u32, EntryModel>,
    a: GpuRenderPassColorAttachment,
) -> bool {
    &&& is_texture_view(m, a.view)
    &&& match a.resolve_target {
        Option::Some(rt) => is_texture_view(m, rt),
        Option::None => true,
    }
}

/// The backend record of one color attachment, handles resolved.
pub open spec fn spec_resolved_color_att(
    m: Map<u32, EntryModel>,
    a: GpuRenderPassColorAttachment,
) -> BackendRenderPassColorAttachment {
    spec_color_attachment(
        a,
        m[a.view]->TextureView_0,
        match a.resolve_target {
            Option::Some(rt) => Option::Some(m[rt]->TextureView_0),
            Option::None => Option::None,
        },
    )
}

pub open spec fn spec_ds_att_ok(
    m: Map<u32, EntryModel>,
    a: GpuRenderPassDepthStencilAttachment,
) -> bool {
    is_texture_view(m, a.view)
}

pub open spec fn spec_resolved_ds_att(
    m: Map<u32, EntryModel>,
    a: GpuRenderPassDepthStencilAttachment,
) -> BackendRenderPassDepthStencilAttachment {
    spec_depth_stencil_attachment(a, m[a.view]->TextureView_0)
}

/// Success condition of `beginRenderPass`: the encoder resolves and every
/// handle in every attachment resolves to a texture view.
pub open spec fn spec_begin_render_pass_ok(
    m: Map<u32, EntryModel>,
    args: CommandEncoderBeginRenderPassArgs,
) -> bool {
    &&& is_encoder(m, args.command_encoder_rid)
    &&& forall|j: int|
        0 <= j < args.color_attachments@.len() ==> spec_color_att_ok(
            m,
            args.color_attachments@[j],
        )
    &&& match args.depth_stencil_attachment {
        Option::Some(ds) => spec_ds_att_ok(m, ds),
        Option::None => true,
    }
}

/// The pass recorder a successful `beginRenderPass` registers.
pub open spec fn spec_render_pass_model(
    m: Map<u32, EntryModel>,
    args: CommandEncoderBeginRenderPassArgs,
) -> RenderPassModel {
    RenderPassModel {
        parent: args.command_encoder_rid,
        descriptor: RenderPassDescriptorModel {
            label: label_view(args.label),
            color_attachments: Seq::new(
                args.color_attachments@.len(),
                |j: int| spec_resolved_color_att(m, args.color_attachments@[j]),
            ),
            depth_stencil_attachment: match args.depth_stencil_attachment {
                Option::Some(ds) => Option::Some(spec_resolved_ds_att(m, ds)),
                Option::None => Option::None,
            },
        },
    }
}

/// Translates every color attachment of a render pass, resolving its texture
/// views, or fails with `InvalidHandle` on the first handle that does not
/// resolve.
fn translate_color_attachments(
    table: &HandleTable,
    atts: &Vec<GpuRenderPassColorAttachment>,
) -> (r: Result<Vec<BackendRenderPassColorAttachment>, WebGpuError>)
    ensures
        match r {
            Result::Ok(v) => {
                &&& forall|j: int|
                    0 <= j < atts@.len() ==> spec_color_att_ok(table@, atts@[j])
                &&& v@.len() == atts@.len()
                &&& forall|j: int|
                    0 <= j < atts@.len() ==> v@[j] == spec_resolved_color_att(table@, atts@[j])
            },
            Result::Err(err) => {
                &&& err == WebGpuError::InvalidHandle
                &&& exists|j: int| 0 <= j < atts@.len() && !spec_color_att_ok(table@, atts@[j])
            },
        },
{
    let n = atts.len();
    let mut out: Vec<BackendRenderPassColorAttachment> = Vec::new();
    let mut i: usize = 0;
    while i < n
        invariant
            n == atts@.len(),
            i <= n,
            out@.len() == i,
            forall|j: int| 0 <= j < i ==> spec_color_att_ok(table@, atts@[j]),
            forall|j: int| 0 <= j < i ==> out@[j] == spec_resolved_color_att(table@, atts@[j]),
        decreases n - i,
    {
        let a = &atts[i];
        let view = match table.get_texture_view_id(a.view) {
            Result::Ok(v) => v,
            Result::Err(e) => {
                proof {
                    assert(!spec_color_att_ok(table@, atts@[i as int]));
                }
                return Result::Err(e);
            },
        };
        let resolve_target = match a.resolve_target {
            Option::Some(rt) => match table.get_texture_view_id(rt) {
                Result::Ok(v) => Option::Some(v),
                Result::Err(e) => {
                    proof {
                        assert(!spec_color_att_ok(table@, atts@[i as int]));
                    }
                    return Result::Err(e);
                },
            },
            Option::None => Option::None,
        };
        out.push(translate_color_attachment(a, view, resolve_target));
        i = i + 1;
    }
    Result::Ok(out)
}

/// Opens a render pass on the encoder: translates all attachments (resolving
/// every handle before anything is registered), then registers the recorder
/// under a fresh handle. A failed translation leaves the registry untouched.
pub fn op_webgpu_command_encoder_begin_render_pass(
    table: &mut HandleTable,
    args: CommandEncoderBeginRenderPassArgs,
) -> (r: Result<u32, WebGpuError>)
    requires
        old(table).wf(),
        old(table).slot_len() < u32::MAX,
    ensures
        final(table).wf(),
        r is Ok <==> spec_begin_render_pass_ok(old(table)@, args),
        r is Ok ==> {
            &&& r->Ok_0 as int == old(table).slot_len()
            &&& !old(table)@.dom().contains(r->Ok_0)
            &&& final(table)@ == old(table)@.insert(
                r->Ok_0,
                EntryModel::RenderPass(spec_render_pass_model(old(table)@, args)),
            )
            &&& final(table).slot_len() == old(table).slot_len() + 1
        },
        r is Err ==> {
            &&& final(table)@ == old(table)@
            &&& final(table).slot_len() == old(table).slot_len()
            &&& r->Err_0 == WebGpuError::InvalidHandle
        },
{
    if !table.check_encoder(args.command_encoder_rid) {
        return Result::Err(WebGpuError::InvalidHandle);
    }
    let color_attachments = match translate_color_attachments(table, &args.color_attachments) {
        Result::Ok(v) => v,
        Result::Err(e) => {
            return Result::Err(e);
        },
    };
    let depth_stencil_attachment = match &args.depth_stencil_attachment {
        Option::Some(ds) => {
            let view = match table.get_texture_view_id(ds.view) {
                Result::Ok(v) => v,
                Result::Err(e) => {
                    return Result::Err(e);
                },
            };
            Option::Some(translate_depth_stencil_attachment(ds, view))
        },
        Option::None => Option::None,
    };
    let ghost pre = table@;
    proof {
        assert(color_attachments@ =~= spec_render_pass_model(
            pre,
            args,
        ).descriptor.color_attachments);
    }
    let descriptor = BackendRenderPassDescriptor {
        label: args.label,
        color_attachments,
        depth_stencil_attachment,
    };
    let recorder = RenderPassRecorder { parent: args.command_encoder_rid, descriptor };
    proof {
        assert(recorder@ == spec_render_pass_model(pre, args));
    }
    let h = table.insert(ResourceEntry::RenderPass(recorder));
    Result::Ok(h)
}

/// Opens a compute pass on the encoder and registers the recorder under a
/// fresh handle.
pub fn op_webgpu_command_encoder_begin_compute_pass(
    table: &mut HandleTable,
    args: CommandEncoderBeginComputePassArgs,
) -> (r: Result<u32, WebGpuError>)
    requires
        old(table).wf(),
        old(table).slot_len() < u32::MAX,
    ensures
        final(table).wf(),
        r is Ok <==> is_encoder(old(table)@, args.command_encoder_rid),
        r is Ok ==> {
            &&& r->Ok_0 as int == old(table).slot_len()
            &&& !old(table)@.dom().contains(r->Ok_0)
            &&& final(table)@ == old(table)@.insert(
                r->Ok_0,
                EntryModel::ComputePass(
                    ComputePassModel {
                        parent: args.command_encoder_rid,
                        descriptor: ComputePassDescriptorModel { label: label_view(args.label) },
                    },
                ),
            )
            &&& final(table).slot_len() == old(table).slot_len() + 1
        },
        r is Err ==> {
            &&& final(table)@ == old(table)@
            &&& final(table).slot_len() == old(table).slot_len()
            &&& r->Err_0 == WebGpuError::InvalidHandle
        },
{
    if !table.check_encoder(args.command_encoder_rid) {
        return Result::Err(WebGpuError::InvalidHandle);
    }
    let recorder = ComputePassRecorder {
        parent: args.command_encoder_rid,
        descriptor: BackendComputePassDescriptor { label: args.label },
    };
    let h = table.insert(ResourceEntry::ComputePass(recorder));
    Result::Ok(h)
}

/// Success condition of ending a render pass: the pass handle resolves to a
/// render pass, the encoder handle to an encoder, and the pass was begun on
/// that encoder.
pub open spec fn spec_end_render_pass_ok(
    m: Map<u32, EntryModel>,
    enc: u32,
    pass: u32,
) -> bool {
    is_render_pass(m, pass) && is_encoder(m, enc) && m[pass]->RenderPass_0.parent == enc
}

/// Ends a render pass: destructively takes the recorder, so its handle never
/// resolves again, and folds its descriptor back into the parent encoder's
/// stream as one render-pass command. Ending a pass on an encoder it was not
/// begun on is a structural violation, surfaced as `EncoderOperationFailed`
/// with nothing mutated.
pub fn op_webgpu_render_pass_end_pass(table: &mut HandleTable, args: RenderPassEndPassArgs)
    -> (r: Result<(), WebGpuError>)
    requires
        old(table).wf(),
    ensures
        final(table).wf(),
        final(table).slot_len() == old(table).slot_len(),
        r is Ok <==> spec_end_render_pass_ok(
            old(table)@,
            args.command_encoder_rid,
            args.render_pass_rid,
        ),
        r is Ok ==> final(table)@ == old(table)@.remove(args.render_pass_rid).insert(
            args.command_encoder_rid,
            EntryModel::CommandEncoder(
                spec_append(
                    old(table)@[args.command_encoder_rid]->CommandEncoder_0,
                    CommandModel::RenderPass {
                        descriptor: old(table)@[args.render_pass_rid]->RenderPass_0.descriptor,
                    },
                ),
            ),
        ),
        r is Err ==> {
            &&& final(table)@ == old(table)@
            &&& match r->Err_0 {
                WebGpuError::InvalidHandle => !(is_render_pass(old(table)@, args.render_pass_rid)
                    && is_encoder(old(table)@, args.command_encoder_rid)),
                WebGpuError::EncoderOperationFailed => is_render_pass(
                    old(table)@,
                    args.render_pass_rid,
                ) && is_encoder(old(table)@, args.command_encoder_rid) && old(
                    table,
                )@[args.render_pass_rid]->RenderPass_0.parent != args.command_encoder_rid,
                _ => false,
            }
        },
{
    let enc_rid = args.command_encoder_rid;
    let pass_rid = args.render_pass_rid;
    let pass_state: (bool, bool) = match table.get(pass_rid) {
        Option::Some(e) => match e {
            ResourceEntry::RenderPass(p) => (true, p.parent == enc_rid),
            _ => (false, false),
        },
        Option::None => (false, false),
    };
    if !pass_state.0 {
        return Result::Err(WebGpuError::InvalidHandle);
    }
    if !table.check_encoder(enc_rid) {
        return Result::Err(WebGpuError::InvalidHandle);
    }
    if !pass_state.1 {
        return Result::Err(WebGpuError::EncoderOperationFailed);
    }
    let entry = match table.take(pass_rid) {
        Result::Ok(e) => e,
        Result::Err(e) => {
            proof {
                assert(false);
            }
            return Result::Err(e);
        },
    };
    match entry {
        ResourceEntry::RenderPass(p) => {
            let cmd = BackendCommand::RenderPass { descriptor: p.descriptor };
            match table.append_to_encoder(enc_rid, cmd) {
                Result::Ok(()) => Result::Ok(()),
                Result::Err(e) => {
                    proof {
                        assert(false);
                    }
                    Result::Err(e)
                },
            }
        },
        _ => {
            proof {
                assert(false);
            }
            Result::Err(WebGpuError::InvalidHandle)
        },
    }
}

pub open spec fn spec_end_compute_pass_ok(
    m: Map<u32, EntryModel>,
    enc: u32,
    pass: u32,
) -> bool {
    is_compute_pass(m, pass) && is_encoder(m, enc) && m[pass]->ComputePass_0.parent == enc
}

/// Ends a compute pass, the mirror of `op_webgpu_render_pass_end_pass`.
pub fn op_webgpu_compute_pass_end_pass(table: &mut HandleTable, args: ComputePassEndPassArgs)
    -> (r: Result<(), WebGpuError>)
    requires
        old(table).wf(),
    ensures
        final(table).wf(),
        final(table).slot_len() == old(table).slot_len(),
        r is Ok <==> spec_end_compute_pass_ok(
            old(table)@,
            args.command_encoder_rid,
            args.compute_pass_rid,
        ),
        r is Ok ==> final(table)@ == old(table)@.remove(args.compute_pass_rid).insert(
            args.command_encoder_rid,
            EntryModel::CommandEncoder(
                spec_append(
                    old(table)@[args.command_encoder_rid]->CommandEncoder_0,
                    CommandModel::ComputePass {
                        descriptor: old(table)@[args.compute_pass_rid]->ComputePass_0.descriptor,
                    },
                ),
            ),
        ),
        r is Err ==> {
            &&& final(table)@ == old(table)@
            &&& match r->Err_0 {
                WebGpuError::InvalidHandle => !(is_compute_pass(
                    old(table)@,
                    args.compute_pass_rid,
                ) && is_encoder(old(table)@, args.command_encoder_rid)),
                WebGpuError::EncoderOperationFailed => is_compute_pass(
                    old(table)@,
                    args.compute_pass_rid,
                ) && is_encoder(old(table)@, args.command_encoder_rid) && old(
                    table,
                )@[args.compute_pass_rid]->ComputePass_0.parent != args.command_encoder_rid,
                _ => false,
            }
        },
{
    let enc_rid = args.command_encoder_rid;
    let pass_rid = args.compute_pass_rid;
    let pass_state: (bool, bool) = match table.get(pass_rid) {
        Option::Some(e) => match e {
            ResourceEntry::ComputePass(p) => (true, p.parent == enc_rid),
            _ => (false, false),
        },
        Option::None => (false, false),
    };
    if !pass_state.0 {
        return Result::Err(WebGpuError::InvalidHandle);
    }
    if !table.check_encoder(enc_rid) {
        return Result::Err(WebGpuError::InvalidHandle);
    }
    if !pass_state.1 {
        return Result::Err(WebGpuError::EncoderOperationFailed);
    }
    let entry = match table.take(pass_rid) {
        Result::Ok(e) => e,
        Result::Err(e) => {
            proof {
                assert(false);
            }
            return Result::Err(e);
        },
    };
    match entry {
        ResourceEntry::ComputePass(p) => {
            let cmd = BackendCommand::ComputePass { descriptor: p.descriptor };
            match table.append_to_encoder(enc_rid, cmd) {
                Result::Ok(()) => Result::Ok(()),
                Result::Err(e) => {
                    proof {
                        assert(false);
                    }
                    Result::Err(e)
                },
            }
        },
        _ => {
            proof {
                assert(false);
            }
            Result::Err(WebGpuError::InvalidHandle)
        },
    }
}

/// A freshly begun pass blocks `finish`: once a pass recorder bound to
/// encoder `h` is registered — by `op_webgpu_command_encoder_begin_render_pass`'s
/// contract the table becomes `m.insert(p, RenderPass(pass))` with
/// `pass.parent == h` — some pass on `h` is open, so by `finish`'s contract
/// finishing `h` fails with `EncoderOperationFailed` until the pass ends.
pub proof fn lemma_open_pass_blocks_finish(
    m: Map<u32, EntryModel>,
    p: u32,
    h: u32,
    pass: RenderPassModel,
)
    requires
        pass.parent == h,
    ensures
        crate::table::spec_has_open_pass(m.insert(p, EntryModel::RenderPass(pass)), h),
{
    let m2 = m.insert(p, EntryModel::RenderPass(pass));
    assert(m2.dom().contains(p) && crate::table::entry_is_open_pass_of(m2[p], h));
}

/// Ending the only open pass unblocks `finish`: when `p` is the only live
/// pass bound to encoder `h`, the table after the fold-back — the pass entry
/// removed, the encoder entry updated — has no open pass on `h`, so by
/// `finish`'s contract finishing `h` now succeeds.
pub proof fn lemma_ended_pass_unblocks_finish(
    m: Map<u32, EntryModel>,
    p: u32,
    h: u32,
    enc: EntryModel,
)
    requires
        forall|q: u32|
            m.dom().contains(q) && crate::table::entry_is_open_pass_of(m[q], h) ==> q == p,
        !crate::table::entry_is_open_pass_of(enc, h),
    ensures
        !crate::table::spec_has_open_pass(m.remove(p).insert(h, enc), h),
{
    let m2 = m.remove(p).insert(h, enc);
    assert forall|q: u32|
        m2.dom().contains(q) implies !crate::table::entry_is_open_pass_of(m2[q], h) by {
        if q != p && q != h {
            assert(m2[q] == m[q]);
        }
    }
}

} // verus!
