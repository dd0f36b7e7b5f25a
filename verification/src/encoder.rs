use vstd::prelude::*;

use crate::backend::{BackendCommand, CommandModel};
use crate::error::WebGpuError;
use crate::table::{
    is_buffer, is_device, is_encoder, is_query_set, spec_append, spec_has_open_pass,
    BufferModel, CommandBuffer, CommandEncoder, EncoderModel, EntryModel, HandleTable,
    ResourceEntry,
};
use crate::wire::CommandEncoderFinishArgs;
use crate::table::is_texture;
use crate::translate::{
    spec_extent, spec_image_copy_buffer, spec_image_copy_texture, translate_extent,
    translate_image_copy_buffer, translate_image_copy_texture,
};
use crate::wire::{
    label_view, CommandEncoderCopyBufferToBufferArgs, CommandEncoderCopyBufferToTextureArgs,
    CommandEncoderCopyTextureToBufferArgs, CommandEncoderCopyTextureToTextureArgs,
    CommandEncoderInsertDebugMarkerArgs, CommandEncoderPopDebugGroupArgs,
    CommandEncoderPushDebugGroupArgs, CommandEncoderResolveQuerySetArgs,
    CommandEncoderWriteTimestampArgs, CreateCommandEncoderArgs,
};

verus! {

// The call surface of the command-recording bridge. Every operation takes the
// registry and one argument record, resolves every handle it names before it
// mutates anything, and either appends exactly one translated command to the
// named encoder or reports a discriminated error leaving the registry as it
// was.

/// The model of a freshly created encoder: bound to its device, labelled,
/// with an empty stream and no open debug group.
pub open spec fn spec_new_encoder(device: u64, label: Option<Seq<char>>) -> EncoderModel {
    EncoderModel { device, label, commands: Seq::empty(), debug_groups: 0 }
}

/// Creates a command encoder in recording state from a device handle and
/// registers it under a fresh handle.
pub fn op_webgpu_create_command_encoder(table: &mut HandleTable, args: CreateCommandEncoderArgs)
    -> (r: Result<u32, WebGpuError>)
    requires
        old(table).wf(),
        old(table).slot_len() < u32::MAX,
    ensures
        final(table).wf(),
        r is Ok <==> is_device(old(table)@, args.device_rid),
        r is Ok ==> {
            &&& r->Ok_0 as int == old(table).slot_len()
            &&& !old(table)@.dom().contains(r->Ok_0)
            &&& final(table)@ == old(table)@.insert(
                r->Ok_0,
                EntryModel::CommandEncoder(
                    spec_new_encoder(
                        old(table)@[args.device_rid]->Device_0,
                        label_view(args.label),
                    ),
                ),
            )
            &&& final(table).slot_len() == old(table).slot_len() + 1
        },
        r is Err ==> {
            &&& final(table)@ == old(table)@
            &&& final(table).slot_len() == old(table).slot_len()
            &&& r->Err_0 == WebGpuError::InvalidHandle
        },
{
    let device = match table.get_device_id(args.device_rid) {
        Result::Ok(id) => id,
        Result::Err(e) => {
            return Result::Err(e);
        },
    };
    let encoder = CommandEncoder {
        device,
        label: args.label,
        commands: Vec::new(),
        debug_groups: 0,
    };
    proof {
        assert(encoder@.commands =~= Seq::<CommandModel>::empty());
    }
    let h = table.insert(ResourceEntry::CommandEncoder(encoder));
    Result::Ok(h)
}

/// Success condition of a buffer-to-buffer copy: the encoder and both buffer
/// handles resolve to entries of the right kind.
pub open spec fn spec_copy_buffer_to_buffer_ok(
    m: Map<u32, EntryModel>,
    args: CommandEncoderCopyBufferToBufferArgs,
) -> bool {
    &&& is_encoder(m, args.command_encoder_rid)
    &&& is_buffer(m, args.source)
    &&& is_buffer(m, args.destination)
}

/// The command a successful buffer-to-buffer copy appends.
pub open spec fn spec_copy_buffer_to_buffer_cmd(
    m: Map<u32, EntryModel>,
    args: CommandEncoderCopyBufferToBufferArgs,
) -> CommandModel {
    CommandModel::CopyBufferToBuffer {
        source: m[args.source]->Buffer_0,
        source_offset: args.source_offset,
        destination: m[args.destination]->Buffer_0,
        destination_offset: args.destination_offset,
        size: args.size,
    }
}

/// Records a buffer-to-buffer copy on the encoder.
pub fn op_webgpu_command_encoder_copy_buffer_to_buffer(
    table: &mut HandleTable,
    args: CommandEncoderCopyBufferToBufferArgs,
) -> (r: Result<(), WebGpuError>)
    requires
        old(table).wf(),
    ensures
        final(table).wf(),
        final(table).slot_len() == old(table).slot_len(),
        r is Ok <==> spec_copy_buffer_to_buffer_ok(old(table)@, args),
        r is Ok ==> final(table)@ == old(table)@.insert(
            args.command_encoder_rid,
            EntryModel::CommandEncoder(
                spec_append(
                    old(table)@[args.command_encoder_rid]->CommandEncoder_0,
                    spec_copy_buffer_to_buffer_cmd(old(table)@, args),
                ),
            ),
        ),
        r is Err ==> final(table)@ == old(table)@ && r->Err_0 == WebGpuError::InvalidHandle,
{
    if !table.check_encoder(args.command_encoder_rid) {
        return Result::Err(WebGpuError::InvalidHandle);
    }
    let source = match table.get_buffer_id(args.source) {
        Result::Ok(id) => id,
        Result::Err(e) => {
            return Result::Err(e);
        },
    };
    let destination = match table.get_buffer_id(args.destination) {
        Result::Ok(id) => id,
        Result::Err(e) => {
            return Result::Err(e);
        },
    };
    let cmd = BackendCommand::CopyBufferToBuffer {
        source,
        source_offset: args.source_offset,
        destination,
        destination_offset: args.destination_offset,
        size: args.size,
    };
    match table.append_to_encoder(args.command_encoder_rid, cmd) {
        Result::Ok(()) => Result::Ok(()),
        Result::Err(e) => {
            proof {
                assert(false);
            }
            Result::Err(e)
        },
    }
}

pub open spec fn spec_copy_buffer_to_texture_ok(
    m: Map<u32, EntryModel>,
    args: CommandEncoderCopyBufferToTextureArgs,
) -> bool {
    &&& is_encoder(m, args.command_encoder_rid)
    &&& is_buffer(m, args.source.buffer)
    &&& is_texture(m, args.destination.texture)
}

pub open spec fn spec_copy_buffer_to_texture_cmd(
    m: Map<u32, EntryModel>,
    args: CommandEncoderCopyBufferToTextureArgs,
) -> CommandModel {
    CommandModel::CopyBufferToTexture {
        source: spec_image_copy_buffer(args.source, m[args.source.buffer]->Buffer_0),
        destination: spec_image_copy_texture(
            args.destination,
            m[args.destination.texture]->Texture_0,
        ),
        copy_size: spec_extent(args.copy_size),
    }
}

/// Records a buffer-to-texture copy: resolves both handles, translates the
/// layout (defaulting absent or zero row counts to "unspecified") and the
/// texture origin/aspect, and appends the copy.
pub fn op_webgpu_command_encoder_copy_buffer_to_texture(
    table: &mut HandleTable,
    args: CommandEncoderCopyBufferToTextureArgs,
) -> (r: Result<(), WebGpuError>)
    requires
        old(table).wf(),
    ensures
        final(table).wf(),
        final(table).slot_len() == old(table).slot_len(),
        r is Ok <==> spec_copy_buffer_to_texture_ok(old(table)@, args),
        r is Ok ==> final(table)@ == old(table)@.insert(
            args.command_encoder_rid,
            EntryModel::CommandEncoder(
                spec_append(
                    old(table)@[args.command_encoder_rid]->CommandEncoder_0,
                    spec_copy_buffer_to_texture_cmd(old(table)@, args),
                ),
            ),
        ),
        r is Err ==> final(table)@ == old(table)@ && r->Err_0 == WebGpuError::InvalidHandle,
{
    if !table.check_encoder(args.command_encoder_rid) {
        return Result::Err(WebGpuError::InvalidHandle);
    }
    let source_buffer = match table.get_buffer_id(args.source.buffer) {
        Result::Ok(id) => id,
        Result::Err(e) => {
            return Result::Err(e);
        },
    };
    let destination_texture = match table.get_texture_id(args.destination.texture) {
        Result::Ok(id) => id,
        Result::Err(e) => {
            return Result::Err(e);
        },
    };
    let cmd = BackendCommand::CopyBufferToTexture {
        source: translate_image_copy_buffer(&args.source, source_buffer),
        destination: translate_image_copy_texture(&args.destination, destination_texture),
        copy_size: translate_extent(args.copy_size),
    };
    match table.append_to_encoder(args.command_encoder_rid, cmd) {
        Result::Ok(()) => Result::Ok(()),
        Result::Err(e) => {
            proof {
                assert(false);
            }
            Result::Err(e)
        },
    }
}

pub open spec fn spec_copy_texture_to_buffer_ok(
    m: Map<u32, EntryModel>,
    args: CommandEncoderCopyTextureToBufferArgs,
) -> bool {
    &&& is_encoder(m, args.command_encoder_rid)
    &&& is_texture(m, args.source.texture)
    &&& is_buffer(m, args.destination.buffer)
}

pub open spec fn spec_copy_texture_to_buffer_cmd(
    m: Map<u32, EntryModel>,
    args: CommandEncoderCopyTextureToBufferArgs,
) -> CommandModel {
    CommandModel::CopyTextureToBuffer {
        source: spec_image_copy_texture(args.source, m[args.source.texture]->Texture_0),
        destination: spec_image_copy_buffer(
            args.destination,
            m[args.destination.buffer]->Buffer_0,
        ),
        copy_size: spec_extent(args.copy_size),
    }
}

/// Records a texture-to-buffer copy, the mirror of the buffer-to-texture
/// translation.
pub fn op_webgpu_command_encoder_copy_texture_to_buffer(
    table: &mut HandleTable,
    args: CommandEncoderCopyTextureToBufferArgs,
) -> (r: Result<(), WebGpuError>)
    requires
        old(table).wf(),
    ensures
        final(table).wf(),
        final(table).slot_len() == old(table).slot_len(),
        r is Ok <==> spec_copy_texture_to_buffer_ok(old(table)@, args),
        r is Ok ==> final(table)@ == old(table)@.insert(
            args.command_encoder_rid,
            EntryModel::CommandEncoder(
                spec_append(
                    old(table)@[args.command_encoder_rid]->CommandEncoder_0,
                    spec_copy_texture_to_buffer_cmd(old(table)@, args),
                ),
            ),
        ),
        r is Err ==> final(table)@ == old(table)@ && r->Err_0 == WebGpuError::InvalidHandle,
{
    if !table.check_encoder(args.command_encoder_rid) {
        return Result::Err(WebGpuError::InvalidHandle);
    }
    let source_texture = match table.get_texture_id(args.source.texture) {
        Result::Ok(id) => id,
        Result::Err(e) => {
            return Result::Err(e);
        },
    };
    let destination_buffer = match table.get_buffer_id(args.destination.buffer) {
        Result::Ok(id) => id,
        Result::Err(e) => {
            return Result::Err(e);
        },
    };
    let cmd = BackendCommand::CopyTextureToBuffer {
        source: translate_image_copy_texture(&args.source, source_texture),
        destination: translate_image_copy_buffer(&args.destination, destination_buffer),
        copy_size: translate_extent(args.copy_size),
    };
    match table.append_to_encoder(args.command_encoder_rid, cmd) {
        Result::Ok(()) => Result::Ok(()),
        Result::Err(e) => {
            proof {
                assert(false);
            }
            Result::Err(e)
        },
    }
}

pub open spec fn spec_copy_texture_to_texture_ok(
    m: Map<u32, EntryModel>,
    args: CommandEncoderCopyTextureToTextureArgs,
) -> bool {
    &&& is_encoder(m, args.command_encoder_rid)
    &&& is_texture(m, args.source.texture)
    &&& is_texture(m, args.destination.texture)
}

pub open spec fn spec_copy_texture_to_texture_cmd(
    m: Map<u32, EntryModel>,
    args: CommandEncoderCopyTextureToTextureArgs,
) -> CommandModel {
    CommandModel::CopyTextureToTexture {
        source: spec_image_copy_texture(args.source, m[args.source.texture]->Texture_0),
        destination: spec_image_copy_texture(
            args.destination,
            m[args.destination.texture]->Texture_0,
        ),
        copy_size: spec_extent(args.copy_size),
    }
}

/// Records a texture-to-texture copy.
pub fn op_webgpu_command_encoder_copy_texture_to_texture(
    table: &mut HandleTable,
    args: CommandEncoderCopyTextureToTextureArgs,
) -> (r: Result<(), WebGpuError>)
    requires
        old(table).wf(),
    ensures
        final(table).wf(),
        final(table).slot_len() == old(table).slot_len(),
        r is Ok <==> spec_copy_texture_to_texture_ok(old(table)@, args),
        r is Ok ==> final(table)@ == old(table)@.insert(
            args.command_encoder_rid,
            EntryModel::CommandEncoder(
                spec_append(
                    old(table)@[args.command_encoder_rid]->CommandEncoder_0,
                    spec_copy_texture_to_texture_cmd(old(table)@, args),
                ),
            ),
        ),
        r is Err ==> final(table)@ == old(table)@ && r->Err_0 == WebGpuError::InvalidHandle,
{
    if !table.check_encoder(args.command_encoder_rid) {
        return Result::Err(WebGpuError::InvalidHandle);
    }
    let source_texture = match table.get_texture_id(args.source.texture) {
        Result::Ok(id) => id,
        Result::Err(e) => {
            return Result::Err(e);
        },
    };
    let destination_texture = match table.get_texture_id(args.destination.texture) {
        Result::Ok(id) => id,
        Result::Err(e) => {
            return Result::Err(e);
        },
    };
    let cmd = BackendCommand::CopyTextureToTexture {
        source: translate_image_copy_texture(&args.source, source_texture),
        destination: translate_image_copy_texture(&args.destination, destination_texture),
        copy_size: translate_extent(args.copy_size),
    };
    match table.append_to_encoder(args.command_encoder_rid, cmd) {
        Result::Ok(()) => Result::Ok(()),
        Result::Err(e) => {
            proof {
                assert(false);
            }
            Result::Err(e)
        },
    }
}

/// Opens a debug group on the encoder; the label passes through verbatim.
pub fn op_webgpu_command_encoder_push_debug_group(
    table: &mut HandleTable,
    args: CommandEncoderPushDebugGroupArgs,
) -> (r: Result<(), WebGpuError>)
    requires
        old(table).wf(),
    ensures
        final(table).wf(),
        final(table).slot_len() == old(table).slot_len(),
        r is Ok <==> is_encoder(old(table)@, args.command_encoder_rid),
        r is Ok ==> final(table)@ == old(table)@.insert(
            args.command_encoder_rid,
            EntryModel::CommandEncoder(
                spec_append(
                    old(table)@[args.command_encoder_rid]->CommandEncoder_0,
                    CommandModel::PushDebugGroup { label: args.group_label@ },
                ),
            ),
        ),
        r is Err ==> final(table)@ == old(table)@ && r->Err_0 == WebGpuError::InvalidHandle,
{
    if !table.check_encoder(args.command_encoder_rid) {
        return Result::Err(WebGpuError::InvalidHandle);
    }
    let cmd = BackendCommand::PushDebugGroup { label: args.group_label };
    match table.append_to_encoder(args.command_encoder_rid, cmd) {
        Result::Ok(()) => Result::Ok(()),
        Result::Err(e) => {
            proof {
                assert(false);
            }
            Result::Err(e)
        },
    }
}

/// Closes the innermost open debug group. Fails with
/// `EncoderOperationFailed` when no group is open, as the backend reports an
/// unbalanced pop.
pub fn op_webgpu_command_encoder_pop_debug_group(
    table: &mut HandleTable,
    args: CommandEncoderPopDebugGroupArgs,
) -> (r: Result<(), WebGpuError>)
    requires
        old(table).wf(),
    ensures
        final(table).wf(),
        final(table).slot_len() == old(table).slot_len(),
        r is Ok <==> is_encoder(old(table)@, args.command_encoder_rid) && old(
            table,
        )@[args.command_encoder_rid]->CommandEncoder_0.debug_groups > 0,
        r is Ok ==> final(table)@ == old(table)@.insert(
            args.command_encoder_rid,
            EntryModel::CommandEncoder(
                spec_append(
                    old(table)@[args.command_encoder_rid]->CommandEncoder_0,
                    CommandModel::PopDebugGroup,
                ),
            ),
        ),
        r is Err ==> {
            &&& final(table)@ == old(table)@
            &&& match r->Err_0 {
                WebGpuError::InvalidHandle => !is_encoder(old(table)@, args.command_encoder_rid),
                WebGpuError::EncoderOperationFailed => is_encoder(
                    old(table)@,
                    args.command_encoder_rid,
                ) && old(table)@[args.command_encoder_rid]->CommandEncoder_0.debug_groups == 0,
                _ => false,
            }
        },
{
    table.append_to_encoder(args.command_encoder_rid, BackendCommand::PopDebugGroup)
}

/// Records a standalone debug marker; the label passes through verbatim.
pub fn op_webgpu_command_encoder_insert_debug_marker(
    table: &mut HandleTable,
    args: CommandEncoderInsertDebugMarkerArgs,
) -> (r: Result<(), WebGpuError>)
    requires
        old(table).wf(),
    ensures
        final(table).wf(),
        final(table).slot_len() == old(table).slot_len(),
        r is Ok <==> is_encoder(old(table)@, args.command_encoder_rid),
        r is Ok ==> final(table)@ == old(table)@.insert(
            args.command_encoder_rid,
            EntryModel::CommandEncoder(
                spec_append(
                    old(table)@[args.command_encoder_rid]->CommandEncoder_0,
                    CommandModel::InsertDebugMarker { label: args.marker_label@ },
                ),
            ),
        ),
        r is Err ==> final(table)@ == old(table)@ && r->Err_0 == WebGpuError::InvalidHandle,
{
    if !table.check_encoder(args.command_encoder_rid) {
        return Result::Err(WebGpuError::InvalidHandle);
    }
    let cmd = BackendCommand::InsertDebugMarker { label: args.marker_label };
    match table.append_to_encoder(args.command_encoder_rid, cmd) {
        Result::Ok(()) => Result::Ok(()),
        Result::Err(e) => {
            proof {
                assert(false);
            }
            Result::Err(e)
        },
    }
}

pub open spec fn spec_write_timestamp_ok(
    m: Map<u32, EntryModel>,
    args: CommandEncoderWriteTimestampArgs,
) -> bool {
    &&& is_encoder(m, args.command_encoder_rid)
    &&& is_query_set(m, args.query_set)
}

pub open spec fn spec_write_timestamp_cmd(
    m: Map<u32, EntryModel>,
    args: CommandEncoderWriteTimestampArgs,
) -> CommandModel {
    CommandModel::WriteTimestamp {
        query_set: m[args.query_set]->QuerySet_0,
        query_index: args.query_index,
    }
}

/// Records a timestamp write into a query set.
pub fn op_webgpu_command_encoder_write_timestamp(
    table: &mut HandleTable,
    args: CommandEncoderWriteTimestampArgs,
) -> (r: Result<(), WebGpuError>)
    requires
        old(table).wf(),
    ensures
        final(table).wf(),
        final(table).slot_len() == old(table).slot_len(),
        r is Ok <==> spec_write_timestamp_ok(old(table)@, args),
        r is Ok ==> final(table)@ == old(table)@.insert(
            args.command_encoder_rid,
            EntryModel::CommandEncoder(
                spec_append(
                    old(table)@[args.command_encoder_rid]->CommandEncoder_0,
                    spec_write_timestamp_cmd(old(table)@, args),
                ),
            ),
        ),
        r is Err ==> final(table)@ == old(table)@ && r->Err_0 == WebGpuError::InvalidHandle,
{
    if !table.check_encoder(args.command_encoder_rid) {
        return Result::Err(WebGpuError::InvalidHandle);
    }
    let query_set = match table.get_query_set_id(args.query_set) {
        Result::Ok(id) => id,
        Result::Err(e) => {
            return Result::Err(e);
        },
    };
    let cmd = BackendCommand::WriteTimestamp { query_set, query_index: args.query_index };
    match table.append_to_encoder(args.command_encoder_rid, cmd) {
        Result::Ok(()) => Result::Ok(()),
        Result::Err(e) => {
            proof {
                assert(false);
            }
            Result::Err(e)
        },
    }
}

pub open spec fn spec_resolve_query_set_ok(
    m: Map<u32, EntryModel>,
    args: CommandEncoderResolveQuerySetArgs,
) -> bool {
    &&& is_encoder(m, args.command_encoder_rid)
    &&& is_query_set(m, args.query_set)
    &&& is_buffer(m, args.destination)
}

pub open spec fn spec_resolve_query_set_cmd(
    m: Map<u32, EntryModel>,
    args: CommandEncoderResolveQuerySetArgs,
) -> CommandModel {
    CommandModel::ResolveQuerySet {
        query_set: m[args.query_set]->QuerySet_0,
        first_query: args.first_query,
        query_count: args.query_count,
        destination: m[args.destination]->Buffer_0,
        destination_offset: args.destination_offset,
    }
}

/// Records the resolution of a query-set range into a buffer.
pub fn op_webgpu_command_encoder_resolve_query_set(
    table: &mut HandleTable,
    args: CommandEncoderResolveQuerySetArgs,
) -> (r: Result<(), WebGpuError>)
    requires
        old(table).wf(),
    ensures
        final(table).wf(),
        final(table).slot_len() == old(table).slot_len(),
        r is Ok <==> spec_resolve_query_set_ok(old(table)@, args),
        r is Ok ==> final(table)@ == old(table)@.insert(
            args.command_encoder_rid,
            EntryModel::CommandEncoder(
                spec_append(
                    old(table)@[args.command_encoder_rid]->CommandEncoder_0,
                    spec_resolve_query_set_cmd(old(table)@, args),
                ),
            ),
        ),
        r is Err ==> final(table)@ == old(table)@ && r->Err_0 == WebGpuError::InvalidHandle,
{
    if !table.check_encoder(args.command_encoder_rid) {
        return Result::Err(WebGpuError::InvalidHandle);
    }
    let query_set = match table.get_query_set_id(args.query_set) {
        Result::Ok(id) => id,
        Result::Err(e) => {
            return Result::Err(e);
        },
    };
    let destination = match table.get_buffer_id(args.destination) {
        Result::Ok(id) => id,
        Result::Err(e) => {
            return Result::Err(e);
        },
    };
    let cmd = BackendCommand::ResolveQuerySet {
        query_set,
        first_query: args.first_query,
        query_count: args.query_count,
        destination,
        destination_offset: args.destination_offset,
    };
    match table.append_to_encoder(args.command_encoder_rid, cmd) {
        Result::Ok(()) => Result::Ok(()),
        Result::Err(e) => {
            proof {
                assert(false);
            }
            Result::Err(e)
        },
    }
}

/// Success condition of `finish`: the handle resolves to an encoder and no
/// pass begun on it is still open.
pub open spec fn spec_finish_ok(m: Map<u32, EntryModel>, h: u32) -> bool {
    is_encoder(m, h) && !spec_has_open_pass(m, h)
}

/// The command buffer `finish` produces: the encoder's device, the finishing
/// label, and exactly the commands recorded so far.
pub open spec fn spec_finished_buffer(m: EncoderModel, label: Option<Seq<char>>) -> BufferModel {
    BufferModel { device: m.device, label, commands: m.commands }
}

/// Finishes the encoder: destructively takes its entry, so the encoder handle
/// never resolves again, and registers the resulting command buffer under a
/// fresh handle. Fails with `EncoderOperationFailed`, mutating nothing, while
/// a pass begun on this encoder is still open.
pub fn op_webgpu_command_encoder_finish(table: &mut HandleTable, args: CommandEncoderFinishArgs)
    -> (r: Result<u32, WebGpuError>)
    requires
        old(table).wf(),
        old(table).slot_len() < u32::MAX,
    ensures
        final(table).wf(),
        r is Ok <==> spec_finish_ok(old(table)@, args.command_encoder_rid),
        r is Ok ==> {
            &&& r->Ok_0 as int == old(table).slot_len()
            &&& !old(table)@.dom().contains(r->Ok_0)
            &&& r->Ok_0 != args.command_encoder_rid
            &&& final(table)@ == old(table)@.remove(args.command_encoder_rid).insert(
                r->Ok_0,
                EntryModel::CommandBuffer(
                    spec_finished_buffer(
                        old(table)@[args.command_encoder_rid]->CommandEncoder_0,
                        label_view(args.label),
                    ),
                ),
            )
            &&& !final(table)@.dom().contains(args.command_encoder_rid)
            &&& final(table).slot_len() == old(table).slot_len() + 1
        },
        r is Err ==> {
            &&& final(table)@ == old(table)@
            &&& final(table).slot_len() == old(table).slot_len()
            &&& match r->Err_0 {
                WebGpuError::InvalidHandle => !is_encoder(old(table)@, args.command_encoder_rid),
                WebGpuError::EncoderOperationFailed => is_encoder(
                    old(table)@,
                    args.command_encoder_rid,
                ) && spec_has_open_pass(old(table)@, args.command_encoder_rid),
                _ => false,
            }
        },
{
    let h = args.command_encoder_rid;
    if !table.check_encoder(h) {
        return Result::Err(WebGpuError::InvalidHandle);
    }
    if table.has_open_pass(h) {
        return Result::Err(WebGpuError::EncoderOperationFailed);
    }
    proof {
        old(table).lemma_dom_bound(h);
    }
    let entry = match table.take(h) {
        Result::Ok(e) => e,
        Result::Err(e) => {
            proof {
                assert(false);
            }
            return Result::Err(e);
        },
    };
    match entry {
        ResourceEntry::CommandEncoder(enc) => {
            let buffer = CommandBuffer {
                device: enc.device,
                label: args.label,
                commands: enc.commands,
            };
            let nh = table.insert(ResourceEntry::CommandBuffer(buffer));
            Result::Ok(nh)
        },
        _ => {
            proof {
                assert(false);
            }
            Result::Err(WebGpuError::InvalidHandle)
        },
    }
}

/// Finishing is final: when `finish` succeeds on encoder handle `h` — by its
/// contract the table becomes `m.remove(h).insert(nh, buffer)` for a fresh
/// `nh` — the encoder handle is outside the table's domain and in particular
/// no longer resolves to an encoder, so by the recording operations'
/// contracts every subsequent operation on `h` fails with `InvalidHandle`.
pub proof fn lemma_finish_invalidates_encoder(
    m: Map<u32, EntryModel>,
    h: u32,
    nh: u32,
    buffer: EntryModel,
)
    requires
        m.dom().contains(h),
        nh != h,
    ensures
        !m.remove(h).insert(nh, buffer).dom().contains(h),
        !is_encoder(m.remove(h).insert(nh, buffer), h),
{
}

} // verus!
