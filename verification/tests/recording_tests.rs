use gpu_command_bridge::backend::{BackendCommand, BackendLoadOp, BackendStoreOp};
use gpu_command_bridge::encoder::{
    op_webgpu_command_encoder_copy_buffer_to_buffer, op_webgpu_command_encoder_copy_buffer_to_texture,
    op_webgpu_command_encoder_copy_texture_to_buffer, op_webgpu_command_encoder_copy_texture_to_texture,
    op_webgpu_command_encoder_finish, op_webgpu_command_encoder_insert_debug_marker,
    op_webgpu_command_encoder_pop_debug_group, op_webgpu_command_encoder_push_debug_group,
    op_webgpu_command_encoder_resolve_query_set, op_webgpu_command_encoder_write_timestamp,
    op_webgpu_create_command_encoder,
};
use gpu_command_bridge::error::WebGpuError;
use gpu_command_bridge::pass::{
    op_webgpu_command_encoder_begin_compute_pass, op_webgpu_command_encoder_begin_render_pass,
    op_webgpu_compute_pass_end_pass, op_webgpu_render_pass_end_pass,
};
use gpu_command_bridge::table::{HandleTable, ResourceEntry};
use gpu_command_bridge::wire::{
    CommandEncoderBeginComputePassArgs, CommandEncoderBeginRenderPassArgs,
    CommandEncoderCopyBufferToBufferArgs, CommandEncoderCopyBufferToTextureArgs,
    CommandEncoderCopyTextureToBufferArgs, CommandEncoderCopyTextureToTextureArgs,
    CommandEncoderFinishArgs, CommandEncoderInsertDebugMarkerArgs, CommandEncoderPopDebugGroupArgs,
    CommandEncoderPushDebugGroupArgs, CommandEncoderResolveQuerySetArgs,
    CommandEncoderWriteTimestampArgs, ComputePassEndPassArgs, GpuColor, GpuExtent3D,
    GpuImageCopyBuffer, GpuImageCopyTexture, GpuLoadOp, GpuOrigin3D, GpuRenderPassColorAttachment,
    GpuStoreOp, GpuTextureAspect, RenderPassEndPassArgs,
};

struct Setup {
    table: HandleTable,
    device: u32,
    buffer1: u32,
    buffer2: u32,
    texture: u32,
    view: u32,
    query_set: u32,
}

fn setup() -> Setup {
    let mut table = HandleTable::new();
    let device = table.insert(ResourceEntry::Device(1));
    let buffer1 = table.insert(ResourceEntry::Buffer(101));
    let buffer2 = table.insert(ResourceEntry::Buffer(102));
    let texture = table.insert(ResourceEntry::Texture(201));
    let view = table.insert(ResourceEntry::TextureView(301));
    let query_set = table.insert(ResourceEntry::QuerySet(401));
    Setup { table, device, buffer1, buffer2, texture, view, query_set }
}

fn create_encoder(s: &mut Setup, label: Option<String>) -> u32 {
    op_webgpu_create_command_encoder(
        &mut s.table,
        gpu_command_bridge::wire::CreateCommandEncoderArgs { device_rid: s.device, label },
    )
    .expect("encoder creation from a live device must succeed")
}

fn buffer_commands(s: &Setup, handle: u32) -> &Vec<BackendCommand> {
    match s.table.get(handle) {
        Some(ResourceEntry::CommandBuffer(b)) => &b.commands,
        _ => panic!("handle does not name a command buffer"),
    }
}

#[test]
fn encoder_records_copy_and_finish_invalidates() {
    // CreateCommandEncoder -> CopyBufferToBuffer -> Finish -> reuse fails
    let mut s = setup();
    let e1 = create_encoder(&mut s, Some("enc".to_string()));
    let copy = op_webgpu_command_encoder_copy_buffer_to_buffer(
        &mut s.table,
        CommandEncoderCopyBufferToBufferArgs {
            command_encoder_rid: e1,
            source: s.buffer1,
            source_offset: 0,
            destination: s.buffer2,
            destination_offset: 0,
            size: 1024,
        },
    );
    assert_eq!(copy, Ok(()));
    let c1 = op_webgpu_command_encoder_finish(
        &mut s.table,
        CommandEncoderFinishArgs { command_encoder_rid: e1, label: None },
    )
    .expect("finish of a recording encoder with no open pass must succeed");
    assert_ne!(c1, e1);
    let cmds = buffer_commands(&s, c1);
    assert_eq!(cmds.len(), 1);
    match &cmds[0] {
        BackendCommand::CopyBufferToBuffer {
            source,
            source_offset,
            destination,
            destination_offset,
            size,
        } => {
            assert_eq!(*source, 101);
            assert_eq!(*source_offset, 0);
            assert_eq!(*destination, 102);
            assert_eq!(*destination_offset, 0);
            assert_eq!(*size, 1024);
        }
        _ => panic!("expected a buffer-to-buffer copy"),
    }
    // every operation on the finished encoder's handle fails with InvalidHandle
    let copy_again = op_webgpu_command_encoder_copy_buffer_to_buffer(
        &mut s.table,
        CommandEncoderCopyBufferToBufferArgs {
            command_encoder_rid: e1,
            source: s.buffer1,
            source_offset: 0,
            destination: s.buffer2,
            destination_offset: 0,
            size: 1,
        },
    );
    assert_eq!(copy_again, Err(WebGpuError::InvalidHandle));
    let finish_again = op_webgpu_command_encoder_finish(
        &mut s.table,
        CommandEncoderFinishArgs { command_encoder_rid: e1, label: None },
    );
    assert_eq!(finish_again, Err(WebGpuError::InvalidHandle));
    let push_after = op_webgpu_command_encoder_push_debug_group(
        &mut s.table,
        CommandEncoderPushDebugGroupArgs {
            command_encoder_rid: e1,
            group_label: "late".to_string(),
        },
    );
    assert_eq!(push_after, Err(WebGpuError::InvalidHandle));
}

#[test]
fn render_pass_must_end_before_finish() {
    // BeginRenderPass with a clear color; Finish before ending the pass fails,
    // ending the pass then finishing succeeds.
    let mut s = setup();
    let e1 = create_encoder(&mut s, None);
    let p1 = op_webgpu_command_encoder_begin_render_pass(
        &mut s.table,
        CommandEncoderBeginRenderPassArgs {
            command_encoder_rid: e1,
            label: None,
            color_attachments: vec![GpuRenderPassColorAttachment {
                view: s.view,
                resolve_target: None,
                load_op: GpuLoadOp::Clear(GpuColor {
                    r: 1.0f64.to_bits(),
                    g: 0.0f64.to_bits(),
                    b: 0.0f64.to_bits(),
                    a: 1.0f64.to_bits(),
                }),
                store_op: GpuStoreOp::Store,
            }],
            depth_stencil_attachment: None,
        },
    )
    .expect("begin render pass with live handles must succeed");
    let early_finish = op_webgpu_command_encoder_finish(
        &mut s.table,
        CommandEncoderFinishArgs { command_encoder_rid: e1, label: None },
    );
    assert_eq!(early_finish, Err(WebGpuError::EncoderOperationFailed));
    let ended = op_webgpu_render_pass_end_pass(
        &mut s.table,
        RenderPassEndPassArgs { command_encoder_rid: e1, render_pass_rid: p1 },
    );
    assert_eq!(ended, Ok(()));
    let c1 = op_webgpu_command_encoder_finish(
        &mut s.table,
        CommandEncoderFinishArgs { command_encoder_rid: e1, label: None },
    )
    .expect("finish after the pass ended must succeed");
    let cmds = buffer_commands(&s, c1);
    assert_eq!(cmds.len(), 1);
    match &cmds[0] {
        BackendCommand::RenderPass { descriptor } => {
            assert_eq!(descriptor.color_attachments.len(), 1);
            let att = &descriptor.color_attachments[0];
            assert_eq!(att.view, 301);
            assert_eq!(att.resolve_target, None);
            assert_eq!(att.channel.load_op, BackendLoadOp::Clear);
            assert_eq!(att.channel.store_op, BackendStoreOp::Store);
            assert_eq!(f64::from_bits(att.channel.clear_value.r), 1.0);
            assert_eq!(f64::from_bits(att.channel.clear_value.g), 0.0);
            assert_eq!(f64::from_bits(att.channel.clear_value.b), 0.0);
            assert_eq!(f64::from_bits(att.channel.clear_value.a), 1.0);
        }
        _ => panic!("expected the folded render pass"),
    }
    // the pass handle was destructively taken on end
    let end_again = op_webgpu_render_pass_end_pass(
        &mut s.table,
        RenderPassEndPassArgs { command_encoder_rid: e1, render_pass_rid: p1 },
    );
    assert_eq!(end_again, Err(WebGpuError::InvalidHandle));
}

#[test]
fn failed_copy_leaves_encoder_recording_with_no_command() {
    // CopyBufferToTexture with an unknown buffer handle fails InvalidHandle
    // and appends nothing: a later finish yields only the prior commands.
    let mut s = setup();
    let e1 = create_encoder(&mut s, None);
    let marker = op_webgpu_command_encoder_insert_debug_marker(
        &mut s.table,
        CommandEncoderInsertDebugMarkerArgs {
            command_encoder_rid: e1,
            marker_label: "before".to_string(),
        },
    );
    assert_eq!(marker, Ok(()));
    let unknown_buffer = 9999;
    let bad_copy = op_webgpu_command_encoder_copy_buffer_to_texture(
        &mut s.table,
        CommandEncoderCopyBufferToTextureArgs {
            command_encoder_rid: e1,
            source: GpuImageCopyBuffer {
                buffer: unknown_buffer,
                offset: 0,
                bytes_per_row: Some(256),
                rows_per_image: None,
            },
            destination: GpuImageCopyTexture {
                texture: s.texture,
                mip_level: 0,
                origin: GpuOrigin3D { x: 0, y: 0, z: 0 },
                aspect: GpuTextureAspect::All,
            },
            copy_size: GpuExtent3D { width: 4, height: 4, depth_or_array_layers: 1 },
        },
    );
    assert_eq!(bad_copy, Err(WebGpuError::InvalidHandle));
    let c1 = op_webgpu_command_encoder_finish(
        &mut s.table,
        CommandEncoderFinishArgs { command_encoder_rid: e1, label: None },
    )
    .expect("encoder must still be recording after the rejected call");
    let cmds = buffer_commands(&s, c1);
    assert_eq!(cmds.len(), 1);
    assert!(matches!(&cmds[0], BackendCommand::InsertDebugMarker { .. }));
}

#[test]
fn buffer_to_texture_copy_defaults_rows_to_unspecified() {
    let mut s = setup();
    let e1 = create_encoder(&mut s, None);
    let copy = op_webgpu_command_encoder_copy_buffer_to_texture(
        &mut s.table,
        CommandEncoderCopyBufferToTextureArgs {
            command_encoder_rid: e1,
            source: GpuImageCopyBuffer {
                buffer: s.buffer1,
                offset: 8,
                bytes_per_row: None,
                rows_per_image: Some(0),
            },
            destination: GpuImageCopyTexture {
                texture: s.texture,
                mip_level: 2,
                origin: GpuOrigin3D { x: 1, y: 2, z: 3 },
                aspect: GpuTextureAspect::DepthOnly,
            },
            copy_size: GpuExtent3D { width: 16, height: 16, depth_or_array_layers: 1 },
        },
    );
    assert_eq!(copy, Ok(()));
    let c1 = op_webgpu_command_encoder_finish(
        &mut s.table,
        CommandEncoderFinishArgs { command_encoder_rid: e1, label: None },
    )
    .unwrap();
    let cmds = buffer_commands(&s, c1);
    match &cmds[0] {
        BackendCommand::CopyBufferToTexture { source, destination, copy_size } => {
            assert_eq!(source.buffer, 101);
            assert_eq!(source.layout.offset, 8);
            // absent and zero both mean "unspecified", never an explicit zero
            assert_eq!(source.layout.bytes_per_row, None);
            assert_eq!(source.layout.rows_per_image, None);
            assert_eq!(destination.texture, 201);
            assert_eq!(destination.mip_level, 2);
            assert_eq!((destination.origin.x, destination.origin.y, destination.origin.z), (1, 2, 3));
            assert_eq!(copy_size.width, 16);
        }
        _ => panic!("expected a buffer-to-texture copy"),
    }
}

#[test]
fn texture_copies_record_resolved_ids() {
    let mut s = setup();
    let e1 = create_encoder(&mut s, None);
    let t2b = op_webgpu_command_encoder_copy_texture_to_buffer(
        &mut s.table,
        CommandEncoderCopyTextureToBufferArgs {
            command_encoder_rid: e1,
            source: GpuImageCopyTexture {
                texture: s.texture,
                mip_level: 0,
                origin: GpuOrigin3D { x: 0, y: 0, z: 0 },
                aspect: GpuTextureAspect::All,
            },
            destination: GpuImageCopyBuffer {
                buffer: s.buffer2,
                offset: 0,
                bytes_per_row: Some(512),
                rows_per_image: Some(4),
            },
            copy_size: GpuExtent3D { width: 8, height: 8, depth_or_array_layers: 1 },
        },
    );
    assert_eq!(t2b, Ok(()));
    let t2t = op_webgpu_command_encoder_copy_texture_to_texture(
        &mut s.table,
        CommandEncoderCopyTextureToTextureArgs {
            command_encoder_rid: e1,
            source: GpuImageCopyTexture {
                texture: s.texture,
                mip_level: 0,
                origin: GpuOrigin3D { x: 0, y: 0, z: 0 },
                aspect: GpuTextureAspect::All,
            },
            destination: GpuImageCopyTexture {
                texture: s.texture,
                mip_level: 1,
                origin: GpuOrigin3D { x: 4, y: 4, z: 0 },
                aspect: GpuTextureAspect::All,
            },
            copy_size: GpuExtent3D { width: 4, height: 4, depth_or_array_layers: 1 },
        },
    );
    assert_eq!(t2t, Ok(()));
    let c1 = op_webgpu_command_encoder_finish(
        &mut s.table,
        CommandEncoderFinishArgs { command_encoder_rid: e1, label: None },
    )
    .unwrap();
    let cmds = buffer_commands(&s, c1);
    assert_eq!(cmds.len(), 2);
    match &cmds[0] {
        BackendCommand::CopyTextureToBuffer { source, destination, .. } => {
            assert_eq!(source.texture, 201);
            assert_eq!(destination.buffer, 102);
            assert_eq!(destination.layout.bytes_per_row, Some(512));
            assert_eq!(destination.layout.rows_per_image, Some(4));
        }
        _ => panic!("expected a texture-to-buffer copy"),
    }
    match &cmds[1] {
        BackendCommand::CopyTextureToTexture { source, destination, .. } => {
            assert_eq!(source.texture, 201);
            assert_eq!(destination.texture, 201);
            assert_eq!(destination.mip_level, 1);
        }
        _ => panic!("expected a texture-to-texture copy"),
    }
}

#[test]
fn debug_groups_must_balance() {
    let mut s = setup();
    let e1 = create_encoder(&mut s, None);
    // popping with no open group is a backend-reported structural violation
    let early_pop = op_webgpu_command_encoder_pop_debug_group(
        &mut s.table,
        CommandEncoderPopDebugGroupArgs { command_encoder_rid: e1 },
    );
    assert_eq!(early_pop, Err(WebGpuError::EncoderOperationFailed));
    let push = op_webgpu_command_encoder_push_debug_group(
        &mut s.table,
        CommandEncoderPushDebugGroupArgs {
            command_encoder_rid: e1,
            group_label: "group".to_string(),
        },
    );
    assert_eq!(push, Ok(()));
    let pop = op_webgpu_command_encoder_pop_debug_group(
        &mut s.table,
        CommandEncoderPopDebugGroupArgs { command_encoder_rid: e1 },
    );
    assert_eq!(pop, Ok(()));
    let pop_again = op_webgpu_command_encoder_pop_debug_group(
        &mut s.table,
        CommandEncoderPopDebugGroupArgs { command_encoder_rid: e1 },
    );
    assert_eq!(pop_again, Err(WebGpuError::EncoderOperationFailed));
    let c1 = op_webgpu_command_encoder_finish(
        &mut s.table,
        CommandEncoderFinishArgs { command_encoder_rid: e1, label: None },
    )
    .unwrap();
    let cmds = buffer_commands(&s, c1);
    assert_eq!(cmds.len(), 2);
    match &cmds[0] {
        BackendCommand::PushDebugGroup { label } => assert_eq!(label, "group"),
        _ => panic!("expected the push"),
    }
    assert!(matches!(&cmds[1], BackendCommand::PopDebugGroup));
}

#[test]
fn query_operations_resolve_handles() {
    let mut s = setup();
    let e1 = create_encoder(&mut s, None);
    let ts = op_webgpu_command_encoder_write_timestamp(
        &mut s.table,
        CommandEncoderWriteTimestampArgs {
            command_encoder_rid: e1,
            query_set: s.query_set,
            query_index: 3,
        },
    );
    assert_eq!(ts, Ok(()));
    let bad_ts = op_webgpu_command_encoder_write_timestamp(
        &mut s.table,
        CommandEncoderWriteTimestampArgs {
            command_encoder_rid: e1,
            query_set: s.buffer1,
            query_index: 0,
        },
    );
    assert_eq!(bad_ts, Err(WebGpuError::InvalidHandle));
    let resolve = op_webgpu_command_encoder_resolve_query_set(
        &mut s.table,
        CommandEncoderResolveQuerySetArgs {
            command_encoder_rid: e1,
            query_set: s.query_set,
            first_query: 0,
            query_count: 4,
            destination: s.buffer1,
            destination_offset: 64,
        },
    );
    assert_eq!(resolve, Ok(()));
    let c1 = op_webgpu_command_encoder_finish(
        &mut s.table,
        CommandEncoderFinishArgs { command_encoder_rid: e1, label: None },
    )
    .unwrap();
    let cmds = buffer_commands(&s, c1);
    assert_eq!(cmds.len(), 2);
    match &cmds[0] {
        BackendCommand::WriteTimestamp { query_set, query_index } => {
            assert_eq!(*query_set, 401);
            assert_eq!(*query_index, 3);
        }
        _ => panic!("expected the timestamp write"),
    }
    match &cmds[1] {
        BackendCommand::ResolveQuerySet { query_set, first_query, query_count, destination, destination_offset } => {
            assert_eq!(*query_set, 401);
            assert_eq!(*first_query, 0);
            assert_eq!(*query_count, 4);
            assert_eq!(*destination, 101);
            assert_eq!(*destination_offset, 64);
        }
        _ => panic!("expected the query resolution"),
    }
}

#[test]
fn compute_pass_folds_back_on_end() {
    let mut s = setup();
    let e1 = create_encoder(&mut s, None);
    let p1 = op_webgpu_command_encoder_begin_compute_pass(
        &mut s.table,
        CommandEncoderBeginComputePassArgs {
            command_encoder_rid: e1,
            label: Some("compute".to_string()),
        },
    )
    .expect("begin compute pass on a live encoder must succeed");
    let early_finish = op_webgpu_command_encoder_finish(
        &mut s.table,
        CommandEncoderFinishArgs { command_encoder_rid: e1, label: None },
    );
    assert_eq!(early_finish, Err(WebGpuError::EncoderOperationFailed));
    let ended = op_webgpu_compute_pass_end_pass(
        &mut s.table,
        ComputePassEndPassArgs { command_encoder_rid: e1, compute_pass_rid: p1 },
    );
    assert_eq!(ended, Ok(()));
    let c1 = op_webgpu_command_encoder_finish(
        &mut s.table,
        CommandEncoderFinishArgs { command_encoder_rid: e1, label: None },
    )
    .unwrap();
    let cmds = buffer_commands(&s, c1);
    assert_eq!(cmds.len(), 1);
    match &cmds[0] {
        BackendCommand::ComputePass { descriptor } => {
            assert_eq!(descriptor.label.as_deref(), Some("compute"));
        }
        _ => panic!("expected the folded compute pass"),
    }
}

#[test]
fn ending_a_pass_on_the_wrong_encoder_fails() {
    let mut s = setup();
    let e1 = create_encoder(&mut s, None);
    let e2 = create_encoder(&mut s, None);
    let p1 = op_webgpu_command_encoder_begin_compute_pass(
        &mut s.table,
        CommandEncoderBeginComputePassArgs { command_encoder_rid: e1, label: None },
    )
    .unwrap();
    let wrong = op_webgpu_compute_pass_end_pass(
        &mut s.table,
        ComputePassEndPassArgs { command_encoder_rid: e2, compute_pass_rid: p1 },
    );
    assert_eq!(wrong, Err(WebGpuError::EncoderOperationFailed));
    // the pass is untouched: ending it on its own encoder still works
    let right = op_webgpu_compute_pass_end_pass(
        &mut s.table,
        ComputePassEndPassArgs { command_encoder_rid: e1, compute_pass_rid: p1 },
    );
    assert_eq!(right, Ok(()));
}

#[test]
fn create_encoder_requires_device_handle() {
    let mut s = setup();
    let bad = op_webgpu_create_command_encoder(
        &mut s.table,
        gpu_command_bridge::wire::CreateCommandEncoderArgs {
            device_rid: s.buffer1,
            label: None,
        },
    );
    assert_eq!(bad, Err(WebGpuError::InvalidHandle));
}
