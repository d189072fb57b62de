//! Lifecycle tests for the device model and the resource and command
//! layers: handle liveness over recorded traces, exactly-once encoder
//! termination, creation failures, and descriptor conversions.

use std::collections::HashSet;

use igl_rs::desc::{
    BufferType, ColorAttachment, CullMode, DepthAttachment, IndexFormat, LoadAction, StoreAction,
    TextureFormat, VertexAttribute, VertexBinding, VertexFormat, WindingMode,
};
use igl_rs::device::{BackendType, Device};
use igl_rs::ops::GpuOp;
use igl_rs::resources::{frame_textures, Texture};
use igl_rs::{Error, ResourceKind};

/// A mock backend that tracks handle liveness and asserts on any violation:
/// creation of a seen handle, destruction or use of a dead or unknown
/// handle, a second end of an encoder.
fn check_trace_liveness(ops: &[GpuOp]) {
    let mut live: HashSet<u64> = HashSet::new();
    let mut dead: HashSet<u64> = HashSet::new();
    let mut created = |h: u64, live: &mut HashSet<u64>, dead: &mut HashSet<u64>| {
        assert!(h != 0, "null handle created");
        assert!(!live.contains(&h) && !dead.contains(&h), "handle {h} created twice");
        live.insert(h);
    };
    let destroyed = |h: u64, live: &mut HashSet<u64>, dead: &mut HashSet<u64>| {
        assert!(live.remove(&h), "handle {h} destroyed while not live");
        dead.insert(h);
    };
    let used = |h: u64, live: &HashSet<u64>| {
        assert!(live.contains(&h), "handle {h} used while not live");
    };
    for op in ops {
        match op {
            GpuOp::CreateCommandQueue { queue } => created(*queue, &mut live, &mut dead),
            GpuOp::DestroyCommandQueue { queue } => destroyed(*queue, &mut live, &mut dead),
            GpuOp::CreateCommandBuffer { queue, buffer } => {
                used(*queue, &live);
                created(*buffer, &mut live, &mut dead);
            }
            GpuOp::DestroyCommandBuffer { buffer } => destroyed(*buffer, &mut live, &mut dead),
            GpuOp::Submit { queue, buffer } => {
                used(*queue, &live);
                used(*buffer, &live);
            }
            GpuOp::Present { buffer, .. } => used(*buffer, &live),
            GpuOp::CreateBuffer { buffer, .. } => created(*buffer, &mut live, &mut dead),
            GpuOp::DestroyBuffer { buffer } => destroyed(*buffer, &mut live, &mut dead),
            GpuOp::CreateShaderStages { stages, .. } => created(*stages, &mut live, &mut dead),
            GpuOp::DestroyShaderStages { stages } => destroyed(*stages, &mut live, &mut dead),
            GpuOp::CreateVertexInputState { state, .. } => created(*state, &mut live, &mut dead),
            GpuOp::DestroyVertexInputState { state } => destroyed(*state, &mut live, &mut dead),
            GpuOp::CreateFramebuffer { framebuffer, .. } => {
                created(*framebuffer, &mut live, &mut dead)
            }
            GpuOp::DestroyFramebuffer { framebuffer } => {
                destroyed(*framebuffer, &mut live, &mut dead)
            }
            GpuOp::UpdateDrawable { framebuffer, .. } => used(*framebuffer, &live),
            GpuOp::CreateRenderPipeline { pipeline, vertex_input, stages, .. } => {
                used(*vertex_input, &live);
                used(*stages, &live);
                created(*pipeline, &mut live, &mut dead);
            }
            GpuOp::DestroyRenderPipeline { pipeline } => destroyed(*pipeline, &mut live, &mut dead),
            GpuOp::CreateRenderEncoder { encoder, buffer, framebuffer, .. } => {
                used(*buffer, &live);
                used(*framebuffer, &live);
                created(*encoder, &mut live, &mut dead);
            }
            GpuOp::EndEncoding { encoder } => destroyed(*encoder, &mut live, &mut dead),
            GpuOp::BindVertexBuffer { encoder, buffer, .. } => {
                used(*encoder, &live);
                used(*buffer, &live);
            }
            GpuOp::BindIndexBuffer { encoder, buffer, .. } => {
                used(*encoder, &live);
                used(*buffer, &live);
            }
            GpuOp::BindPipeline { encoder, pipeline } => {
                used(*encoder, &live);
                used(*pipeline, &live);
            }
            GpuOp::BindUniformBuffer { encoder, buffer, .. } => {
                used(*encoder, &live);
                used(*buffer, &live);
            }
            GpuOp::DrawIndexed { encoder, .. } => used(*encoder, &live),
        }
    }
}

fn color_tex(raw: u64) -> Texture {
    Texture::from_raw(raw, 10, 1.333f32.to_bits())
}

fn depth_tex(raw: u64) -> Texture {
    Texture::from_raw(raw, 41, 1.333f32.to_bits())
}

#[test]
fn trace_has_no_double_destroy_or_use_after_destroy() {
    let mut dev = Device::new(BackendType::Metal);
    let vb = dev.create_buffer(BufferType::Vertex, &[1u8, 2, 3, 4]).unwrap();
    let ib = dev.create_buffer(BufferType::Index, &[0u8, 0]).unwrap();
    let attrs = [VertexAttribute {
        buffer_index: 0,
        format: VertexFormat::Float3,
        offset: 0,
        name: String::from("position"),
        location: 0,
    }];
    let bindings = [VertexBinding { stride: 12 }];
    let vis = dev.create_vertex_input_state(&attrs, &bindings).unwrap();
    let ss = dev.create_shader_stages_metal("src", "vmain", "fmain").unwrap();
    let pl = dev
        .create_render_pipeline(
            &vis,
            &ss,
            TextureFormat::BGRA_UNorm8,
            TextureFormat::Depth32Float,
            CullMode::Back,
            WindingMode::Clockwise,
        )
        .unwrap();
    let color = color_tex(7001);
    let depth = depth_tex(7002);
    let fb = dev.create_framebuffer(&color, &depth).unwrap();
    let queue = dev.create_command_queue().unwrap();
    let cb = queue.create_command_buffer(&mut dev).unwrap();
    let mut enc = cb
        .create_render_encoder(&mut dev, &fb, ColorAttachment::default(), DepthAttachment::default())
        .unwrap();
    enc.bind_vertex_buffer(&mut dev, 0, &vb);
    enc.bind_index_buffer(&mut dev, &ib, IndexFormat::UInt16);
    enc.bind_pipeline(&mut dev, &pl);
    enc.draw_indexed(&mut dev, 36);
    enc.end_encoding(&mut dev);
    cb.present(&mut dev, &color);
    queue.submit(&mut dev, &cb);
    cb.destroy(&mut dev);
    pl.destroy(&mut dev);
    fb.destroy(&mut dev);
    ss.destroy(&mut dev);
    vis.destroy(&mut dev);
    ib.destroy(&mut dev);
    vb.destroy(&mut dev);
    queue.destroy(&mut dev);
    let ops = dev.take_ops();
    check_trace_liveness(&ops);
}

#[test]
fn encoder_end_encoding_is_recorded_once() {
    let mut dev = Device::new(BackendType::Metal);
    let color = color_tex(1);
    let depth = depth_tex(2);
    let fb = dev.create_framebuffer(&color, &depth).unwrap();
    let queue = dev.create_command_queue().unwrap();
    let cb = queue.create_command_buffer(&mut dev).unwrap();
    let mut enc = cb
        .create_render_encoder(&mut dev, &fb, ColorAttachment::default(), DepthAttachment::default())
        .unwrap();
    assert!(enc.armed());
    enc.end_encoding(&mut dev);
    assert!(!enc.armed());
    // a second explicit end and the discard safety net are both no-ops now
    enc.end_encoding(&mut dev);
    enc.discard(&mut dev);
    let ops = dev.take_ops();
    let ends = ops
        .iter()
        .filter(|op| matches!(op, GpuOp::EndEncoding { .. }))
        .count();
    assert_eq!(ends, 1);
    check_trace_liveness(&ops);
}

#[test]
fn discard_ends_an_armed_encoder() {
    let mut dev = Device::new(BackendType::Metal);
    let color = color_tex(1);
    let depth = depth_tex(2);
    let fb = dev.create_framebuffer(&color, &depth).unwrap();
    let queue = dev.create_command_queue().unwrap();
    let cb = queue.create_command_buffer(&mut dev).unwrap();
    let enc = cb
        .create_render_encoder(&mut dev, &fb, ColorAttachment::default(), DepthAttachment::default())
        .unwrap();
    enc.discard(&mut dev);
    let ops = dev.take_ops();
    let ends = ops
        .iter()
        .filter(|op| matches!(op, GpuOp::EndEncoding { .. }))
        .count();
    assert_eq!(ends, 1);
    check_trace_liveness(&ops);
}

#[test]
fn create_buffer_records_payload_and_sequential_handles() {
    let mut dev = Device::new(BackendType::Metal);
    let b1 = dev.create_buffer(BufferType::Vertex, &[9u8, 8, 7]).unwrap();
    let b2 = dev.create_buffer(BufferType::Uniform, &[]).unwrap();
    assert_eq!(b1.handle(), 1);
    assert_eq!(b2.handle(), 2);
    let ops = dev.take_ops();
    assert_eq!(ops.len(), 2);
    match &ops[0] {
        GpuOp::CreateBuffer { buffer, kind, contents } => {
            assert_eq!(*buffer, 1);
            assert_eq!(*kind, BufferType::Vertex);
            match contents {
                igl_rs::ops::BufferContents::Bytes(b) => assert_eq!(b.as_slice(), &[9u8, 8, 7]),
                _ => panic!("vertex buffer payload must be raw bytes"),
            }
        }
        other => panic!("unexpected op {other:?}"),
    }
}

#[test]
fn creation_failures_report_the_resource_kind() {
    // the first creation is refused: a buffer
    let mut dev = Device::new_with_failure(BackendType::Metal, 1);
    let r = dev.create_buffer(BufferType::Vertex, &[0u8]);
    assert_eq!(r.err().unwrap(), Error::ResourceCreationFailed(ResourceKind::Buffer));
    // the refusal is one-shot: the retry succeeds with the same handle
    let b = dev.create_buffer(BufferType::Vertex, &[0u8]).unwrap();
    assert_eq!(b.handle(), 1);

    let mut dev = Device::new_with_failure(BackendType::Metal, 1);
    let r = dev.create_command_queue();
    assert_eq!(r.err().unwrap(), Error::NullHandle);

    let mut dev = Device::new_with_failure(BackendType::Metal, 1);
    let r = dev.create_shader_stages_metal("s", "v", "f");
    assert_eq!(r.err().unwrap(), Error::ResourceCreationFailed(ResourceKind::Shader));

    let mut dev = Device::new_with_failure(BackendType::Metal, 1);
    let r = dev.create_vertex_input_state(&[], &[]);
    assert_eq!(
        r.err().unwrap(),
        Error::ResourceCreationFailed(ResourceKind::VertexInputState)
    );

    let mut dev = Device::new_with_failure(BackendType::Metal, 1);
    let r = dev.create_framebuffer(&color_tex(1), &depth_tex(2));
    assert_eq!(r.err().unwrap(), Error::ResourceCreationFailed(ResourceKind::Framebuffer));

    let mut dev = Device::new_with_failure(BackendType::Metal, 3);
    let vis = dev.create_vertex_input_state(&[], &[]).unwrap();
    let ss = dev.create_shader_stages_metal("s", "v", "f").unwrap();
    let r = dev.create_render_pipeline(
        &vis,
        &ss,
        TextureFormat::BGRA_UNorm8,
        TextureFormat::Depth32Float,
        CullMode::Back,
        WindingMode::Clockwise,
    );
    assert_eq!(r.err().unwrap(), Error::ResourceCreationFailed(ResourceKind::Pipeline));
}

#[test]
fn shader_strings_with_nul_are_rejected() {
    let mut dev = Device::new(BackendType::Metal);
    let r = dev.create_shader_stages_metal("bad\0source", "v", "f");
    assert_eq!(r.err().unwrap(), Error::NullHandle);
    let r = dev.create_shader_stages_metal("s", "v\0", "f");
    assert_eq!(r.err().unwrap(), Error::NullHandle);
    let r = dev.create_shader_stages_metal("s", "v", "\0f");
    assert_eq!(r.err().unwrap(), Error::NullHandle);
    assert!(dev.take_ops().is_empty());
}

#[test]
fn attribute_name_with_nul_is_rejected() {
    let mut dev = Device::new(BackendType::Metal);
    let attrs = [VertexAttribute {
        buffer_index: 0,
        format: VertexFormat::Float3,
        offset: 0,
        name: String::from("po\0sition"),
        location: 0,
    }];
    let r = dev.create_vertex_input_state(&attrs, &[VertexBinding { stride: 12 }]);
    assert_eq!(r.err().unwrap(), Error::NullHandle);
    assert!(dev.take_ops().is_empty());
}

#[test]
fn texture_format_conversion_is_exhaustive_and_loud() {
    assert_eq!(TextureFormat::from_raw(10).unwrap(), TextureFormat::BGRA_UNorm8);
    assert_eq!(TextureFormat::from_raw(41).unwrap(), TextureFormat::Depth32Float);
    assert_eq!(TextureFormat::from_raw(99).err().unwrap(), Error::UnsupportedFormat(99));
    assert_eq!(TextureFormat::BGRA_UNorm8.to_raw(), 10);
    assert_eq!(TextureFormat::Depth32Float.to_raw(), 41);
}

#[test]
fn descriptor_enums_match_backend_tags() {
    assert_eq!(BufferType::Vertex.to_raw(), 1);
    assert_eq!(BufferType::Index.to_raw(), 2);
    assert_eq!(BufferType::Uniform.to_raw(), 4);
    assert_eq!(VertexFormat::Float1.to_raw(), 0);
    assert_eq!(VertexFormat::Float4.to_raw(), 3);
    assert_eq!(IndexFormat::UInt16.to_raw(), 0);
    assert_eq!(IndexFormat::UInt32.to_raw(), 1);
    assert_eq!(CullMode::Disabled.to_raw(), 0);
    assert_eq!(CullMode::Front.to_raw(), 1);
    assert_eq!(CullMode::Back.to_raw(), 2);
    assert_eq!(WindingMode::Clockwise.to_raw(), 0);
    assert_eq!(WindingMode::CounterClockwise.to_raw(), 1);
    assert_eq!(LoadAction::DontCare.to_raw(), 0);
    assert_eq!(LoadAction::Load.to_raw(), 1);
    assert_eq!(LoadAction::Clear.to_raw(), 2);
    assert_eq!(StoreAction::DontCare.to_raw(), 0);
    assert_eq!(StoreAction::Store.to_raw(), 1);
    assert_eq!(BackendType::Metal.to_raw(), 2);
    assert_eq!(BackendType::from_raw(3), BackendType::Vulkan);
    assert_eq!(BackendType::from_raw(77), BackendType::Invalid);
}

#[test]
fn pass_attachment_defaults() {
    let c = ColorAttachment::default();
    assert_eq!(c.load_action, LoadAction::Clear);
    assert_eq!(c.store_action, StoreAction::Store);
    assert_eq!(c.clear_color.r, 0.0f32.to_bits());
    assert_eq!(c.clear_color.a, 1.0f32.to_bits());
    let d = DepthAttachment::default();
    assert_eq!(d.load_action, LoadAction::Clear);
    assert_eq!(d.clear_depth, 1.0f32.to_bits());
}

#[test]
fn frame_texture_acquisition_checks_handles() {
    let ok = frame_textures(true, 5, 10, 0, 6, 41, 0).unwrap();
    assert_eq!(ok.0.handle_raw(), 5);
    assert_eq!(ok.0.format(), 10);
    assert_eq!(ok.1.handle_raw(), 6);
    assert_eq!(ok.1.format(), 41);
    assert_eq!(frame_textures(false, 5, 10, 0, 6, 41, 0).err().unwrap(), Error::NullHandle);
    assert_eq!(frame_textures(true, 0, 10, 0, 6, 41, 0).err().unwrap(), Error::NullHandle);
    assert_eq!(frame_textures(true, 5, 10, 0, 0, 41, 0).err().unwrap(), Error::NullHandle);
}

#[test]
fn framebuffer_tracks_its_color_attachment() {
    let mut dev = Device::new(BackendType::Metal);
    let color = color_tex(100);
    let depth = depth_tex(200);
    let mut fb = dev.create_framebuffer(&color, &depth).unwrap();
    assert_eq!(fb.get_color_attachment().handle_raw(), 100);
    let next_color = Texture::from_raw(101, 10, 1.5f32.to_bits());
    fb.update_drawable(&mut dev, &next_color);
    assert_eq!(fb.get_color_attachment().handle_raw(), 101);
    let ops = dev.take_ops();
    assert!(matches!(
        ops.last().unwrap(),
        GpuOp::UpdateDrawable { framebuffer: 1, color_texture: 101 }
    ));
}
