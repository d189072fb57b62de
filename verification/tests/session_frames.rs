//! Frame-level tests for the render session: lazy resource creation, the
//! per-frame command sequence, animation accumulation, failure semantics
//! and teardown.

use igl_rs::desc::BufferType;
use igl_rs::device::{BackendType, Device};
use igl_rs::ops::{BufferContents, GpuOp};
use igl_rs::render_session::ThreeCubesRenderSession;
use igl_rs::resources::Texture;
use igl_rs::{Error, ResourceKind};

const SHADER: &str = "test shader source";
const COLOR_FORMAT_RAW: u32 = 10;
const DEPTH_FORMAT_RAW: u32 = 41;

fn textures(color_raw: u64, depth_raw: u64, aspect: f32) -> (Texture, Texture) {
    (
        Texture::from_raw(color_raw, COLOR_FORMAT_RAW, aspect.to_bits()),
        Texture::from_raw(depth_raw, DEPTH_FORMAT_RAW, aspect.to_bits()),
    )
}

fn count_fb_creates(ops: &[GpuOp]) -> usize {
    ops.iter().filter(|op| matches!(op, GpuOp::CreateFramebuffer { .. })).count()
}

fn count_pl_creates(ops: &[GpuOp]) -> usize {
    ops.iter().filter(|op| matches!(op, GpuOp::CreateRenderPipeline { .. })).count()
}

fn count_draws(ops: &[GpuOp]) -> usize {
    ops.iter().filter(|op| matches!(op, GpuOp::DrawIndexed { .. })).count()
}

fn count_uniform_creates(ops: &[GpuOp]) -> usize {
    ops.iter()
        .filter(|op| matches!(op, GpuOp::CreateBuffer { kind: BufferType::Uniform, .. }))
        .count()
}

fn count_updates(ops: &[GpuOp]) -> usize {
    ops.iter().filter(|op| matches!(op, GpuOp::UpdateDrawable { .. })).count()
}

fn count_ends(ops: &[GpuOp]) -> usize {
    ops.iter().filter(|op| matches!(op, GpuOp::EndEncoding { .. })).count()
}

#[test]
fn session_setup_creates_the_five_resources() {
    let mut dev = Device::new(BackendType::Metal);
    let session = ThreeCubesRenderSession::new(&mut dev, SHADER).unwrap();
    let ops = dev.take_ops();
    assert_eq!(ops.len(), 5);
    match &ops[0] {
        GpuOp::CreateBuffer { buffer: 1, kind: BufferType::Vertex, contents: BufferContents::Bytes(b) } => {
            assert_eq!(b.len(), 192);
        }
        other => panic!("unexpected first op {other:?}"),
    }
    match &ops[1] {
        GpuOp::CreateBuffer { buffer: 2, kind: BufferType::Index, contents: BufferContents::Bytes(b) } => {
            assert_eq!(b.len(), 72);
        }
        other => panic!("unexpected second op {other:?}"),
    }
    match &ops[2] {
        GpuOp::CreateVertexInputState { state: 3, attributes, bindings } => {
            assert_eq!(attributes.len(), 2);
            assert_eq!(attributes[0].name, "position");
            assert_eq!(attributes[1].name, "color_in");
            assert_eq!(attributes[1].offset, 12);
            assert_eq!(bindings.len(), 1);
            assert_eq!(bindings[0].stride, 24);
        }
        other => panic!("unexpected third op {other:?}"),
    }
    match &ops[3] {
        GpuOp::CreateShaderStages { stages: 4, source, vertex_entry, fragment_entry } => {
            assert_eq!(source, SHADER);
            assert_eq!(vertex_entry, "vertexShader");
            assert_eq!(fragment_entry, "fragmentShader");
        }
        other => panic!("unexpected fourth op {other:?}"),
    }
    assert!(matches!(&ops[4], GpuOp::CreateCommandQueue { queue: 5 }));
    assert!(!session.framebuffer_created());
    assert!(!session.pipeline_created());
    assert_eq!(session.frames_rendered(), 0);
    let cubes = session.cube_transforms();
    assert_eq!(cubes.len(), 3);
    assert_eq!(cubes[0].position.x, (-3.0f32).to_bits());
    assert_eq!(cubes[1].position.x, 0.0f32.to_bits());
    assert_eq!(cubes[2].position.x, 3.0f32.to_bits());
    assert_eq!(cubes[0].rotation_speed_millis, 1000);
    assert_eq!(cubes[1].rotation_speed_millis, 1500);
    assert_eq!(cubes[2].rotation_speed_millis, 750);
    assert_eq!(cubes[0].current_angle_nanos, 0);
}

#[test]
fn first_frame_end_to_end() {
    // the end-to-end scenario: three cubes at (-3,0,0), (0,0,0), (3,0,0),
    // one frame at aspect ratio 1.333
    let mut dev = Device::new(BackendType::Metal);
    let mut session = ThreeCubesRenderSession::new(&mut dev, SHADER).unwrap();
    dev.take_ops();
    let (color, depth) = textures(9001, 9002, 1.333);
    session.render(&mut dev, &color, &depth, 16_666).unwrap();
    let ops = dev.take_ops();
    assert_eq!(count_fb_creates(&ops), 1);
    assert_eq!(count_pl_creates(&ops), 1);
    assert_eq!(count_uniform_creates(&ops), 3);
    assert_eq!(count_draws(&ops), 3);
    assert_eq!(count_ends(&ops), 1);
    assert_eq!(count_updates(&ops), 0);
    for op in &ops {
        if let GpuOp::DrawIndexed { index_count, .. } = op {
            assert_eq!(*index_count, 36);
        }
    }
    // the pipeline is compiled from the formats the textures reported
    let pl = ops
        .iter()
        .find(|op| matches!(op, GpuOp::CreateRenderPipeline { .. }))
        .unwrap();
    match pl {
        GpuOp::CreateRenderPipeline { vertex_input, stages, color_format, depth_format, cull_mode, winding_mode, .. } => {
            assert_eq!(*vertex_input, 3);
            assert_eq!(*stages, 4);
            assert_eq!(color_format.to_raw(), COLOR_FORMAT_RAW);
            assert_eq!(depth_format.to_raw(), DEPTH_FORMAT_RAW);
            assert_eq!(cull_mode.to_raw(), 2);
            assert_eq!(winding_mode.to_raw(), 0);
        }
        _ => unreachable!(),
    }
    // the frame ends with present, submit, and the command buffer's release
    let n = ops.len();
    assert!(matches!(ops[n - 3], GpuOp::Present { texture: 9001, .. }));
    assert!(matches!(ops[n - 2], GpuOp::Submit { queue: 5, .. }));
    assert!(matches!(ops[n - 1], GpuOp::DestroyCommandBuffer { .. }));
    assert!(session.framebuffer_created());
    assert!(session.pipeline_created());
    assert_eq!(session.frames_rendered(), 1);
}

#[test]
fn uniform_buffers_carry_the_cube_matrices() {
    let mut dev = Device::new(BackendType::Metal);
    let mut session = ThreeCubesRenderSession::new(&mut dev, SHADER).unwrap();
    dev.take_ops();
    let aspect = 1.333f32;
    let (color, depth) = textures(9001, 9002, aspect);
    let dt: u32 = 20_000;
    session.render(&mut dev, &color, &depth, dt).unwrap();
    let ops = dev.take_ops();
    let params: Vec<&igl_rs::desc::MvpParams> = ops
        .iter()
        .filter_map(|op| match op {
            GpuOp::CreateBuffer { kind: BufferType::Uniform, contents: BufferContents::Mvp(p), .. } => Some(p),
            _ => None,
        })
        .collect();
    assert_eq!(params.len(), 3);
    // cube order and angles after exactly one animation step
    assert_eq!(params[0].position.x, (-3.0f32).to_bits());
    assert_eq!(params[1].position.x, 0.0f32.to_bits());
    assert_eq!(params[2].position.x, 3.0f32.to_bits());
    assert_eq!(params[0].angle_nanos, 1000u64 * dt as u64);
    assert_eq!(params[1].angle_nanos, 1500u64 * dt as u64);
    assert_eq!(params[2].angle_nanos, 750u64 * dt as u64);
    for p in &params {
        assert_eq!(p.aspect_ratio, aspect.to_bits());
        assert_eq!(p.fov_y_deg, 45.0f32.to_bits());
        assert_eq!(p.z_near, 0.1f32.to_bits());
        assert_eq!(p.z_far, 100.0f32.to_bits());
        assert_eq!(p.camera_offset.z, 8.0f32.to_bits());
    }
}

#[test]
fn lazy_creation_happens_exactly_once_across_frames() {
    let mut dev = Device::new(BackendType::Metal);
    let mut session = ThreeCubesRenderSession::new(&mut dev, SHADER).unwrap();
    dev.take_ops();
    let (color, depth) = textures(9001, 9002, 1.333);
    let mut fb_creates = 0;
    let mut pl_creates = 0;
    for frame in 0..4 {
        session.render(&mut dev, &color, &depth, 16_666).unwrap();
        let ops = dev.take_ops();
        fb_creates += count_fb_creates(&ops);
        pl_creates += count_pl_creates(&ops);
        if frame > 0 {
            assert_eq!(count_fb_creates(&ops), 0);
            assert_eq!(count_pl_creates(&ops), 0);
            assert_eq!(count_updates(&ops), 1);
        }
    }
    assert_eq!(fb_creates, 1);
    assert_eq!(pl_creates, 1);
    assert_eq!(session.frames_rendered(), 4);
}

#[test]
fn resize_updates_drawable_without_pipeline_rebuild() {
    let mut dev = Device::new(BackendType::Metal);
    let mut session = ThreeCubesRenderSession::new(&mut dev, SHADER).unwrap();
    dev.take_ops();
    let (color, depth) = textures(9001, 9002, 1.333);
    session.render(&mut dev, &color, &depth, 16_666).unwrap();
    dev.take_ops();
    // new textures with different dimensions (new handles, new aspect
    // ratio) but the same pixel formats
    let (color2, depth2) = textures(9101, 9102, 1.777);
    session.render(&mut dev, &color2, &depth2, 16_666).unwrap();
    let ops = dev.take_ops();
    assert_eq!(count_pl_creates(&ops), 0);
    assert_eq!(count_fb_creates(&ops), 0);
    assert_eq!(count_updates(&ops), 1);
    assert!(matches!(ops[0], GpuOp::UpdateDrawable { framebuffer: 6, color_texture: 9101 }));
}

#[test]
fn angles_accumulate_deterministically_over_ten_frames() {
    let mut dev = Device::new(BackendType::Metal);
    let mut session = ThreeCubesRenderSession::new(&mut dev, SHADER).unwrap();
    let (color, depth) = textures(9001, 9002, 1.333);
    let dt: u32 = 16_666;
    for _ in 0..10 {
        session.render(&mut dev, &color, &depth, dt).unwrap();
    }
    let cubes = session.cube_transforms();
    // exact fixed-point accumulation: ten increments of speed * dt
    assert_eq!(cubes[0].current_angle_nanos, 10 * 1000u64 * dt as u64);
    assert_eq!(cubes[1].current_angle_nanos, 10 * 1500u64 * dt as u64);
    assert_eq!(cubes[2].current_angle_nanos, 10 * 750u64 * dt as u64);
    // and it agrees with accumulating rotation_speed * delta in floating
    // point within tolerance
    let mut float_angle: f32 = 0.0;
    for _ in 0..10 {
        float_angle += 1.0f32 * (dt as f32 / 1_000_000.0);
    }
    let fixed_angle = cubes[0].current_angle_nanos as f64 / 1_000_000_000.0;
    assert!((fixed_angle - float_angle as f64).abs() < 1e-4);
}

#[test]
fn framebuffer_failure_aborts_frame_but_keeps_animation() {
    // handles 1..=5 are the session's; handle 6 would be the framebuffer
    let mut dev = Device::new_with_failure(BackendType::Metal, 6);
    let mut session = ThreeCubesRenderSession::new(&mut dev, SHADER).unwrap();
    dev.take_ops();
    let (color, depth) = textures(9001, 9002, 1.333);
    let dt: u32 = 16_666;
    let r = session.render(&mut dev, &color, &depth, dt);
    assert_eq!(r.err().unwrap(), Error::ResourceCreationFailed(ResourceKind::Framebuffer));
    assert!(dev.take_ops().is_empty());
    assert!(!session.framebuffer_created());
    assert!(!session.pipeline_created());
    assert_eq!(session.frames_rendered(), 0);
    // angles advanced before the failure point and stay advanced
    assert_eq!(session.cube_transforms()[0].current_angle_nanos, 1000u64 * dt as u64);
    // the backend refusal was transient: the next frame tick succeeds
    session.render(&mut dev, &color, &depth, dt).unwrap();
    assert!(session.framebuffer_created());
    assert!(session.pipeline_created());
    assert_eq!(session.cube_transforms()[0].current_angle_nanos, 2 * 1000u64 * dt as u64);
}

#[test]
fn pipeline_failure_keeps_the_created_framebuffer() {
    // handle 7 would be the pipeline on the first frame
    let mut dev = Device::new_with_failure(BackendType::Metal, 7);
    let mut session = ThreeCubesRenderSession::new(&mut dev, SHADER).unwrap();
    dev.take_ops();
    let (color, depth) = textures(9001, 9002, 1.333);
    let r = session.render(&mut dev, &color, &depth, 16_666);
    assert_eq!(r.err().unwrap(), Error::ResourceCreationFailed(ResourceKind::Pipeline));
    let ops = dev.take_ops();
    assert_eq!(ops.len(), 1);
    assert!(matches!(ops[0], GpuOp::CreateFramebuffer { framebuffer: 6, .. }));
    assert!(session.framebuffer_created());
    assert!(!session.pipeline_created());
    // the next frame only rebinds the drawable and compiles the pipeline
    session.render(&mut dev, &color, &depth, 16_666).unwrap();
    let ops = dev.take_ops();
    assert_eq!(count_fb_creates(&ops), 0);
    assert_eq!(count_updates(&ops), 1);
    assert_eq!(count_pl_creates(&ops), 1);
}

#[test]
fn unsupported_formats_are_reported() {
    let mut dev = Device::new(BackendType::Metal);
    let mut session = ThreeCubesRenderSession::new(&mut dev, SHADER).unwrap();
    let bad_color = Texture::from_raw(9001, 99, 1.333f32.to_bits());
    let depth = Texture::from_raw(9002, DEPTH_FORMAT_RAW, 1.333f32.to_bits());
    let r = session.render(&mut dev, &bad_color, &depth, 16_666);
    assert_eq!(r.err().unwrap(), Error::UnsupportedFormat(99));
    let color = Texture::from_raw(9001, COLOR_FORMAT_RAW, 1.333f32.to_bits());
    let bad_depth = Texture::from_raw(9002, 77, 1.333f32.to_bits());
    let r = session.render(&mut dev, &color, &bad_depth, 16_666);
    assert_eq!(r.err().unwrap(), Error::UnsupportedFormat(77));
    // the framebuffer was created before the format check and is kept
    assert!(session.framebuffer_created());
    assert!(!session.pipeline_created());
}

#[test]
fn uniform_failure_still_ends_the_encoder() {
    // handles: 1..=5 setup, 6 framebuffer, 7 pipeline, 8 command buffer,
    // 9 encoder, 10 would be the first uniform buffer
    let mut dev = Device::new_with_failure(BackendType::Metal, 10);
    let mut session = ThreeCubesRenderSession::new(&mut dev, SHADER).unwrap();
    dev.take_ops();
    let (color, depth) = textures(9001, 9002, 1.333);
    let r = session.render(&mut dev, &color, &depth, 16_666);
    assert_eq!(r.err().unwrap(), Error::ResourceCreationFailed(ResourceKind::Buffer));
    let ops = dev.take_ops();
    assert_eq!(count_draws(&ops), 0);
    assert_eq!(count_ends(&ops), 1);
    let n = ops.len();
    assert!(matches!(ops[n - 2], GpuOp::EndEncoding { encoder: 9 }));
    assert!(matches!(ops[n - 1], GpuOp::DestroyCommandBuffer { buffer: 8 }));
    assert_eq!(session.frames_rendered(), 0);
}

#[test]
fn second_uniform_failure_keeps_the_first_draw() {
    // handle 11 would be the second cube's uniform buffer
    let mut dev = Device::new_with_failure(BackendType::Metal, 11);
    let mut session = ThreeCubesRenderSession::new(&mut dev, SHADER).unwrap();
    dev.take_ops();
    let (color, depth) = textures(9001, 9002, 1.333);
    let r = session.render(&mut dev, &color, &depth, 16_666);
    assert_eq!(r.err().unwrap(), Error::ResourceCreationFailed(ResourceKind::Buffer));
    let ops = dev.take_ops();
    assert_eq!(count_draws(&ops), 1);
    assert_eq!(count_uniform_creates(&ops), 1);
    assert_eq!(count_ends(&ops), 1);
}

#[test]
fn session_setup_failure_unwinds_partial_resources() {
    // handle 3 would be the vertex-input state
    let mut dev = Device::new_with_failure(BackendType::Metal, 3);
    let r = ThreeCubesRenderSession::new(&mut dev, SHADER);
    assert_eq!(
        r.err().unwrap(),
        Error::ResourceCreationFailed(ResourceKind::VertexInputState)
    );
    let ops = dev.take_ops();
    assert_eq!(ops.len(), 4);
    assert!(matches!(ops[0], GpuOp::CreateBuffer { buffer: 1, .. }));
    assert!(matches!(ops[1], GpuOp::CreateBuffer { buffer: 2, .. }));
    assert!(matches!(ops[2], GpuOp::DestroyBuffer { buffer: 2 }));
    assert!(matches!(ops[3], GpuOp::DestroyBuffer { buffer: 1 }));
}

#[test]
fn session_rejects_shader_source_with_nul() {
    let mut dev = Device::new(BackendType::Metal);
    let r = ThreeCubesRenderSession::new(&mut dev, "bad\0shader");
    assert_eq!(r.err().unwrap(), Error::NullHandle);
    // the three resources created before the shader step are released again
    let ops = dev.take_ops();
    assert_eq!(ops.len(), 6);
    assert!(matches!(ops[3], GpuOp::DestroyVertexInputState { state: 3 }));
    assert!(matches!(ops[4], GpuOp::DestroyBuffer { buffer: 2 }));
    assert!(matches!(ops[5], GpuOp::DestroyBuffer { buffer: 1 }));
}

#[test]
fn teardown_releases_every_resource_exactly_once() {
    let mut dev = Device::new(BackendType::Metal);
    let mut session = ThreeCubesRenderSession::new(&mut dev, SHADER).unwrap();
    let (color, depth) = textures(9001, 9002, 1.333);
    session.render(&mut dev, &color, &depth, 16_666).unwrap();
    dev.take_ops();
    session.teardown(&mut dev);
    let ops = dev.take_ops();
    assert_eq!(ops.len(), 7);
    assert!(matches!(ops[0], GpuOp::DestroyCommandQueue { queue: 5 }));
    assert!(matches!(ops[1], GpuOp::DestroyBuffer { buffer: 1 }));
    assert!(matches!(ops[2], GpuOp::DestroyBuffer { buffer: 2 }));
    assert!(matches!(ops[3], GpuOp::DestroyVertexInputState { state: 3 }));
    assert!(matches!(ops[4], GpuOp::DestroyShaderStages { stages: 4 }));
    assert!(matches!(ops[5], GpuOp::DestroyRenderPipeline { pipeline: 7 }));
    assert!(matches!(ops[6], GpuOp::DestroyFramebuffer { framebuffer: 6 }));
}

#[test]
fn teardown_without_frames_skips_lazy_resources() {
    let mut dev = Device::new(BackendType::Metal);
    let session = ThreeCubesRenderSession::new(&mut dev, SHADER).unwrap();
    dev.take_ops();
    session.teardown(&mut dev);
    let ops = dev.take_ops();
    assert_eq!(ops.len(), 5);
    assert!(ops.iter().all(|op| !matches!(op, GpuOp::DestroyFramebuffer { .. })));
    assert!(ops.iter().all(|op| !matches!(op, GpuOp::DestroyRenderPipeline { .. })));
}
