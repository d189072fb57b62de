//! The render session: three independently rotating cubes, one frame of
//! rendering per call.
//!
//! The session owns the long-lived resources (vertex and index buffer,
//! vertex layout, shader stages, command queue), lazily creates the
//! framebuffer and pipeline from the first frame's runtime-queried surface
//! properties, and records a strictly ordered command sequence per frame.
//! [`plan_frame`] is the specification of exactly which operations one
//! `render` call records, for every outcome the backend model allows.
//!
//! Angles are exact: nano-radians in 64 bits, advanced by
//! `rotation_speed · Δt` each frame (milli-radians per second times
//! microseconds). The driver converts to single precision only when it
//! evaluates a matrix from recorded [`MvpParams`].

use vstd::prelude::*;

use crate::command::{CommandBuffer, CommandQueue, RenderCommandEncoder};
use crate::desc::{
    BufferType, Color, ColorAttachment, DepthAttachment, IndexFormat, LoadAction, MvpParams,
    StoreAction, TextureFormat, Vec3Bits, VertexAttribute, VertexBinding, VertexFormat,
    F32_ONE_BITS, F32_ZERO_BITS,
};
use crate::device::Device;
use crate::mesh::F32_03_BITS;
use crate::ops::{
    count_draws, count_encoder_creates, count_end_encodings, count_framebuffer_creates,
    count_pipeline_creates, count_uniform_creates, count_update_drawables, live_in, ContentsView,
    OpView,
};
use crate::resources::{
    contains_nul, Buffer, Framebuffer, RenderPipelineState, ShaderStages, Texture,
    VertexInputState,
};
use crate::{Error, ResourceKind};

verus! {

/// Bit pattern of single-precision `45.0`: the vertical field of view in
/// degrees.
pub const FOV_Y_DEG_BITS: u32 = 0x4234_0000;

/// Bit pattern of single-precision `0.1`: the near clip plane.
pub const Z_NEAR_BITS: u32 = 0x3DCC_CCCD;

/// Bit pattern of single-precision `100.0`: the far clip plane.
pub const Z_FAR_BITS: u32 = 0x42C8_0000;

/// Bit pattern of single-precision `8.0`: how far the scene sits in front
/// of the camera.
pub const CAMERA_OFFSET_Z_BITS: u32 = 0x4100_0000;

/// Clear color: a dark blue background. Red and green channels are the bit
/// pattern of `0.1`, the blue channel of `0.15`.
pub const CLEAR_RG_BITS: u32 = 0x3DCC_CCCD;

/// Bit pattern of single-precision `0.15`.
pub const CLEAR_B_BITS: u32 = 0x3E19_999A;

/// Bit pattern of single-precision `3.0`.
pub const THREE_BITS: u32 = 0x4040_0000;

/// Bit pattern of single-precision `-3.0`.
pub const NEG_THREE_BITS: u32 = 0xC040_0000;

/// Bit pattern of the single-precision inverse square root of two, as the
/// normalization of `(1, 1, 0)` computes it.
pub const INV_SQRT2_BITS: u32 = 0x3F35_04F3;

/// The vertex-buffer slot the mesh is bound at.
pub const VERTEX_SLOT: u32 = 0;

/// The uniform slot the shader reads the matrix from.
pub const UNIFORM_SLOT: u32 = 1;

/// One indexed draw covers the full cube mesh.
pub const CUBE_INDEX_COUNT: u32 = 36;

/// One animated object: where it sits, how it spins, and its tint.
#[derive(Debug, Clone, Copy, PartialEq, Eq, Structural)]
pub struct CubeTransform {
    /// World position (single-precision bit patterns).
    pub position: Vec3Bits,
    /// Unit rotation axis (single-precision bit patterns).
    pub rotation_axis: Vec3Bits,
    /// Rotation speed in milli-radians per second.
    pub rotation_speed_millis: u32,
    /// Accumulated rotation angle in nano-radians.
    pub current_angle_nanos: u64,
    /// Base tint of the object (single-precision bit patterns).
    pub color: Vec3Bits,
}

/// The three cubes at session start: left, center and right, with distinct
/// axes and speeds, at zero angle.
pub open spec fn initial_cubes() -> Seq<CubeTransform> {
    seq![
        CubeTransform {
            position: Vec3Bits { x: NEG_THREE_BITS, y: F32_ZERO_BITS, z: F32_ZERO_BITS },
            rotation_axis: Vec3Bits { x: F32_ZERO_BITS, y: F32_ONE_BITS, z: F32_ZERO_BITS },
            rotation_speed_millis: 1000,
            current_angle_nanos: 0,
            color: Vec3Bits { x: F32_ONE_BITS, y: F32_03_BITS, z: F32_03_BITS },
        },
        CubeTransform {
            position: Vec3Bits { x: F32_ZERO_BITS, y: F32_ZERO_BITS, z: F32_ZERO_BITS },
            rotation_axis: Vec3Bits { x: INV_SQRT2_BITS, y: INV_SQRT2_BITS, z: F32_ZERO_BITS },
            rotation_speed_millis: 1500,
            current_angle_nanos: 0,
            color: Vec3Bits { x: F32_03_BITS, y: F32_ONE_BITS, z: F32_03_BITS },
        },
        CubeTransform {
            position: Vec3Bits { x: THREE_BITS, y: F32_ZERO_BITS, z: F32_ZERO_BITS },
            rotation_axis: Vec3Bits { x: INV_SQRT2_BITS, y: F32_ZERO_BITS, z: INV_SQRT2_BITS },
            rotation_speed_millis: 750,
            current_angle_nanos: 0,
            color: Vec3Bits { x: F32_03_BITS, y: F32_03_BITS, z: F32_ONE_BITS },
        },
    ]
}

/// One frame advances an angle by `speed · Δt` nano-radians
/// (milli-radians per second times microseconds), wrapping on 64-bit
/// overflow.
pub open spec fn advance_angle(angle_nanos: u64, speed_millis: u32, dt_micros: u32) -> u64 {
    angle_nanos.wrapping_add(((speed_millis as u64) * (dt_micros as u64)) as u64)
}

/// A cube after one frame's animation step.
pub open spec fn advance_cube(c: CubeTransform, dt_micros: u32) -> CubeTransform {
    CubeTransform {
        current_angle_nanos: advance_angle(
            c.current_angle_nanos,
            c.rotation_speed_millis,
            dt_micros,
        ),
        ..c
    }
}

/// All cubes after one frame's animation step.
pub open spec fn advance_cubes(cs: Seq<CubeTransform>, dt_micros: u32) -> Seq<CubeTransform> {
    cs.map_values(|c: CubeTransform| advance_cube(c, dt_micros))
}

/// The angle a cube reaches after `n` frames of a fixed time step.
pub open spec fn angle_after_frames(a0: u64, speed_millis: u32, dt_micros: u32, n: nat) -> u64
    decreases n,
{
    if n == 0 {
        a0
    } else {
        advance_angle(
            angle_after_frames(a0, speed_millis, dt_micros, (n - 1) as nat),
            speed_millis,
            dt_micros,
        )
    }
}

/// With a fixed elapsed time per frame, the angle accumulates exactly: after
/// `n` frames it is the initial angle plus `n` times the per-frame increment
/// `speed · Δt`, as long as that sum stays within 64 bits.
pub proof fn lemma_angle_accumulation(a0: u64, speed_millis: u32, dt_micros: u32, n: nat)
    requires
        a0 + n * ((speed_millis as int) * (dt_micros as int)) <= u64::MAX,
    ensures
        angle_after_frames(a0, speed_millis, dt_micros, n) == a0 + n * ((speed_millis as int) * (
        dt_micros as int)),
    decreases n,
{
    let inc: int = (speed_millis as int) * (dt_micros as int);
    assert(0 <= (speed_millis as int) * (dt_micros as int)
        && (speed_millis as int) * (dt_micros as int) <= 0xFFFF_FFFFi64 * 0xFFFF_FFFFi64)
        by (nonlinear_arith)
        requires
            0 <= speed_millis as int <= 0xFFFF_FFFFi64,
            0 <= dt_micros as int <= 0xFFFF_FFFFi64,
    ;
    if n == 0 {
        assert(n * inc == 0) by (nonlinear_arith)
            requires
                n == 0,
        ;
    } else {
        assert((n - 1) * inc <= n * inc) by (nonlinear_arith)
            requires
                0 <= inc,
                1 <= n,
        ;
        assert(0 <= (n - 1) * inc) by (nonlinear_arith)
            requires
                0 <= inc,
                1 <= n,
        ;
        lemma_angle_accumulation(a0, speed_millis, dt_micros, (n - 1) as nat);
        assert(n * inc == (n - 1) * inc + inc) by (nonlinear_arith);
        let prev = angle_after_frames(a0, speed_millis, dt_micros, (n - 1) as nat);
        assert(prev == a0 + (n - 1) * inc);
        assert(inc < 0x1_0000_0000_0000_0000);
        assert(((speed_millis as u64) * (dt_micros as u64)) as u64 == inc);
        assert(prev + inc <= u64::MAX);
        assert(advance_angle(prev, speed_millis, dt_micros) == prev + inc);
    }
}

/// The model-view-projection parameters of one cube at one aspect ratio:
/// perspective projection with the fixed field of view and clip planes,
/// translation to the cube's position plus the fixed camera-distance
/// offset, rotation about the cube's axis by its current angle.
pub open spec fn mvp_params_spec(cube: CubeTransform, aspect_ratio_bits: u32) -> MvpParams {
    MvpParams {
        position: cube.position,
        rotation_axis: cube.rotation_axis,
        angle_nanos: cube.current_angle_nanos,
        aspect_ratio: aspect_ratio_bits,
        fov_y_deg: FOV_Y_DEG_BITS,
        z_near: Z_NEAR_BITS,
        z_far: Z_FAR_BITS,
        camera_offset: Vec3Bits {
            x: F32_ZERO_BITS,
            y: F32_ZERO_BITS,
            z: CAMERA_OFFSET_Z_BITS,
        },
    }
}

/// The matrix parameters for one cube. A pure function of the cube's
/// position, axis and angle and of the aspect ratio: equal inputs give
/// equal parameters, and the recorded parameters determine the matrix the
/// driver evaluates.
pub fn create_mvp_matrix(cube: &CubeTransform, aspect_ratio_bits: u32) -> (p: MvpParams)
    ensures
        p == mvp_params_spec(*cube, aspect_ratio_bits),
{
    MvpParams {
        position: cube.position,
        rotation_axis: cube.rotation_axis,
        angle_nanos: cube.current_angle_nanos,
        aspect_ratio: aspect_ratio_bits,
        fov_y_deg: FOV_Y_DEG_BITS,
        z_near: Z_NEAR_BITS,
        z_far: Z_FAR_BITS,
        camera_offset: Vec3Bits {
            x: F32_ZERO_BITS,
            y: F32_ZERO_BITS,
            z: CAMERA_OFFSET_Z_BITS,
        },
    }
}

/// The color attachment of every pass: clear to the dark background and
/// keep the result.
pub open spec fn pass_color_attachment() -> ColorAttachment {
    ColorAttachment {
        load_action: LoadAction::Clear,
        store_action: StoreAction::Store,
        clear_color: Color {
            r: CLEAR_RG_BITS,
            g: CLEAR_RG_BITS,
            b: CLEAR_B_BITS,
            a: F32_ONE_BITS,
        },
    }
}

/// The depth attachment of every pass: clear to the far plane.
pub open spec fn pass_depth_attachment() -> DepthAttachment {
    DepthAttachment { load_action: LoadAction::Clear, clear_depth: F32_ONE_BITS }
}

fn make_color_attachment() -> (c: ColorAttachment)
    ensures
        c == pass_color_attachment(),
{
    ColorAttachment {
        load_action: LoadAction::Clear,
        store_action: StoreAction::Store,
        clear_color: Color::new(CLEAR_RG_BITS, CLEAR_RG_BITS, CLEAR_B_BITS, F32_ONE_BITS),
    }
}

fn make_depth_attachment() -> (d: DepthAttachment)
    ensures
        d == pass_depth_attachment(),
{
    DepthAttachment { load_action: LoadAction::Clear, clear_depth: F32_ONE_BITS }
}

/// The four operations that draw one cube: create its uniform buffer from
/// the matrix parameters, bind it, draw the full mesh, release the buffer.
pub open spec fn cube_draw_ops(encoder: u64, buffer: u64, cube: CubeTransform, aspect: u32) -> Seq<
    OpView,
> {
    seq![
        OpView::CreateBuffer {
            buffer,
            kind: BufferType::Uniform,
            contents: ContentsView::Mvp(mvp_params_spec(cube, aspect)),
        },
        OpView::BindUniformBuffer { encoder, index: UNIFORM_SLOT, buffer },
        OpView::DrawIndexed { encoder, index_count: CUBE_INDEX_COUNT },
        OpView::DestroyBuffer { buffer },
    ]
}

/// An indexed draw that does not cover the full cube mesh. No frame ever
/// records one; the spec exists so that the law below can say so.
pub open spec fn is_partial_draw(op: OpView) -> bool {
    op matches OpView::DrawIndexed { index_count, .. } && index_count != CUBE_INDEX_COUNT
}

/// How many partial draws a trace holds.
pub open spec fn count_partial_draws(t: Seq<OpView>) -> int {
    crate::ops::count_ops(t, |op: OpView| is_partial_draw(op))
}

/// Record one cube's draw: uniform creation, bind, draw, release. The one
/// fallible step is the uniform buffer's creation.
fn draw_one_cube(
    device: &mut Device,
    encoder: &RenderCommandEncoder,
    cube: &CubeTransform,
    aspect_ratio_bits: u32,
) -> (r: Result<(), Error>)
    requires
        old(device).wf(),
        encoder.is_armed(),
        encoder.wf(*old(device)),
    ensures
        final(device).wf(),
        final(device).replayed() == old(device).replayed(),
        final(device).backend_kind() == old(device).backend_kind(),
        r is Ok <==> old(device).grants_one(),
        r is Ok ==> {
            &&& final(device).history() == old(device).history() + cube_draw_ops(
                encoder.id(),
                old(device).next_handle(),
                *cube,
                aspect_ratio_bits,
            )
            &&& final(device).next_handle() == old(device).next_handle() + 1
            &&& final(device).denied_handle() == old(device).denied_handle()
        },
        r is Err ==> {
            &&& r == Err::<(), Error>(Error::ResourceCreationFailed(ResourceKind::Buffer))
            &&& final(device).history() == old(device).history()
            &&& final(device).next_handle() == old(device).next_handle()
            &&& final(device).denied_handle() == None::<u64>
        },
        forall|h: u64|
            #[trigger] live_in(old(device).history(), h) ==> live_in(final(device).history(), h),
{
    let ghost dev0 = *device;
    let ghost hist0 = device.history();
    let params: MvpParams = create_mvp_matrix(cube, aspect_ratio_bits);
    match device.create_mvp_uniform_buffer(params) {
        Err(e) => Err(e),
        Ok(uniform_buffer) => {
            let ghost uid = uniform_buffer.id();
            encoder.bind_uniform_buffer(device, UNIFORM_SLOT, &uniform_buffer);
            encoder.draw_indexed(device, CUBE_INDEX_COUNT);
            proof {
                assert forall|h: u64| #[trigger] live_in(hist0, h) implies h != uid by {
                    crate::device::lemma_live_id_below(dev0, h);
                }
            }
            uniform_buffer.destroy(device);
            proof {
                assert(device.history() =~= hist0 + cube_draw_ops(
                    encoder.id(),
                    uid,
                    *cube,
                    aspect_ratio_bits,
                ));
            }
            Ok(())
        },
    }
}

/// Record the pass of one frame: command buffer, encoder, the three fixed
/// binds, one draw block per cube, then end, present, submit, and the
/// command buffer's release. On a denied creation the encoder (if any) is
/// ended and the command buffer (if any) released, so the backend sees a
/// complete pass or a cleanly abandoned one. `dev0`, `g` and `prior`
/// describe the frame so far: the device state at frame start, how many
/// handles this frame has been granted, and the operations it has recorded.
#[verifier::rlimit(100)]
#[verifier::spinoff_prover]
fn record_pass(
    device: &mut Device,
    queue: &CommandQueue,
    vertex_buffer: &Buffer,
    index_buffer: &Buffer,
    fb: &Framebuffer,
    pl: &RenderPipelineState,
    c0: &CubeTransform,
    c1: &CubeTransform,
    c2: &CubeTransform,
    color_texture: &Texture,
    aspect: u32,
    Ghost(dev0): Ghost<Device>,
    Ghost(g): Ghost<int>,
    Ghost(prior): Ghost<Seq<OpView>>,
    Ghost(frames0): Ghost<u64>,
) -> (r: Result<(), Error>)
    requires
        old(device).wf(),
        queue.wf(*old(device)),
        vertex_buffer.wf(*old(device)),
        index_buffer.wf(*old(device)),
        fb.wf(*old(device)),
        pl.wf(*old(device)),
        0 <= g,
        old(device).next_handle() == dev0.next_handle() + g,
        old(device).denied_handle() == dev0.denied_handle(),
        old(device).history() == dev0.history() + prior,
        dev0.grants(g as nat),
    ensures
        final(device).wf(),
        final(device).replayed() == old(device).replayed(),
        final(device).backend_kind() == old(device).backend_kind(),
        ({
            let outcome = plan_pass(
                dev0,
                queue.id(),
                vertex_buffer.id(),
                index_buffer.id(),
                frames0,
                seq![*c0, *c1, *c2],
                aspect,
                color_texture.raw(),
                fb.id(),
                pl.id(),
                g,
                prior,
            );
            &&& r == outcome.result
            &&& final(device).history() == dev0.history() + outcome.ops
        }),
        forall|h: u64|
            #[trigger] live_in(old(device).history(), h) && h < old(device).next_handle()
                ==> live_in(final(device).history(), h),
{
    let ghost dev_entry = *device;
    let ghost hist0 = device.history();
    let command_buffer: CommandBuffer = match queue.create_command_buffer(device) {
        Err(e) => {
            proof {
                let outcome = plan_pass(
                    dev0,
                    queue.id(),
                    vertex_buffer.id(),
                    index_buffer.id(),
                    frames0,
                    seq![*c0, *c1, *c2],
                    aspect,
                    color_texture.raw(),
                    fb.id(),
                    pl.id(),
                    g,
                    prior,
                );
                assert(device.history() =~= dev0.history() + outcome.ops);
            }
            return Err(e);
        },
        Ok(cb) => cb,
    };
    let color_attachment: ColorAttachment = make_color_attachment();
    let depth_attachment: DepthAttachment = make_depth_attachment();
    let mut encoder: RenderCommandEncoder = match command_buffer.create_render_encoder(
        device,
        fb,
        color_attachment,
        depth_attachment,
    ) {
        Err(e) => {
            command_buffer.destroy(device);
            proof {
                let outcome = plan_pass(
                    dev0,
                    queue.id(),
                    vertex_buffer.id(),
                    index_buffer.id(),
                    frames0,
                    seq![*c0, *c1, *c2],
                    aspect,
                    color_texture.raw(),
                    fb.id(),
                    pl.id(),
                    g,
                    prior,
                );
                assert(device.history() =~= dev0.history() + outcome.ops);
            }
            return Err(e);
        },
        Ok(enc) => enc,
    };
    encoder.bind_vertex_buffer(device, VERTEX_SLOT, vertex_buffer);
    encoder.bind_index_buffer(device, index_buffer, IndexFormat::UInt16);
    encoder.bind_pipeline(device, pl);
    proof {
        assert(live_in(device.history(), queue.id()));
        assert(live_in(device.history(), fb.id()));
        assert(live_in(device.history(), pl.id()));
        assert(live_in(device.history(), command_buffer.id()));
        assert(live_in(device.history(), encoder.id()));
    }
    match draw_one_cube(device, &encoder, c0, aspect) {
        Err(e) => {
            encoder.discard(device);
            command_buffer.destroy(device);
            proof {
                let outcome = plan_pass(
                    dev0,
                    queue.id(),
                    vertex_buffer.id(),
                    index_buffer.id(),
                    frames0,
                    seq![*c0, *c1, *c2],
                    aspect,
                    color_texture.raw(),
                    fb.id(),
                    pl.id(),
                    g,
                    prior,
                );
                assert(device.history() =~= dev0.history() + outcome.ops);
            }
            return Err(e);
        },
        Ok(_) => {},
    }
    match draw_one_cube(device, &encoder, c1, aspect) {
        Err(e) => {
            encoder.discard(device);
            command_buffer.destroy(device);
            proof {
                let outcome = plan_pass(
                    dev0,
                    queue.id(),
                    vertex_buffer.id(),
                    index_buffer.id(),
                    frames0,
                    seq![*c0, *c1, *c2],
                    aspect,
                    color_texture.raw(),
                    fb.id(),
                    pl.id(),
                    g,
                    prior,
                );
                assert(device.history() =~= dev0.history() + outcome.ops);
            }
            return Err(e);
        },
        Ok(_) => {},
    }
    match draw_one_cube(device, &encoder, c2, aspect) {
        Err(e) => {
            encoder.discard(device);
            command_buffer.destroy(device);
            proof {
                let outcome = plan_pass(
                    dev0,
                    queue.id(),
                    vertex_buffer.id(),
                    index_buffer.id(),
                    frames0,
                    seq![*c0, *c1, *c2],
                    aspect,
                    color_texture.raw(),
                    fb.id(),
                    pl.id(),
                    g,
                    prior,
                );
                assert(device.history() =~= dev0.history() + outcome.ops);
            }
            return Err(e);
        },
        Ok(_) => {},
    }
    proof {
        crate::device::lemma_live_id_below(dev_entry, queue.id());
    }
    encoder.end_encoding(device);
    command_buffer.present(device, color_texture);
    queue.submit(device, &command_buffer);
    command_buffer.destroy(device);
    proof {
        let outcome = plan_pass(
            dev0,
            queue.id(),
            vertex_buffer.id(),
            index_buffer.id(),
            frames0,
            seq![*c0, *c1, *c2],
            aspect,
            color_texture.raw(),
            fb.id(),
            pl.id(),
            g,
            prior,
        );
        assert(device.history() =~= dev0.history() + outcome.ops);
    }
    Ok(())
}

/// The session that animates and draws the three cubes.
pub struct ThreeCubesRenderSession {
    command_queue: CommandQueue,
    vertex_buffer: Buffer,
    index_buffer: Buffer,
    vertex_input_state: VertexInputState,
    shader_stages: ShaderStages,
    pipeline_state: Option<RenderPipelineState>,
    framebuffer: Option<Framebuffer>,
    cubes: Vec<CubeTransform>,
    frame_index: u64,
}

/// The two vertex attributes of the mesh: position and color, both three
/// single-precision values, in one interleaved buffer.
pub open spec fn session_attribute_views() -> Seq<crate::desc::VertexAttributeView> {
    seq![
        crate::desc::VertexAttributeView {
            buffer_index: 0,
            format: VertexFormat::Float3,
            offset: 0,
            name: "position"@,
            location: 0,
        },
        crate::desc::VertexAttributeView {
            buffer_index: 0,
            format: VertexFormat::Float3,
            offset: 12,
            name: "color_in"@,
            location: 1,
        },
    ]
}

/// One interleaved vertex buffer of 24-byte entries.
pub open spec fn session_bindings() -> Seq<VertexBinding> {
    seq![VertexBinding { stride: 24 }]
}

/// The five operations that set a session up, in order: vertex buffer,
/// index buffer, vertex layout, shader stages, command queue.
pub open spec fn session_setup_ops(base: u64, source: Seq<char>) -> Seq<OpView> {
    seq![
        OpView::CreateBuffer {
            buffer: base,
            kind: BufferType::Vertex,
            contents: ContentsView::Bytes(crate::mesh::cube_vertex_bytes()),
        },
        OpView::CreateBuffer {
            buffer: (base + 1) as u64,
            kind: BufferType::Index,
            contents: ContentsView::Bytes(crate::mesh::cube_index_bytes()),
        },
        OpView::CreateVertexInputState {
            state: (base + 2) as u64,
            attributes: session_attribute_views(),
            bindings: session_bindings(),
        },
        OpView::CreateShaderStages {
            stages: (base + 3) as u64,
            source,
            vertex_entry: "vertexShader"@,
            fragment_entry: "fragmentShader"@,
        },
        OpView::CreateCommandQueue { queue: (base + 4) as u64 },
    ]
}

/// When setup fails after `k` of its creations succeeded, the `k` created
/// resources are released again, most recent first.
pub open spec fn session_unwind_ops(base: u64, k: int) -> Seq<OpView> {
    let destroy_vb = OpView::DestroyBuffer { buffer: base };
    let destroy_ib = OpView::DestroyBuffer { buffer: (base + 1) as u64 };
    let destroy_vis = OpView::DestroyVertexInputState { state: (base + 2) as u64 };
    let destroy_ss = OpView::DestroyShaderStages { stages: (base + 3) as u64 };
    if k == 0 {
        Seq::empty()
    } else if k == 1 {
        seq![destroy_vb]
    } else if k == 2 {
        seq![destroy_ib, destroy_vb]
    } else if k == 3 {
        seq![destroy_vis, destroy_ib, destroy_vb]
    } else {
        seq![destroy_ss, destroy_vis, destroy_ib, destroy_vb]
    }
}

impl ThreeCubesRenderSession {
    pub closed spec fn cubes(self) -> Seq<CubeTransform> {
        self.cubes@
    }

    /// How many frames have been fully recorded so far.
    pub closed spec fn frame_count(self) -> u64 {
        self.frame_index
    }

    pub closed spec fn queue_id(self) -> u64 {
        self.command_queue.id()
    }

    pub closed spec fn vertex_buffer_id(self) -> u64 {
        self.vertex_buffer.id()
    }

    pub closed spec fn index_buffer_id(self) -> u64 {
        self.index_buffer.id()
    }

    pub closed spec fn vertex_input_id(self) -> u64 {
        self.vertex_input_state.id()
    }

    pub closed spec fn shader_stages_id(self) -> u64 {
        self.shader_stages.id()
    }

    pub closed spec fn has_framebuffer(self) -> bool {
        self.framebuffer is Some
    }

    pub closed spec fn framebuffer_id(self) -> u64 {
        self.framebuffer->Some_0.id()
    }

    pub closed spec fn has_pipeline(self) -> bool {
        self.pipeline_state is Some
    }

    pub closed spec fn pipeline_id(self) -> u64 {
        self.pipeline_state->Some_0.id()
    }

    /// Until the first frame is rendered, the session holds no framebuffer
    /// and no pipeline; afterwards both handles stay live, distinct from
    /// the five setup resources and from each other.
    pub open spec fn wf(self, d: Device) -> bool {
        &&& self.cubes().len() == 3
        &&& live_in(d.history(), self.vertex_buffer_id())
        &&& live_in(d.history(), self.index_buffer_id())
        &&& live_in(d.history(), self.vertex_input_id())
        &&& live_in(d.history(), self.shader_stages_id())
        &&& live_in(d.history(), self.queue_id())
        &&& self.vertex_buffer_id() < self.index_buffer_id() < self.vertex_input_id()
            < self.shader_stages_id() < self.queue_id()
        &&& self.has_framebuffer() ==> live_in(d.history(), self.framebuffer_id())
            && self.queue_id() < self.framebuffer_id()
        &&& self.has_pipeline() ==> live_in(d.history(), self.pipeline_id())
            && self.has_framebuffer() && self.framebuffer_id() < self.pipeline_id()
    }

    /// Animation must advance even when the rest of the frame fails, so it
    /// runs first. Each cube's angle grows by its own speed times the
    /// elapsed time.
    fn advance_animation(&mut self, dt_micros: u32)
        requires
            old(self).cubes().len() == 3,
        ensures
            final(self).cubes@ == old(self).cubes@.map_values(
                |c: CubeTransform| advance_cube(c, dt_micros),
            ),
            final(self).command_queue == old(self).command_queue,
            final(self).vertex_buffer == old(self).vertex_buffer,
            final(self).index_buffer == old(self).index_buffer,
            final(self).vertex_input_state == old(self).vertex_input_state,
            final(self).shader_stages == old(self).shader_stages,
            final(self).pipeline_state == old(self).pipeline_state,
            final(self).framebuffer == old(self).framebuffer,
            final(self).frame_index == old(self).frame_index,
    {
        let mut updated: Vec<CubeTransform> = Vec::new();
        let mut i: usize = 0;
        while i < 3
            invariant
                *self == *old(self),
                self.cubes@.len() == 3,
                i <= 3,
                updated@.len() == i,
                forall|j: int|
                    0 <= j < i ==> #[trigger] updated@[j] == advance_cube(
                        self.cubes@[j],
                        dt_micros,
                    ),
            decreases 3 - i,
        {
            let c: CubeTransform = self.cubes[i];
            proof {
                assert((c.rotation_speed_millis as u64) * (dt_micros as u64) <= 0xFFFF_FFFFu64
                    * 0xFFFF_FFFFu64) by (nonlinear_arith)
                    requires
                        c.rotation_speed_millis as u64 <= 0xFFFF_FFFFu64,
                        dt_micros as u64 <= 0xFFFF_FFFFu64,
                ;
            }
            let inc: u64 = (c.rotation_speed_millis as u64) * (dt_micros as u64);
            let advanced: u64 = c.current_angle_nanos.wrapping_add(inc);
            updated.push(CubeTransform { current_angle_nanos: advanced, ..c });
            i = i + 1;
        }
        self.cubes = updated;
        proof {
            assert(self.cubes@ =~= old(self).cubes@.map_values(
                |c: CubeTransform| advance_cube(c, dt_micros),
            ));
        }
    }

    /// Build a session: create the five long-lived resources in order. On
    /// failure, whatever was already created is released again and the
    /// error of the failing step is handed back; no session exists then.
    pub fn new(device: &mut Device, shader_source: &str) -> (r: Result<
        ThreeCubesRenderSession,
        Error,
    >)
        requires
            old(device).wf(),
        ensures
            final(device).wf(),
            final(device).replayed() == old(device).replayed(),
            final(device).backend_kind() == old(device).backend_kind(),
            r is Ok <==> !contains_nul(shader_source@) && old(device).grants(5),
            match r {
                Ok(s) => {
                    &&& s.wf(*final(device))
                    &&& s.cubes() == initial_cubes()
                    &&& s.frame_count() == 0
                    &&& !s.has_framebuffer()
                    &&& !s.has_pipeline()
                    &&& s.vertex_buffer_id() == old(device).next_handle()
                    &&& s.index_buffer_id() == old(device).next_handle() + 1
                    &&& s.vertex_input_id() == old(device).next_handle() + 2
                    &&& s.shader_stages_id() == old(device).next_handle() + 3
                    &&& s.queue_id() == old(device).next_handle() + 4
                    &&& final(device).next_handle() == old(device).next_handle() + 5
                    &&& final(device).denied_handle() == old(device).denied_handle()
                    &&& final(device).history() == old(device).history() + session_setup_ops(
                        old(device).next_handle(),
                        shader_source@,
                    )
                },
                Err(e) => {
                    &&& ({
                        let base = old(device).next_handle();
                        let src = shader_source@;
                        if !old(device).grants(1) {
                            &&& e == Error::ResourceCreationFailed(ResourceKind::Buffer)
                            &&& final(device).history() == old(device).history()
                            &&& final(device).next_handle() == base
                        } else if !old(device).grants(2) {
                            &&& e == Error::ResourceCreationFailed(ResourceKind::Buffer)
                            &&& final(device).history() == old(device).history()
                                + session_setup_ops(base, src).take(1) + session_unwind_ops(base, 1)
                            &&& final(device).next_handle() == base + 1
                        } else if !old(device).grants(3) {
                            &&& e == Error::ResourceCreationFailed(
                                ResourceKind::VertexInputState,
                            )
                            &&& final(device).history() == old(device).history()
                                + session_setup_ops(base, src).take(2) + session_unwind_ops(base, 2)
                            &&& final(device).next_handle() == base + 2
                        } else if contains_nul(src) {
                            &&& e == Error::NullHandle
                            &&& final(device).history() == old(device).history()
                                + session_setup_ops(base, src).take(3) + session_unwind_ops(base, 3)
                            &&& final(device).next_handle() == base + 3
                            &&& final(device).denied_handle() == old(device).denied_handle()
                        } else if !old(device).grants(4) {
                            &&& e == Error::ResourceCreationFailed(ResourceKind::Shader)
                            &&& final(device).history() == old(device).history()
                                + session_setup_ops(base, src).take(3) + session_unwind_ops(base, 3)
                            &&& final(device).next_handle() == base + 3
                        } else {
                            &&& e == Error::NullHandle
                            &&& final(device).history() == old(device).history()
                                + session_setup_ops(base, src).take(4) + session_unwind_ops(base, 4)
                            &&& final(device).next_handle() == base + 4
                        }
                    })
                },
            },
    {
        let ghost base = device.next_handle();
        let ghost hist0 = device.history();
        let ghost src = shader_source@;
        proof {
            reveal_strlit("position");
            reveal_strlit("color_in");
            reveal_strlit("vertexShader");
            reveal_strlit("fragmentShader");
            assert(!contains_nul("position"@));
            assert(!contains_nul("color_in"@));
            assert(!contains_nul("vertexShader"@));
            assert(!contains_nul("fragmentShader"@));
        }
        let vertex_bytes: Vec<u8> = crate::mesh::cube_vertex_buffer_bytes();
        let vertex_buffer: Buffer = match device.create_buffer(
            BufferType::Vertex,
            vertex_bytes.as_slice(),
        ) {
            Err(e) => {
                return Err(e);
            },
            Ok(b) => b,
        };
        let index_bytes: Vec<u8> = crate::mesh::cube_index_buffer_bytes();
        let index_buffer: Buffer = match device.create_buffer(
            BufferType::Index,
            index_bytes.as_slice(),
        ) {
            Err(e) => {
                vertex_buffer.destroy(device);
                proof {
                    assert(device.history() =~= hist0 + session_setup_ops(base, src).take(1)
                        + session_unwind_ops(base, 1));
                }
                return Err(e);
            },
            Ok(b) => b,
        };
        let mut attributes: Vec<VertexAttribute> = Vec::new();
        attributes.push(
            VertexAttribute {
                buffer_index: 0,
                format: VertexFormat::Float3,
                offset: 0,
                name: "position".to_owned(),
                location: 0,
            },
        );
        attributes.push(
            VertexAttribute {
                buffer_index: 0,
                format: VertexFormat::Float3,
                offset: 12,
                name: "color_in".to_owned(),
                location: 1,
            },
        );
        let mut bindings: Vec<VertexBinding> = Vec::new();
        bindings.push(VertexBinding { stride: 24 });
        proof {
            assert(attributes@.map_values(|a: VertexAttribute| a@) =~= session_attribute_views());
            assert(bindings@ =~= session_bindings());
            assert(crate::resources::attribute_names_ok(session_attribute_views()));
        }
        let vertex_input_state: VertexInputState = match device.create_vertex_input_state(
            attributes.as_slice(),
            bindings.as_slice(),
        ) {
            Err(e) => {
                index_buffer.destroy(device);
                vertex_buffer.destroy(device);
                proof {
                    assert(device.history() =~= hist0 + session_setup_ops(base, src).take(2)
                        + session_unwind_ops(base, 2));
                }
                return Err(e);
            },
            Ok(v) => v,
        };
        let shader_stages: ShaderStages = match device.create_shader_stages_metal(
            shader_source,
            "vertexShader",
            "fragmentShader",
        ) {
            Err(e) => {
                vertex_input_state.destroy(device);
                index_buffer.destroy(device);
                vertex_buffer.destroy(device);
                proof {
                    assert(device.history() =~= hist0 + session_setup_ops(base, src).take(3)
                        + session_unwind_ops(base, 3));
                }
                return Err(e);
            },
            Ok(s) => s,
        };
        let command_queue: CommandQueue = match device.create_command_queue() {
            Err(e) => {
                shader_stages.destroy(device);
                vertex_input_state.destroy(device);
                index_buffer.destroy(device);
                vertex_buffer.destroy(device);
                proof {
                    assert(device.history() =~= hist0 + session_setup_ops(base, src).take(4)
                        + session_unwind_ops(base, 4));
                }
                return Err(e);
            },
            Ok(q) => q,
        };
        let mut cubes: Vec<CubeTransform> = Vec::new();
        cubes.push(
            CubeTransform {
                position: Vec3Bits::new(NEG_THREE_BITS, F32_ZERO_BITS, F32_ZERO_BITS),
                rotation_axis: Vec3Bits::new(F32_ZERO_BITS, F32_ONE_BITS, F32_ZERO_BITS),
                rotation_speed_millis: 1000,
                current_angle_nanos: 0,
                color: Vec3Bits::new(F32_ONE_BITS, F32_03_BITS, F32_03_BITS),
            },
        );
        cubes.push(
            CubeTransform {
                position: Vec3Bits::new(F32_ZERO_BITS, F32_ZERO_BITS, F32_ZERO_BITS),
                rotation_axis: Vec3Bits::new(INV_SQRT2_BITS, INV_SQRT2_BITS, F32_ZERO_BITS),
                rotation_speed_millis: 1500,
                current_angle_nanos: 0,
                color: Vec3Bits::new(F32_03_BITS, F32_ONE_BITS, F32_03_BITS),
            },
        );
        cubes.push(
            CubeTransform {
                position: Vec3Bits::new(THREE_BITS, F32_ZERO_BITS, F32_ZERO_BITS),
                rotation_axis: Vec3Bits::new(INV_SQRT2_BITS, F32_ZERO_BITS, INV_SQRT2_BITS),
                rotation_speed_millis: 750,
                current_angle_nanos: 0,
                color: Vec3Bits::new(F32_03_BITS, F32_03_BITS, F32_ONE_BITS),
            },
        );
        proof {
            assert(cubes@ =~= initial_cubes());
            assert(device.history() =~= hist0 + session_setup_ops(base, src));
        }
        Ok(
            ThreeCubesRenderSession {
                command_queue,
                vertex_buffer,
                index_buffer,
                vertex_input_state,
                shader_stages,
                pipeline_state: None,
                framebuffer: None,
                cubes,
                frame_index: 0,
            },
        )
    }
}

impl ThreeCubesRenderSession {
    /// Render one frame against this frame's color and depth textures,
    /// with `delta_micros` microseconds elapsed since the previous call.
    /// What the call records and returns is exactly [`plan_frame`] of the
    /// state before the call.
    #[verifier::rlimit(100)]
    #[verifier::spinoff_prover]
    pub fn render(
        &mut self,
        device: &mut Device,
        color_texture: &Texture,
        depth_texture: &Texture,
        delta_micros: u32,
    ) -> (r: Result<(), Error>)
        requires
            old(device).wf(),
            old(self).wf(*old(device)),
        ensures
            final(device).wf(),
            final(self).wf(*final(device)),
            final(device).replayed() == old(device).replayed(),
            final(device).backend_kind() == old(device).backend_kind(),
            final(self).cubes() == advance_cubes(old(self).cubes(), delta_micros),
            final(self).queue_id() == old(self).queue_id(),
            final(self).vertex_buffer_id() == old(self).vertex_buffer_id(),
            final(self).index_buffer_id() == old(self).index_buffer_id(),
            final(self).vertex_input_id() == old(self).vertex_input_id(),
            final(self).shader_stages_id() == old(self).shader_stages_id(),
            ({
                let plan = plan_frame(
                    *old(self),
                    *old(device),
                    *color_texture,
                    *depth_texture,
                    delta_micros,
                );
                &&& r == plan.result
                &&& final(device).history() == old(device).history() + plan.ops
                &&& final(self).frame_count() == plan.frames
                &&& (match plan.framebuffer {
                    Some(id) => final(self).has_framebuffer() && final(self).framebuffer_id()
                        == id,
                    None => !final(self).has_framebuffer(),
                })
                &&& (match plan.pipeline {
                    Some(id) => final(self).has_pipeline() && final(self).pipeline_id() == id,
                    None => !final(self).has_pipeline(),
                })
            }),
    {
        let ghost s0 = *self;
        let ghost dev0 = *device;
        let ghost hist0 = device.history();
        let ghost plan = plan_frame(s0, dev0, *color_texture, *depth_texture, delta_micros);
        proof {
            crate::device::lemma_live_id_below(dev0, s0.queue_id());
            crate::device::lemma_live_id_below(dev0, s0.vertex_buffer_id());
            crate::device::lemma_live_id_below(dev0, s0.index_buffer_id());
            crate::device::lemma_live_id_below(dev0, s0.vertex_input_id());
            crate::device::lemma_live_id_below(dev0, s0.shader_stages_id());
            if s0.has_framebuffer() {
                crate::device::lemma_live_id_below(dev0, s0.framebuffer_id());
            }
            if s0.has_pipeline() {
                crate::device::lemma_live_id_below(dev0, s0.pipeline_id());
            }
        }
        self.advance_animation(delta_micros);
        let mut fb_slot: Option<Framebuffer> = None;
        core::mem::swap(&mut fb_slot, &mut self.framebuffer);
        let fb: Framebuffer = match fb_slot {
            None => {
                match device.create_framebuffer(color_texture, depth_texture) {
                    Err(e) => {
                        proof {
                            assert(device.history() =~= hist0 + plan.ops);
                        }
                        return Err(e);
                    },
                    Ok(new_fb) => new_fb,
                }
            },
            Some(mut prev) => {
                prev.update_drawable(device, color_texture);
                prev
            },
        };
        proof {
            assert(live_in(device.history(), s0.queue_id()));
            assert(live_in(device.history(), s0.vertex_buffer_id()));
            assert(live_in(device.history(), s0.index_buffer_id()));
            assert(live_in(device.history(), s0.vertex_input_id()));
            assert(live_in(device.history(), s0.shader_stages_id()));
            assert(live_in(device.history(), fb.id()));
        }
        let mut pl_slot: Option<RenderPipelineState> = None;
        core::mem::swap(&mut pl_slot, &mut self.pipeline_state);
        let pl: RenderPipelineState = match pl_slot {
            Some(p) => p,
            None => {
                let color_format: TextureFormat = match TextureFormat::from_raw(
                    color_texture.format(),
                ) {
                    Err(e) => {
                        self.framebuffer = Some(fb);
                        proof {
                            assert(device.history() =~= hist0 + plan.ops);
                        }
                        return Err(e);
                    },
                    Ok(cf) => cf,
                };
                let depth_format: TextureFormat = match TextureFormat::from_raw(
                    depth_texture.format(),
                ) {
                    Err(e) => {
                        self.framebuffer = Some(fb);
                        proof {
                            assert(device.history() =~= hist0 + plan.ops);
                        }
                        return Err(e);
                    },
                    Ok(df) => df,
                };
                match device.create_render_pipeline(
                    &self.vertex_input_state,
                    &self.shader_stages,
                    color_format,
                    depth_format,
                    crate::desc::CullMode::Back,
                    crate::desc::WindingMode::Clockwise,
                ) {
                    Err(e) => {
                        self.framebuffer = Some(fb);
                        proof {
                            assert(device.history() =~= hist0 + plan.ops);
                        }
                        return Err(e);
                    },
                    Ok(p) => p,
                }
            },
        };
        proof {
            assert(live_in(device.history(), s0.queue_id()));
            assert(live_in(device.history(), fb.id()));
            assert(live_in(device.history(), pl.id()));
        }
        let aspect: u32 = color_texture.aspect_ratio();
        let c0: CubeTransform = self.cubes[0];
        let c1: CubeTransform = self.cubes[1];
        let c2: CubeTransform = self.cubes[2];
        let ghost g = device.next_handle() - dev0.next_handle();
        let ghost prior = device.history().skip(hist0.len() as int);
        proof {
            assert(device.history() =~= hist0 + prior);
            assert(dev0.grants(g as nat));
        }
        let pass_result: Result<(), Error> = record_pass(
            device,
            &self.command_queue,
            &self.vertex_buffer,
            &self.index_buffer,
            &fb,
            &pl,
            &c0,
            &c1,
            &c2,
            color_texture,
            aspect,
            Ghost(dev0),
            Ghost(g),
            Ghost(prior),
            Ghost(s0.frame_count()),
        );
        self.framebuffer = Some(fb);
        self.pipeline_state = Some(pl);
        proof {
            assert(seq![c0, c1, c2] =~= advance_cubes(s0.cubes(), delta_micros));
        }
        match pass_result {
            Err(e) => {
                proof {
                    assert(device.history() =~= hist0 + plan.ops);
                }
                Err(e)
            },
            Ok(_) => {
                self.frame_index = self.frame_index.wrapping_add(1);
                proof {
                    assert(device.history() =~= hist0 + plan.ops);
                }
                Ok(())
            },
        }
    }
}

/// Everything one [`ThreeCubesRenderSession::render`] call does, as a
/// function of the state before the call: the result handed back, the
/// operations recorded, which framebuffer and pipeline the session holds
/// afterwards, and the frame count afterwards.
pub ghost struct FrameOutcome {
    pub result: Result<(), Error>,
    pub ops: Seq<OpView>,
    pub framebuffer: Option<u64>,
    pub pipeline: Option<u64>,
    pub frames: u64,
}

/// The recording phase of a frame, once the framebuffer (`fb_id`) and
/// pipeline (`pl_id`) stand and `g` handles have been granted this frame:
/// one command buffer, one encoder, the three fixed binds, one draw block
/// per cube, then end, present, submit and the command buffer's release.
/// A denied creation aborts the frame; the encoder, once created, is ended
/// on every path, and the command buffer released on every path.
pub open spec fn plan_pass(
    d: Device,
    queue: u64,
    vb: u64,
    ib: u64,
    frames0: u64,
    cubes2: Seq<CubeTransform>,
    aspect: u32,
    color_raw: u64,
    fb_id: u64,
    pl_id: u64,
    g: int,
    prior: Seq<OpView>,
) -> FrameOutcome {
    let fb_after = Some(fb_id);
    let pl_after = Some(pl_id);
    if !d.grants((g + 1) as nat) {
        FrameOutcome {
            result: Err(Error::NullHandle),
            ops: prior,
            framebuffer: fb_after,
            pipeline: pl_after,
            frames: frames0,
        }
    } else {
        let cb = (d.next_handle() + g) as u64;
        let cb_op = OpView::CreateCommandBuffer { queue, buffer: cb };
        let destroy_cb = OpView::DestroyCommandBuffer { buffer: cb };
        if !d.grants((g + 2) as nat) {
            FrameOutcome {
                result: Err(Error::NullHandle),
                ops: prior.push(cb_op).push(destroy_cb),
                framebuffer: fb_after,
                pipeline: pl_after,
                frames: frames0,
            }
        } else {
            let enc = (d.next_handle() + g + 1) as u64;
            let head = prior.push(cb_op).push(
                OpView::CreateRenderEncoder {
                    encoder: enc,
                    buffer: cb,
                    framebuffer: fb_id,
                    color_attachment: pass_color_attachment(),
                    depth_attachment: pass_depth_attachment(),
                },
            ).push(
                OpView::BindVertexBuffer {
                    encoder: enc,
                    index: VERTEX_SLOT,
                    buffer: vb,
                },
            ).push(
                OpView::BindIndexBuffer {
                    encoder: enc,
                    buffer: ib,
                    format: IndexFormat::UInt16,
                },
            ).push(OpView::BindPipeline { encoder: enc, pipeline: pl_id });
            let end_op = OpView::EndEncoding { encoder: enc };
            if !d.grants((g + 3) as nat) {
                FrameOutcome {
                    result: Err(Error::ResourceCreationFailed(ResourceKind::Buffer)),
                    ops: head.push(end_op).push(destroy_cb),
                    framebuffer: fb_after,
                    pipeline: pl_after,
                    frames: frames0,
                }
            } else {
                let d0 = cube_draw_ops(enc, (d.next_handle() + g + 2) as u64, cubes2[0], aspect);
                if !d.grants((g + 4) as nat) {
                    FrameOutcome {
                        result: Err(Error::ResourceCreationFailed(ResourceKind::Buffer)),
                        ops: head + d0 + seq![end_op, destroy_cb],
                        framebuffer: fb_after,
                        pipeline: pl_after,
                        frames: frames0,
                    }
                } else {
                    let d1 = cube_draw_ops(
                        enc,
                        (d.next_handle() + g + 3) as u64,
                        cubes2[1],
                        aspect,
                    );
                    if !d.grants((g + 5) as nat) {
                        FrameOutcome {
                            result: Err(Error::ResourceCreationFailed(ResourceKind::Buffer)),
                            ops: head + d0 + d1 + seq![end_op, destroy_cb],
                            framebuffer: fb_after,
                            pipeline: pl_after,
                            frames: frames0,
                        }
                    } else {
                        let d2 = cube_draw_ops(
                            enc,
                            (d.next_handle() + g + 4) as u64,
                            cubes2[2],
                            aspect,
                        );
                        FrameOutcome {
                            result: Ok(()),
                            ops: head + d0 + d1 + d2 + seq![
                                end_op,
                                OpView::Present { buffer: cb, texture: color_raw },
                                OpView::Submit { queue, buffer: cb },
                                destroy_cb,
                            ],
                            framebuffer: fb_after,
                            pipeline: pl_after,
                            frames: frames0.wrapping_add(1),
                        }
                    }
                }
            }
        }
    }
}

/// One whole frame: advance the animation, then create the framebuffer on
/// the first frame (or rebind its drawable), create the pipeline on the
/// first frame from the textures' reported formats, then record the pass.
/// A failure aborts the frame with the failing step's error; the angles
/// keep their advanced values, and whatever lazy resource was already
/// created stays registered.
pub open spec fn plan_frame(
    s: ThreeCubesRenderSession,
    d: Device,
    color: Texture,
    depth: Texture,
    dt_micros: u32,
) -> FrameOutcome {
    let base = d.next_handle();
    let cubes2 = advance_cubes(s.cubes(), dt_micros);
    let aspect = color.aspect_ratio_spec();
    let fb_missing = !s.has_framebuffer();
    let f: int = if fb_missing {
        1
    } else {
        0
    };
    let fb_id = if fb_missing {
        base
    } else {
        s.framebuffer_id()
    };
    let fb_ops = if fb_missing {
        seq![
            OpView::CreateFramebuffer {
                framebuffer: base,
                color_texture: color.raw(),
                depth_texture: depth.raw(),
            },
        ]
    } else {
        seq![OpView::UpdateDrawable { framebuffer: fb_id, color_texture: color.raw() }]
    };
    if fb_missing && !d.grants(1) {
        FrameOutcome {
            result: Err(Error::ResourceCreationFailed(ResourceKind::Framebuffer)),
            ops: Seq::empty(),
            framebuffer: None,
            pipeline: if s.has_pipeline() {
                Some(s.pipeline_id())
            } else {
                None
            },
            frames: s.frame_count(),
        }
    } else if !s.has_pipeline() {
        match TextureFormat::from_raw_spec(color.format_spec()) {
            None => FrameOutcome {
                result: Err(Error::UnsupportedFormat(color.format_spec())),
                ops: fb_ops,
                framebuffer: Some(fb_id),
                pipeline: None,
                frames: s.frame_count(),
            },
            Some(cf) => match TextureFormat::from_raw_spec(depth.format_spec()) {
                None => FrameOutcome {
                    result: Err(Error::UnsupportedFormat(depth.format_spec())),
                    ops: fb_ops,
                    framebuffer: Some(fb_id),
                    pipeline: None,
                    frames: s.frame_count(),
                },
                Some(df) => {
                    if !d.grants((f + 1) as nat) {
                        FrameOutcome {
                            result: Err(Error::ResourceCreationFailed(ResourceKind::Pipeline)),
                            ops: fb_ops,
                            framebuffer: Some(fb_id),
                            pipeline: None,
                            frames: s.frame_count(),
                        }
                    } else {
                        let pl_id = (base + f) as u64;
                        let pl_op = OpView::CreateRenderPipeline {
                            pipeline: pl_id,
                            vertex_input: s.vertex_input_id(),
                            stages: s.shader_stages_id(),
                            color_format: cf,
                            depth_format: df,
                            cull_mode: crate::desc::CullMode::Back,
                            winding_mode: crate::desc::WindingMode::Clockwise,
                        };
                        plan_pass(
                            d,
                            s.queue_id(),
                            s.vertex_buffer_id(),
                            s.index_buffer_id(),
                            s.frame_count(),
                            cubes2,
                            aspect,
                            color.raw(),
                            fb_id,
                            pl_id,
                            f + 1,
                            fb_ops.push(pl_op),
                        )
                    }
                },
            },
        }
    } else {
        plan_pass(
            d,
            s.queue_id(),
            s.vertex_buffer_id(),
            s.index_buffer_id(),
            s.frame_count(),
            cubes2,
            aspect,
            color.raw(),
            fb_id,
            s.pipeline_id(),
            f,
            fb_ops,
        )
    }
}

/// The operations that tear a session down: every long-lived resource is
/// released exactly once, in the order the session holds them — queue,
/// vertex buffer, index buffer, vertex layout, shader stages, then the
/// lazily created pipeline and framebuffer where they exist.
pub open spec fn teardown_ops(s: ThreeCubesRenderSession) -> Seq<OpView> {
    seq![
        OpView::DestroyCommandQueue { queue: s.queue_id() },
        OpView::DestroyBuffer { buffer: s.vertex_buffer_id() },
        OpView::DestroyBuffer { buffer: s.index_buffer_id() },
        OpView::DestroyVertexInputState { state: s.vertex_input_id() },
        OpView::DestroyShaderStages { stages: s.shader_stages_id() },
    ] + (if s.has_pipeline() {
        seq![OpView::DestroyRenderPipeline { pipeline: s.pipeline_id() }]
    } else {
        Seq::empty()
    }) + (if s.has_framebuffer() {
        seq![OpView::DestroyFramebuffer { framebuffer: s.framebuffer_id() }]
    } else {
        Seq::empty()
    })
}

impl ThreeCubesRenderSession {
    /// Tear the session down: release every resource it owns exactly once.
    /// Consuming the session makes any later use impossible.
    pub fn teardown(self, device: &mut Device)
        requires
            old(device).wf(),
            self.wf(*old(device)),
        ensures
            final(device).wf(),
            final(device).replayed() == old(device).replayed(),
            final(device).backend_kind() == old(device).backend_kind(),
            final(device).next_handle() == old(device).next_handle(),
            final(device).denied_handle() == old(device).denied_handle(),
            final(device).history() == old(device).history() + teardown_ops(self),
    {
        let ghost hist0 = device.history();
        let ghost s0 = self;
        let ThreeCubesRenderSession {
            command_queue,
            vertex_buffer,
            index_buffer,
            vertex_input_state,
            shader_stages,
            pipeline_state,
            framebuffer,
            cubes,
            frame_index,
        } = self;
        command_queue.destroy(device);
        vertex_buffer.destroy(device);
        index_buffer.destroy(device);
        vertex_input_state.destroy(device);
        shader_stages.destroy(device);
        match pipeline_state {
            Some(p) => p.destroy(device),
            None => {},
        }
        match framebuffer {
            Some(f) => f.destroy(device),
            None => {},
        }
        proof {
            assert(device.history() =~= hist0 + teardown_ops(s0));
        }
    }

    /// The cubes as the session holds them now.
    pub fn cube_transforms(&self) -> (c: &Vec<CubeTransform>)
        ensures
            c@ == self.cubes(),
    {
        &self.cubes
    }

    /// How many frames have been fully recorded.
    pub fn frames_rendered(&self) -> (n: u64)
        ensures
            n == self.frame_count(),
    {
        self.frame_index
    }

    /// Whether the lazily created framebuffer exists yet.
    pub fn framebuffer_created(&self) -> (b: bool)
        ensures
            b == self.has_framebuffer(),
    {
        self.framebuffer.is_some()
    }

    /// Whether the lazily created pipeline exists yet.
    pub fn pipeline_created(&self) -> (b: bool)
        ensures
            b == self.has_pipeline(),
    {
        self.pipeline_state.is_some()
    }
}

/// Counting facts about one pass plan, for every outcome: the pass begins
/// and ends the same number of encoders (at most one), creates exactly one
/// uniform buffer per draw it issues, and never creates a framebuffer or
/// pipeline itself.
proof fn lemma_plan_pass_counts(
    d: Device,
    queue: u64,
    vb: u64,
    ib: u64,
    frames0: u64,
    cubes2: Seq<CubeTransform>,
    aspect: u32,
    color_raw: u64,
    fb_id: u64,
    pl_id: u64,
    g: int,
    prior: Seq<OpView>,
)
    requires
        0 <= g,
    ensures
        ({
            let o = plan_pass(
                d,
                queue,
                vb,
                ib,
                frames0,
                cubes2,
                aspect,
                color_raw,
                fb_id,
                pl_id,
                g,
                prior,
            );
            let enc_created: int = if d.grants((g + 2) as nat) {
                1int
            } else {
                0int
            };
            let draws: int = if !d.grants((g + 3) as nat) {
                0int
            } else if !d.grants((g + 4) as nat) {
                1int
            } else if !d.grants((g + 5) as nat) {
                2int
            } else {
                3int
            };
            &&& count_encoder_creates(o.ops) == count_encoder_creates(prior)
                + enc_created
            &&& count_end_encodings(o.ops) == count_end_encodings(prior)
                + enc_created
            &&& count_draws(o.ops) == count_draws(prior) + draws
            &&& count_uniform_creates(o.ops) == count_uniform_creates(prior) + draws
            &&& count_framebuffer_creates(o.ops) == count_framebuffer_creates(prior)
            &&& count_pipeline_creates(o.ops) == count_pipeline_creates(prior)
            &&& count_update_drawables(o.ops) == count_update_drawables(prior)
            &&& count_partial_draws(o.ops) == count_partial_draws(prior)
        }),
{
    broadcast use crate::ops::lemma_count_ops_add, crate::ops::lemma_count_ops_push;

    reveal_with_fuel(crate::ops::count_ops, 6);
    if !d.grants((g + 1) as nat) {
    } else {
        let cb = (d.next_handle() + g) as u64;
        let cb_op = OpView::CreateCommandBuffer { queue, buffer: cb };
        let destroy_cb = OpView::DestroyCommandBuffer { buffer: cb };
        if !d.grants((g + 2) as nat) {
        } else {
            let enc = (d.next_handle() + g + 1) as u64;
            let head = prior.push(cb_op).push(
                OpView::CreateRenderEncoder {
                    encoder: enc,
                    buffer: cb,
                    framebuffer: fb_id,
                    color_attachment: pass_color_attachment(),
                    depth_attachment: pass_depth_attachment(),
                },
            ).push(
                OpView::BindVertexBuffer { encoder: enc, index: VERTEX_SLOT, buffer: vb },
            ).push(
                OpView::BindIndexBuffer { encoder: enc, buffer: ib, format: IndexFormat::UInt16 },
            ).push(OpView::BindPipeline { encoder: enc, pipeline: pl_id });
            let end_op = OpView::EndEncoding { encoder: enc };
            if !d.grants((g + 3) as nat) {
            } else {
                let d0 = cube_draw_ops(enc, (d.next_handle() + g + 2) as u64, cubes2[0], aspect);
                assert(count_encoder_creates(d0) == 0);
                assert(count_end_encodings(d0) == 0);
                assert(count_draws(d0) == 1);
                assert(count_uniform_creates(d0) == 1);
                assert(count_framebuffer_creates(d0) == 0);
                assert(count_pipeline_creates(d0) == 0);
                assert(count_update_drawables(d0) == 0);
                assert(count_partial_draws(d0) == 0);
                if !d.grants((g + 4) as nat) {
                    let tail = seq![end_op, destroy_cb];
                    assert(count_encoder_creates(tail) == 0);
                    assert(count_end_encodings(tail) == 1);
                    assert(count_draws(tail) == 0);
                    assert(count_uniform_creates(tail) == 0);
                    assert(count_framebuffer_creates(tail) == 0);
                    assert(count_pipeline_creates(tail) == 0);
                    assert(count_update_drawables(tail) == 0);
                    assert(count_partial_draws(tail) == 0);
                } else {
                    let d1 = cube_draw_ops(
                        enc,
                        (d.next_handle() + g + 3) as u64,
                        cubes2[1],
                        aspect,
                    );
                    assert(count_encoder_creates(d1) == 0);
                    assert(count_end_encodings(d1) == 0);
                    assert(count_draws(d1) == 1);
                    assert(count_uniform_creates(d1) == 1);
                    assert(count_framebuffer_creates(d1) == 0);
                    assert(count_pipeline_creates(d1) == 0);
                    assert(count_update_drawables(d1) == 0);
                assert(count_partial_draws(d1) == 0);
                    if !d.grants((g + 5) as nat) {
                        let tail = seq![end_op, destroy_cb];
                        assert(count_encoder_creates(tail) == 0);
                        assert(count_end_encodings(tail) == 1);
                        assert(count_draws(tail) == 0);
                        assert(count_uniform_creates(tail) == 0);
                        assert(count_framebuffer_creates(tail) == 0);
                        assert(count_pipeline_creates(tail) == 0);
                        assert(count_update_drawables(tail) == 0);
                        assert(count_partial_draws(tail) == 0);
                    assert(count_partial_draws(tail) == 0);
                    } else {
                        let d2 = cube_draw_ops(
                            enc,
                            (d.next_handle() + g + 4) as u64,
                            cubes2[2],
                            aspect,
                        );
                        assert(count_encoder_creates(d2) == 0);
                        assert(count_end_encodings(d2) == 0);
                        assert(count_draws(d2) == 1);
                        assert(count_uniform_creates(d2) == 1);
                        assert(count_framebuffer_creates(d2) == 0);
                        assert(count_pipeline_creates(d2) == 0);
                        assert(count_update_drawables(d2) == 0);
                        assert(count_partial_draws(d2) == 0);
                assert(count_partial_draws(d2) == 0);
                        let tail = seq![
                            end_op,
                            OpView::Present { buffer: cb, texture: color_raw },
                            OpView::Submit { queue, buffer: cb },
                            destroy_cb,
                        ];
                        assert(count_encoder_creates(tail) == 0);
                        assert(count_end_encodings(tail) == 1);
                        assert(count_draws(tail) == 0);
                        assert(count_uniform_creates(tail) == 0);
                        assert(count_framebuffer_creates(tail) == 0);
                        assert(count_pipeline_creates(tail) == 0);
                        assert(count_update_drawables(tail) == 0);
                        assert(count_partial_draws(tail) == 0);
                    assert(count_partial_draws(tail) == 0);
                    }
                }
            }
        }
    }
}

/// Every frame ends exactly as many render encoders as it begins — one
/// when the frame reaches its render pass, none when it aborts before —
/// whichever path the frame takes, error paths and early returns alike.
pub proof fn lemma_encoder_ended_exactly_once(
    s: ThreeCubesRenderSession,
    d: Device,
    color: Texture,
    depth: Texture,
    dt_micros: u32,
)
    ensures
        ({
            let plan = plan_frame(s, d, color, depth, dt_micros);
            &&& count_encoder_creates(plan.ops) == count_end_encodings(plan.ops)
            &&& count_encoder_creates(plan.ops) <= 1
        }),
{
    broadcast use crate::ops::lemma_count_ops_add, crate::ops::lemma_count_ops_push;

    reveal_with_fuel(crate::ops::count_ops, 6);
    let plan = plan_frame(s, d, color, depth, dt_micros);
    let base = d.next_handle();
    let cubes2 = advance_cubes(s.cubes(), dt_micros);
    let aspect = color.aspect_ratio_spec();
    let fb_missing = !s.has_framebuffer();
    let f: int = if fb_missing {
        1int
    } else {
        0int
    };
    let fb_id = if fb_missing {
        base
    } else {
        s.framebuffer_id()
    };
    let fb_ops = if fb_missing {
        seq![
            OpView::CreateFramebuffer {
                framebuffer: base,
                color_texture: color.raw(),
                depth_texture: depth.raw(),
            },
        ]
    } else {
        seq![OpView::UpdateDrawable { framebuffer: fb_id, color_texture: color.raw() }]
    };
    assert(count_encoder_creates(fb_ops) == 0);
    assert(count_end_encodings(fb_ops) == 0);
    if fb_missing && !d.grants(1) {
        assert(count_encoder_creates(Seq::<OpView>::empty()) == 0);
        assert(count_end_encodings(Seq::<OpView>::empty()) == 0);
    } else if !s.has_pipeline() {
        match TextureFormat::from_raw_spec(color.format_spec()) {
            None => {},
            Some(cf) => match TextureFormat::from_raw_spec(depth.format_spec()) {
                None => {},
                Some(df) => {
                    if !d.grants((f + 1) as nat) {
                    } else {
                        let pl_id = (base + f) as u64;
                        let pl_op = OpView::CreateRenderPipeline {
                            pipeline: pl_id,
                            vertex_input: s.vertex_input_id(),
                            stages: s.shader_stages_id(),
                            color_format: cf,
                            depth_format: df,
                            cull_mode: crate::desc::CullMode::Back,
                            winding_mode: crate::desc::WindingMode::Clockwise,
                        };
                        lemma_plan_pass_counts(
                            d,
                            s.queue_id(),
                            s.vertex_buffer_id(),
                            s.index_buffer_id(),
                            s.frame_count(),
                            cubes2,
                            aspect,
                            color.raw(),
                            fb_id,
                            pl_id,
                            f + 1,
                            fb_ops.push(pl_op),
                        );
                    }
                },
            },
        }
    } else {
        lemma_plan_pass_counts(
            d,
            s.queue_id(),
            s.vertex_buffer_id(),
            s.index_buffer_id(),
            s.frame_count(),
            cubes2,
            aspect,
            color.raw(),
            fb_id,
            s.pipeline_id(),
            f,
            fb_ops,
        );
    }
}

/// Once the framebuffer and the pipeline exist, no frame creates either
/// again: a frame with new surface textures — different dimensions, new
/// drawable — only rebinds the framebuffer's drawable, exactly once.
pub proof fn lemma_lazy_resources_stable(
    s: ThreeCubesRenderSession,
    d: Device,
    color: Texture,
    depth: Texture,
    dt_micros: u32,
)
    requires
        s.has_framebuffer(),
        s.has_pipeline(),
    ensures
        ({
            let plan = plan_frame(s, d, color, depth, dt_micros);
            &&& count_framebuffer_creates(plan.ops) == 0
            &&& count_pipeline_creates(plan.ops) == 0
            &&& count_update_drawables(plan.ops) == 1
            &&& plan.framebuffer == Some(s.framebuffer_id())
            &&& plan.pipeline == Some(s.pipeline_id())
        }),
{
    broadcast use crate::ops::lemma_count_ops_add, crate::ops::lemma_count_ops_push;

    reveal_with_fuel(crate::ops::count_ops, 6);
    let cubes2 = advance_cubes(s.cubes(), dt_micros);
    let aspect = color.aspect_ratio_spec();
    let fb_id = s.framebuffer_id();
    let fb_ops = seq![
        OpView::UpdateDrawable { framebuffer: fb_id, color_texture: color.raw() },
    ];
    assert(count_framebuffer_creates(fb_ops) == 0);
    assert(count_pipeline_creates(fb_ops) == 0);
    assert(count_update_drawables(fb_ops) == 1);
    lemma_plan_pass_counts(
        d,
        s.queue_id(),
        s.vertex_buffer_id(),
        s.index_buffer_id(),
        s.frame_count(),
        cubes2,
        aspect,
        color.raw(),
        fb_id,
        s.pipeline_id(),
        0,
        fb_ops,
    );
}

/// On the first frame that completes, the framebuffer and the pipeline are
/// each created exactly once, and the session holds them from then on.
pub proof fn lemma_first_frame_creates_once(
    s: ThreeCubesRenderSession,
    d: Device,
    color: Texture,
    depth: Texture,
    dt_micros: u32,
)
    requires
        !s.has_framebuffer(),
        !s.has_pipeline(),
        plan_frame(s, d, color, depth, dt_micros).result is Ok,
    ensures
        ({
            let plan = plan_frame(s, d, color, depth, dt_micros);
            &&& count_framebuffer_creates(plan.ops) == 1
            &&& count_pipeline_creates(plan.ops) == 1
            &&& plan.framebuffer is Some
            &&& plan.pipeline is Some
        }),
{
    broadcast use crate::ops::lemma_count_ops_add, crate::ops::lemma_count_ops_push;

    reveal_with_fuel(crate::ops::count_ops, 6);
    let base = d.next_handle();
    let cubes2 = advance_cubes(s.cubes(), dt_micros);
    let aspect = color.aspect_ratio_spec();
    let fb_ops = seq![
        OpView::CreateFramebuffer {
            framebuffer: base,
            color_texture: color.raw(),
            depth_texture: depth.raw(),
        },
    ];
    assert(count_framebuffer_creates(fb_ops) == 1);
    assert(count_pipeline_creates(fb_ops) == 0);
    let cf = TextureFormat::from_raw_spec(color.format_spec())->Some_0;
    let df = TextureFormat::from_raw_spec(depth.format_spec())->Some_0;
    let pl_id = (base + 1) as u64;
    let pl_op = OpView::CreateRenderPipeline {
        pipeline: pl_id,
        vertex_input: s.vertex_input_id(),
        stages: s.shader_stages_id(),
        color_format: cf,
        depth_format: df,
        cull_mode: crate::desc::CullMode::Back,
        winding_mode: crate::desc::WindingMode::Clockwise,
    };
    lemma_plan_pass_counts(
        d,
        s.queue_id(),
        s.vertex_buffer_id(),
        s.index_buffer_id(),
        s.frame_count(),
        cubes2,
        aspect,
        color.raw(),
        base,
        pl_id,
        2,
        fb_ops.push(pl_op),
    );
}

/// A frame that completes draws each of the three cubes exactly once: it
/// records exactly three indexed draws, each covering the full cube mesh,
/// and creates exactly one short-lived uniform buffer per cube.
pub proof fn lemma_frame_draw_counts(
    s: ThreeCubesRenderSession,
    d: Device,
    color: Texture,
    depth: Texture,
    dt_micros: u32,
)
    requires
        plan_frame(s, d, color, depth, dt_micros).result is Ok,
    ensures
        ({
            let plan = plan_frame(s, d, color, depth, dt_micros);
            &&& count_draws(plan.ops) == 3
            &&& count_uniform_creates(plan.ops) == 3
            &&& forall|i: int|
                0 <= i < plan.ops.len() ==> (#[trigger] plan.ops[i] matches
                    OpView::DrawIndexed { index_count, .. } ==> index_count == CUBE_INDEX_COUNT)
        }),
{
    broadcast use crate::ops::lemma_count_ops_add, crate::ops::lemma_count_ops_push;

    reveal_with_fuel(crate::ops::count_ops, 6);
    let plan = plan_frame(s, d, color, depth, dt_micros);
    let base = d.next_handle();
    let cubes2 = advance_cubes(s.cubes(), dt_micros);
    let aspect = color.aspect_ratio_spec();
    let fb_missing = !s.has_framebuffer();
    let f: int = if fb_missing {
        1int
    } else {
        0int
    };
    let fb_id = if fb_missing {
        base
    } else {
        s.framebuffer_id()
    };
    let fb_ops = if fb_missing {
        seq![
            OpView::CreateFramebuffer {
                framebuffer: base,
                color_texture: color.raw(),
                depth_texture: depth.raw(),
            },
        ]
    } else {
        seq![OpView::UpdateDrawable { framebuffer: fb_id, color_texture: color.raw() }]
    };
    assert(count_draws(fb_ops) == 0);
    assert(count_uniform_creates(fb_ops) == 0);
    assert(count_partial_draws(fb_ops) == 0);
    if !s.has_pipeline() {
        let cf = TextureFormat::from_raw_spec(color.format_spec())->Some_0;
        let df = TextureFormat::from_raw_spec(depth.format_spec())->Some_0;
        let pl_id = (base + f) as u64;
        let pl_op = OpView::CreateRenderPipeline {
            pipeline: pl_id,
            vertex_input: s.vertex_input_id(),
            stages: s.shader_stages_id(),
            color_format: cf,
            depth_format: df,
            cull_mode: crate::desc::CullMode::Back,
            winding_mode: crate::desc::WindingMode::Clockwise,
        };
        lemma_plan_pass_counts(
            d,
            s.queue_id(),
            s.vertex_buffer_id(),
            s.index_buffer_id(),
            s.frame_count(),
            cubes2,
            aspect,
            color.raw(),
            fb_id,
            pl_id,
            f + 1,
            fb_ops.push(pl_op),
        );
    } else {
        lemma_plan_pass_counts(
            d,
            s.queue_id(),
            s.vertex_buffer_id(),
            s.index_buffer_id(),
            s.frame_count(),
            cubes2,
            aspect,
            color.raw(),
            fb_id,
            s.pipeline_id(),
            f,
            fb_ops,
        );
    }
    assert(count_partial_draws(plan.ops) == 0);
    crate::ops::lemma_count_ops_zero(plan.ops, |op: OpView| is_partial_draw(op));
}

} // verus!
