//! Checks that the bit-pattern constants and byte payloads the library
//! fixes really are the single-precision values the scene is defined with,
//! and that matrix evaluation from recorded parameters is deterministic.

use glam::{Mat4, Vec3};
use igl_rs::desc::MvpParams;
use igl_rs::device::{BackendType, Device};
use igl_rs::mesh::{cube_index_buffer_bytes, cube_vertex_buffer_bytes};
use igl_rs::ops::{BufferContents, GpuOp};
use igl_rs::render_session::{create_mvp_matrix, CubeTransform, ThreeCubesRenderSession};
use igl_rs::resources::Texture;

/// Evaluate the single-precision matrix a recorded parameter block stands
/// for, exactly as the trace replayer does.
fn evaluate_mvp(p: &MvpParams) -> Mat4 {
    let fov = f32::from_bits(p.fov_y_deg).to_radians();
    let projection = Mat4::perspective_lh(
        fov,
        f32::from_bits(p.aspect_ratio),
        f32::from_bits(p.z_near),
        f32::from_bits(p.z_far),
    );
    let position = Vec3::new(
        f32::from_bits(p.position.x),
        f32::from_bits(p.position.y),
        f32::from_bits(p.position.z),
    );
    let offset = Vec3::new(
        f32::from_bits(p.camera_offset.x),
        f32::from_bits(p.camera_offset.y),
        f32::from_bits(p.camera_offset.z),
    );
    let translation = Mat4::from_translation(position + offset);
    let axis = Vec3::new(
        f32::from_bits(p.rotation_axis.x),
        f32::from_bits(p.rotation_axis.y),
        f32::from_bits(p.rotation_axis.z),
    );
    let angle = (p.angle_nanos as f64 / 1_000_000_000.0) as f32;
    let rotation = Mat4::from_axis_angle(axis, angle);
    projection * (translation * rotation)
}

fn matrix_bits(m: &Mat4) -> [u32; 16] {
    let cols = m.to_cols_array();
    let mut out = [0u32; 16];
    for (i, v) in cols.iter().enumerate() {
        out[i] = v.to_bits();
    }
    out
}

#[test]
fn bit_constants_match_their_float_values() {
    assert_eq!(igl_rs::desc::F32_ZERO_BITS, 0.0f32.to_bits());
    assert_eq!(igl_rs::desc::F32_ONE_BITS, 1.0f32.to_bits());
    assert_eq!(igl_rs::mesh::NEG_ONE_BITS, (-1.0f32).to_bits());
    assert_eq!(igl_rs::mesh::F32_02_BITS, 0.2f32.to_bits());
    assert_eq!(igl_rs::mesh::F32_03_BITS, 0.3f32.to_bits());
    assert_eq!(igl_rs::mesh::F32_08_BITS, 0.8f32.to_bits());
    assert_eq!(igl_rs::render_session::FOV_Y_DEG_BITS, 45.0f32.to_bits());
    assert_eq!(igl_rs::render_session::Z_NEAR_BITS, 0.1f32.to_bits());
    assert_eq!(igl_rs::render_session::Z_FAR_BITS, 100.0f32.to_bits());
    assert_eq!(igl_rs::render_session::CAMERA_OFFSET_Z_BITS, 8.0f32.to_bits());
    assert_eq!(igl_rs::render_session::CLEAR_RG_BITS, 0.1f32.to_bits());
    assert_eq!(igl_rs::render_session::CLEAR_B_BITS, 0.15f32.to_bits());
    assert_eq!(igl_rs::render_session::THREE_BITS, 3.0f32.to_bits());
    assert_eq!(igl_rs::render_session::NEG_THREE_BITS, (-3.0f32).to_bits());
}

#[test]
fn normalized_axes_match_vector_normalization() {
    let diag_xy = Vec3::new(1.0, 1.0, 0.0).normalize();
    assert_eq!(diag_xy.x.to_bits(), igl_rs::render_session::INV_SQRT2_BITS);
    assert_eq!(diag_xy.y.to_bits(), igl_rs::render_session::INV_SQRT2_BITS);
    assert_eq!(diag_xy.z.to_bits(), 0.0f32.to_bits());
    let diag_xz = Vec3::new(1.0, 0.0, 1.0).normalize();
    assert_eq!(diag_xz.x.to_bits(), igl_rs::render_session::INV_SQRT2_BITS);
    assert_eq!(diag_xz.z.to_bits(), igl_rs::render_session::INV_SQRT2_BITS);
}

#[test]
fn vertex_bytes_match_the_float_mesh_layout() {
    // the eight corners with their tints, exactly as the scene defines them
    let half = 1.0f32;
    let vertex_data: [([f32; 3], [f32; 3]); 8] = [
        ([-half, half, -half], [1.0, 0.3, 0.3]),
        ([half, half, -half], [1.0, 0.3, 0.3]),
        ([-half, -half, -half], [0.8, 0.2, 0.2]),
        ([half, -half, -half], [0.8, 0.2, 0.2]),
        ([half, half, half], [0.3, 0.3, 1.0]),
        ([-half, half, half], [0.3, 0.3, 1.0]),
        ([half, -half, half], [0.2, 0.2, 0.8]),
        ([-half, -half, half], [0.2, 0.2, 0.8]),
    ];
    let mut expected: Vec<u8> = Vec::new();
    for (position, color) in &vertex_data {
        for v in position.iter().chain(color.iter()) {
            expected.extend_from_slice(&v.to_le_bytes());
        }
    }
    assert_eq!(cube_vertex_buffer_bytes(), expected);
}

#[test]
fn index_bytes_match_the_index_list() {
    let index_data: [u16; 36] = [
        0, 1, 2, 1, 3, 2, // front
        1, 4, 3, 4, 6, 3, // right
        4, 5, 6, 5, 7, 6, // back
        5, 0, 7, 0, 2, 7, // left
        5, 4, 0, 4, 1, 0, // top
        2, 3, 7, 3, 6, 7, // bottom
    ];
    let mut expected: Vec<u8> = Vec::new();
    for v in &index_data {
        expected.extend_from_slice(&v.to_le_bytes());
    }
    assert_eq!(cube_index_buffer_bytes(), expected);
}

#[test]
fn mvp_parameters_are_a_pure_function_of_their_inputs() {
    let cube = CubeTransform {
        position: igl_rs::desc::Vec3Bits::new((-3.0f32).to_bits(), 0, 0),
        rotation_axis: igl_rs::desc::Vec3Bits::new(0, 1.0f32.to_bits(), 0),
        rotation_speed_millis: 1000,
        current_angle_nanos: 123_456_789,
        color: igl_rs::desc::Vec3Bits::new(1.0f32.to_bits(), 0.3f32.to_bits(), 0.3f32.to_bits()),
    };
    let aspect = 1.333f32.to_bits();
    let a = create_mvp_matrix(&cube, aspect);
    let b = create_mvp_matrix(&cube, aspect);
    assert_eq!(a, b);
    // and evaluating the same parameters twice yields bit-identical output
    let m1 = matrix_bits(&evaluate_mvp(&a));
    let m2 = matrix_bits(&evaluate_mvp(&b));
    assert_eq!(m1, m2);
}

#[test]
fn recorded_parameters_evaluate_like_the_reference_formula() {
    // render one frame and take the first cube's recorded parameters
    let mut dev = Device::new(BackendType::Metal);
    let mut session = ThreeCubesRenderSession::new(&mut dev, "s").unwrap();
    dev.take_ops();
    let aspect = 1.333f32;
    let color = Texture::from_raw(1, 10, aspect.to_bits());
    let depth = Texture::from_raw(2, 41, aspect.to_bits());
    let dt: u32 = 250_000;
    session.render(&mut dev, &color, &depth, dt).unwrap();
    let ops = dev.take_ops();
    let p = ops
        .iter()
        .find_map(|op| match op {
            GpuOp::CreateBuffer { contents: BufferContents::Mvp(p), .. } => Some(*p),
            _ => None,
        })
        .unwrap();
    // the reference computation, written directly over floats
    let angle = (p.angle_nanos as f64 / 1_000_000_000.0) as f32;
    let projection = Mat4::perspective_lh(45.0f32.to_radians(), aspect, 0.1, 100.0);
    let translation = Mat4::from_translation(Vec3::new(-3.0, 0.0, 0.0) + Vec3::new(0.0, 0.0, 8.0));
    let rotation = Mat4::from_axis_angle(Vec3::new(0.0, 1.0, 0.0), angle);
    let reference = projection * (translation * rotation);
    assert_eq!(matrix_bits(&evaluate_mvp(&p)), matrix_bits(&reference));
}
