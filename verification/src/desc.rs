//! Plain descriptor types shared by the resource, command and session layers.
//!
//! The native backend works in IEEE 754 single-precision values. This crate
//! holds no floating point at all: every such scalar is carried as the `u32`
//! bit pattern of the intended value, and the driver that replays the command
//! trace reassembles the numbers at the boundary.

use vstd::prelude::*;

verus! {

/// Bit pattern of single-precision `0.0`.
pub const F32_ZERO_BITS: u32 = 0x0000_0000;

/// Bit pattern of single-precision `1.0`.
pub const F32_ONE_BITS: u32 = 0x3F80_0000;

/// What a GPU buffer is used for.
#[derive(Debug, Clone, Copy, PartialEq, Eq, Structural)]
pub enum BufferType {
    Vertex,
    Index,
    Uniform,
}

impl BufferType {
    /// The numeric tag the native backend uses for this buffer type.
    pub open spec fn raw_spec(self) -> u32 {
        match self {
            BufferType::Vertex => 1,
            BufferType::Index => 2,
            BufferType::Uniform => 4,
        }
    }

    pub fn to_raw(self) -> (r: u32)
        ensures
            r == self.raw_spec(),
    {
        match self {
            BufferType::Vertex => 1,
            BufferType::Index => 2,
            BufferType::Uniform => 4,
        }
    }
}

/// Element format of one vertex attribute.
#[derive(Debug, Clone, Copy, PartialEq, Eq, Structural)]
pub enum VertexFormat {
    Float1,
    Float2,
    Float3,
    Float4,
}

impl VertexFormat {
    pub open spec fn raw_spec(self) -> u32 {
        match self {
            VertexFormat::Float1 => 0,
            VertexFormat::Float2 => 1,
            VertexFormat::Float3 => 2,
            VertexFormat::Float4 => 3,
        }
    }

    pub fn to_raw(self) -> (r: u32)
        ensures
            r == self.raw_spec(),
    {
        match self {
            VertexFormat::Float1 => 0,
            VertexFormat::Float2 => 1,
            VertexFormat::Float3 => 2,
            VertexFormat::Float4 => 3,
        }
    }
}

/// Width of one entry of an index buffer.
#[derive(Debug, Clone, Copy, PartialEq, Eq, Structural)]
pub enum IndexFormat {
    UInt16,
    UInt32,
}

impl IndexFormat {
    pub open spec fn raw_spec(self) -> u32 {
        match self {
            IndexFormat::UInt16 => 0,
            IndexFormat::UInt32 => 1,
        }
    }

    pub fn to_raw(self) -> (r: u32)
        ensures
            r == self.raw_spec(),
    {
        match self {
            IndexFormat::UInt16 => 0,
            IndexFormat::UInt32 => 1,
        }
    }
}

/// Which faces the rasterizer discards.
#[derive(Debug, Clone, Copy, PartialEq, Eq, Structural)]
pub enum CullMode {
    Disabled,
    Front,
    Back,
}

impl CullMode {
    pub open spec fn raw_spec(self) -> u32 {
        match self {
            CullMode::Disabled => 0,
            CullMode::Front => 1,
            CullMode::Back => 2,
        }
    }

    pub fn to_raw(self) -> (r: u32)
        ensures
            r == self.raw_spec(),
    {
        match self {
            CullMode::Disabled => 0,
            CullMode::Front => 1,
            CullMode::Back => 2,
        }
    }
}

/// Which vertex order counts as the front face.
#[derive(Debug, Clone, Copy, PartialEq, Eq, Structural)]
pub enum WindingMode {
    Clockwise,
    CounterClockwise,
}

impl WindingMode {
    pub open spec fn raw_spec(self) -> u32 {
        match self {
            WindingMode::Clockwise => 0,
            WindingMode::CounterClockwise => 1,
        }
    }

    pub fn to_raw(self) -> (r: u32)
        ensures
            r == self.raw_spec(),
    {
        match self {
            WindingMode::Clockwise => 0,
            WindingMode::CounterClockwise => 1,
        }
    }
}

/// What happens to an attachment when a render pass begins.
#[derive(Debug, Clone, Copy, PartialEq, Eq, Structural)]
pub enum LoadAction {
    DontCare,
    Load,
    Clear,
}

impl LoadAction {
    pub open spec fn raw_spec(self) -> u32 {
        match self {
            LoadAction::DontCare => 0,
            LoadAction::Load => 1,
            LoadAction::Clear => 2,
        }
    }

    pub fn to_raw(self) -> (r: u32)
        ensures
            r == self.raw_spec(),
    {
        match self {
            LoadAction::DontCare => 0,
            LoadAction::Load => 1,
            LoadAction::Clear => 2,
        }
    }
}

/// What happens to an attachment when a render pass ends.
#[derive(Debug, Clone, Copy, PartialEq, Eq, Structural)]
pub enum StoreAction {
    DontCare,
    Store,
}

impl StoreAction {
    pub open spec fn raw_spec(self) -> u32 {
        match self {
            StoreAction::DontCare => 0,
            StoreAction::Store => 1,
        }
    }

    pub fn to_raw(self) -> (r: u32)
        ensures
            r == self.raw_spec(),
    {
        match self {
            StoreAction::DontCare => 0,
            StoreAction::Store => 1,
        }
    }
}

/// The pixel formats the pipeline layer understands, together with the
/// numeric tags the backend reports for them.
#[allow(non_camel_case_types)]
#[derive(Debug, Clone, Copy, PartialEq, Eq, Structural)]
pub enum TextureFormat {
    BGRA_UNorm8,
    Depth32Float,
}

impl TextureFormat {
    pub open spec fn raw_spec(self) -> u32 {
        match self {
            TextureFormat::BGRA_UNorm8 => 10,
            TextureFormat::Depth32Float => 41,
        }
    }

    pub fn to_raw(self) -> (r: u32)
        ensures
            r == self.raw_spec(),
    {
        match self {
            TextureFormat::BGRA_UNorm8 => 10,
            TextureFormat::Depth32Float => 41,
        }
    }

    /// The format a raw backend tag stands for, if any.
    pub open spec fn from_raw_spec(raw: u32) -> Option<TextureFormat> {
        if raw == 10 {
            Some(TextureFormat::BGRA_UNorm8)
        } else if raw == 41 {
            Some(TextureFormat::Depth32Float)
        } else {
            None
        }
    }

    /// Explicit, exhaustive conversion from the backend's numeric format tag.
    /// Unknown tags are rejected instead of being reinterpreted.
    pub fn from_raw(raw: u32) -> (r: Result<TextureFormat, crate::Error>)
        ensures
            match Self::from_raw_spec(raw) {
                Some(f) => r == Ok::<TextureFormat, crate::Error>(f),
                None => r == Err::<TextureFormat, crate::Error>(crate::Error::UnsupportedFormat(raw)),
            },
    {
        if raw == 10 {
            Ok(TextureFormat::BGRA_UNorm8)
        } else if raw == 41 {
            Ok(TextureFormat::Depth32Float)
        } else {
            Err(crate::Error::UnsupportedFormat(raw))
        }
    }
}

/// An RGBA color; each channel is the bit pattern of a single-precision
/// value in `[0.0, 1.0]`.
#[derive(Debug, Clone, Copy, PartialEq, Eq, Structural)]
pub struct Color {
    pub r: u32,
    pub g: u32,
    pub b: u32,
    pub a: u32,
}

impl Color {
    pub fn new(r: u32, g: u32, b: u32, a: u32) -> (c: Color)
        ensures
            c == (Color { r, g, b, a }),
    {
        Color { r, g, b, a }
    }

    /// Opaque black: all color channels zero, alpha one.
    pub fn black() -> (c: Color)
        ensures
            c == (Color { r: F32_ZERO_BITS, g: F32_ZERO_BITS, b: F32_ZERO_BITS, a: F32_ONE_BITS }),
    {
        Color { r: F32_ZERO_BITS, g: F32_ZERO_BITS, b: F32_ZERO_BITS, a: F32_ONE_BITS }
    }
}

/// How the color render target is treated over one render pass.
#[derive(Debug, Clone, Copy, PartialEq, Eq, Structural)]
pub struct ColorAttachment {
    pub load_action: LoadAction,
    pub store_action: StoreAction,
    pub clear_color: Color,
}

impl core::default::Default for ColorAttachment {
    /// Clear to opaque black on load and keep the result.
    fn default() -> (c: ColorAttachment)
        ensures
            c.load_action == LoadAction::Clear,
            c.store_action == StoreAction::Store,
            c.clear_color == (Color {
                r: F32_ZERO_BITS,
                g: F32_ZERO_BITS,
                b: F32_ZERO_BITS,
                a: F32_ONE_BITS,
            }),
    {
        ColorAttachment {
            load_action: LoadAction::Clear,
            store_action: StoreAction::Store,
            clear_color: Color::black(),
        }
    }
}

/// How the depth render target is treated over one render pass.
/// `clear_depth` is the bit pattern of the single-precision clear value.
#[derive(Debug, Clone, Copy, PartialEq, Eq, Structural)]
pub struct DepthAttachment {
    pub load_action: LoadAction,
    pub clear_depth: u32,
}

impl core::default::Default for DepthAttachment {
    /// Clear the depth buffer to `1.0` (the far plane) on load.
    fn default() -> (d: DepthAttachment)
        ensures
            d.load_action == LoadAction::Clear,
            d.clear_depth == F32_ONE_BITS,
    {
        DepthAttachment { load_action: LoadAction::Clear, clear_depth: F32_ONE_BITS }
    }
}

/// One vertex attribute of a vertex-input layout.
#[derive(Debug, Clone)]
pub struct VertexAttribute {
    pub buffer_index: u32,
    pub format: VertexFormat,
    pub offset: u32,
    pub name: String,
    pub location: i32,
}

/// The ghost image of a [`VertexAttribute`], with the name as a character
/// sequence.
pub ghost struct VertexAttributeView {
    pub buffer_index: u32,
    pub format: VertexFormat,
    pub offset: u32,
    pub name: Seq<char>,
    pub location: i32,
}

impl View for VertexAttribute {
    type V = VertexAttributeView;

    open spec fn view(&self) -> VertexAttributeView {
        VertexAttributeView {
            buffer_index: self.buffer_index,
            format: self.format,
            offset: self.offset,
            name: self.name@,
            location: self.location,
        }
    }
}

/// Per-buffer stride of a vertex-input layout.
#[derive(Debug, Clone, Copy, PartialEq, Eq, Structural)]
pub struct VertexBinding {
    pub stride: u32,
}

/// A 3-vector of single-precision bit patterns.
#[derive(Debug, Clone, Copy, PartialEq, Eq, Structural)]
pub struct Vec3Bits {
    pub x: u32,
    pub y: u32,
    pub z: u32,
}

impl Vec3Bits {
    pub fn new(x: u32, y: u32, z: u32) -> (v: Vec3Bits)
        ensures
            v == (Vec3Bits { x, y, z }),
    {
        Vec3Bits { x, y, z }
    }
}

/// Everything that determines one model-view-projection matrix.
///
/// The matrix itself is single-precision arithmetic, which this crate does
/// not hold; the trace replayer evaluates it from these parameters alone, so
/// the matrix is a pure function of this record.
#[derive(Debug, Clone, Copy, PartialEq, Eq, Structural)]
pub struct MvpParams {
    /// World position of the object (bit patterns).
    pub position: Vec3Bits,
    /// Unit rotation axis of the object (bit patterns).
    pub rotation_axis: Vec3Bits,
    /// Rotation angle about the axis, in nano-radians.
    pub angle_nanos: u64,
    /// Surface aspect ratio (bit pattern).
    pub aspect_ratio: u32,
    /// Vertical field of view in degrees (bit pattern).
    pub fov_y_deg: u32,
    /// Near clip plane distance (bit pattern).
    pub z_near: u32,
    /// Far clip plane distance (bit pattern).
    pub z_far: u32,
    /// Offset that moves the scene in front of the camera (bit patterns).
    pub camera_offset: Vec3Bits,
}

} // verus!
