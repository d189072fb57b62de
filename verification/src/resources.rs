//! The resource handle layer: typed wrappers around backend handles with a
//! single-owner lifetime.
//!
//! Each wrapper owns exactly one virtual handle. A wrapper can only be made
//! by a factory method of [`Device`], and destroying it consumes the
//! wrapper, so the type system already rules out most misuse; the contracts
//! tie every operation to the device's trace discipline, so use of a dead
//! handle is ruled out by proof as well.

use vstd::prelude::*;

use crate::desc::{
    BufferType, CullMode, TextureFormat, VertexAttribute, VertexBinding, WindingMode,
};
use crate::device::Device;
use crate::ops::{live_in, BufferContents, ContentsView, GpuOp, OpView};
use crate::{Error, ResourceKind};

verus! {

use vstd::string::StrSliceExecFns;

/// True when the text holds a NUL character, which the backend's C string
/// interface cannot carry (NUL is the one character UTF-8 encodes as a zero
/// byte).
pub open spec fn contains_nul(s: Seq<char>) -> bool {
    s.contains('\0')
}

/// Scan a string for a NUL character.
fn has_nul_char(s: &str) -> (r: bool)
    ensures
        r == contains_nul(s@),
{
    let n: usize = s.unicode_len();
    let mut i: usize = 0;
    while i < n
        invariant
            n == s@.len(),
            i <= n,
            forall|j: int| 0 <= j < i ==> s@[j] != '\0',
        decreases n - i,
    {
        if s.get_char(i) == '\0' {
            assert(s@[i as int] == '\0');
            return true;
        }
        i = i + 1;
    }
    false
}

/// A GPU memory region holding vertex, index or uniform data.
pub struct Buffer {
    id: u64,
}

impl Buffer {
    /// The virtual handle this wrapper owns.
    pub closed spec fn id(self) -> u64 {
        self.id
    }

    /// The wrapper is valid against `d`: its handle is live in `d`'s trace.
    pub open spec fn wf(self, d: Device) -> bool {
        live_in(d.history(), self.id())
    }

    pub fn handle(&self) -> (h: u64)
        ensures
            h == self.id(),
    {
        self.id
    }

    /// Release the buffer: records exactly one destroy of this handle, which
    /// the wrapper gives up by being consumed.
    pub fn destroy(self, device: &mut Device)
        requires
            old(device).wf(),
            self.wf(*old(device)),
        ensures
            final(device).wf(),
            final(device).history() == old(device).history().push(
                OpView::DestroyBuffer { buffer: self.id() },
            ),
            final(device).replayed() == old(device).replayed(),
            final(device).next_handle() == old(device).next_handle(),
            final(device).denied_handle() == old(device).denied_handle(),
            final(device).backend_kind() == old(device).backend_kind(),
            forall|h: u64|
                #[trigger] live_in(old(device).history(), h) && h != self.id() ==> live_in(
                    final(device).history(),
                    h,
                ),
    {
        let ghost hist = device.history();
        let ghost op_view = OpView::DestroyBuffer { buffer: self.id };
        device.record(GpuOp::DestroyBuffer { buffer: self.id });
        proof {
            assert forall|h: u64|
                #[trigger] live_in(hist, h) && h != self.id() implies live_in(
                hist.push(op_view),
                h,
            ) by {
                crate::ops::lemma_push_preserves_live(hist, op_view, h);
            }
        }
    }
}

/// A compiled vertex + fragment shader program pair.
pub struct ShaderStages {
    id: u64,
}

impl ShaderStages {
    pub closed spec fn id(self) -> u64 {
        self.id
    }

    pub open spec fn wf(self, d: Device) -> bool {
        live_in(d.history(), self.id())
    }

    pub fn handle(&self) -> (h: u64)
        ensures
            h == self.id(),
    {
        self.id
    }

    pub fn destroy(self, device: &mut Device)
        requires
            old(device).wf(),
            self.wf(*old(device)),
        ensures
            final(device).wf(),
            final(device).history() == old(device).history().push(
                OpView::DestroyShaderStages { stages: self.id() },
            ),
            final(device).replayed() == old(device).replayed(),
            final(device).next_handle() == old(device).next_handle(),
            final(device).denied_handle() == old(device).denied_handle(),
            final(device).backend_kind() == old(device).backend_kind(),
            forall|h: u64|
                #[trigger] live_in(old(device).history(), h) && h != self.id() ==> live_in(
                    final(device).history(),
                    h,
                ),
    {
        let ghost hist = device.history();
        let ghost op_view = OpView::DestroyShaderStages { stages: self.id };
        device.record(GpuOp::DestroyShaderStages { stages: self.id });
        proof {
            assert forall|h: u64|
                #[trigger] live_in(hist, h) && h != self.id() implies live_in(
                hist.push(op_view),
                h,
            ) by {
                crate::ops::lemma_push_preserves_live(hist, op_view, h);
            }
        }
    }
}

/// A vertex buffer layout description.
pub struct VertexInputState {
    id: u64,
}

impl VertexInputState {
    pub closed spec fn id(self) -> u64 {
        self.id
    }

    pub open spec fn wf(self, d: Device) -> bool {
        live_in(d.history(), self.id())
    }

    pub fn handle(&self) -> (h: u64)
        ensures
            h == self.id(),
    {
        self.id
    }

    pub fn destroy(self, device: &mut Device)
        requires
            old(device).wf(),
            self.wf(*old(device)),
        ensures
            final(device).wf(),
            final(device).history() == old(device).history().push(
                OpView::DestroyVertexInputState { state: self.id() },
            ),
            final(device).replayed() == old(device).replayed(),
            final(device).next_handle() == old(device).next_handle(),
            final(device).denied_handle() == old(device).denied_handle(),
            final(device).backend_kind() == old(device).backend_kind(),
            forall|h: u64|
                #[trigger] live_in(old(device).history(), h) && h != self.id() ==> live_in(
                    final(device).history(),
                    h,
                ),
    {
        let ghost hist = device.history();
        let ghost op_view = OpView::DestroyVertexInputState { state: self.id };
        device.record(GpuOp::DestroyVertexInputState { state: self.id });
        proof {
            assert forall|h: u64|
                #[trigger] live_in(hist, h) && h != self.id() implies live_in(
                hist.push(op_view),
                h,
            ) by {
                crate::ops::lemma_push_preserves_live(hist, op_view, h);
            }
        }
    }
}

/// A GPU image. Frame textures come from the backend's swapchain: the core
/// never owns them and never records a destroy for them, so they take no
/// part in the trace's handle discipline. `owned` is the explicit
/// owned-versus-borrowed tag; every texture obtainable today is borrowed.
#[derive(Debug)]
pub struct Texture {
    raw: u64,
    format_raw: u32,
    aspect_ratio_bits: u32,
    owned: bool,
}

impl Texture {
    /// The raw backend handle this view refers to.
    pub closed spec fn raw(self) -> u64 {
        self.raw
    }

    /// The numeric pixel-format tag the backend reported.
    pub closed spec fn format_spec(self) -> u32 {
        self.format_raw
    }

    /// The aspect ratio the backend reported, as a single-precision bit
    /// pattern.
    pub closed spec fn aspect_ratio_spec(self) -> u32 {
        self.aspect_ratio_bits
    }

    /// Whether the core owns the image (none are owned today).
    pub closed spec fn is_owned(self) -> bool {
        self.owned
    }

    /// A non-owning view of a backend texture, together with the properties
    /// the backend reported for it.
    pub fn from_raw(raw: u64, format_raw: u32, aspect_ratio_bits: u32) -> (t: Texture)
        ensures
            t.raw() == raw,
            t.format_spec() == format_raw,
            t.aspect_ratio_spec() == aspect_ratio_bits,
            !t.is_owned(),
    {
        Texture { raw, format_raw, aspect_ratio_bits, owned: false }
    }

    pub fn format(&self) -> (r: u32)
        ensures
            r == self.format_spec(),
    {
        self.format_raw
    }

    /// The aspect ratio as a single-precision bit pattern.
    pub fn aspect_ratio(&self) -> (r: u32)
        ensures
            r == self.aspect_ratio_spec(),
    {
        self.aspect_ratio_bits
    }
}

/// Validate one frame's texture acquisition as the backend reported it:
/// `success` is the backend's own verdict, and the two raw handles must be
/// non-null. On success the pair of non-owning views is handed back.
pub fn frame_textures(
    success: bool,
    color_raw: u64,
    color_format: u32,
    color_aspect_bits: u32,
    depth_raw: u64,
    depth_format: u32,
    depth_aspect_bits: u32,
) -> (r: Result<(Texture, Texture), Error>)
    ensures
        success && color_raw != 0 && depth_raw != 0 <==> r is Ok,
        r matches Ok(p) ==> {
            &&& p.0.raw() == color_raw
            &&& p.0.format_spec() == color_format
            &&& p.0.aspect_ratio_spec() == color_aspect_bits
            &&& !p.0.is_owned()
            &&& p.1.raw() == depth_raw
            &&& p.1.format_spec() == depth_format
            &&& p.1.aspect_ratio_spec() == depth_aspect_bits
            &&& !p.1.is_owned()
        },
        r matches Err(e) ==> e == Error::NullHandle,
{
    if !success || color_raw == 0 || depth_raw == 0 {
        Err(Error::NullHandle)
    } else {
        Ok((
            Texture::from_raw(color_raw, color_format, color_aspect_bits),
            Texture::from_raw(depth_raw, depth_format, depth_aspect_bits),
        ))
    }
}

/// A pair of render targets: one color texture and one depth texture.
pub struct Framebuffer {
    id: u64,
    color_raw: u64,
    color_format: u32,
    color_aspect_bits: u32,
    depth_raw: u64,
    depth_format: u32,
    depth_aspect_bits: u32,
}

impl Framebuffer {
    pub closed spec fn id(self) -> u64 {
        self.id
    }

    /// The raw handle of the currently bound color attachment.
    pub closed spec fn color_raw(self) -> u64 {
        self.color_raw
    }

    pub closed spec fn color_format_spec(self) -> u32 {
        self.color_format
    }

    pub closed spec fn depth_raw(self) -> u64 {
        self.depth_raw
    }

    pub closed spec fn depth_format_spec(self) -> u32 {
        self.depth_format
    }

    pub open spec fn wf(self, d: Device) -> bool {
        live_in(d.history(), self.id())
    }

    pub fn handle(&self) -> (h: u64)
        ensures
            h == self.id(),
    {
        self.id
    }

    /// Rebind the color attachment to this frame's drawable texture. The
    /// depth attachment's backing is assumed stable and is not re-bound.
    pub fn update_drawable(&mut self, device: &mut Device, color_texture: &Texture)
        requires
            old(device).wf(),
            old(self).wf(*old(device)),
        ensures
            final(device).wf(),
            final(self).wf(*final(device)),
            final(self).id() == old(self).id(),
            final(self).color_raw() == color_texture.raw(),
            final(self).color_format_spec() == color_texture.format_spec(),
            final(self).depth_raw() == old(self).depth_raw(),
            final(self).depth_format_spec() == old(self).depth_format_spec(),
            final(device).history() == old(device).history().push(
                OpView::UpdateDrawable {
                    framebuffer: old(self).id(),
                    color_texture: color_texture.raw(),
                },
            ),
            final(device).replayed() == old(device).replayed(),
            final(device).next_handle() == old(device).next_handle(),
            final(device).denied_handle() == old(device).denied_handle(),
            final(device).backend_kind() == old(device).backend_kind(),
            forall|h: u64|
                #[trigger] live_in(old(device).history(), h) ==> live_in(
                    final(device).history(),
                    h,
                ),
    {
        let ghost hist = device.history();
        let ghost op_view = OpView::UpdateDrawable {
            framebuffer: self.id,
            color_texture: color_texture.raw(),
        };
        let raw: u64 = color_texture.handle_raw();
        device.record(GpuOp::UpdateDrawable { framebuffer: self.id, color_texture: raw });
        self.color_raw = raw;
        self.color_format = color_texture.format();
        self.color_aspect_bits = color_texture.aspect_ratio();
        proof {
            assert forall|h: u64| #[trigger] live_in(hist, h) implies live_in(
                hist.push(op_view),
                h,
            ) by {
                crate::ops::lemma_push_preserves_live(hist, op_view, h);
            }
        }
    }

    /// A non-owning view of the currently bound color attachment.
    pub fn get_color_attachment(&self) -> (t: Texture)
        ensures
            t.raw() == self.color_raw(),
            t.format_spec() == self.color_format_spec(),
            !t.is_owned(),
    {
        Texture::from_raw(self.color_raw, self.color_format, self.color_aspect_bits)
    }

    pub fn destroy(self, device: &mut Device)
        requires
            old(device).wf(),
            self.wf(*old(device)),
        ensures
            final(device).wf(),
            final(device).history() == old(device).history().push(
                OpView::DestroyFramebuffer { framebuffer: self.id() },
            ),
            final(device).replayed() == old(device).replayed(),
            final(device).next_handle() == old(device).next_handle(),
            final(device).denied_handle() == old(device).denied_handle(),
            final(device).backend_kind() == old(device).backend_kind(),
            forall|h: u64|
                #[trigger] live_in(old(device).history(), h) && h != self.id() ==> live_in(
                    final(device).history(),
                    h,
                ),
    {
        let ghost hist = device.history();
        let ghost op_view = OpView::DestroyFramebuffer { framebuffer: self.id };
        device.record(GpuOp::DestroyFramebuffer { framebuffer: self.id });
        proof {
            assert forall|h: u64|
                #[trigger] live_in(hist, h) && h != self.id() implies live_in(
                hist.push(op_view),
                h,
            ) by {
                crate::ops::lemma_push_preserves_live(hist, op_view, h);
            }
        }
    }
}

/// An immutable bundle of compiled shaders and fixed-function state.
pub struct RenderPipelineState {
    id: u64,
}

impl RenderPipelineState {
    pub closed spec fn id(self) -> u64 {
        self.id
    }

    pub open spec fn wf(self, d: Device) -> bool {
        live_in(d.history(), self.id())
    }

    pub fn handle(&self) -> (h: u64)
        ensures
            h == self.id(),
    {
        self.id
    }

    pub fn destroy(self, device: &mut Device)
        requires
            old(device).wf(),
            self.wf(*old(device)),
        ensures
            final(device).wf(),
            final(device).history() == old(device).history().push(
                OpView::DestroyRenderPipeline { pipeline: self.id() },
            ),
            final(device).replayed() == old(device).replayed(),
            final(device).next_handle() == old(device).next_handle(),
            final(device).denied_handle() == old(device).denied_handle(),
            final(device).backend_kind() == old(device).backend_kind(),
            forall|h: u64|
                #[trigger] live_in(old(device).history(), h) && h != self.id() ==> live_in(
                    final(device).history(),
                    h,
                ),
    {
        let ghost hist = device.history();
        let ghost op_view = OpView::DestroyRenderPipeline { pipeline: self.id };
        device.record(GpuOp::DestroyRenderPipeline { pipeline: self.id });
        proof {
            assert forall|h: u64|
                #[trigger] live_in(hist, h) && h != self.id() implies live_in(
                hist.push(op_view),
                h,
            ) by {
                crate::ops::lemma_push_preserves_live(hist, op_view, h);
            }
        }
    }
}

impl Texture {
    /// Exec access to the raw backend handle, for the trace replayer.
    pub fn handle_raw(&self) -> (h: u64)
        ensures
            h == self.raw(),
    {
        self.raw
    }
}

/// All strings handed to the shader compiler must be expressible as
/// C strings: no NUL character.
pub open spec fn shader_strings_ok(
    source: Seq<char>,
    vertex_entry: Seq<char>,
    fragment_entry: Seq<char>,
) -> bool {
    &&& !contains_nul(source)
    &&& !contains_nul(vertex_entry)
    &&& !contains_nul(fragment_entry)
}

/// Every attribute name must be expressible as a C string.
pub open spec fn attribute_names_ok(attrs: Seq<crate::desc::VertexAttributeView>) -> bool {
    forall|i: int| 0 <= i < attrs.len() ==> !contains_nul(#[trigger] attrs[i].name)
}

impl Device {
    /// Create a buffer from a byte payload. The backend receives the length
    /// as a 32-bit value, so the payload must fit in one.
    pub fn create_buffer(&mut self, buffer_type: BufferType, data: &[u8]) -> (r: Result<
        Buffer,
        Error,
    >)
        requires
            old(self).wf(),
            data@.len() <= u32::MAX,
        ensures
            final(self).wf(),
            final(self).replayed() == old(self).replayed(),
            final(self).backend_kind() == old(self).backend_kind(),
            r is Ok <==> old(self).grants_one(),
            match r {
                Ok(b) => {
                    &&& b.id() == old(self).next_handle()
                    &&& b.wf(*final(self))
                    &&& final(self).next_handle() == old(self).next_handle() + 1
                    &&& final(self).denied_handle() == old(self).denied_handle()
                    &&& final(self).history() == old(self).history().push(
                        OpView::CreateBuffer {
                            buffer: old(self).next_handle(),
                            kind: buffer_type,
                            contents: ContentsView::Bytes(data@),
                        },
                    )
                },
                Err(e) => {
                    &&& e == Error::ResourceCreationFailed(ResourceKind::Buffer)
                    &&& final(self).history() == old(self).history()
                    &&& final(self).next_handle() == old(self).next_handle()
                    &&& final(self).denied_handle() == None::<u64>
                },
            },
            forall|h: u64|
                #[trigger] live_in(old(self).history(), h) ==> live_in(final(self).history(), h),
    {
        let ghost hist = self.history();
        let ghost bound = self.next_handle();
        match self.grant_id() {
            None => Err(Error::ResourceCreationFailed(ResourceKind::Buffer)),
            Some(id) => {
                let ghost op_view = OpView::CreateBuffer {
                    buffer: id,
                    kind: buffer_type,
                    contents: ContentsView::Bytes(data@),
                };
                self.record(
                    GpuOp::CreateBuffer {
                        buffer: id,
                        kind: buffer_type,
                        contents: BufferContents::Bytes(vstd::slice::slice_to_vec(data)),
                    },
                );
                proof {
                    assert forall|h: u64| #[trigger] live_in(hist, h) implies live_in(
                        hist.push(op_view),
                        h,
                    ) by {
                        crate::ops::lemma_push_preserves_live(hist, op_view, h);
                    }
                    crate::ops::lemma_push_destroyed(hist, op_view, id);
                }
                Ok(Buffer { id })
            },
        }
    }

    /// Create a short-lived uniform buffer holding one model-view-projection
    /// matrix. The core carries the matrix parameters; the driver that
    /// replays the trace evaluates them in single precision when it uploads
    /// the buffer.
    pub fn create_mvp_uniform_buffer(&mut self, params: crate::desc::MvpParams) -> (r: Result<
        Buffer,
        Error,
    >)
        requires
            old(self).wf(),
        ensures
            final(self).wf(),
            final(self).replayed() == old(self).replayed(),
            final(self).backend_kind() == old(self).backend_kind(),
            r is Ok <==> old(self).grants_one(),
            match r {
                Ok(b) => {
                    &&& b.id() == old(self).next_handle()
                    &&& b.wf(*final(self))
                    &&& final(self).next_handle() == old(self).next_handle() + 1
                    &&& final(self).denied_handle() == old(self).denied_handle()
                    &&& final(self).history() == old(self).history().push(
                        OpView::CreateBuffer {
                            buffer: old(self).next_handle(),
                            kind: BufferType::Uniform,
                            contents: ContentsView::Mvp(params),
                        },
                    )
                },
                Err(e) => {
                    &&& e == Error::ResourceCreationFailed(ResourceKind::Buffer)
                    &&& final(self).history() == old(self).history()
                    &&& final(self).next_handle() == old(self).next_handle()
                    &&& final(self).denied_handle() == None::<u64>
                },
            },
            forall|h: u64|
                #[trigger] live_in(old(self).history(), h) ==> live_in(final(self).history(), h),
    {
        let ghost hist = self.history();
        match self.grant_id() {
            None => Err(Error::ResourceCreationFailed(ResourceKind::Buffer)),
            Some(id) => {
                let ghost op_view = OpView::CreateBuffer {
                    buffer: id,
                    kind: BufferType::Uniform,
                    contents: ContentsView::Mvp(params),
                };
                self.record(
                    GpuOp::CreateBuffer {
                        buffer: id,
                        kind: BufferType::Uniform,
                        contents: BufferContents::Mvp(params),
                    },
                );
                proof {
                    assert forall|h: u64| #[trigger] live_in(hist, h) implies live_in(
                        hist.push(op_view),
                        h,
                    ) by {
                        crate::ops::lemma_push_preserves_live(hist, op_view, h);
                    }
                    crate::ops::lemma_push_destroyed(hist, op_view, id);
                }
                Ok(Buffer { id })
            },
        }
    }

    /// Compile a vertex + fragment shader pair from source text and the two
    /// entry point names. Strings with interior zero bytes cannot reach the
    /// backend and are rejected.
    pub fn create_shader_stages_metal(
        &mut self,
        source: &str,
        vertex_entry: &str,
        fragment_entry: &str,
    ) -> (r: Result<ShaderStages, Error>)
        requires
            old(self).wf(),
        ensures
            final(self).wf(),
            final(self).replayed() == old(self).replayed(),
            final(self).backend_kind() == old(self).backend_kind(),
            r is Ok <==> shader_strings_ok(source@, vertex_entry@, fragment_entry@) && old(
                self,
            ).grants_one(),
            match r {
                Ok(s) => {
                    &&& s.id() == old(self).next_handle()
                    &&& s.wf(*final(self))
                    &&& final(self).next_handle() == old(self).next_handle() + 1
                    &&& final(self).denied_handle() == old(self).denied_handle()
                    &&& final(self).history() == old(self).history().push(
                        OpView::CreateShaderStages {
                            stages: old(self).next_handle(),
                            source: source@,
                            vertex_entry: vertex_entry@,
                            fragment_entry: fragment_entry@,
                        },
                    )
                },
                Err(e) => {
                    &&& final(self).history() == old(self).history()
                    &&& final(self).next_handle() == old(self).next_handle()
                    &&& if !shader_strings_ok(source@, vertex_entry@, fragment_entry@) {
                        e == Error::NullHandle
                            && final(self).denied_handle() == old(self).denied_handle()
                    } else {
                        e == Error::ResourceCreationFailed(ResourceKind::Shader)
                            && final(self).denied_handle() == None::<u64>
                    }
                },
            },
            forall|h: u64|
                #[trigger] live_in(old(self).history(), h) ==> live_in(final(self).history(), h),
    {
        if has_nul_char(source) || has_nul_char(vertex_entry) || has_nul_char(fragment_entry) {
            return Err(Error::NullHandle);
        }
        let ghost hist = self.history();
        let ghost bound = self.next_handle();
        match self.grant_id() {
            None => Err(Error::ResourceCreationFailed(ResourceKind::Shader)),
            Some(id) => {
                let ghost op_view = OpView::CreateShaderStages {
                    stages: id,
                    source: source@,
                    vertex_entry: vertex_entry@,
                    fragment_entry: fragment_entry@,
                };
                self.record(
                    GpuOp::CreateShaderStages {
                        stages: id,
                        source: source.to_owned(),
                        vertex_entry: vertex_entry.to_owned(),
                        fragment_entry: fragment_entry.to_owned(),
                    },
                );
                proof {
                    assert forall|h: u64| #[trigger] live_in(hist, h) implies live_in(
                        hist.push(op_view),
                        h,
                    ) by {
                        crate::ops::lemma_push_preserves_live(hist, op_view, h);
                    }
                    crate::ops::lemma_push_destroyed(hist, op_view, id);
                }
                Ok(ShaderStages { id })
            },
        }
    }

    /// Create a vertex-input description from attribute and binding lists.
    /// Attribute names travel to the backend as C strings and are kept
    /// alive alongside the native object by the replayer; names with
    /// interior zero bytes are rejected.
    pub fn create_vertex_input_state(
        &mut self,
        attributes: &[VertexAttribute],
        bindings: &[VertexBinding],
    ) -> (r: Result<VertexInputState, Error>)
        requires
            old(self).wf(),
        ensures
            final(self).wf(),
            final(self).replayed() == old(self).replayed(),
            final(self).backend_kind() == old(self).backend_kind(),
            r is Ok <==> attribute_names_ok(
                attributes@.map_values(|a: VertexAttribute| a@),
            ) && old(self).grants_one(),
            match r {
                Ok(s) => {
                    &&& s.id() == old(self).next_handle()
                    &&& s.wf(*final(self))
                    &&& final(self).next_handle() == old(self).next_handle() + 1
                    &&& final(self).denied_handle() == old(self).denied_handle()
                    &&& final(self).history() == old(self).history().push(
                        OpView::CreateVertexInputState {
                            state: old(self).next_handle(),
                            attributes: attributes@.map_values(|a: VertexAttribute| a@),
                            bindings: bindings@,
                        },
                    )
                },
                Err(e) => {
                    &&& final(self).history() == old(self).history()
                    &&& final(self).next_handle() == old(self).next_handle()
                    &&& if !attribute_names_ok(attributes@.map_values(|a: VertexAttribute| a@)) {
                        e == Error::NullHandle
                            && final(self).denied_handle() == old(self).denied_handle()
                    } else {
                        e == Error::ResourceCreationFailed(ResourceKind::VertexInputState)
                            && final(self).denied_handle() == None::<u64>
                    }
                },
            },
            forall|h: u64|
                #[trigger] live_in(old(self).history(), h) ==> live_in(final(self).history(), h),
    {
        let ghost attr_views = attributes@.map_values(|a: VertexAttribute| a@);
        let n: usize = attributes.len();
        let mut i: usize = 0;
        while i < n
            invariant
                *self == *old(self),
                old(self).wf(),
                n == attributes@.len(),
                attr_views == attributes@.map_values(|a: VertexAttribute| a@),
                i <= n,
                forall|j: int| 0 <= j < i ==> !contains_nul(#[trigger] attr_views[j].name),
            decreases n - i,
        {
            if has_nul_char(attributes[i].name.as_str()) {
                assert(contains_nul(attr_views[i as int].name));
                return Err(Error::NullHandle);
            }
            i = i + 1;
        }
        let mut owned_attrs: Vec<VertexAttribute> = Vec::new();
        let mut k: usize = 0;
        while k < n
            invariant
                n == attributes@.len(),
                owned_attrs@.len() == k,
                k <= n,
                forall|j: int| 0 <= j < k ==> #[trigger] owned_attrs@[j]@ == attributes@[j]@,
            decreases n - k,
        {
            let a: &VertexAttribute = &attributes[k];
            owned_attrs.push(
                VertexAttribute {
                    buffer_index: a.buffer_index,
                    format: a.format,
                    offset: a.offset,
                    name: a.name.clone(),
                    location: a.location,
                },
            );
            k = k + 1;
        }
        proof {
            assert(owned_attrs@.map_values(|a: VertexAttribute| a@) =~= attr_views);
        }
        let ghost hist = self.history();
        let ghost bound = self.next_handle();
        match self.grant_id() {
            None => Err(Error::ResourceCreationFailed(ResourceKind::VertexInputState)),
            Some(id) => {
                let ghost op_view = OpView::CreateVertexInputState {
                    state: id,
                    attributes: attr_views,
                    bindings: bindings@,
                };
                self.record(
                    GpuOp::CreateVertexInputState {
                        state: id,
                        attributes: owned_attrs,
                        bindings: vstd::slice::slice_to_vec(bindings),
                    },
                );
                proof {
                    assert forall|h: u64| #[trigger] live_in(hist, h) implies live_in(
                        hist.push(op_view),
                        h,
                    ) by {
                        crate::ops::lemma_push_preserves_live(hist, op_view, h);
                    }
                    crate::ops::lemma_push_destroyed(hist, op_view, id);
                }
                Ok(VertexInputState { id })
            },
        }
    }

    /// Bind a color texture and a depth texture as a framebuffer.
    pub fn create_framebuffer(&mut self, color_texture: &Texture, depth_texture: &Texture) -> (r:
        Result<Framebuffer, Error>)
        requires
            old(self).wf(),
        ensures
            final(self).wf(),
            final(self).replayed() == old(self).replayed(),
            final(self).backend_kind() == old(self).backend_kind(),
            r is Ok <==> old(self).grants_one(),
            match r {
                Ok(f) => {
                    &&& f.id() == old(self).next_handle()
                    &&& f.wf(*final(self))
                    &&& f.color_raw() == color_texture.raw()
                    &&& f.color_format_spec() == color_texture.format_spec()
                    &&& f.depth_raw() == depth_texture.raw()
                    &&& f.depth_format_spec() == depth_texture.format_spec()
                    &&& final(self).next_handle() == old(self).next_handle() + 1
                    &&& final(self).denied_handle() == old(self).denied_handle()
                    &&& final(self).history() == old(self).history().push(
                        OpView::CreateFramebuffer {
                            framebuffer: old(self).next_handle(),
                            color_texture: color_texture.raw(),
                            depth_texture: depth_texture.raw(),
                        },
                    )
                },
                Err(e) => {
                    &&& e == Error::ResourceCreationFailed(ResourceKind::Framebuffer)
                    &&& final(self).history() == old(self).history()
                    &&& final(self).next_handle() == old(self).next_handle()
                    &&& final(self).denied_handle() == None::<u64>
                },
            },
            forall|h: u64|
                #[trigger] live_in(old(self).history(), h) ==> live_in(final(self).history(), h),
    {
        let ghost hist = self.history();
        let ghost bound = self.next_handle();
        match self.grant_id() {
            None => Err(Error::ResourceCreationFailed(ResourceKind::Framebuffer)),
            Some(id) => {
                let color_raw: u64 = color_texture.handle_raw();
                let depth_raw: u64 = depth_texture.handle_raw();
                let ghost op_view = OpView::CreateFramebuffer {
                    framebuffer: id,
                    color_texture: color_raw,
                    depth_texture: depth_raw,
                };
                self.record(
                    GpuOp::CreateFramebuffer {
                        framebuffer: id,
                        color_texture: color_raw,
                        depth_texture: depth_raw,
                    },
                );
                proof {
                    assert forall|h: u64| #[trigger] live_in(hist, h) implies live_in(
                        hist.push(op_view),
                        h,
                    ) by {
                        crate::ops::lemma_push_preserves_live(hist, op_view, h);
                    }
                    crate::ops::lemma_push_destroyed(hist, op_view, id);
                }
                Ok(
                    Framebuffer {
                        id,
                        color_raw,
                        color_format: color_texture.format(),
                        color_aspect_bits: color_texture.aspect_ratio(),
                        depth_raw,
                        depth_format: depth_texture.format(),
                        depth_aspect_bits: depth_texture.aspect_ratio(),
                    },
                )
            },
        }
    }

    /// Compile a render pipeline from a vertex layout, a shader pair, the
    /// two attachment pixel formats and the fixed-function state.
    pub fn create_render_pipeline(
        &mut self,
        vertex_input: &VertexInputState,
        shaders: &ShaderStages,
        color_format: TextureFormat,
        depth_format: TextureFormat,
        cull_mode: CullMode,
        winding_mode: WindingMode,
    ) -> (r: Result<RenderPipelineState, Error>)
        requires
            old(self).wf(),
            vertex_input.wf(*old(self)),
            shaders.wf(*old(self)),
        ensures
            final(self).wf(),
            final(self).replayed() == old(self).replayed(),
            final(self).backend_kind() == old(self).backend_kind(),
            r is Ok <==> old(self).grants_one(),
            match r {
                Ok(p) => {
                    &&& p.id() == old(self).next_handle()
                    &&& p.wf(*final(self))
                    &&& final(self).next_handle() == old(self).next_handle() + 1
                    &&& final(self).denied_handle() == old(self).denied_handle()
                    &&& final(self).history() == old(self).history().push(
                        OpView::CreateRenderPipeline {
                            pipeline: old(self).next_handle(),
                            vertex_input: vertex_input.id(),
                            stages: shaders.id(),
                            color_format,
                            depth_format,
                            cull_mode,
                            winding_mode,
                        },
                    )
                },
                Err(e) => {
                    &&& e == Error::ResourceCreationFailed(ResourceKind::Pipeline)
                    &&& final(self).history() == old(self).history()
                    &&& final(self).next_handle() == old(self).next_handle()
                    &&& final(self).denied_handle() == None::<u64>
                },
            },
            forall|h: u64|
                #[trigger] live_in(old(self).history(), h) ==> live_in(final(self).history(), h),
    {
        let ghost hist = self.history();
        let ghost bound = self.next_handle();
        match self.grant_id() {
            None => Err(Error::ResourceCreationFailed(ResourceKind::Pipeline)),
            Some(id) => {
                let ghost op_view = OpView::CreateRenderPipeline {
                    pipeline: id,
                    vertex_input: vertex_input.id(),
                    stages: shaders.id(),
                    color_format,
                    depth_format,
                    cull_mode,
                    winding_mode,
                };
                let vi: u64 = vertex_input.handle();
                let ss: u64 = shaders.handle();
                self.record(
                    GpuOp::CreateRenderPipeline {
                        pipeline: id,
                        vertex_input: vi,
                        stages: ss,
                        color_format,
                        depth_format,
                        cull_mode,
                        winding_mode,
                    },
                );
                proof {
                    assert forall|h: u64| #[trigger] live_in(hist, h) implies live_in(
                        hist.push(op_view),
                        h,
                    ) by {
                        crate::ops::lemma_push_preserves_live(hist, op_view, h);
                    }
                    crate::ops::lemma_push_destroyed(hist, op_view, id);
                }
                Ok(RenderPipelineState { id })
            },
        }
    }
}

} // verus!
