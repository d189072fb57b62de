//! The backend command vocabulary and the lifecycle rules of a command trace.
//!
//! Every operation the core would issue against the native backend is
//! recorded as a [`GpuOp`]. A trace (the sequence of recorded operations) is
//! what the lifecycle properties are stated over: handles are created with
//! fresh identifiers, used only between creation and destruction, and
//! destroyed at most once. Ending a render encoder is its destruction: the
//! backend must be told exactly once, so a second end, or any use after the
//! end, is ruled out by the same discipline.

use vstd::prelude::*;

use crate::desc::{
    BufferType, ColorAttachment, CullMode, DepthAttachment, IndexFormat, MvpParams,
    TextureFormat, VertexAttribute, VertexAttributeView, VertexBinding, WindingMode,
};

verus! {

/// What a newly created buffer holds.
#[derive(Debug, Clone)]
pub enum BufferContents {
    /// Raw little-endian bytes, fixed by the core.
    Bytes(Vec<u8>),
    /// A model-view-projection matrix; the replayer evaluates it in
    /// single-precision from the recorded parameters.
    Mvp(MvpParams),
}

/// Ghost image of [`BufferContents`].
pub ghost enum ContentsView {
    Bytes(Seq<u8>),
    Mvp(MvpParams),
}

impl View for BufferContents {
    type V = ContentsView;

    open spec fn view(&self) -> ContentsView {
        match self {
            BufferContents::Bytes(b) => ContentsView::Bytes(b@),
            BufferContents::Mvp(p) => ContentsView::Mvp(*p),
        }
    }
}

/// One operation against the native backend, with virtual handle ids.
///
/// Texture handles (`texture`, `color_texture`, `depth_texture` fields) are
/// raw backend values owned by the swapchain, not by this core; they are
/// carried through untouched and take no part in the lifecycle rules.
#[derive(Debug, Clone)]
pub enum GpuOp {
    CreateCommandQueue { queue: u64 },
    DestroyCommandQueue { queue: u64 },
    CreateCommandBuffer { queue: u64, buffer: u64 },
    DestroyCommandBuffer { buffer: u64 },
    Submit { queue: u64, buffer: u64 },
    Present { buffer: u64, texture: u64 },
    CreateBuffer { buffer: u64, kind: BufferType, contents: BufferContents },
    DestroyBuffer { buffer: u64 },
    CreateShaderStages { stages: u64, source: String, vertex_entry: String, fragment_entry: String },
    DestroyShaderStages { stages: u64 },
    CreateVertexInputState { state: u64, attributes: Vec<VertexAttribute>, bindings: Vec<VertexBinding> },
    DestroyVertexInputState { state: u64 },
    CreateFramebuffer { framebuffer: u64, color_texture: u64, depth_texture: u64 },
    DestroyFramebuffer { framebuffer: u64 },
    UpdateDrawable { framebuffer: u64, color_texture: u64 },
    CreateRenderPipeline {
        pipeline: u64,
        vertex_input: u64,
        stages: u64,
        color_format: TextureFormat,
        depth_format: TextureFormat,
        cull_mode: CullMode,
        winding_mode: WindingMode,
    },
    DestroyRenderPipeline { pipeline: u64 },
    CreateRenderEncoder {
        encoder: u64,
        buffer: u64,
        framebuffer: u64,
        color_attachment: ColorAttachment,
        depth_attachment: DepthAttachment,
    },
    EndEncoding { encoder: u64 },
    BindVertexBuffer { encoder: u64, index: u32, buffer: u64 },
    BindIndexBuffer { encoder: u64, buffer: u64, format: IndexFormat },
    BindPipeline { encoder: u64, pipeline: u64 },
    BindUniformBuffer { encoder: u64, index: u32, buffer: u64 },
    DrawIndexed { encoder: u64, index_count: u32 },
}

/// Ghost image of [`GpuOp`].
pub ghost enum OpView {
    CreateCommandQueue { queue: u64 },
    DestroyCommandQueue { queue: u64 },
    CreateCommandBuffer { queue: u64, buffer: u64 },
    DestroyCommandBuffer { buffer: u64 },
    Submit { queue: u64, buffer: u64 },
    Present { buffer: u64, texture: u64 },
    CreateBuffer { buffer: u64, kind: BufferType, contents: ContentsView },
    DestroyBuffer { buffer: u64 },
    CreateShaderStages { stages: u64, source: Seq<char>, vertex_entry: Seq<char>, fragment_entry: Seq<char> },
    DestroyShaderStages { stages: u64 },
    CreateVertexInputState { state: u64, attributes: Seq<VertexAttributeView>, bindings: Seq<VertexBinding> },
    DestroyVertexInputState { state: u64 },
    CreateFramebuffer { framebuffer: u64, color_texture: u64, depth_texture: u64 },
    DestroyFramebuffer { framebuffer: u64 },
    UpdateDrawable { framebuffer: u64, color_texture: u64 },
    CreateRenderPipeline {
        pipeline: u64,
        vertex_input: u64,
        stages: u64,
        color_format: TextureFormat,
        depth_format: TextureFormat,
        cull_mode: CullMode,
        winding_mode: WindingMode,
    },
    DestroyRenderPipeline { pipeline: u64 },
    CreateRenderEncoder {
        encoder: u64,
        buffer: u64,
        framebuffer: u64,
        color_attachment: ColorAttachment,
        depth_attachment: DepthAttachment,
    },
    EndEncoding { encoder: u64 },
    BindVertexBuffer { encoder: u64, index: u32, buffer: u64 },
    BindIndexBuffer { encoder: u64, buffer: u64, format: IndexFormat },
    BindPipeline { encoder: u64, pipeline: u64 },
    BindUniformBuffer { encoder: u64, index: u32, buffer: u64 },
    DrawIndexed { encoder: u64, index_count: u32 },
}

impl View for GpuOp {
    type V = OpView;

    open spec fn view(&self) -> OpView {
        match self {
            GpuOp::CreateCommandQueue { queue } => OpView::CreateCommandQueue { queue: *queue },
            GpuOp::DestroyCommandQueue { queue } => OpView::DestroyCommandQueue { queue: *queue },
            GpuOp::CreateCommandBuffer { queue, buffer } => OpView::CreateCommandBuffer {
                queue: *queue,
                buffer: *buffer,
            },
            GpuOp::DestroyCommandBuffer { buffer } => OpView::DestroyCommandBuffer {
                buffer: *buffer,
            },
            GpuOp::Submit { queue, buffer } => OpView::Submit { queue: *queue, buffer: *buffer },
            GpuOp::Present { buffer, texture } => OpView::Present {
                buffer: *buffer,
                texture: *texture,
            },
            GpuOp::CreateBuffer { buffer, kind, contents } => OpView::CreateBuffer {
                buffer: *buffer,
                kind: *kind,
                contents: contents@,
            },
            GpuOp::DestroyBuffer { buffer } => OpView::DestroyBuffer { buffer: *buffer },
            GpuOp::CreateShaderStages { stages, source, vertex_entry, fragment_entry } => {
                OpView::CreateShaderStages {
                    stages: *stages,
                    source: source@,
                    vertex_entry: vertex_entry@,
                    fragment_entry: fragment_entry@,
                }
            },
            GpuOp::DestroyShaderStages { stages } => OpView::DestroyShaderStages {
                stages: *stages,
            },
            GpuOp::CreateVertexInputState { state, attributes, bindings } => {
                OpView::CreateVertexInputState {
                    state: *state,
                    attributes: attributes@.map_values(|a: VertexAttribute| a@),
                    bindings: bindings@,
                }
            },
            GpuOp::DestroyVertexInputState { state } => OpView::DestroyVertexInputState {
                state: *state,
            },
            GpuOp::CreateFramebuffer { framebuffer, color_texture, depth_texture } => {
                OpView::CreateFramebuffer {
                    framebuffer: *framebuffer,
                    color_texture: *color_texture,
                    depth_texture: *depth_texture,
                }
            },
            GpuOp::DestroyFramebuffer { framebuffer } => OpView::DestroyFramebuffer {
                framebuffer: *framebuffer,
            },
            GpuOp::UpdateDrawable { framebuffer, color_texture } => OpView::UpdateDrawable {
                framebuffer: *framebuffer,
                color_texture: *color_texture,
            },
            GpuOp::CreateRenderPipeline {
                pipeline,
                vertex_input,
                stages,
                color_format,
                depth_format,
                cull_mode,
                winding_mode,
            } => OpView::CreateRenderPipeline {
                pipeline: *pipeline,
                vertex_input: *vertex_input,
                stages: *stages,
                color_format: *color_format,
                depth_format: *depth_format,
                cull_mode: *cull_mode,
                winding_mode: *winding_mode,
            },
            GpuOp::DestroyRenderPipeline { pipeline } => OpView::DestroyRenderPipeline {
                pipeline: *pipeline,
            },
            GpuOp::CreateRenderEncoder {
                encoder,
                buffer,
                framebuffer,
                color_attachment,
                depth_attachment,
            } => OpView::CreateRenderEncoder {
                encoder: *encoder,
                buffer: *buffer,
                framebuffer: *framebuffer,
                color_attachment: *color_attachment,
                depth_attachment: *depth_attachment,
            },
            GpuOp::EndEncoding { encoder } => OpView::EndEncoding { encoder: *encoder },
            GpuOp::BindVertexBuffer { encoder, index, buffer } => OpView::BindVertexBuffer {
                encoder: *encoder,
                index: *index,
                buffer: *buffer,
            },
            GpuOp::BindIndexBuffer { encoder, buffer, format } => OpView::BindIndexBuffer {
                encoder: *encoder,
                buffer: *buffer,
                format: *format,
            },
            GpuOp::BindPipeline { encoder, pipeline } => OpView::BindPipeline {
                encoder: *encoder,
                pipeline: *pipeline,
            },
            GpuOp::BindUniformBuffer { encoder, index, buffer } => OpView::BindUniformBuffer {
                encoder: *encoder,
                index: *index,
                buffer: *buffer,
            },
            GpuOp::DrawIndexed { encoder, index_count } => OpView::DrawIndexed {
                encoder: *encoder,
                index_count: *index_count,
            },
        }
    }
}

/// The handle an operation brings into existence, if any.
pub open spec fn op_created(op: OpView) -> Option<u64> {
    match op {
        OpView::CreateCommandQueue { queue } => Some(queue),
        OpView::CreateCommandBuffer { buffer, .. } => Some(buffer),
        OpView::CreateBuffer { buffer, .. } => Some(buffer),
        OpView::CreateShaderStages { stages, .. } => Some(stages),
        OpView::CreateVertexInputState { state, .. } => Some(state),
        OpView::CreateFramebuffer { framebuffer, .. } => Some(framebuffer),
        OpView::CreateRenderPipeline { pipeline, .. } => Some(pipeline),
        OpView::CreateRenderEncoder { encoder, .. } => Some(encoder),
        _ => None,
    }
}

/// The handle an operation retires, if any. Ending a render encoder is the
/// encoder's terminal operation, so it counts as its destruction.
pub open spec fn op_destroyed(op: OpView) -> Option<u64> {
    match op {
        OpView::DestroyCommandQueue { queue } => Some(queue),
        OpView::DestroyCommandBuffer { buffer } => Some(buffer),
        OpView::DestroyBuffer { buffer } => Some(buffer),
        OpView::DestroyShaderStages { stages } => Some(stages),
        OpView::DestroyVertexInputState { state } => Some(state),
        OpView::DestroyFramebuffer { framebuffer } => Some(framebuffer),
        OpView::DestroyRenderPipeline { pipeline } => Some(pipeline),
        OpView::EndEncoding { encoder } => Some(encoder),
        _ => None,
    }
}

/// Whether an operation mentions handle `h` in any core-owned role —
/// creating it, retiring it, or depending on it. Raw texture handles are
/// backend-owned and are not counted.
pub open spec fn op_uses(op: OpView, h: u64) -> bool {
    op_created(op) == Some(h) || op_destroyed(op) == Some(h) || match op {
        OpView::CreateCommandBuffer { queue, .. } => queue == h,
        OpView::Submit { queue, buffer } => queue == h || buffer == h,
        OpView::Present { buffer, .. } => buffer == h,
        OpView::UpdateDrawable { framebuffer, .. } => framebuffer == h,
        OpView::CreateRenderPipeline { vertex_input, stages, .. } => vertex_input == h
            || stages == h,
        OpView::CreateRenderEncoder { buffer, framebuffer, .. } => buffer == h
            || framebuffer == h,
        OpView::BindVertexBuffer { encoder, buffer, .. } => encoder == h || buffer == h,
        OpView::BindIndexBuffer { encoder, buffer, .. } => encoder == h || buffer == h,
        OpView::BindPipeline { encoder, pipeline } => encoder == h || pipeline == h,
        OpView::BindUniformBuffer { encoder, buffer, .. } => encoder == h || buffer == h,
        OpView::DrawIndexed { encoder, .. } => encoder == h,
        _ => false,
    }
}

/// Handle `h` has been created somewhere in the trace.
pub open spec fn created_in(t: Seq<OpView>, h: u64) -> bool {
    exists|i: int| 0 <= i < t.len() && #[trigger] op_created(t[i]) == Some(h)
}

/// Handle `h` has been destroyed somewhere in the trace.
pub open spec fn destroyed_in(t: Seq<OpView>, h: u64) -> bool {
    exists|i: int| 0 <= i < t.len() && #[trigger] op_destroyed(t[i]) == Some(h)
}

/// Handle `h` exists and has not been retired: it may still be used.
pub open spec fn live_in(t: Seq<OpView>, h: u64) -> bool {
    created_in(t, h) && !destroyed_in(t, h)
}

/// Every handle the trace creates is nonzero (never the backend's null
/// value) and below `bound`.
pub open spec fn ids_below(t: Seq<OpView>, bound: u64) -> bool {
    forall|i: int|
        #![trigger op_created(t[i])]
        0 <= i < t.len() ==> (op_created(t[i]) matches Some(h) ==> 1 <= h < bound)
}

/// No handle is created twice.
pub open spec fn created_once(t: Seq<OpView>) -> bool {
    forall|i: int, j: int|
        #![trigger op_created(t[i]), op_created(t[j])]
        0 <= i < j < t.len() && op_created(t[i]) is Some ==> op_created(t[i]) != op_created(t[j])
}

/// Every use of a handle comes at or after its creation.
pub open spec fn created_before_use(t: Seq<OpView>) -> bool {
    forall|j: int, h: u64|
        0 <= j < t.len() && #[trigger] op_uses(t[j], h) ==> created_in(t.take(j + 1), h)
}

/// Once a handle is destroyed, no later operation mentions it. Since a
/// destroy mentions its own handle, this also says no handle is destroyed
/// twice, and no encoder is ended twice.
pub open spec fn no_use_after_destroy(t: Seq<OpView>) -> bool {
    forall|i: int, j: int, h: u64|
        0 <= i < j < t.len() && #[trigger] op_destroyed(t[i]) == Some(h) ==> !#[trigger] op_uses(
            t[j],
            h,
        )
}

/// The full lifecycle discipline of a trace whose allocator has handed out
/// ids strictly below `bound`.
pub open spec fn trace_inv(t: Seq<OpView>, bound: u64) -> bool {
    ids_below(t, bound) && created_once(t) && created_before_use(t) && no_use_after_destroy(t)
}

/// Recording one more operation keeps the lifecycle discipline, provided the
/// operation only depends on live handles, destroys only a live handle, and
/// creates only a fresh one.
pub proof fn lemma_record_preserves_trace_inv(t: Seq<OpView>, op: OpView, bound: u64)
    requires
        trace_inv(t, bound),
        forall|h: u64|
            #[trigger] op_uses(op, h) && op_created(op) != Some(h) ==> live_in(t, h),
        match op_created(op) {
            Some(h) => 1 <= h < bound && !created_in(t, h) && !destroyed_in(t, h),
            None => true,
        },
    ensures
        trace_inv(t.push(op), bound),
{
    let t2 = t.push(op);
    assert forall|i: int|
        #![trigger op_created(t2[i])]
        0 <= i < t2.len() implies (op_created(t2[i]) matches Some(h) ==> 1 <= h < bound) by {
        if i < t.len() {
            assert(op_created(t[i]) == op_created(t2[i]));
        }
    }
    assert forall|i: int, j: int|
        #![trigger op_created(t2[i]), op_created(t2[j])]
        0 <= i < j < t2.len() && op_created(t2[i]) is Some implies op_created(t2[i]) != op_created(
        t2[j],
    ) by {
        if j < t.len() {
            assert(op_created(t[i]) == op_created(t2[i]));
            assert(op_created(t[j]) == op_created(t2[j]));
        } else {
            assert(t2[i] == t[i]);
            if op_created(op) is Some && op_created(op) == op_created(t2[i]) {
                let h = op_created(op)->Some_0;
                assert(op_created(t[i]) == Some(h));
                assert(created_in(t, h));
            }
        }
    }
    assert forall|j: int, h: u64|
        0 <= j < t2.len() && #[trigger] op_uses(t2[j], h) implies created_in(t2.take(j + 1), h) by {
        if j < t.len() {
            assert(op_uses(t[j], h));
            assert(created_in(t.take(j + 1), h));
            let w = choose|i: int|
                0 <= i < t.take(j + 1).len() && #[trigger] op_created(t.take(j + 1)[i]) == Some(h);
            assert(t2.take(j + 1) =~= t.take(j + 1));
        } else {
            assert(t2[j] == op);
            assert(t2.take(j + 1) =~= t2);
            if op_created(op) == Some(h) {
                assert(op_created(t2[j]) == Some(h));
            } else {
                assert(live_in(t, h));
                let w = choose|i: int|
                    0 <= i < t.len() && #[trigger] op_created(t[i]) == Some(h);
                assert(op_created(t2[w]) == Some(h));
            }
        }
    }
    assert forall|i: int, j: int, h: u64|
        0 <= i < j < t2.len() && #[trigger] op_destroyed(t2[i]) == Some(h) implies !#[trigger] op_uses(
        t2[j],
        h,
    ) by {
        if j < t.len() {
            assert(op_destroyed(t[i]) == Some(h));
            assert(!op_uses(t[j], h));
        } else {
            assert(i < t.len());
            assert(op_destroyed(t[i]) == Some(h));
            assert(destroyed_in(t, h));
            if op_uses(op, h) {
                if op_created(op) == Some(h) {
                    // a destroyed handle was created earlier, so it cannot be fresh
                    assert(op_uses(t[i], h));
                    assert(created_in(t.take(i + 1), h));
                    let w = choose|k: int|
                        0 <= k < t.take(i + 1).len() && #[trigger] op_created(t.take(i + 1)[k])
                            == Some(h);
                    assert(op_created(t[w]) == Some(h));
                    assert(created_in(t, h));
                } else {
                    assert(live_in(t, h));
                }
            }
        }
    }
}

/// How many operations of a trace satisfy `f`.
pub open spec fn count_ops(t: Seq<OpView>, f: spec_fn(OpView) -> bool) -> int
    decreases t.len(),
{
    if t.len() == 0 {
        0
    } else {
        (if f(t[0]) {
            1int
        } else {
            0int
        }) + count_ops(t.skip(1), f)
    }
}

/// The operation creates a framebuffer.
pub open spec fn is_framebuffer_create(op: OpView) -> bool {
    op matches OpView::CreateFramebuffer { .. }
}

/// The operation compiles a render pipeline.
pub open spec fn is_pipeline_create(op: OpView) -> bool {
    op matches OpView::CreateRenderPipeline { .. }
}

/// The operation creates a uniform buffer.
pub open spec fn is_uniform_create(op: OpView) -> bool {
    op matches OpView::CreateBuffer { kind: BufferType::Uniform, .. }
}

/// The operation issues an indexed draw.
pub open spec fn is_draw(op: OpView) -> bool {
    op matches OpView::DrawIndexed { .. }
}

/// The operation begins a render encoder.
pub open spec fn is_encoder_create(op: OpView) -> bool {
    op matches OpView::CreateRenderEncoder { .. }
}

/// The operation ends a render encoder.
pub open spec fn is_end_encoding(op: OpView) -> bool {
    op matches OpView::EndEncoding { .. }
}

/// The operation rebinds a framebuffer's drawable.
pub open spec fn is_update_drawable(op: OpView) -> bool {
    op matches OpView::UpdateDrawable { .. }
}

/// Counting distributes over concatenation.
pub broadcast proof fn lemma_count_ops_add(a: Seq<OpView>, b: Seq<OpView>, f: spec_fn(OpView) -> bool)
    ensures
        #[trigger] count_ops(a + b, f) == count_ops(a, f) + count_ops(b, f),
    decreases a.len(),
{
    if a.len() == 0 {
        assert(a + b =~= b);
        assert(a =~= Seq::<OpView>::empty());
        assert(count_ops(Seq::<OpView>::empty(), f) == 0);
    } else {
        assert((a + b).len() != 0);
        assert((a + b)[0] == a[0]);
        assert((a + b).skip(1) =~= a.skip(1) + b);
        lemma_count_ops_add(a.skip(1), b, f);
    }
}

/// Counting steps over a pushed element.
pub broadcast proof fn lemma_count_ops_push(a: Seq<OpView>, x: OpView, f: spec_fn(OpView) -> bool)
    ensures
        #[trigger] count_ops(a.push(x), f) == count_ops(a, f) + (if f(x) {
            1int
        } else {
            0int
        }),
{
    assert(a.push(x) =~= a + seq![x]);
    lemma_count_ops_add(a, seq![x], f);
    assert(seq![x].skip(1) =~= Seq::<OpView>::empty());
    assert(count_ops(Seq::<OpView>::empty(), f) == 0);
    assert(count_ops(seq![x], f) == if f(x) {
        1int
    } else {
        0int
    });
}

/// How many framebuffer creations a trace holds.
pub open spec fn count_framebuffer_creates(t: Seq<OpView>) -> int {
    count_ops(t, |op: OpView| is_framebuffer_create(op))
}

/// How many pipeline creations a trace holds.
pub open spec fn count_pipeline_creates(t: Seq<OpView>) -> int {
    count_ops(t, |op: OpView| is_pipeline_create(op))
}

/// How many uniform-buffer creations a trace holds.
pub open spec fn count_uniform_creates(t: Seq<OpView>) -> int {
    count_ops(t, |op: OpView| is_uniform_create(op))
}

/// How many indexed draws a trace holds.
pub open spec fn count_draws(t: Seq<OpView>) -> int {
    count_ops(t, |op: OpView| is_draw(op))
}

/// How many encoder creations a trace holds.
pub open spec fn count_encoder_creates(t: Seq<OpView>) -> int {
    count_ops(t, |op: OpView| is_encoder_create(op))
}

/// How many encoder ends a trace holds.
pub open spec fn count_end_encodings(t: Seq<OpView>) -> int {
    count_ops(t, |op: OpView| is_end_encoding(op))
}

/// How many drawable rebinds a trace holds.
pub open spec fn count_update_drawables(t: Seq<OpView>) -> int {
    count_ops(t, |op: OpView| is_update_drawable(op))
}

/// A count is never negative.
pub proof fn lemma_count_ops_nonneg(t: Seq<OpView>, f: spec_fn(OpView) -> bool)
    ensures
        count_ops(t, f) >= 0,
    decreases t.len(),
{
    if t.len() != 0 {
        lemma_count_ops_nonneg(t.skip(1), f);
    }
}

/// A zero count means no element matches.
pub proof fn lemma_count_ops_zero(t: Seq<OpView>, f: spec_fn(OpView) -> bool)
    requires
        count_ops(t, f) == 0,
    ensures
        forall|i: int| 0 <= i < t.len() ==> !f(t[i]),
    decreases t.len(),
{
    if t.len() != 0 {
        lemma_count_ops_nonneg(t.skip(1), f);
        assert(!f(t[0]));
        lemma_count_ops_zero(t.skip(1), f);
        assert forall|i: int| 0 <= i < t.len() implies !f(t[i]) by {
            if i > 0 {
                assert(t.skip(1)[i - 1] == t[i]);
            }
        }
    }
}

/// A handle at or above the allocator's bound has never been seen in the
/// trace: never created, so never destroyed either.
pub proof fn lemma_fresh_id_unseen(t: Seq<OpView>, bound: u64, h: u64)
    requires
        trace_inv(t, bound),
        h >= bound,
    ensures
        !created_in(t, h),
        !destroyed_in(t, h),
{
    if created_in(t, h) {
        let i = choose|i: int| 0 <= i < t.len() && #[trigger] op_created(t[i]) == Some(h);
        assert(op_created(t[i]) matches Some(g) ==> 1 <= g < bound);
    }
    if destroyed_in(t, h) {
        let i = choose|i: int| 0 <= i < t.len() && #[trigger] op_destroyed(t[i]) == Some(h);
        assert(op_uses(t[i], h));
        assert(created_in(t.take(i + 1), h));
        let j = choose|j: int|
            0 <= j < t.take(i + 1).len() && #[trigger] op_created(t.take(i + 1)[j]) == Some(h);
        assert(t.take(i + 1)[j] == t[j]);
        assert(op_created(t[j]) matches Some(g) ==> 1 <= g < bound);
    }
}

/// A live handle stays live when an operation that does not retire it is
/// recorded.
pub proof fn lemma_push_preserves_live(t: Seq<OpView>, op: OpView, h: u64)
    requires
        live_in(t, h),
        op_destroyed(op) != Some(h),
    ensures
        live_in(t.push(op), h),
{
    let t2 = t.push(op);
    let w = choose|i: int| 0 <= i < t.len() && #[trigger] op_created(t[i]) == Some(h);
    assert(op_created(t2[w]) == Some(h));
    if destroyed_in(t2, h) {
        let d = choose|i: int| 0 <= i < t2.len() && #[trigger] op_destroyed(t2[i]) == Some(h);
        assert(0 <= d < t.len());
        assert(destroyed_in(t, h));
    }
}

/// Recording never resurrects a handle: whatever was destroyed stays
/// destroyed, and nothing new is destroyed unless the operation retires it.
pub proof fn lemma_push_destroyed(t: Seq<OpView>, op: OpView, h: u64)
    ensures
        destroyed_in(t.push(op), h) <==> destroyed_in(t, h) || op_destroyed(op) == Some(h),
        created_in(t.push(op), h) <==> created_in(t, h) || op_created(op) == Some(h),
{
    let t2 = t.push(op);
    if destroyed_in(t, h) {
        let d = choose|i: int| 0 <= i < t.len() && #[trigger] op_destroyed(t[i]) == Some(h);
        assert(op_destroyed(t2[d]) == Some(h));
    }
    if op_destroyed(op) == Some(h) {
        assert(op_destroyed(t2[t.len() as int]) == Some(h));
    }
    if destroyed_in(t2, h) && op_destroyed(op) != Some(h) {
        let d = choose|i: int| 0 <= i < t2.len() && #[trigger] op_destroyed(t2[i]) == Some(h);
        assert(0 <= d < t.len());
    }
    if created_in(t, h) {
        let c = choose|i: int| 0 <= i < t.len() && #[trigger] op_created(t[i]) == Some(h);
        assert(op_created(t2[c]) == Some(h));
    }
    if op_created(op) == Some(h) {
        assert(op_created(t2[t.len() as int]) == Some(h));
    }
    if created_in(t2, h) && op_created(op) != Some(h) {
        let c = choose|i: int| 0 <= i < t2.len() && #[trigger] op_created(t2[i]) == Some(h);
        assert(0 <= c < t.len());
    }
}

} // verus!
