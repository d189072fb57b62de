//! The command submission layer: queue, command buffer and render encoder,
//! modeling command recording and submission as a linear, single-use state
//! machine.
//!
//! A render encoder must reach its terminal "end encoding" state exactly
//! once. The encoder carries an explicit armed flag: the terminal call
//! disarms it and records the end exactly when it was still armed, and
//! [`RenderCommandEncoder::discard`] is the safety net for paths that drop
//! the encoder without ending it explicitly. In the recorded trace, ending
//! an encoder counts as its destruction, so the trace discipline proves the
//! backend is never told twice.

use vstd::prelude::*;

use crate::desc::{ColorAttachment, DepthAttachment, IndexFormat};
use crate::device::Device;
use crate::ops::{live_in, GpuOp, OpView};
use crate::resources::{Buffer, Framebuffer, RenderPipelineState, Texture};
use crate::Error;

verus! {

/// An ordered submission channel to the backend.
pub struct CommandQueue {
    id: u64,
}

/// One frame's recorded command sequence. Created from a queue, submitted
/// once, then released.
pub struct CommandBuffer {
    id: u64,
}

/// An active recording session for one render pass.
pub struct RenderCommandEncoder {
    id: u64,
    armed: bool,
}

impl Device {
    /// Create the device's command submission channel.
    pub fn create_command_queue(&mut self) -> (r: Result<CommandQueue, Error>)
        requires
            old(self).wf(),
        ensures
            final(self).wf(),
            final(self).replayed() == old(self).replayed(),
            final(self).backend_kind() == old(self).backend_kind(),
            r is Ok <==> old(self).grants_one(),
            match r {
                Ok(q) => {
                    &&& q.id() == old(self).next_handle()
                    &&& q.wf(*final(self))
                    &&& final(self).next_handle() == old(self).next_handle() + 1
                    &&& final(self).denied_handle() == old(self).denied_handle()
                    &&& final(self).history() == old(self).history().push(
                        OpView::CreateCommandQueue { queue: old(self).next_handle() },
                    )
                },
                Err(e) => {
                    &&& e == Error::NullHandle
                    &&& final(self).history() == old(self).history()
                    &&& final(self).next_handle() == old(self).next_handle()
                    &&& final(self).denied_handle() == None::<u64>
                },
            },
            forall|h: u64|
                #[trigger] live_in(old(self).history(), h) ==> live_in(final(self).history(), h),
    {
        let ghost hist = self.history();
        match self.grant_id() {
            None => Err(Error::NullHandle),
            Some(id) => {
                let ghost op_view = OpView::CreateCommandQueue { queue: id };
                self.record(GpuOp::CreateCommandQueue { queue: id });
                proof {
                    assert forall|h: u64| #[trigger] live_in(hist, h) implies live_in(
                        hist.push(op_view),
                        h,
                    ) by {
                        crate::ops::lemma_push_preserves_live(hist, op_view, h);
                    }
                    crate::ops::lemma_push_destroyed(hist, op_view, id);
                }
                Ok(CommandQueue { id })
            },
        }
    }
}

impl CommandQueue {
    pub closed spec fn id(self) -> u64 {
        self.id
    }

    pub open spec fn wf(self, d: Device) -> bool {
        live_in(d.history(), self.id())
    }

    pub fn handle(&self) -> (h: u64)
        ensures
            h == self.id(),
    {
        self.id
    }

    /// Begin recording one unit of work against this queue.
    pub fn create_command_buffer(&self, device: &mut Device) -> (r: Result<CommandBuffer, Error>)
        requires
            old(device).wf(),
            self.wf(*old(device)),
        ensures
            final(device).wf(),
            self.wf(*final(device)),
            final(device).replayed() == old(device).replayed(),
            final(device).backend_kind() == old(device).backend_kind(),
            r is Ok <==> old(device).grants_one(),
            match r {
                Ok(b) => {
                    &&& b.id() == old(device).next_handle()
                    &&& b.wf(*final(device))
                    &&& final(device).next_handle() == old(device).next_handle() + 1
                    &&& final(device).denied_handle() == old(device).denied_handle()
                    &&& final(device).history() == old(device).history().push(
                        OpView::CreateCommandBuffer {
                            queue: self.id(),
                            buffer: old(device).next_handle(),
                        },
                    )
                },
                Err(e) => {
                    &&& e == Error::NullHandle
                    &&& final(device).history() == old(device).history()
                    &&& final(device).next_handle() == old(device).next_handle()
                    &&& final(device).denied_handle() == None::<u64>
                },
            },
            forall|h: u64|
                #[trigger] live_in(old(device).history(), h) ==> live_in(
                    final(device).history(),
                    h,
                ),
    {
        let ghost hist = device.history();
        match device.grant_id() {
            None => Err(Error::NullHandle),
            Some(id) => {
                let ghost op_view = OpView::CreateCommandBuffer { queue: self.id, buffer: id };
                device.record(GpuOp::CreateCommandBuffer { queue: self.id, buffer: id });
                proof {
                    assert forall|h: u64| #[trigger] live_in(hist, h) implies live_in(
                        hist.push(op_view),
                        h,
                    ) by {
                        crate::ops::lemma_push_preserves_live(hist, op_view, h);
                    }
                    crate::ops::lemma_push_destroyed(hist, op_view, id);
                }
                Ok(CommandBuffer { id })
            },
        }
    }

    /// Hand a recorded command buffer to the backend for execution.
    /// Buffers submitted to one queue run in submission order.
    pub fn submit(&self, device: &mut Device, command_buffer: &CommandBuffer)
        requires
            old(device).wf(),
            self.wf(*old(device)),
            command_buffer.wf(*old(device)),
        ensures
            final(device).wf(),
            final(device).history() == old(device).history().push(
                OpView::Submit { queue: self.id(), buffer: command_buffer.id() },
            ),
            final(device).replayed() == old(device).replayed(),
            final(device).next_handle() == old(device).next_handle(),
            final(device).denied_handle() == old(device).denied_handle(),
            final(device).backend_kind() == old(device).backend_kind(),
            forall|h: u64|
                #[trigger] live_in(old(device).history(), h) ==> live_in(
                    final(device).history(),
                    h,
                ),
    {
        let ghost hist = device.history();
        let ghost op_view = OpView::Submit { queue: self.id, buffer: command_buffer.id };
        device.record(GpuOp::Submit { queue: self.id, buffer: command_buffer.id });
        proof {
            assert forall|h: u64| #[trigger] live_in(hist, h) implies live_in(
                hist.push(op_view),
                h,
            ) by {
                crate::ops::lemma_push_preserves_live(hist, op_view, h);
            }
        }
    }

    /// Release the queue: records exactly one destroy of this handle.
    pub fn destroy(self, device: &mut Device)
        requires
            old(device).wf(),
            self.wf(*old(device)),
        ensures
            final(device).wf(),
            final(device).history() == old(device).history().push(
                OpView::DestroyCommandQueue { queue: self.id() },
            ),
            final(device).replayed() == old(device).replayed(),
            final(device).next_handle() == old(device).next_handle(),
            final(device).denied_handle() == old(device).denied_handle(),
            final(device).backend_kind() == old(device).backend_kind(),
            forall|h: u64|
                #[trigger] live_in(old(device).history(), h) && h != self.id() ==> live_in(
                    final(device).history(),
                    h,
                ),
    {
        let ghost hist = device.history();
        let ghost op_view = OpView::DestroyCommandQueue { queue: self.id };
        device.record(GpuOp::DestroyCommandQueue { queue: self.id });
        proof {
            assert forall|h: u64|
                #[trigger] live_in(hist, h) && h != self.id() implies live_in(
                hist.push(op_view),
                h,
            ) by {
                crate::ops::lemma_push_preserves_live(hist, op_view, h);
            }
        }
    }
}

impl CommandBuffer {
    pub closed spec fn id(self) -> u64 {
        self.id
    }

    pub open spec fn wf(self, d: Device) -> bool {
        live_in(d.history(), self.id())
    }

    pub fn handle(&self) -> (h: u64)
        ensures
            h == self.id(),
    {
        self.id
    }

    /// Begin a render pass against a framebuffer, with the attachment
    /// descriptors for this pass. The encoder starts armed.
    pub fn create_render_encoder(
        &self,
        device: &mut Device,
        framebuffer: &Framebuffer,
        color_attachment: ColorAttachment,
        depth_attachment: DepthAttachment,
    ) -> (r: Result<RenderCommandEncoder, Error>)
        requires
            old(device).wf(),
            self.wf(*old(device)),
            framebuffer.wf(*old(device)),
        ensures
            final(device).wf(),
            final(device).replayed() == old(device).replayed(),
            final(device).backend_kind() == old(device).backend_kind(),
            r is Ok <==> old(device).grants_one(),
            match r {
                Ok(enc) => {
                    &&& enc.id() == old(device).next_handle()
                    &&& enc.is_armed()
                    &&& enc.wf(*final(device))
                    &&& live_in(final(device).history(), enc.id())
                    &&& final(device).next_handle() == old(device).next_handle() + 1
                    &&& final(device).denied_handle() == old(device).denied_handle()
                    &&& final(device).history() == old(device).history().push(
                        OpView::CreateRenderEncoder {
                            encoder: old(device).next_handle(),
                            buffer: self.id(),
                            framebuffer: framebuffer.id(),
                            color_attachment,
                            depth_attachment,
                        },
                    )
                },
                Err(e) => {
                    &&& e == Error::NullHandle
                    &&& final(device).history() == old(device).history()
                    &&& final(device).next_handle() == old(device).next_handle()
                    &&& final(device).denied_handle() == None::<u64>
                },
            },
            forall|h: u64|
                #[trigger] live_in(old(device).history(), h) ==> live_in(
                    final(device).history(),
                    h,
                ),
    {
        let ghost hist = device.history();
        match device.grant_id() {
            None => Err(Error::NullHandle),
            Some(id) => {
                let ghost op_view = OpView::CreateRenderEncoder {
                    encoder: id,
                    buffer: self.id,
                    framebuffer: framebuffer.id(),
                    color_attachment,
                    depth_attachment,
                };
                let fb: u64 = framebuffer.handle();
                device.record(
                    GpuOp::CreateRenderEncoder {
                        encoder: id,
                        buffer: self.id,
                        framebuffer: fb,
                        color_attachment,
                        depth_attachment,
                    },
                );
                proof {
                    assert forall|h: u64| #[trigger] live_in(hist, h) implies live_in(
                        hist.push(op_view),
                        h,
                    ) by {
                        crate::ops::lemma_push_preserves_live(hist, op_view, h);
                    }
                    crate::ops::lemma_push_destroyed(hist, op_view, id);
                }
                Ok(RenderCommandEncoder { id, armed: true })
            },
        }
    }

    /// Schedule presentation of a drawable-backed color texture once this
    /// buffer's work completes.
    pub fn present(&self, device: &mut Device, texture: &Texture)
        requires
            old(device).wf(),
            self.wf(*old(device)),
        ensures
            final(device).wf(),
            final(device).history() == old(device).history().push(
                OpView::Present { buffer: self.id(), texture: texture.raw() },
            ),
            final(device).replayed() == old(device).replayed(),
            final(device).next_handle() == old(device).next_handle(),
            final(device).denied_handle() == old(device).denied_handle(),
            final(device).backend_kind() == old(device).backend_kind(),
            forall|h: u64|
                #[trigger] live_in(old(device).history(), h) ==> live_in(
                    final(device).history(),
                    h,
                ),
    {
        let ghost hist = device.history();
        let raw: u64 = texture.handle_raw();
        let ghost op_view = OpView::Present { buffer: self.id, texture: raw };
        device.record(GpuOp::Present { buffer: self.id, texture: raw });
        proof {
            assert forall|h: u64| #[trigger] live_in(hist, h) implies live_in(
                hist.push(op_view),
                h,
            ) by {
                crate::ops::lemma_push_preserves_live(hist, op_view, h);
            }
        }
    }

    /// Release the command buffer: records exactly one destroy of this
    /// handle.
    pub fn destroy(self, device: &mut Device)
        requires
            old(device).wf(),
            self.wf(*old(device)),
        ensures
            final(device).wf(),
            final(device).history() == old(device).history().push(
                OpView::DestroyCommandBuffer { buffer: self.id() },
            ),
            final(device).replayed() == old(device).replayed(),
            final(device).next_handle() == old(device).next_handle(),
            final(device).denied_handle() == old(device).denied_handle(),
            final(device).backend_kind() == old(device).backend_kind(),
            forall|h: u64|
                #[trigger] live_in(old(device).history(), h) && h != self.id() ==> live_in(
                    final(device).history(),
                    h,
                ),
    {
        let ghost hist = device.history();
        let ghost op_view = OpView::DestroyCommandBuffer { buffer: self.id };
        device.record(GpuOp::DestroyCommandBuffer { buffer: self.id });
        proof {
            assert forall|h: u64|
                #[trigger] live_in(hist, h) && h != self.id() implies live_in(
                hist.push(op_view),
                h,
            ) by {
                crate::ops::lemma_push_preserves_live(hist, op_view, h);
            }
        }
    }
}

impl RenderCommandEncoder {
    pub closed spec fn id(self) -> u64 {
        self.id
    }

    /// The encoder has not reached its terminal state yet.
    pub closed spec fn is_armed(self) -> bool {
        self.armed
    }

    /// While armed, the encoder's handle is live in the device's trace.
    pub open spec fn wf(self, d: Device) -> bool {
        self.is_armed() ==> live_in(d.history(), self.id())
    }

    pub fn handle(&self) -> (h: u64)
        ensures
            h == self.id(),
    {
        self.id
    }

    pub fn armed(&self) -> (a: bool)
        ensures
            a == self.is_armed(),
    {
        self.armed
    }

    /// Bind a vertex buffer at a vertex-buffer slot.
    pub fn bind_vertex_buffer(&self, device: &mut Device, index: u32, buffer: &Buffer)
        requires
            old(device).wf(),
            self.is_armed(),
            self.wf(*old(device)),
            buffer.wf(*old(device)),
        ensures
            final(device).wf(),
            final(device).history() == old(device).history().push(
                OpView::BindVertexBuffer { encoder: self.id(), index, buffer: buffer.id() },
            ),
            final(device).replayed() == old(device).replayed(),
            final(device).next_handle() == old(device).next_handle(),
            final(device).denied_handle() == old(device).denied_handle(),
            final(device).backend_kind() == old(device).backend_kind(),
            forall|h: u64|
                #[trigger] live_in(old(device).history(), h) ==> live_in(
                    final(device).history(),
                    h,
                ),
    {
        let ghost hist = device.history();
        let ghost op_view = OpView::BindVertexBuffer {
            encoder: self.id,
            index,
            buffer: buffer.id(),
        };
        let b: u64 = buffer.handle();
        device.record(GpuOp::BindVertexBuffer { encoder: self.id, index, buffer: b });
        proof {
            assert forall|h: u64| #[trigger] live_in(hist, h) implies live_in(
                hist.push(op_view),
                h,
            ) by {
                crate::ops::lemma_push_preserves_live(hist, op_view, h);
            }
        }
    }

    /// Bind an index buffer with its entry width.
    pub fn bind_index_buffer(&self, device: &mut Device, buffer: &Buffer, format: IndexFormat)
        requires
            old(device).wf(),
            self.is_armed(),
            self.wf(*old(device)),
            buffer.wf(*old(device)),
        ensures
            final(device).wf(),
            final(device).history() == old(device).history().push(
                OpView::BindIndexBuffer { encoder: self.id(), buffer: buffer.id(), format },
            ),
            final(device).replayed() == old(device).replayed(),
            final(device).next_handle() == old(device).next_handle(),
            final(device).denied_handle() == old(device).denied_handle(),
            final(device).backend_kind() == old(device).backend_kind(),
            forall|h: u64|
                #[trigger] live_in(old(device).history(), h) ==> live_in(
                    final(device).history(),
                    h,
                ),
    {
        let ghost hist = device.history();
        let ghost op_view = OpView::BindIndexBuffer {
            encoder: self.id,
            buffer: buffer.id(),
            format,
        };
        let b: u64 = buffer.handle();
        device.record(GpuOp::BindIndexBuffer { encoder: self.id, buffer: b, format });
        proof {
            assert forall|h: u64| #[trigger] live_in(hist, h) implies live_in(
                hist.push(op_view),
                h,
            ) by {
                crate::ops::lemma_push_preserves_live(hist, op_view, h);
            }
        }
    }

    /// Bind the compiled pipeline state for the following draws.
    pub fn bind_pipeline(&self, device: &mut Device, pipeline: &RenderPipelineState)
        requires
            old(device).wf(),
            self.is_armed(),
            self.wf(*old(device)),
            pipeline.wf(*old(device)),
        ensures
            final(device).wf(),
            final(device).history() == old(device).history().push(
                OpView::BindPipeline { encoder: self.id(), pipeline: pipeline.id() },
            ),
            final(device).replayed() == old(device).replayed(),
            final(device).next_handle() == old(device).next_handle(),
            final(device).denied_handle() == old(device).denied_handle(),
            final(device).backend_kind() == old(device).backend_kind(),
            forall|h: u64|
                #[trigger] live_in(old(device).history(), h) ==> live_in(
                    final(device).history(),
                    h,
                ),
    {
        let ghost hist = device.history();
        let ghost op_view = OpView::BindPipeline { encoder: self.id, pipeline: pipeline.id() };
        let p: u64 = pipeline.handle();
        device.record(GpuOp::BindPipeline { encoder: self.id, pipeline: p });
        proof {
            assert forall|h: u64| #[trigger] live_in(hist, h) implies live_in(
                hist.push(op_view),
                h,
            ) by {
                crate::ops::lemma_push_preserves_live(hist, op_view, h);
            }
        }
    }

    /// Bind a uniform buffer at a uniform slot.
    pub fn bind_uniform_buffer(&self, device: &mut Device, index: u32, buffer: &Buffer)
        requires
            old(device).wf(),
            self.is_armed(),
            self.wf(*old(device)),
            buffer.wf(*old(device)),
        ensures
            final(device).wf(),
            final(device).history() == old(device).history().push(
                OpView::BindUniformBuffer { encoder: self.id(), index, buffer: buffer.id() },
            ),
            final(device).replayed() == old(device).replayed(),
            final(device).next_handle() == old(device).next_handle(),
            final(device).denied_handle() == old(device).denied_handle(),
            final(device).backend_kind() == old(device).backend_kind(),
            forall|h: u64|
                #[trigger] live_in(old(device).history(), h) ==> live_in(
                    final(device).history(),
                    h,
                ),
    {
        let ghost hist = device.history();
        let ghost op_view = OpView::BindUniformBuffer {
            encoder: self.id,
            index,
            buffer: buffer.id(),
        };
        let b: u64 = buffer.handle();
        device.record(GpuOp::BindUniformBuffer { encoder: self.id, index, buffer: b });
        proof {
            assert forall|h: u64| #[trigger] live_in(hist, h) implies live_in(
                hist.push(op_view),
                h,
            ) by {
                crate::ops::lemma_push_preserves_live(hist, op_view, h);
            }
        }
    }

    /// Issue one indexed draw over `index_count` indices of the bound index
    /// buffer.
    pub fn draw_indexed(&self, device: &mut Device, index_count: u32)
        requires
            old(device).wf(),
            self.is_armed(),
            self.wf(*old(device)),
        ensures
            final(device).wf(),
            final(device).history() == old(device).history().push(
                OpView::DrawIndexed { encoder: self.id(), index_count },
            ),
            final(device).replayed() == old(device).replayed(),
            final(device).next_handle() == old(device).next_handle(),
            final(device).denied_handle() == old(device).denied_handle(),
            final(device).backend_kind() == old(device).backend_kind(),
            forall|h: u64|
                #[trigger] live_in(old(device).history(), h) ==> live_in(
                    final(device).history(),
                    h,
                ),
    {
        let ghost hist = device.history();
        let ghost op_view = OpView::DrawIndexed { encoder: self.id, index_count };
        device.record(GpuOp::DrawIndexed { encoder: self.id, index_count });
        proof {
            assert forall|h: u64| #[trigger] live_in(hist, h) implies live_in(
                hist.push(op_view),
                h,
            ) by {
                crate::ops::lemma_push_preserves_live(hist, op_view, h);
            }
        }
    }

    /// The terminal operation: tell the backend the pass is complete and
    /// disarm the encoder. Calling it again changes nothing — the backend
    /// is signalled exactly once over the encoder's life.
    pub fn end_encoding(&mut self, device: &mut Device)
        requires
            old(device).wf(),
            old(self).wf(*old(device)),
        ensures
            final(device).wf(),
            !final(self).is_armed(),
            final(self).id() == old(self).id(),
            final(self).wf(*final(device)),
            old(self).is_armed() ==> final(device).history() == old(device).history().push(
                OpView::EndEncoding { encoder: old(self).id() },
            ),
            !old(self).is_armed() ==> final(device).history() == old(device).history(),
            final(device).replayed() == old(device).replayed(),
            final(device).next_handle() == old(device).next_handle(),
            final(device).denied_handle() == old(device).denied_handle(),
            final(device).backend_kind() == old(device).backend_kind(),
            forall|h: u64|
                #[trigger] live_in(old(device).history(), h) && h != old(self).id() ==> live_in(
                    final(device).history(),
                    h,
                ),
    {
        if self.armed {
            let ghost hist = device.history();
            let ghost op_view = OpView::EndEncoding { encoder: self.id };
            device.record(GpuOp::EndEncoding { encoder: self.id });
            self.armed = false;
            proof {
                assert forall|h: u64|
                    #[trigger] live_in(hist, h) && h != self.id() implies live_in(
                    hist.push(op_view),
                    h,
                ) by {
                    crate::ops::lemma_push_preserves_live(hist, op_view, h);
                }
            }
        }
    }

    /// The safety net for paths that give the encoder up without ending it:
    /// signals the backend only if the encoder is still armed, so the end
    /// is recorded exactly once on every path.
    pub fn discard(self, device: &mut Device)
        requires
            old(device).wf(),
            self.wf(*old(device)),
        ensures
            final(device).wf(),
            self.is_armed() ==> final(device).history() == old(device).history().push(
                OpView::EndEncoding { encoder: self.id() },
            ),
            !self.is_armed() ==> final(device).history() == old(device).history(),
            final(device).replayed() == old(device).replayed(),
            final(device).next_handle() == old(device).next_handle(),
            final(device).denied_handle() == old(device).denied_handle(),
            final(device).backend_kind() == old(device).backend_kind(),
            forall|h: u64|
                #[trigger] live_in(old(device).history(), h) && h != self.id() ==> live_in(
                    final(device).history(),
                    h,
                ),
    {
        let mut enc = self;
        enc.end_encoding(device);
    }
}

} // verus!
