//! A verified model of a thin hardware-abstraction layer for real-time 3D
//! rendering.
//!
//! The library models a native GPU backend as an explicit recorder: a
//! [`Device`](device::Device) hands out virtual handles for every resource it
//! creates and records each backend operation in a command trace. A driver
//! outside the library replays that trace against the real backend. All
//! lifecycle rules — every handle destroyed at most once, never used after
//! destruction, every render encoder ended exactly once — are proved over the
//! trace.

use vstd::prelude::*;

pub mod command;
pub mod desc;
pub mod device;
pub mod mesh;
pub mod ops;
pub mod render_session;
pub mod resources;

verus! {

/// Which resource a failed factory call was trying to create.
#[derive(Debug, Clone, Copy, PartialEq, Eq, Structural)]
pub enum ResourceKind {
    Pipeline,
    Framebuffer,
    Buffer,
    Shader,
    VertexInputState,
}

/// Errors surfaced by the resource and session layers.
#[derive(Debug, Clone, Copy, PartialEq, Eq, Structural)]
pub enum Error {
    /// A backend factory call returned an invalid (null) handle.
    NullHandle,
    /// A factory call for a specific resource kind failed.
    ResourceCreationFailed(ResourceKind),
    /// A render session could not be initialized.
    SessionInitializationFailed,
    /// A per-frame update could not be completed.
    FrameUpdateFailed,
    /// A texture reported a pixel format the pipeline layer does not know.
    UnsupportedFormat(u32),
}

} // verus!
