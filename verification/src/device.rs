//! The device: factory for every GPU resource, and the model of the native
//! backend it stands in front of.
//!
//! A real device hands out opaque pointers. This model hands out virtual
//! handle ids, records every backend operation in a command trace, and
//! keeps the lifecycle discipline of [`crate::ops`] as an invariant. A
//! driver takes the recorded operations with [`Device::take_ops`] and
//! replays them against the real backend.
//!
//! The backend may refuse a creation (a real factory call can return a null
//! handle). The model makes that explicit: a device can be constructed with
//! one creation marked to fail, which is how the error paths are exercised.

use vstd::prelude::*;

use crate::ops::{
    created_before_use, created_in, created_once, destroyed_in, ids_below, live_in,
    no_use_after_destroy, op_created, op_destroyed, op_uses, trace_inv, GpuOp, OpView,
};

verus! {

/// Which native API backs the device.
#[derive(Debug, Clone, Copy, PartialEq, Eq, Structural)]
pub enum BackendType {
    Invalid,
    OpenGL,
    Metal,
    Vulkan,
}

impl BackendType {
    /// The backend a raw numeric tag stands for; unknown tags are `Invalid`.
    pub open spec fn from_raw_spec(raw: u32) -> BackendType {
        if raw == 1 {
            BackendType::OpenGL
        } else if raw == 2 {
            BackendType::Metal
        } else if raw == 3 {
            BackendType::Vulkan
        } else {
            BackendType::Invalid
        }
    }

    pub fn from_raw(raw: u32) -> (r: BackendType)
        ensures
            r == BackendType::from_raw_spec(raw),
    {
        if raw == 1 {
            BackendType::OpenGL
        } else if raw == 2 {
            BackendType::Metal
        } else if raw == 3 {
            BackendType::Vulkan
        } else {
            BackendType::Invalid
        }
    }

    pub open spec fn raw_spec(self) -> u32 {
        match self {
            BackendType::Invalid => 0,
            BackendType::OpenGL => 1,
            BackendType::Metal => 2,
            BackendType::Vulkan => 3,
        }
    }

    pub fn to_raw(self) -> (r: u32)
        ensures
            r == self.raw_spec(),
    {
        match self {
            BackendType::Invalid => 0,
            BackendType::OpenGL => 1,
            BackendType::Metal => 2,
            BackendType::Vulkan => 3,
        }
    }
}

/// The logical graphics device. See the module documentation.
pub struct Device {
    backend: BackendType,
    next_id: u64,
    deny_handle: Option<u64>,
    pending: Vec<GpuOp>,
    drained: Ghost<Seq<OpView>>,
}

impl Device {
    /// Every operation ever recorded through this device, in order.
    pub closed spec fn history(self) -> Seq<OpView> {
        self.drained@ + self.pending@.map_values(|op: GpuOp| op@)
    }

    /// The prefix of the history already handed to the driver.
    pub closed spec fn replayed(self) -> Seq<OpView> {
        self.drained@
    }

    /// The operations recorded since the driver last took them.
    pub open spec fn outstanding(self) -> Seq<OpView> {
        self.history().skip(self.replayed().len() as int)
    }

    /// The next virtual handle id this device would hand out.
    pub closed spec fn next_handle(self) -> u64 {
        self.next_id
    }

    /// The handle whose creation the backend will refuse, if any.
    pub closed spec fn denied_handle(self) -> Option<u64> {
        self.deny_handle
    }

    pub closed spec fn backend_kind(self) -> BackendType {
        self.backend
    }

    /// Well-formedness: the replayed prefix really is a prefix, handles are
    /// allocated below `next_handle`, and the trace obeys the lifecycle
    /// discipline.
    pub closed spec fn wf(self) -> bool {
        &&& 1 <= self.next_id
        &&& trace_inv(self.history(), self.next_id)
    }

    /// The next creation will be granted a handle.
    pub open spec fn grants_one(self) -> bool {
        self.denied_handle() != Some(self.next_handle()) && self.next_handle() < u64::MAX
    }

    /// The next `k` creations will all be granted handles.
    pub open spec fn grants(self, k: nat) -> bool {
        &&& self.next_handle() + k <= u64::MAX
        &&& match self.denied_handle() {
            Some(h) => !(self.next_handle() <= h < self.next_handle() + k),
            None => true,
        }
    }

    /// A device whose backend grants every creation.
    pub fn new(backend: BackendType) -> (d: Device)
        ensures
            d.wf(),
            d.history() == Seq::<OpView>::empty(),
            d.replayed() == Seq::<OpView>::empty(),
            d.next_handle() == 1,
            d.denied_handle() == None::<u64>,
            d.backend_kind() == backend,
    {
        let d = Device {
            backend,
            next_id: 1,
            deny_handle: None,
            pending: Vec::new(),
            drained: Ghost(Seq::empty()),
        };
        proof {
            assert(d.history() =~= Seq::<OpView>::empty());
        }
        d
    }

    /// A device whose backend will return a null handle for the one creation
    /// that would otherwise receive handle `handle`. A fresh device hands
    /// out handles 1, 2, 3, … in order, so `new_with_failure(b, k)` fails
    /// the `k`-th creation.
    pub fn new_with_failure(backend: BackendType, handle: u64) -> (d: Device)
        ensures
            d.wf(),
            d.history() == Seq::<OpView>::empty(),
            d.replayed() == Seq::<OpView>::empty(),
            d.next_handle() == 1,
            d.denied_handle() == Some(handle),
            d.backend_kind() == backend,
    {
        let d = Device {
            backend,
            next_id: 1,
            deny_handle: Some(handle),
            pending: Vec::new(),
            drained: Ghost(Seq::empty()),
        };
        proof {
            assert(d.history() =~= Seq::<OpView>::empty());
        }
        d
    }

    pub fn backend_type(&self) -> (r: BackendType)
        ensures
            r == self.backend_kind(),
    {
        self.backend
    }

    /// Hand the recorded operations to the driver, oldest first. The
    /// history itself is unchanged: what was taken counts as replayed.
    pub fn take_ops(&mut self) -> (taken: Vec<GpuOp>)
        requires
            old(self).wf(),
        ensures
            final(self).wf(),
            taken@.map_values(|op: GpuOp| op@) == old(self).outstanding(),
            final(self).history() == old(self).history(),
            final(self).replayed() == final(self).history(),
            final(self).outstanding() == Seq::<OpView>::empty(),
            final(self).next_handle() == old(self).next_handle(),
            final(self).denied_handle() == old(self).denied_handle(),
            final(self).backend_kind() == old(self).backend_kind(),
    {
        let mut taken: Vec<GpuOp> = Vec::new();
        core::mem::swap(&mut taken, &mut self.pending);
        proof {
            self.drained@ = self.drained@ + taken@.map_values(|op: GpuOp| op@);
            assert(self.pending@.map_values(|op: GpuOp| op@) =~= Seq::<OpView>::empty());
            assert(self.history() =~= old(self).history());
            assert(taken@.map_values(|op: GpuOp| op@) =~= old(self).outstanding());
            assert(self.outstanding() =~= Seq::<OpView>::empty());
        }
        taken
    }

    /// Ask the backend for a handle for one creation. `None` models the
    /// backend returning its null value.
    pub(crate) fn grant_id(&mut self) -> (r: Option<u64>)
        requires
            old(self).wf(),
        ensures
            final(self).wf(),
            r == if old(self).grants_one() {
                Some(old(self).next_handle())
            } else {
                None::<u64>
            },
            old(self).grants_one() ==> {
                &&& final(self).next_handle() == old(self).next_handle() + 1
                &&& final(self).denied_handle() == old(self).denied_handle()
                &&& 1 <= old(self).next_handle()
                &&& !created_in(old(self).history(), old(self).next_handle())
                &&& !destroyed_in(old(self).history(), old(self).next_handle())
            },
            !old(self).grants_one() ==> {
                &&& final(self).next_handle() == old(self).next_handle()
                &&& final(self).denied_handle() == None::<u64>
            },
            final(self).history() == old(self).history(),
            final(self).replayed() == old(self).replayed(),
            final(self).backend_kind() == old(self).backend_kind(),
    {
        let denied: bool = match self.deny_handle {
            Some(h) => h == self.next_id,
            None => false,
        };
        if denied || self.next_id == u64::MAX {
            self.deny_handle = None;
            None
        } else {
            proof {
                crate::ops::lemma_fresh_id_unseen(self.history(), self.next_id, self.next_id);
            }
            let id: u64 = self.next_id;
            self.next_id = id + 1;
            Some(id)
        }
    }

    /// Record one operation. The operation must respect the lifecycle
    /// discipline: dependencies live, destruction of a live handle only,
    /// creation under a handle already granted and never seen before.
    pub(crate) fn record(&mut self, op: GpuOp)
        requires
            old(self).wf(),
            forall|h: u64|
                #[trigger] op_uses(op@, h) && op_created(op@) != Some(h) ==> live_in(
                    old(self).history(),
                    h,
                ),
            match op_created(op@) {
                Some(h) => 1 <= h < old(self).next_handle() && !created_in(old(self).history(), h)
                    && !destroyed_in(old(self).history(), h),
                None => true,
            },
        ensures
            final(self).wf(),
            final(self).history() == old(self).history().push(op@),
            final(self).replayed() == old(self).replayed(),
            final(self).next_handle() == old(self).next_handle(),
            final(self).denied_handle() == old(self).denied_handle(),
            final(self).backend_kind() == old(self).backend_kind(),
    {
        proof {
            crate::ops::lemma_record_preserves_trace_inv(
                self.history(),
                op@,
                self.next_id,
            );
        }
        let ghost prior = self.pending@;
        self.pending.push(op);
        proof {
            assert(self.pending@.map_values(|o: GpuOp| o@) =~= prior.map_values(
                |o: GpuOp| o@,
            ).push(op@));
            assert(self.history() =~= old(self).history().push(op@));
        }
    }
}

/// Every handle a well-formed device's trace has created lies strictly
/// below the next handle the device would hand out.
pub proof fn lemma_live_id_below(d: Device, h: u64)
    requires
        d.wf(),
        created_in(d.history(), h),
    ensures
        1 <= h < d.next_handle(),
{
    let t = d.history();
    let i = choose|i: int| 0 <= i < t.len() && #[trigger] op_created(t[i]) == Some(h);
    assert(op_created(t[i]) matches Some(g) ==> 1 <= g < d.next_handle());
}

/// No handle is ever destroyed twice: once an operation in a well-formed
/// device's history destroys a handle, no later operation destroys it again.
pub proof fn lemma_no_double_destroy(d: Device, i: int, j: int, h: u64)
    requires
        d.wf(),
        0 <= i < j < d.history().len(),
        op_destroyed(d.history()[i]) == Some(h),
    ensures
        op_destroyed(d.history()[j]) != Some(h),
{
    assert(!op_uses(d.history()[j], h));
}

/// No handle is ever used after it has been destroyed.
pub proof fn lemma_no_use_after_destroy(d: Device, i: int, j: int, h: u64)
    requires
        d.wf(),
        0 <= i < j < d.history().len(),
        op_destroyed(d.history()[i]) == Some(h),
    ensures
        !op_uses(d.history()[j], h),
{
}

/// A render encoder is ended at most once: ending is the encoder's
/// destruction, so a second end of the same encoder never appears in a
/// well-formed device's history.
pub proof fn lemma_encoder_ended_at_most_once(d: Device, i: int, j: int, e: u64)
    requires
        d.wf(),
        0 <= i < j < d.history().len(),
        d.history()[i] == (OpView::EndEncoding { encoder: e }),
    ensures
        d.history()[j] != (OpView::EndEncoding { encoder: e }),
{
    assert(op_destroyed(d.history()[i]) == Some(e));
    assert(!op_uses(d.history()[j], e));
}

/// Every use of a handle in a well-formed device's history is preceded (or
/// accompanied) by its creation, and handles are never created twice.
pub proof fn lemma_created_before_use(d: Device)
    requires
        d.wf(),
    ensures
        created_before_use(d.history()),
        created_once(d.history()),
        no_use_after_destroy(d.history()),
        ids_below(d.history(), d.next_handle()),
{
}

} // verus!
