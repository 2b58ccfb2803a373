//! Lookup of handles.
use vstd::prelude::*;
use crate::error::{invalid, SimError};
use crate::ids::{
    AllocId, DeviceId, EventId, GraphId, MemHandleId, MulticastId, OpId, PoolId, UserObjectId,
};
use crate::list::ok_ref;
use crate::num::max_u64;
use crate::sim::{Sim, SimState};
use crate::state::{
    Alloc, AllocView, Ev, GpuRt, GpuRtView, Graph, GraphView, MemHandle, Multicast, MulticastView,
    Op, OpView, Pool, PoolView, UserObject, UserObjectView,
};

verus! {

impl SimState {
    /// The allocation `id`.
    pub open spec fn alloc_ref(self, id: AllocId) -> Result<AllocView, SimError> {
        match self.allocs.get(id) {
            Some(x) => Ok(x),
            None => Err(SimError::UnknownAlloc { alloc: id }),
        }
    }
}

impl Sim {
    pub(crate) fn alloc_ref(&self, id: AllocId) -> (r: Result<&Alloc, SimError>)
        ensures
            ok_ref(r) == self@.alloc_ref(id),
    {
        match self.allocs.get(id) {
            Some(x) => Ok(x),
            None => Err(SimError::UnknownAlloc { alloc: id }),
        }
    }

    pub(crate) fn alloc_mut(&mut self, id: AllocId) -> (r: Result<&mut Alloc, SimError>)
        ensures
            match r {
                Ok(x) => old(self)@.alloc_ref(id) == Ok::<AllocView, SimError>((*x)@) && final(self)@ == (
                SimState {
                    allocs: old(self)@.allocs.insert(id, (*final(x))@),
                    ..old(self)@
                }),
                Err(e) => old(self)@.alloc_ref(id) == Err::<AllocView, SimError>(e) && final(self)@ == old(
                    self,
                )@,
            },
    {
        match self.allocs.get_mut(id) {
            Some(x) => Ok(x),
            None => Err(SimError::UnknownAlloc { alloc: id }),
        }
    }
}

impl SimState {
    /// The pool `id`.
    pub open spec fn pool_ref(self, id: PoolId) -> Result<PoolView, SimError> {
        match self.pools.get(id) {
            Some(x) => Ok(x),
            None => Err(invalid("unknown pool")),
        }
    }
}

impl Sim {
    pub(crate) fn pool_ref(&self, id: PoolId) -> (r: Result<&Pool, SimError>)
        ensures
            ok_ref(r) == self@.pool_ref(id),
    {
        match self.pools.get(id) {
            Some(x) => Ok(x),
            None => Err(invalid("unknown pool")),
        }
    }

    pub(crate) fn pool_mut(&mut self, id: PoolId) -> (r: Result<&mut Pool, SimError>)
        ensures
            match r {
                Ok(x) => old(self)@.pool_ref(id) == Ok::<PoolView, SimError>((*x)@) && final(self)@ == (
                SimState {
                    pools: old(self)@.pools.insert(id, (*final(x))@),
                    ..old(self)@
                }),
                Err(e) => old(self)@.pool_ref(id) == Err::<PoolView, SimError>(e) && final(self)@ == old(
                    self,
                )@,
            },
    {
        match self.pools.get_mut(id) {
            Some(x) => Ok(x),
            None => Err(invalid("unknown pool")),
        }
    }
}

impl SimState {
    /// The physical memory handle `id`.
    pub open spec fn handle_ref(self, id: MemHandleId) -> Result<MemHandle, SimError> {
        match self.mem_handles.get(id) {
            Some(x) => Ok(x),
            None => Err(invalid("unknown handle")),
        }
    }
}

impl Sim {
    pub(crate) fn handle_ref(&self, id: MemHandleId) -> (r: Result<&MemHandle, SimError>)
        ensures
            ok_ref(r) == self@.handle_ref(id),
    {
        match self.mem_handles.get(id) {
            Some(x) => Ok(x),
            None => Err(invalid("unknown handle")),
        }
    }

    pub(crate) fn handle_mut(&mut self, id: MemHandleId) -> (r: Result<&mut MemHandle, SimError>)
        ensures
            match r {
                Ok(x) => old(self)@.handle_ref(id) == Ok::<MemHandle, SimError>((*x)@) && final(self)@ == (
                SimState {
                    mem_handles: old(self)@.mem_handles.insert(id, (*final(x))@),
                    ..old(self)@
                }),
                Err(e) => old(self)@.handle_ref(id) == Err::<MemHandle, SimError>(e) && final(self)@ == old(
                    self,
                )@,
            },
    {
        match self.mem_handles.get_mut(id) {
            Some(x) => Ok(x),
            None => Err(invalid("unknown handle")),
        }
    }
}

impl SimState {
    /// The multicast object `id`.
    pub open spec fn mc_ref(self, id: MulticastId) -> Result<MulticastView, SimError> {
        match self.multicasts.get(id) {
            Some(x) => Ok(x),
            None => Err(invalid("unknown multicast")),
        }
    }
}

impl Sim {
    pub(crate) fn mc_ref(&self, id: MulticastId) -> (r: Result<&Multicast, SimError>)
        ensures
            ok_ref(r) == self@.mc_ref(id),
    {
        match self.multicasts.get(id) {
            Some(x) => Ok(x),
            None => Err(invalid("unknown multicast")),
        }
    }

    pub(crate) fn mc_mut(&mut self, id: MulticastId) -> (r: Result<&mut Multicast, SimError>)
        ensures
            match r {
                Ok(x) => old(self)@.mc_ref(id) == Ok::<MulticastView, SimError>((*x)@) && final(self)@ == (
                SimState {
                    multicasts: old(self)@.multicasts.insert(id, (*final(x))@),
                    ..old(self)@
                }),
                Err(e) => old(self)@.mc_ref(id) == Err::<MulticastView, SimError>(e) && final(self)@ == old(
                    self,
                )@,
            },
    {
        match self.multicasts.get_mut(id) {
            Some(x) => Ok(x),
            None => Err(invalid("unknown multicast")),
        }
    }
}

impl SimState {
    /// The graph `id`.
    pub open spec fn graph_ref(self, id: GraphId) -> Result<GraphView, SimError> {
        match self.graphs.get(id) {
            Some(x) => Ok(x),
            None => Err(invalid("unknown graph")),
        }
    }
}

impl Sim {
    pub(crate) fn graph_ref(&self, id: GraphId) -> (r: Result<&Graph, SimError>)
        ensures
            ok_ref(r) == self@.graph_ref(id),
    {
        match self.graphs.get(id) {
            Some(x) => Ok(x),
            None => Err(invalid("unknown graph")),
        }
    }

    pub(crate) fn graph_mut(&mut self, id: GraphId) -> (r: Result<&mut Graph, SimError>)
        ensures
            match r {
                Ok(x) => old(self)@.graph_ref(id) == Ok::<GraphView, SimError>((*x)@) && final(self)@ == (
                SimState {
                    graphs: old(self)@.graphs.insert(id, (*final(x))@),
                    ..old(self)@
                }),
                Err(e) => old(self)@.graph_ref(id) == Err::<GraphView, SimError>(e) && final(self)@ == old(
                    self,
                )@,
            },
    {
        match self.graphs.get_mut(id) {
            Some(x) => Ok(x),
            None => Err(invalid("unknown graph")),
        }
    }
}

impl SimState {
    /// The GPU run-time state `id`.
    pub open spec fn gpu_rt(self, id: DeviceId) -> Result<GpuRtView, SimError> {
        match self.gpus.get(id) {
            Some(x) => Ok(x),
            None => Err(invalid("device runtime missing")),
        }
    }
}

impl Sim {
    pub(crate) fn gpu_rt(&self, id: DeviceId) -> (r: Result<&GpuRt, SimError>)
        ensures
            ok_ref(r) == self@.gpu_rt(id),
    {
        match self.gpus.get(id) {
            Some(x) => Ok(x),
            None => Err(invalid("device runtime missing")),
        }
    }

    pub(crate) fn gpu_rt_mut(&mut self, id: DeviceId) -> (r: Result<&mut GpuRt, SimError>)
        ensures
            match r {
                Ok(x) => old(self)@.gpu_rt(id) == Ok::<GpuRtView, SimError>((*x)@) && final(self)@ == (
                SimState {
                    gpus: old(self)@.gpus.insert(id, (*final(x))@),
                    ..old(self)@
                }),
                Err(e) => old(self)@.gpu_rt(id) == Err::<GpuRtView, SimError>(e) && final(self)@ == old(
                    self,
                )@,
            },
    {
        match self.gpus.get_mut(id) {
            Some(x) => Ok(x),
            None => Err(invalid("device runtime missing")),
        }
    }
}

impl SimState {
    /// The operation `id`.
    pub open spec fn op_ref(self, id: OpId) -> Result<OpView, SimError> {
        match self.ops.get(id) {
            Some(x) => Ok(x),
            None => Err(invalid("unknown op")),
        }
    }
}

impl Sim {
    pub(crate) fn op_ref(&self, id: OpId) -> (r: Result<&Op, SimError>)
        ensures
            ok_ref(r) == self@.op_ref(id),
    {
        match self.ops.get(id) {
            Some(x) => Ok(x),
            None => Err(invalid("unknown op")),
        }
    }

    pub(crate) fn op_mut(&mut self, id: OpId) -> (r: Result<&mut Op, SimError>)
        ensures
            match r {
                Ok(x) => old(self)@.op_ref(id) == Ok::<OpView, SimError>((*x)@) && final(self)@ == (
                SimState {
                    ops: old(self)@.ops.insert(id, (*final(x))@),
                    ..old(self)@
                }),
                Err(e) => old(self)@.op_ref(id) == Err::<OpView, SimError>(e) && final(self)@ == old(
                    self,
                )@,
            },
    {
        match self.ops.get_mut(id) {
            Some(x) => Ok(x),
            None => Err(invalid("unknown op")),
        }
    }
}

impl SimState {
    /// The event `id`.
    pub open spec fn event_ref(self, id: EventId) -> Result<Ev, SimError> {
        match self.events.get(id) {
            Some(x) => Ok(x),
            None => Err(SimError::UnknownEvent { event: id.0 }),
        }
    }
}

impl Sim {
    pub(crate) fn event_ref(&self, id: EventId) -> (r: Result<&Ev, SimError>)
        ensures
            ok_ref(r) == self@.event_ref(id),
    {
        match self.events.get(id) {
            Some(x) => Ok(x),
            None => Err(SimError::UnknownEvent { event: id.0 }),
        }
    }
}

impl SimState {
    /// The user object `id`.
    pub open spec fn user_object(self, id: UserObjectId) -> Result<UserObjectView, SimError> {
        match self.user_objects.get(id) {
            Some(x) => Ok(x),
            None => Err(invalid("unknown user object")),
        }
    }
}

impl Sim {
    pub(crate) fn user_object(&self, id: UserObjectId) -> (r: Result<&UserObject, SimError>)
        ensures
            ok_ref(r) == self@.user_object(id),
    {
        match self.user_objects.get(id) {
            Some(x) => Ok(x),
            None => Err(invalid("unknown user object")),
        }
    }

    pub(crate) fn user_object_mut(
        &mut self,
        id: UserObjectId,
    ) -> (r: Result<&mut UserObject, SimError>)
        ensures
            match r {
                Ok(x) => old(self)@.user_object(id) == Ok::<UserObjectView, SimError>((*x)@) && final(self)@ == (
                SimState {
                    user_objects: old(self)@.user_objects.insert(id, (*final(x))@),
                    ..old(self)@
                }),
                Err(e) => old(self)@.user_object(id) == Err::<UserObjectView, SimError>(e) && final(self)@ == old(
                    self,
                )@,
            },
    {
        match self.user_objects.get_mut(id) {
            Some(x) => Ok(x),
            None => Err(invalid("unknown user object")),
        }
    }
}

impl SimState {
    /// Value of [`Sim::pool_root`].
    pub open spec fn pool_root(self, pool: PoolId) -> Result<PoolId, SimError> {
        match self.pool_ref(pool) {
            Err(e) => Err(e),
            Ok(p) => match p.share_root {
                Some(root) => Ok(root),
                None => Ok(pool),
            },
        }
    }

    /// Value of [`Sim::fail_if_capturing`].
    pub open spec fn fail_if_capturing(self, why: &'static str) -> Result<(), SimError> {
        if self.capturing.is_some() {
            Err(invalid(why))
        } else {
            Ok(())
        }
    }

    /// Value of [`Sim::first_alloc_ns`].
    pub open spec fn first_alloc_ns(self) -> u64 {
        if self.profile.gpus.len() == 0 {
            1
        } else {
            max_u64(self.profile.gpus[0].alloc_overhead_ns, 1)
        }
    }

    /// Effect of [`Sim::tick`].
    pub open spec fn tick(self, ns: u64) -> SimState {
        let s = self;
        let s = SimState { clock: s.clock.saturating_add(ns), ..s };
        s
    }
}

impl Sim {
    /// Exporter of an imported pool, else the pool itself.
    pub(crate) fn pool_root(&self, pool: PoolId) -> (r: Result<PoolId, SimError>)
        ensures
            r == self@.pool_root(pool),
    {
        let p = self.pool_ref(pool)?;
        match p.share_root {
            Some(root) => Ok(root),
            None => Ok(pool),
        }
    }

    /// Host-synchronous calls are refused while a capture is in progress.
    pub(crate) fn fail_if_capturing(&self, why: &'static str) -> (r: Result<(), SimError>)
        ensures
            r == self@.fail_if_capturing(why),
    {
        if self.capturing.is_some() {
            Err(invalid(why))
        } else {
            Ok(())
        }
    }

    /// Allocation overhead of the first GPU, at least one.
    pub(crate) fn first_alloc_ns(&self) -> (r: u64)
        ensures
            r == self@.first_alloc_ns(),
    {
        if self.profile.gpus.len() == 0 {
            1
        } else {
            max_u64(self.profile.gpus[0].alloc_overhead_ns, 1)
        }
    }

    /// Let `ns` pass on the virtual clock, saturating.
    pub(crate) fn tick(&mut self, ns: u64)
        ensures
            final(self)@ == old(self)@.tick(ns),
    {
        self.clock = self.clock.saturating_add(ns);
    }
}

} // verus!
