//! Submission: ordering dependencies, capture and launch attributes.
use vstd::prelude::*;
use crate::error::{invalid, SimError};
use crate::ids::{AllocId, DeviceId, EventId, Lane, OpId, StreamId};
use crate::list::{
    ascending, copy_slice, copy_vec, distinct_ascending, has_key, picked, push_all_new, push_new,
    sort, sorted_distinct, with_all_new, with_new,
};
use crate::num::{max_u16, max_u32};
use crate::ops::{
    ClusterDim, GpuOp, GpuOpView, LaunchCompletionEvent, MemSyncDomain, MemSyncDomainMap,
    PortableClusterMode, PortableSharedMode, ProgrammaticEvent,
};
use crate::sim::{Sim, SimState};
use crate::state::{
    CaptureView, GraphStep, LaunchCost, NextIds, NodeAttrs, Op, OpAttrs, OpView, StepView,
};
use crate::table::{lists, order_of};

verus! {

impl SimState {
    pub open spec fn op_pending_at(self, k: OpId) -> bool {
        let o = self.ops[k];
        !o.done
    }

    /// Whether any operation is unfinished.
    pub open spec fn op_pending(self) -> bool {
        exists|k: OpId| self.ops.contains_key(k) && #[trigger] self.op_pending_at(k)
    }
}

impl Sim {
    /// Whether any operation is unfinished.
    pub(crate) fn op_pending(&self) -> (r: bool)
        ensures
            r == self@.op_pending(),
    {
        let ghost q = order_of(self@.ops.dom());
        let n: usize = self.ops.len();
        let mut i: usize = 0;
        while i < n
            invariant
                q == order_of(self@.ops.dom()),
                lists(q, self@.ops.dom()),
                n == q.len(),
                i <= n,
                forall|j: int| 0 <= j < i ==> !self@.op_pending_at(#[trigger] q[j]),
            decreases n - i,
        {
            let o = self.ops.val_at(i);
            if !o.done {
                assert(self@.op_pending_at(q[i as int]));
                return true;
            }
            i += 1;
        }
        assert forall|k: OpId| self@.ops.contains_key(k) implies !self@.op_pending_at(k) by {
            assert(q.contains(k));
        }
        false
    }
}

impl SimState {
    pub open spec fn op_pending_on_device_at(self, k: OpId, device: DeviceId) -> bool {
        let o = self.ops[k];
        o.device == device && !o.done
    }

    /// Whether any operation of the device is unfinished.
    pub open spec fn op_pending_on_device(self, device: DeviceId) -> bool {
        exists|k: OpId| self.ops.contains_key(k) && #[trigger] self.op_pending_on_device_at(k, device)
    }
}

impl Sim {
    /// Whether any operation of the device is unfinished.
    pub(crate) fn op_pending_on_device(&self, device: DeviceId) -> (r: bool)
        ensures
            r == self@.op_pending_on_device(device),
    {
        let ghost q = order_of(self@.ops.dom());
        let n: usize = self.ops.len();
        let mut i: usize = 0;
        while i < n
            invariant
                q == order_of(self@.ops.dom()),
                lists(q, self@.ops.dom()),
                n == q.len(),
                i <= n,
                forall|j: int| 0 <= j < i ==> !self@.op_pending_on_device_at(
                    #[trigger] q[j],
                    device,
                ),
            decreases n - i,
        {
            let o = self.ops.val_at(i);
            if o.device == device && !o.done {
                assert(self@.op_pending_on_device_at(q[i as int], device));
                return true;
            }
            i += 1;
        }
        assert forall|k: OpId| self@.ops.contains_key(k) implies !self@.op_pending_on_device_at(k, device) by {
            assert(q.contains(k));
        }
        false
    }
}

impl SimState {
    pub open spec fn op_pending_on_at(self, k: OpId, device: DeviceId, stream: StreamId) -> bool {
        let o = self.ops[k];
        o.device == device && o.stream == stream && !o.done
    }

    /// Whether any operation of the stream is unfinished.
    pub open spec fn op_pending_on(self, device: DeviceId, stream: StreamId) -> bool {
        exists|k: OpId| self.ops.contains_key(k) && #[trigger] self.op_pending_on_at(
            k,
            device,
            stream,
        )
    }
}

impl Sim {
    /// Whether any operation of the stream is unfinished.
    pub(crate) fn op_pending_on(&self, device: DeviceId, stream: StreamId) -> (r: bool)
        ensures
            r == self@.op_pending_on(device, stream),
    {
        let ghost q = order_of(self@.ops.dom());
        let n: usize = self.ops.len();
        let mut i: usize = 0;
        while i < n
            invariant
                q == order_of(self@.ops.dom()),
                lists(q, self@.ops.dom()),
                n == q.len(),
                i <= n,
                forall|j: int| 0 <= j < i ==> !self@.op_pending_on_at(
                    #[trigger] q[j],
                    device,
                    stream,
                ),
            decreases n - i,
        {
            let o = self.ops.val_at(i);
            if o.device == device && o.stream == stream && !o.done {
                assert(self@.op_pending_on_at(q[i as int], device, stream));
                return true;
            }
            i += 1;
        }
        assert forall|k: OpId| self@.ops.contains_key(k) implies !self@.op_pending_on_at(
            k,
            device,
            stream,
        ) by {
            assert(q.contains(k));
        }
        false
    }
}

impl SimState {
    pub open spec fn running_on_device_at(self, i: int, device: DeviceId) -> bool {
        match self.ops.get(self.running[i].op) {
            Some(o) => o.device == device,
            None => false,
        }
    }

    /// Whether an operation of the device is in flight.
    pub open spec fn running_on_device(self, device: DeviceId) -> bool {
        exists|i: int| 0 <= i < self.running.len() && #[trigger] self.running_on_device_at(i, device)
    }
}

impl Sim {
    /// Whether an operation of the device is in flight.
    pub(crate) fn running_on_device(&self, device: DeviceId) -> (r: bool)
        ensures
            r == self@.running_on_device(device),
    {
        let mut i: usize = 0;
        while i < self.running.len()
            invariant
                i <= self@.running.len(),
                forall|j: int| 0 <= j < i ==> !#[trigger] self@.running_on_device_at(j, device),
            decreases self@.running.len() - i,
        {
            let hit: bool = match self.ops.get(self.running[i].op) {
                Some(o) => o.device == device,
                None => false,
            };
            if hit {
                assert(self@.running_on_device_at(i as int, device));
                return true;
            }
            i += 1;
        }
        false
    }
}

impl SimState {
    pub open spec fn running_on_at(self, i: int, device: DeviceId, stream: StreamId) -> bool {
        match self.ops.get(self.running[i].op) {
            Some(o) => o.device == device && o.stream == stream,
            None => false,
        }
    }

    /// Whether an operation of the stream is in flight.
    pub open spec fn running_on(self, device: DeviceId, stream: StreamId) -> bool {
        exists|i: int| 0 <= i < self.running.len() && #[trigger] self.running_on_at(
            i,
            device,
            stream,
        )
    }
}

impl Sim {
    /// Whether an operation of the stream is in flight.
    pub(crate) fn running_on(&self, device: DeviceId, stream: StreamId) -> (r: bool)
        ensures
            r == self@.running_on(device, stream),
    {
        let mut i: usize = 0;
        while i < self.running.len()
            invariant
                i <= self@.running.len(),
                forall|j: int| 0 <= j < i ==> !#[trigger] self@.running_on_at(j, device, stream),
            decreases self@.running.len() - i,
        {
            let hit: bool = match self.ops.get(self.running[i].op) {
                Some(o) => o.device == device && o.stream == stream,
                None => false,
            };
            if hit {
                assert(self@.running_on_at(i as int, device, stream));
                return true;
            }
            i += 1;
        }
        false
    }
}

impl SimState {
    /// Whether every operation in the list is done.
    pub open spec fn all_done(self, ids: Seq<OpId>) -> bool {
        forall|i: int| 0 <= i < ids.len() ==> self.op_done(#[trigger] ids[i])
    }
}

impl Sim {
    pub(crate) fn all_done(&self, ids: &Vec<OpId>) -> (r: bool)
        ensures
            r == self@.all_done(ids@),
    {
        let mut i: usize = 0;
        while i < ids.len()
            invariant
                i <= ids@.len(),
                forall|j: int| 0 <= j < i ==> self@.op_done(#[trigger] ids@[j]),
            decreases ids@.len() - i,
        {
            if !self.op_done(ids[i]) {
                assert(!self@.op_done(ids@[i as int]));
                return false;
            }
            i += 1;
        }
        true
    }
}

impl SimState {
    /// Value of [`Sim::op_done`].
    pub open spec fn op_done(self, id: OpId) -> bool {
        match self.ops.get(id) {
            Some(o) => o.done,
            None => false,
        }
    }

    /// Value of [`Sim::device_idle`].
    pub open spec fn device_idle(self, device: DeviceId) -> bool {
        !self.op_pending_on_device(device) && !self.running_on_device(device)
    }

    /// Value of [`Sim::stream_idle`].
    pub open spec fn stream_idle(self, device: DeviceId, stream: StreamId) -> bool {
        if self.op_pending_on(device, stream) || self.running_on(device, stream) {
            false
        } else {
            match self.graph_joins.get(Lane(device, stream)) {
                Some(ids) => self.all_done(ids),
                None => true,
            }
        }
    }

    /// Value of [`Sim::in_capture`].
    pub open spec fn in_capture(self, device: DeviceId, stream: StreamId) -> bool {
        match self.capturing {
            Some(c) => c.streams.contains(Lane(device, stream)),
            None => false,
        }
    }

    /// Value of [`Sim::stream_is_idle`].
    pub open spec fn stream_is_idle(
        self,
        device: DeviceId,
        stream: StreamId,
    ) -> Result<bool, SimError> {
        self.query_stream(device, stream)
    }

    /// Value of [`Sim::query_stream`].
    pub open spec fn query_stream(
        self,
        device: DeviceId,
        stream: StreamId,
    ) -> Result<bool, SimError> {
        match self.profile.gpu(device) {
            Err(e) => Err(e),
            Ok(_gpu) => if self.in_capture(device, stream) {
                Err(invalid("cannot query stream during capture"))
            } else {
                Ok(self.stream_idle(device, stream))
            },
        }
    }

    /// Effect of [`Sim::add_op_dep`].
    pub open spec fn add_op_dep(self, id: OpId, dep: OpId) -> SimState {
        let s = self;
        match s.ops.get(id) {
            Some(op) => {
                let op = OpView { deps: with_new(op.deps, dep), ..op };
                let s = SimState { ops: s.ops.insert(id, op), ..s };
                s
            },
            _ => s,
        }
    }

    /// Effect of [`Sim::add_op_deps`].
    pub open spec fn add_op_deps(self, id: OpId, deps: Seq<OpId>) -> SimState {
        let s = self;
        s.add_op_deps_from(id, deps, 0)
    }

    /// [`Sim::add_op_deps`] from position `i` on.
    pub open spec fn add_op_deps_from(self, id: OpId, deps: Seq<OpId>, i: int) -> SimState
        decreases deps.len() - i,
    {
        let s = self;
        if 0 <= i < deps.len() {
            let s = s.add_op_dep(id, deps[i]);
            s.add_op_deps_from(id, deps, i + 1)
        } else {
            s
        }
    }

    /// Value of [`Sim::validate_cluster`].
    pub open spec fn validate_cluster(
        self,
        device: DeviceId,
        dim: ClusterDim,
        mode: PortableClusterMode,
    ) -> Result<u32, SimError> {
        match self.cluster_block_count(device, dim) {
            Err(e) => Err(e),
            Ok(n) => match self.profile.gpu(device) {
                Err(e) => Err(e),
                Ok(gpu) => {
                    let portable = max_u16(gpu.portable_cluster_size, 1) as u32;
                    if n > portable
                        && !mode.allows_non_portable(self.non_portable_cluster.contains(device)) {
                        Err(invalid("non-portable cluster"))
                    } else {
                        Ok(n)
                    }
                },
            },
        }
    }

    /// Value of [`Sim::validate_cluster_attrs`].
    pub open spec fn validate_cluster_attrs(
        self,
        device: DeviceId,
        cluster: Option<ClusterDim>,
        preferred: Option<ClusterDim>,
        mode: PortableClusterMode,
    ) -> Result<(), SimError> {
        match cluster {
            Some(c) => match self.validate_cluster(device, c, mode) {
                Err(e) => Err(e),
                Ok(_n) => match preferred {
                    Some(p) => if !p.multiple_of(c) {
                        Err(invalid("preferred cluster"))
                    } else {
                        match self.validate_cluster(device, p, mode) {
                            Err(e) => Err(e),
                            Ok(_m) => Ok(()),
                        }
                    },
                    None => Ok(()),
                },
            },
            None => if preferred.is_some() {
                Err(invalid("preferred cluster"))
            } else {
                Ok(())
            },
        }
    }

    /// Value of [`Sim::validate_dynamic_shared`].
    pub open spec fn validate_dynamic_shared(
        self,
        device: DeviceId,
        bytes: u32,
        mode: PortableSharedMode,
    ) -> Result<(), SimError> {
        if bytes == 0 {
            Ok(())
        } else {
            match self.profile.gpu(device) {
                Err(e) => Err(e),
                Ok(gpu) => {
                    let portable = max_u32(gpu.max_shared_mem_per_block, 1);
                    let optin = max_u32(gpu.max_shared_mem_per_block_optin, portable);
                    if bytes > optin {
                        Err(invalid("dynamic shared"))
                    } else {
                        let func = self.max_dynamic_shared_memory(device);
                        if !mode.allows_oversize(func, bytes, portable) {
                            Err(invalid("non-portable shared"))
                        } else {
                            Ok(())
                        }
                    }
                },
            }
        }
    }

    /// Value of [`Sim::max_dynamic_shared_memory`].
    pub open spec fn max_dynamic_shared_memory(self, device: DeviceId) -> u32 {
        match self.max_dynamic_shared.get(device) {
            Some(b) => b,
            None => 0,
        }
    }

    /// Value of [`Sim::snap_mem_sync`].
    pub open spec fn snap_mem_sync(
        self,
        device: DeviceId,
        stream: StreamId,
        kind: GpuOpView,
    ) -> Result<(MemSyncDomain, MemSyncDomainMap), SimError> {
        match self.enq.mem_sync_map {
            Some(m) => {
                let map = m;
                match self.validate_mem_sync_map(device, map) {
                    Err(e) => Err(e),
                    Ok(_v) => {
                        let domain = (match self.enq.mem_sync_domain {
                            Some(d) => d,
                            None => if (
                                match kind { GpuOpView::AllReduce { .. } => true, _ => false }
                            ) {
                                MemSyncDomain::Remote
                            } else {
                                self.stream_mem_sync_domain(device, stream)
                            },
                        });
                        Ok((domain, map))
                    },
                }
            },
            None => match self.stream_mem_sync_domain_map(device, stream) {
                Err(e) => Err(e),
                Ok(map) => match self.validate_mem_sync_map(device, map) {
                    Err(e) => Err(e),
                    Ok(_v) => {
                        let domain = (match self.enq.mem_sync_domain {
                            Some(d) => d,
                            None => if (
                                match kind { GpuOpView::AllReduce { .. } => true, _ => false }
                            ) {
                                MemSyncDomain::Remote
                            } else {
                                self.stream_mem_sync_domain(device, stream)
                            },
                        });
                        Ok((domain, map))
                    },
                },
            },
        }
    }

    /// Value of [`Sim::node_attrs`].
    pub open spec fn node_attrs(
        self,
        priority: i32,
        mem_sync_domain: MemSyncDomain,
        mem_sync_map: MemSyncDomainMap,
    ) -> NodeAttrs {
        NodeAttrs {
            priority,
            pdl: self.enq.pdl,
            programmatic_event: self.enq.programmatic_event,
            launch_completion: self.enq.launch_completion,
            access_policy: self.enq.access_policy,
            mem_sync_domain,
            mem_sync_map,
            cluster: self.enq.cluster,
            cluster_policy: self.enq.cluster_policy,
            preferred_cluster: self.enq.preferred_cluster,
            carveout: self.enq.carveout,
            device_updatable: self.enq.device_updatable,
            shared_mem: self.enq.shared_mem,
            portable_cluster: self.enq.portable_cluster,
            dynamic_shared: self.enq.dynamic_shared,
            portable_shared: self.enq.portable_shared,
            nvlink_util_centric: self.enq.nvlink_util_centric,
        }
    }

    /// Value of [`Sim::op_attrs`].
    pub open spec fn op_attrs(self, priority: i32, mem_sync_physical: u8) -> OpAttrs {
        OpAttrs {
            priority,
            pdl: self.enq.pdl,
            programmatic_event: self.enq.programmatic_event,
            launch_completion: self.enq.launch_completion,
            access_policy: self.enq.access_policy,
            mem_sync_physical,
            cluster: self.enq.cluster,
            cluster_policy: self.enq.cluster_policy,
            preferred_cluster: self.enq.preferred_cluster,
            carveout: self.enq.carveout,
            shared_mem: self.enq.shared_mem,
            nvlink_util_centric: self.enq.nvlink_util_centric,
        }
    }

    /// Value of [`Sim::with_stream_ops`].
    pub open spec fn with_stream_ops(
        self,
        device: DeviceId,
        stream: StreamId,
        first: Seq<OpId>,
    ) -> Seq<OpId> {
        let deps = first;
        self.with_stream_ops_from(device, stream, deps, 0)
    }

    /// [`Sim::with_stream_ops`] from position `i` on.
    pub open spec fn with_stream_ops_from(
        self,
        device: DeviceId,
        stream: StreamId,
        deps: Seq<OpId>,
        i: int,
    ) -> Seq<OpId>
        decreases order_of(self.ops.dom()).len() - i,
    {
        if 0 <= i < order_of(self.ops.dom()).len() {
            let id = order_of(self.ops.dom())[i];
            let o = self.ops[order_of(self.ops.dom())[i]];
            let deps = if o.device == device && o.stream == stream && !o.done && !o.cancelled && !deps.contains(id) {
                let deps = deps.push(id);
                deps
            } else {
                deps
            };
            self.with_stream_ops_from(device, stream, deps, i + 1)
        } else {
            deps
        }
    }

    /// Value of [`Sim::null_waits_for`].
    pub open spec fn null_waits_for(self, device: DeviceId, lane: Lane) -> bool {
        if self.legacy_null_stream {
            lane.0 == device && !lane.1.is_null()
        } else {
            lane.0 == device && self.blocking.contains(lane)
        }
    }

    /// Value of [`Sim::with_null_waits`].
    pub open spec fn with_null_waits(self, device: DeviceId, first: Seq<OpId>) -> Seq<OpId> {
        let deps = first;
        self.with_null_waits_from(device, deps, 0)
    }

    /// [`Sim::with_null_waits`] from position `i` on.
    pub open spec fn with_null_waits_from(
        self,
        device: DeviceId,
        deps: Seq<OpId>,
        i: int,
    ) -> Seq<OpId>
        decreases order_of(self.tail.dom()).len() - i,
    {
        if 0 <= i < order_of(self.tail.dom()).len() {
            let lane = order_of(self.tail.dom())[i];
            let last = self.tail[order_of(self.tail.dom())[i]];
            let deps = if self.null_waits_for(device, lane) {
                let deps = deps.push(last);
                deps
            } else {
                deps
            };
            self.with_null_waits_from(device, deps, i + 1)
        } else {
            deps
        }
    }

    /// Value of [`Sim::with_null_stream`].
    pub open spec fn with_null_stream(
        self,
        device: DeviceId,
        stream: StreamId,
        first: Seq<OpId>,
    ) -> Seq<OpId> {
        if stream.is_null() {
            self.with_null_waits(device, first)
        } else {
            let deps = first;
            let deps = if self.legacy_null_stream || self.blocking.contains(Lane(device, stream)) {
                let deps = match self.tail.get(Lane(device, StreamId::null())) {
                    Some(last) => {
                        let deps = deps.push(last);
                        deps
                    },
                    _ => deps,
                };
                deps
            } else {
                deps
            };
            deps
        }
    }

    /// Value of [`Sim::stream_order_deps`].
    pub open spec fn stream_order_deps(self, device: DeviceId, stream: StreamId) -> Seq<OpId> {
        let first = Seq::empty();
        let first = match self.tail.get(Lane(device, stream)) {
            Some(prev) => {
                let first = first.push(prev);
                first
            },
            _ => first,
        };
        let deps = self.with_stream_ops(device, stream, first);
        let deps = match self.graph_joins.get(Lane(device, stream)) {
            Some(joins) => {
                let deps = with_all_new(deps, joins);
                deps
            },
            _ => deps,
        };
        self.with_null_stream(device, stream, deps)
    }

    /// Effect of [`Sim::ensure_launch_events`].
    pub open spec fn ensure_launch_events(self) -> SimState {
        let s = self;
        let s = match s.enq.programmatic_event {
            Some(pe) => {
                let s = s.ensure_event(pe.event);
                s
            },
            _ => s,
        };
        match s.enq.launch_completion {
            Some(lc) => {
                let s = s.ensure_event(lc.event);
                s
            },
            _ => s,
        }
    }

    /// Effect of [`Sim::mark_launch_events`].
    pub open spec fn mark_launch_events(
        self,
        pde: Option<ProgrammaticEvent>,
        lce: Option<LaunchCompletionEvent>,
        id: OpId,
    ) -> SimState {
        let s = self;
        let s = match pde {
            Some(pe) => {
                let root = s.event_root(pe.event);
                let s = s.mark_recorded(root, id);
                s
            },
            _ => s,
        };
        match lce {
            Some(lc) => {
                let root = s.event_root(lc.event);
                let s = s.mark_recorded(root, id);
                s
            },
            _ => s,
        }
    }

    /// Value of [`Sim::validate_kernel_launch`].
    pub open spec fn validate_kernel_launch(
        self,
        device: DeviceId,
        kind: GpuOpView,
    ) -> Result<(), SimError> {
        if (match kind { GpuOpView::Kernel { .. } => true, _ => false }) {
            match self.validate_cluster_attrs(
                device,
                self.enq.cluster,
                self.enq.preferred_cluster,
                self.enq.portable_cluster,
            ) {
                Err(e) => Err(e),
                Ok(_v) => self.validate_dynamic_shared(
                    device,
                    self.enq.dynamic_shared,
                    self.enq.portable_shared,
                ),
            }
        } else {
            Ok(())
        }
    }

    /// Value of [`Sim::submit_deps`].
    pub open spec fn submit_deps(
        self,
        device: DeviceId,
        stream: StreamId,
        kind: GpuOpView,
    ) -> Seq<OpId> {
        let deps = self.stream_order_deps(device, stream);
        let deps = match kind {
            GpuOpView::EventWait { event, external } => {
                let deps = match self.event_recorded_by(event) {
                    Some(rec) => {
                        let deps = deps.push(rec);
                        deps
                    },
                    _ => deps,
                };
                deps
            },
            _ => deps,
        };
        deps
    }

    /// Effect of [`Sim::take_op_id`].
    pub open spec fn take_op_id(self) -> (SimState, OpId) {
        let s = self;
        let id = OpId(s.next.op);
        let s = SimState { next: NextIds { op: s.next.op.saturating_add(1), ..s.next }, ..s };
        (s, id)
    }

    /// Effect of [`Sim::submit_live`].
    #[verifier::opaque]
    pub open spec fn submit_live(
        self,
        device: DeviceId,
        stream: StreamId,
        kind: GpuOpView,
        launch: LaunchCost,
    ) -> (SimState, Result<OpId, SimError>) {
        let s = self;
        match s.profile.gpu(device) {
            Err(e) => (s, Err(e)),
            Ok(_gpu) => match s.validate_kernel_launch(device, kind) {
                Err(e) => (s, Err(e)),
                Ok(_v) => {
                    let (s, id) = s.take_op_id();
                    let s = s.ensure_launch_events();
                    let deps = s.submit_deps(device, stream, kind);
                    let priority = s.snap_priority(device, stream);
                    match s.snap_mem_sync(device, stream, kind) {
                        Err(e) => (s, Err(e)),
                        Ok((domain, map)) => {
                            let attrs = s.op_attrs(priority, map.physical(domain));
                            let op = OpView {
                                device,
                                stream,
                                kind,
                                deps,
                                done: false,
                                cancelled: false,
                                launch,
                                submit_ns: s.clock,
                                start_ns: None,
                                done_ns: None,
                                preds: s.enqueue_preds,
                                skipped: false,
                                attrs,
                                pdl_trigger_ns: None,
                                domain_fence_paid: false,
                            };
                            let s = SimState { ops: s.ops.insert(id, op), ..s };
                            let s = s.mark_launch_events(
                                attrs.programmatic_event,
                                attrs.launch_completion,
                                id,
                            );
                            let s = SimState { tail: s.tail.insert(Lane(device, stream), id), ..s };
                            (s, Ok(id))
                        },
                    }
                },
            },
        }
    }

    /// Effect of [`Sim::capture_event`].
    pub open spec fn capture_event(self, event: EventId) -> SimState {
        let s = self;
        let root = s.event_root(event);
        match s.capturing {
            Some(cap) => {
                let cap = CaptureView { events: cap.events.insert(root), ..cap };
                let s = SimState { capturing: Some(cap), ..s };
                s
            },
            _ => s,
        }
    }

    /// Effect of [`Sim::capture_fork`].
    #[verifier::opaque]
    pub open spec fn capture_fork(
        self,
        device: DeviceId,
        stream: StreamId,
        kind: GpuOpView,
    ) -> (SimState, Result<(), SimError>) {
        let s = self;
        match kind {
            GpuOpView::EventWait { event, external } => {
                let root = s.event_root(event);
                let (join, same) = (match s.capturing {
                    Some(c) => (!external && c.events.contains(root), c.origin.0 == device),
                    None => (false, false),
                });
                if join && !s.in_capture(device, stream) {
                    if !same {
                        (s, Err(invalid("capture fork requires same device")))
                    } else if !s.stream_idle(device, stream) {
                        (s, Err(invalid("capture fork requires idle stream")))
                    } else {
                        let s = match s.capturing {
                            Some(cap) => {
                                let cap = CaptureView {
                                    streams: cap.streams.insert(Lane(device, stream)),
                                    ..cap
                                };
                                let s = SimState { capturing: Some(cap), ..s };
                                s
                            },
                            _ => s,
                        };
                        (s, Ok(()))
                    }
                } else {
                    (s, Ok(()))
                }
            },
            _ => (s, Ok(())),
        }
    }

    /// Effect of [`Sim::capture_events`].
    #[verifier::opaque]
    pub open spec fn capture_events(self, kind: GpuOpView) -> SimState {
        let s = self;
        let s = match kind {
            GpuOpView::EventRecord { event, external } => {
                let s = if !external {
                    let s = s.capture_event(event);
                    s
                } else {
                    s
                };
                s
            },
            _ => s,
        };
        let s = match s.enq.programmatic_event {
            Some(pe) => {
                let s = s.ensure_event(pe.event);
                let s = if !pe.external {
                    let s = s.capture_event(pe.event);
                    s
                } else {
                    s
                };
                s
            },
            _ => s,
        };
        match s.enq.launch_completion {
            Some(lc) => {
                let s = s.ensure_event(lc.event);
                if !lc.external {
                    let s = s.capture_event(lc.event);
                    s
                } else {
                    s
                }
            },
            _ => s,
        }
    }

    /// Value of [`Sim::last_captured_on`].
    pub open spec fn last_captured_on(self, device: DeviceId, stream: StreamId) -> Option<usize> {
        let found = None;
        self.last_captured_on_from(device, stream, found, 0)
    }

    /// [`Sim::last_captured_on`] from position `i` on.
    pub open spec fn last_captured_on_from(
        self,
        device: DeviceId,
        stream: StreamId,
        found: Option<usize>,
        i: int,
    ) -> Option<usize>
        decreases self.capture_buf.len() - i,
    {
        if 0 <= i < self.capture_buf.len() {
            let s = self.capture_buf[i];
            let found = if s.device == device && s.stream == stream {
                let found = Some((i as usize));
                found
            } else {
                found
            };
            self.last_captured_on_from(device, stream, found, i + 1)
        } else {
            found
        }
    }

    /// Value of [`Sim::last_captured_record`].
    pub open spec fn last_captured_record(self, root: EventId) -> Option<usize> {
        let found = None;
        self.last_captured_record_from(root, found, 0)
    }

    /// [`Sim::last_captured_record`] from position `i` on.
    pub open spec fn last_captured_record_from(
        self,
        root: EventId,
        found: Option<usize>,
        i: int,
    ) -> Option<usize>
        decreases self.capture_buf.len() - i,
    {
        if 0 <= i < self.capture_buf.len() {
            let s = self.capture_buf[i];
            let found = match s.kind {
                GpuOpView::EventRecord { event, external } => {
                    let found = if !external && self.event_root(event) == root {
                        let found = Some((i as usize));
                        found
                    } else {
                        found
                    };
                    found
                },
                _ => found,
            };
            self.last_captured_record_from(root, found, i + 1)
        } else {
            found
        }
    }

    /// Value of [`Sim::capture_step_deps`].
    pub open spec fn capture_step_deps(
        self,
        device: DeviceId,
        stream: StreamId,
        kind: GpuOpView,
    ) -> Seq<usize> {
        let deps = Seq::empty();
        let deps = match self.last_captured_on(device, stream) {
            Some(i) => {
                let deps = deps.push(i);
                deps
            },
            _ => deps,
        };
        let deps = match kind {
            GpuOpView::EventWait { event, external } => {
                let deps = if !external {
                    let deps = match self.last_captured_record(self.event_root(event)) {
                        Some(i) => {
                            let deps = with_new(deps, i);
                            deps
                        },
                        _ => deps,
                    };
                    deps
                } else {
                    deps
                };
                deps
            },
            _ => deps,
        };
        deps
    }

    /// Value of [`Sim::capture_base`].
    pub open spec fn capture_base(self) -> usize {
        match self.capturing {
            Some(c) => match self.graphs.get(c.graph) {
                Some(g) => (g.steps.len() as usize),
                None => 0,
            },
            None => 0,
        }
    }

    /// Value of [`Sim::pending_captured`].
    pub open spec fn pending_captured(self, first: Seq<usize>, extra: Seq<usize>) -> Seq<usize> {
        let base = self.capture_base();
        let deps = first;
        self.pending_captured_from(extra, base, deps, 0)
    }

    /// [`Sim::pending_captured`] from position `i` on.
    pub open spec fn pending_captured_from(
        self,
        extra: Seq<usize>,
        base: usize,
        deps: Seq<usize>,
        i: int,
    ) -> Seq<usize>
        decreases extra.len() - i,
    {
        if 0 <= i < extra.len() {
            let p = extra[i];
            let rel = p.saturating_sub(base);
            let deps = if p >= base && rel < self.capture_buf.len() {
                let deps = with_new(deps, rel);
                deps
            } else {
                deps
            };
            self.pending_captured_from(extra, base, deps, i + 1)
        } else {
            let deps = ascending(deps);
            deps
        }
    }

    /// What position `i` adds to [`Sim::pending_existing`].
    pub open spec fn pending_existing_at(
        self,
        extra: Seq<usize>,
        base: usize,
        i: int,
    ) -> Option<usize> {
        if extra[i] < base {
            Some(extra[i])
        } else {
            None
        }
    }

    /// Value of [`Sim::pending_existing`].
    pub open spec fn pending_existing(self, extra: Seq<usize>) -> Seq<usize> {
        let base = self.capture_base();
        {
            let out = picked(extra.len(), |i: int| self.pending_existing_at(extra, base, i));
            distinct_ascending(out)
        }
    }

    /// Effect of [`Sim::take_pending`].
    pub open spec fn take_pending(
        self,
        device: DeviceId,
        stream: StreamId,
    ) -> (SimState, Seq<usize>) {
        let s = self;
        match s.capturing {
            Some(cap) => {
                let taken = cap.pending.get(Lane(device, stream));
                let cap = CaptureView { pending: cap.pending.remove(Lane(device, stream)), ..cap };
                let s = SimState { capturing: Some(cap), ..s };
                match taken {
                    Some(v) => (s, v),
                    None => (s, Seq::empty()),
                }
            },
            _ => (s, Seq::empty()),
        }
    }

    /// Effect of [`Sim::merge_capture_pending`].
    #[verifier::opaque]
    pub open spec fn merge_capture_pending(
        self,
        device: DeviceId,
        stream: StreamId,
        first: Seq<usize>,
    ) -> (SimState, Seq<usize>) {
        let s = self;
        let (s, extra) = s.take_pending(device, stream);
        if extra.len() == 0 {
            (s, first)
        } else {
            let deps = s.pending_captured(first, extra);
            let known = s.pending_existing(extra);
            let s = if known.len() > 0 {
                let at = (s.capture_buf.len() as usize);
                let s = match s.capturing {
                    Some(cap) => {
                        let cap = CaptureView { extra_abs: cap.extra_abs.insert(at, known), ..cap };
                        let s = SimState { capturing: Some(cap), ..s };
                        s
                    },
                    _ => s,
                };
                s
            } else {
                s
            };
            (s, deps)
        }
    }

    /// Effect of [`Sim::record_captured`].
    #[verifier::opaque]
    pub open spec fn record_captured(
        self,
        device: DeviceId,
        stream: StreamId,
        kind: GpuOpView,
    ) -> (SimState, Result<OpId, SimError>) {
        let s = self;
        let s = s.capture_events(kind);
        let first = s.capture_step_deps(device, stream, kind);
        let (s, deps) = s.merge_capture_pending(device, stream, first);
        let priority = s.snap_priority(device, stream);
        match s.snap_mem_sync(device, stream, kind) {
            Err(e) => (s, Err(e)),
            Ok((domain, map)) => {
                let attrs = s.node_attrs(priority, domain, map);
                let step = StepView {
                    device,
                    stream,
                    kind,
                    deps,
                    enabled: true,
                    destroyed: false,
                    attrs,
                };
                let s = SimState { capture_buf: s.capture_buf.push(step), ..s };
                let (s, id) = s.take_op_id();
                (s, Ok(id))
            },
        }
    }

    /// Effect of [`Sim::submit_captured`].
    #[verifier::opaque]
    pub open spec fn submit_captured(
        self,
        device: DeviceId,
        stream: StreamId,
        kind: GpuOpView,
    ) -> (SimState, Result<OpId, SimError>) {
        let s = self;
        match s.capture_fork(device, stream, kind) {
            (s, Err(e)) => (s, Err(e)),
            (s, Ok(_v)) => if !s.in_capture(device, stream) {
                let live = (match s.capturing {
                    Some(c) => c.mode.live_uncaptured(),
                    None => false,
                });
                if live {
                    s.submit_live(device, stream, kind, LaunchCost::Kernel)
                } else {
                    (s, Err(invalid("stream not capturing")))
                }
            } else {
                s.record_captured(device, stream, kind)
            },
        }
    }

    /// Effect of [`Sim::submit_launch`].
    pub open spec fn submit_launch(
        self,
        device: DeviceId,
        stream: StreamId,
        kind: GpuOpView,
        launch: LaunchCost,
    ) -> (SimState, Result<OpId, SimError>) {
        let s = self;
        if s.unavailable.contains(device) {
            (s, Err(SimError::Unavailable { device }))
        } else if s.capturing.is_some() {
            s.submit_captured(device, stream, kind)
        } else {
            s.submit_live(device, stream, kind, launch)
        }
    }

    /// Effect of [`Sim::submit`].
    pub open spec fn submit(
        self,
        device: DeviceId,
        stream: StreamId,
        kind: GpuOpView,
    ) -> (SimState, Result<OpId, SimError>) {
        let s = self;
        s.submit_launch(device, stream, kind, LaunchCost::Kernel)
    }

    /// Effect of [`Sim::allreduce`].
    pub open spec fn allreduce(
        self,
        parts: Seq<(DeviceId, AllocId)>,
        bytes: u64,
        stream: StreamId,
    ) -> (SimState, Result<OpId, SimError>) {
        let s = self;
        if parts.len() < 2 {
            (s, Err(invalid("allreduce needs >= 2 ranks")))
        } else {
            let device = parts[0].0;
            s.submit(device, stream, GpuOpView::AllReduce { parts, bytes })
        }
    }
}

impl Sim {
    pub(crate) fn op_done(&self, id: OpId) -> (r: bool)
        ensures
            r == self@.op_done(id),
    {
        match self.ops.get(id) {
            Some(o) => o.done,
            None => false,
        }
    }

    /// No operation of the device is unfinished or in flight.
    pub(crate) fn device_idle(&self, device: DeviceId) -> (r: bool)
        ensures
            r == self@.device_idle(device),
    {
        !self.op_pending_on_device(device) && !self.running_on_device(device)
    }

    /// No operation of the stream, and none that it still joins, is unfinished or in flight.
    pub(crate) fn stream_idle(&self, device: DeviceId, stream: StreamId) -> (r: bool)
        ensures
            r == self@.stream_idle(device, stream),
    {
        if self.op_pending_on(device, stream) || self.running_on(device, stream) {
            return false;
        }
        match self.graph_joins.get(Lane(device, stream)) {
            Some(ids) => self.all_done(ids),
            None => true,
        }
    }

    /// Whether the stream takes part in the capture.
    pub(crate) fn in_capture(&self, device: DeviceId, stream: StreamId) -> (r: bool)
        ensures
            r == self@.in_capture(device, stream),
    {
        match self.capturing.as_ref() {
            Some(c) => c.streams.contains(Lane(device, stream)),
            None => false,
        }
    }

    /// No unfinished operation on the stream. A capturing stream is [`SimError::Invalid`].
    pub fn stream_is_idle(&self, device: DeviceId, stream: StreamId) -> (r: Result<bool, SimError>)
        ensures
            r == self@.stream_is_idle(device, stream),
    {
        self.query_stream(device, stream)
    }

    /// `cudaStreamQuery`: does not wait.
    pub fn query_stream(&self, device: DeviceId, stream: StreamId) -> (r: Result<bool, SimError>)
        ensures
            r == self@.query_stream(device, stream),
    {
        let _gpu = self.profile.gpu(device)?;
        if self.in_capture(device, stream) {
            return Err(invalid("cannot query stream during capture"));
        }
        Ok(self.stream_idle(device, stream))
    }

    /// `id` additionally waits for `dep`.
    pub(crate) fn add_op_dep(&mut self, id: OpId, dep: OpId)
        ensures
            final(self)@ == old(self)@.add_op_dep(id, dep),
    {
        if let Some(op) = self.ops.get_mut(id) {
            push_new(&mut op.deps, dep);
        }
    }

    /// `id` additionally waits for every operation in the list.
    pub(crate) fn add_op_deps(&mut self, id: OpId, deps: &Vec<OpId>)
        ensures
            final(self)@ == old(self)@.add_op_deps(id, deps@),
    {
        let mut i: usize = 0;
        while i < deps.len()
            invariant
                i <= deps@.len(),
                old(self)@.add_op_deps(id, deps@) == self@.add_op_deps_from(id, deps@, i as int),
            decreases deps@.len() - i,
        {
            self.add_op_dep(id, deps[i]);
            i += 1;
        }
    }

    pub(crate) fn validate_cluster(
        &self,
        device: DeviceId,
        dim: ClusterDim,
        mode: PortableClusterMode,
    ) -> (r: Result<u32, SimError>)
        ensures
            r == self@.validate_cluster(device, dim, mode),
    {
        let n: u32 = self.cluster_block_count(device, dim)?;
        let gpu = self.profile.gpu(device)?;
        let portable: u32 = max_u16(gpu.portable_cluster_size, 1) as u32;
        if n > portable && !mode.allows_non_portable(self.non_portable_cluster.contains(device)) {
            return Err(invalid("non-portable cluster"));
        }
        Ok(n)
    }

    /// A cluster and a preferred cluster that the device can run. The preferred one is a multiple
    /// of the other.
    pub(crate) fn validate_cluster_attrs(
        &self,
        device: DeviceId,
        cluster: Option<ClusterDim>,
        preferred: Option<ClusterDim>,
        mode: PortableClusterMode,
    ) -> (r: Result<(), SimError>)
        ensures
            r == self@.validate_cluster_attrs(device, cluster, preferred, mode),
    {
        match cluster {
            Some(c) => {
                let _n = self.validate_cluster(device, c, mode)?;
                match preferred {
                    Some(p) => {
                        if !p.multiple_of(c) {
                            return Err(invalid("preferred cluster"));
                        }
                        let _m = self.validate_cluster(device, p, mode)?;
                        Ok(())
                    },
                    None => Ok(()),
                }
            },
            None => if preferred.is_some() {
                Err(invalid("preferred cluster"))
            } else {
                Ok(())
            },
        }
    }

    /// Dynamic shared memory within the opt-in limit, and allowed beyond the portable one.
    pub(crate) fn validate_dynamic_shared(
        &self,
        device: DeviceId,
        bytes: u32,
        mode: PortableSharedMode,
    ) -> (r: Result<(), SimError>)
        ensures
            r == self@.validate_dynamic_shared(device, bytes, mode),
    {
        if bytes == 0 {
            return Ok(());
        }
        let gpu = self.profile.gpu(device)?;
        let portable: u32 = max_u32(gpu.max_shared_mem_per_block, 1);
        let optin: u32 = max_u32(gpu.max_shared_mem_per_block_optin, portable);
        if bytes > optin {
            return Err(invalid("dynamic shared"));
        }
        let func: u32 = self.max_dynamic_shared_memory(device);
        if !mode.allows_oversize(func, bytes, portable) {
            return Err(invalid("non-portable shared"));
        }
        Ok(())
    }

    /// Dynamic shared memory that functions of the device may use; `0` is the portable amount.
    pub fn max_dynamic_shared_memory(&self, device: DeviceId) -> (r: u32)
        ensures
            r == self@.max_dynamic_shared_memory(device),
    {
        match self.max_dynamic_shared.get(device) {
            Some(b) => *b,
            None => 0,
        }
    }

    /// Memory-synchronization domain and map of the next submission. A reduction defaults to the
    /// remote domain.
    pub(crate) fn snap_mem_sync(
        &self,
        device: DeviceId,
        stream: StreamId,
        kind: &GpuOp,
    ) -> (r: Result<(MemSyncDomain, MemSyncDomainMap), SimError>)
        ensures
            r == self@.snap_mem_sync(device, stream, kind@),
    {
        let map: MemSyncDomainMap = match self.enq.mem_sync_map {
            Some(m) => m,
            None => self.stream_mem_sync_domain_map(device, stream)?,
        };
        self.validate_mem_sync_map(device, map)?;
        let domain = match self.enq.mem_sync_domain {
            Some(d) => d,
            None => if matches!(kind, GpuOp::AllReduce { .. }) {
                MemSyncDomain::Remote
            } else {
                self.stream_mem_sync_domain(device, stream)
            },
        };
        Ok((domain, map))
    }

    /// Attributes of a node recorded now.
    pub(crate) fn node_attrs(
        &self,
        priority: i32,
        mem_sync_domain: MemSyncDomain,
        mem_sync_map: MemSyncDomainMap,
    ) -> (r: NodeAttrs)
        ensures
            r == self@.node_attrs(priority, mem_sync_domain, mem_sync_map),
    {
        NodeAttrs {
            priority,
            pdl: self.enq.pdl,
            programmatic_event: self.enq.programmatic_event,
            launch_completion: self.enq.launch_completion,
            access_policy: self.enq.access_policy,
            mem_sync_domain,
            mem_sync_map,
            cluster: self.enq.cluster,
            cluster_policy: self.enq.cluster_policy,
            preferred_cluster: self.enq.preferred_cluster,
            carveout: self.enq.carveout,
            device_updatable: self.enq.device_updatable,
            shared_mem: self.enq.shared_mem,
            portable_cluster: self.enq.portable_cluster,
            dynamic_shared: self.enq.dynamic_shared,
            portable_shared: self.enq.portable_shared,
            nvlink_util_centric: self.enq.nvlink_util_centric,
        }
    }

    /// Attributes of an operation submitted now.
    pub(crate) fn op_attrs(&self, priority: i32, mem_sync_physical: u8) -> (r: OpAttrs)
        ensures
            r == self@.op_attrs(priority, mem_sync_physical),
    {
        OpAttrs {
            priority,
            pdl: self.enq.pdl,
            programmatic_event: self.enq.programmatic_event,
            launch_completion: self.enq.launch_completion,
            access_policy: self.enq.access_policy,
            mem_sync_physical,
            cluster: self.enq.cluster,
            cluster_policy: self.enq.cluster_policy,
            preferred_cluster: self.enq.preferred_cluster,
            carveout: self.enq.carveout,
            shared_mem: self.enq.shared_mem,
            nvlink_util_centric: self.enq.nvlink_util_centric,
        }
    }

    /// `first`, then the unfinished operations of the stream.
    ///
    /// A programmatic wait can finish before an earlier kernel, so the last operation alone does
    /// not order what follows behind everything before it.
    pub(crate) fn with_stream_ops(
        &self,
        device: DeviceId,
        stream: StreamId,
        first: &Vec<OpId>,
    ) -> (r: Vec<OpId>)
        ensures
            r@ == self@.with_stream_ops(device, stream, first@),
    {
        let mut deps: Vec<OpId> = copy_vec(first);
        let mut i: usize = 0;
        while i < self.ops.len()
            invariant
                i <= order_of(self@.ops.dom()).len(),
                self@.with_stream_ops(device, stream, first@) == self@.with_stream_ops_from(
                    device,
                    stream,
                    deps@,
                    i as int,
                ),
            decreases order_of(self@.ops.dom()).len() - i,
        {
            let id = self.ops.key_at(i);
            let o = self.ops.val_at(i);
            if o.device == device && o.stream == stream && !o.done && !o.cancelled
                && !has_key(&deps, id) {
                deps.push(id);
            }
            i += 1;
        }
        deps
    }

    /// Whether the null stream waits for the stream of `lane`.
    pub(crate) fn null_waits_for(&self, device: DeviceId, lane: Lane) -> (r: bool)
        ensures
            r == self@.null_waits_for(device, lane),
    {
        if self.legacy_null_stream {
            lane.0 == device && !lane.1.is_null()
        } else {
            lane.0 == device && self.blocking.contains(lane)
        }
    }

    /// `first`, then the last operation of every stream that the null stream waits for.
    pub(crate) fn with_null_waits(&self, device: DeviceId, first: &Vec<OpId>) -> (r: Vec<OpId>)
        ensures
            r@ == self@.with_null_waits(device, first@),
    {
        let mut deps: Vec<OpId> = copy_vec(first);
        let mut i: usize = 0;
        while i < self.tail.len()
            invariant
                i <= order_of(self@.tail.dom()).len(),
                self@.with_null_waits(device, first@) == self@.with_null_waits_from(
                    device,
                    deps@,
                    i as int,
                ),
            decreases order_of(self@.tail.dom()).len() - i,
        {
            let lane = self.tail.key_at(i);
            let last = self.tail.val_at(i);
            if self.null_waits_for(device, lane) {
                deps.push(*last);
            }
            i += 1;
        }
        deps
    }

    /// `first`, then what serialization with the null stream adds.
    pub(crate) fn with_null_stream(
        &self,
        device: DeviceId,
        stream: StreamId,
        first: &Vec<OpId>,
    ) -> (r: Vec<OpId>)
        ensures
            r@ == self@.with_null_stream(device, stream, first@),
    {
        if stream.is_null() {
            return self.with_null_waits(device, first);
        }
        let mut deps: Vec<OpId> = copy_vec(first);
        if self.legacy_null_stream || self.blocking.contains(Lane(device, stream)) {
            if let Some(last) = self.tail.get(Lane(device, StreamId::null())) {
                deps.push(*last);
            }
        }
        deps
    }

    /// What a submission to the stream waits for.
    pub(crate) fn stream_order_deps(&self, device: DeviceId, stream: StreamId) -> (r: Vec<OpId>)
        ensures
            r@ == self@.stream_order_deps(device, stream),
    {
        let mut first: Vec<OpId> = Vec::new();
        if let Some(prev) = self.tail.get(Lane(device, stream)) {
            first.push(*prev);
        }
        let mut deps: Vec<OpId> = self.with_stream_ops(device, stream, &first);
        if let Some(joins) = self.graph_joins.get(Lane(device, stream)) {
            push_all_new(&mut deps, joins);
        }
        self.with_null_stream(device, stream, &deps)
    }

    /// Events that the attributes of the next submission record.
    pub(crate) fn ensure_launch_events(&mut self)
        ensures
            final(self)@ == old(self)@.ensure_launch_events(),
    {
        if let Some(pe) = self.enq.programmatic_event {
            self.ensure_event(pe.event);
        }
        if let Some(lc) = self.enq.launch_completion {
            self.ensure_event(lc.event);
        }
    }

    /// Note that `id` records the events of its attributes.
    pub(crate) fn mark_launch_events(
        &mut self,
        pde: Option<ProgrammaticEvent>,
        lce: Option<LaunchCompletionEvent>,
        id: OpId,
    )
        ensures
            final(self)@ == old(self)@.mark_launch_events(pde, lce, id),
    {
        if let Some(pe) = pde {
            let root = self.event_root(pe.event);
            self.mark_recorded(root, id);
        }
        if let Some(lc) = lce {
            let root = self.event_root(lc.event);
            self.mark_recorded(root, id);
        }
    }

    /// Cluster and shared memory of the next kernel fit the device.
    pub(crate) fn validate_kernel_launch(
        &self,
        device: DeviceId,
        kind: &GpuOp,
    ) -> (r: Result<(), SimError>)
        ensures
            r == self@.validate_kernel_launch(device, kind@),
    {
        if matches!(kind, GpuOp::Kernel { .. }) {
            self.validate_cluster_attrs(
                device,
                self.enq.cluster,
                self.enq.preferred_cluster,
                self.enq.portable_cluster,
            )?;
            return self.validate_dynamic_shared(
                device,
                self.enq.dynamic_shared,
                self.enq.portable_shared,
            );
        }
        Ok(())
    }

    /// The stream order of a submission, and the record that an event wait follows.
    pub(crate) fn submit_deps(
        &self,
        device: DeviceId,
        stream: StreamId,
        kind: &GpuOp,
    ) -> (r: Vec<OpId>)
        ensures
            r@ == self@.submit_deps(device, stream, kind@),
    {
        let mut deps: Vec<OpId> = self.stream_order_deps(device, stream);
        if let GpuOp::EventWait { event, external } = kind {
            if let Some(rec) = self.event_recorded_by(*event) {
                deps.push(rec);
            }
        }
        deps
    }

    /// Number of the next operation.
    pub(crate) fn take_op_id(&mut self) -> (r: OpId)
        ensures
            final(self)@ == old(self)@.take_op_id().0,
            r == old(self)@.take_op_id().1,
    {
        let id = OpId(self.next.op);
        self.next.op = self.next.op.saturating_add(1);
        id
    }

    /// Queue an operation behind its stream.
    pub(crate) fn submit_live(
        &mut self,
        device: DeviceId,
        stream: StreamId,
        kind: GpuOp,
        launch: LaunchCost,
    ) -> (r: Result<OpId, SimError>)
        ensures
            final(self)@ == old(self)@.submit_live(device, stream, kind@, launch).0,
            r == old(self)@.submit_live(device, stream, kind@, launch).1,
    {
        reveal(SimState::submit_live);
        let _gpu = self.profile.gpu(device)?;
        self.validate_kernel_launch(device, &kind)?;
        let id = self.take_op_id();
        self.ensure_launch_events();
        let deps: Vec<OpId> = self.submit_deps(device, stream, &kind);
        let priority: i32 = self.snap_priority(device, stream);
        let (domain, map) = self.snap_mem_sync(device, stream, &kind)?;
        let attrs = self.op_attrs(priority, map.physical(domain));
        let op = Op {
            device,
            stream,
            kind,
            deps,
            done: false,
            cancelled: false,
            launch,
            submit_ns: self.clock,
            start_ns: None,
            done_ns: None,
            preds: copy_vec(&self.enqueue_preds),
            skipped: false,
            attrs,
            pdl_trigger_ns: None,
            domain_fence_paid: false,
        };
        self.ops.insert(id, op);
        self.mark_launch_events(attrs.programmatic_event, attrs.launch_completion, id);
        self.tail.insert(Lane(device, stream), id);
        Ok(id)
    }

    /// Note an event as recorded inside the capture.
    pub(crate) fn capture_event(&mut self, event: EventId)
        ensures
            final(self)@ == old(self)@.capture_event(event),
    {
        let root = self.event_root(event);
        if let Some(cap) = self.capturing.as_mut() {
            let _new = cap.events.insert(root);
        }
    }

    /// A wait on an event of the capture makes its stream join.
    pub(crate) fn capture_fork(
        &mut self,
        device: DeviceId,
        stream: StreamId,
        kind: &GpuOp,
    ) -> (r: Result<(), SimError>)
        ensures
            final(self)@ == old(self)@.capture_fork(device, stream, kind@).0,
            r == old(self)@.capture_fork(device, stream, kind@).1,
    {
        reveal(SimState::capture_fork);
        if let GpuOp::EventWait { event, external } = kind {
            let root = self.event_root(*event);
            let (join, same): (bool, bool) = match self.capturing.as_ref() {
                Some(c) => (!*external && c.events.contains(root), c.origin.0 == device),
                None => (false, false),
            };
            if join && !self.in_capture(device, stream) {
                if !same {
                    return Err(invalid("capture fork requires same device"));
                }
                if !self.stream_idle(device, stream) {
                    return Err(invalid("capture fork requires idle stream"));
                }
                if let Some(cap) = self.capturing.as_mut() {
                    let _new = cap.streams.insert(Lane(device, stream));
                }
            }
        }
        Ok(())
    }

    /// Events that a captured submission records.
    pub(crate) fn capture_events(&mut self, kind: &GpuOp)
        ensures
            final(self)@ == old(self)@.capture_events(kind@),
    {
        reveal(SimState::capture_events);
        if let GpuOp::EventRecord { event, external } = kind {
            if !*external {
                self.capture_event(*event);
            }
        }
        if let Some(pe) = self.enq.programmatic_event {
            self.ensure_event(pe.event);
            if !pe.external {
                self.capture_event(pe.event);
            }
        }
        if let Some(lc) = self.enq.launch_completion {
            self.ensure_event(lc.event);
            if !lc.external {
                self.capture_event(lc.event);
            }
        }
    }

    /// Last captured node of the stream.
    pub(crate) fn last_captured_on(&self, device: DeviceId, stream: StreamId) -> (r: Option<usize>)
        ensures
            r == self@.last_captured_on(device, stream),
    {
        let mut found: Option<usize> = None;
        let mut i: usize = 0;
        while i < self.capture_buf.len()
            invariant
                i <= self@.capture_buf.len(),
                self@.last_captured_on(device, stream) == self@.last_captured_on_from(
                    device,
                    stream,
                    found,
                    i as int,
                ),
            decreases self@.capture_buf.len() - i,
        {
            let s = self.capture_buf.at(i);
            if s.device == device && s.stream == stream {
                found = Some(i);
            }
            i += 1;
        }
        found
    }

    /// Last captured record of the event `root` inside the capture.
    pub(crate) fn last_captured_record(&self, root: EventId) -> (r: Option<usize>)
        ensures
            r == self@.last_captured_record(root),
    {
        let mut found: Option<usize> = None;
        let mut i: usize = 0;
        while i < self.capture_buf.len()
            invariant
                i <= self@.capture_buf.len(),
                self@.last_captured_record(root) == self@.last_captured_record_from(
                    root,
                    found,
                    i as int,
                ),
            decreases self@.capture_buf.len() - i,
        {
            let s = self.capture_buf.at(i);
            if let GpuOp::EventRecord { event, external } = &s.kind {
                if !*external && self.event_root(*event) == root {
                    found = Some(i);
                }
            }
            i += 1;
        }
        found
    }

    /// Captured nodes that a submission depends on: its stream, and the record of an event wait.
    pub(crate) fn capture_step_deps(
        &self,
        device: DeviceId,
        stream: StreamId,
        kind: &GpuOp,
    ) -> (r: Vec<usize>)
        ensures
            r@ == self@.capture_step_deps(device, stream, kind@),
    {
        let mut deps: Vec<usize> = Vec::new();
        if let Some(i) = self.last_captured_on(device, stream) {
            deps.push(i);
        }
        if let GpuOp::EventWait { event, external } = kind {
            if !*external {
                if let Some(i) = self.last_captured_record(self.event_root(*event)) {
                    push_new(&mut deps, i);
                }
            }
        }
        deps
    }

    /// Nodes of the graph that a capture appends to.
    pub(crate) fn capture_base(&self) -> (r: usize)
        ensures
            r == self@.capture_base(),
    {
        match self.capturing.as_ref() {
            Some(c) => match self.graphs.get(c.graph) {
                Some(g) => g.steps.len(),
                None => 0,
            },
            None => 0,
        }
    }

    /// `first` with the pending dependencies that are captured nodes, ascending.
    pub(crate) fn pending_captured(&self, first: &Vec<usize>, extra: &Vec<usize>) -> (r: Vec<usize>)
        ensures
            r@ == self@.pending_captured(first@, extra@),
    {
        let base: usize = self.capture_base();
        let mut deps: Vec<usize> = copy_vec(first);
        let mut i: usize = 0;
        while i < extra.len()
            invariant
                i <= extra@.len(),
                self@.pending_captured(first@, extra@) == self@.pending_captured_from(
                    extra@,
                    base,
                    deps@,
                    i as int,
                ),
            decreases extra@.len() - i,
        {
            let p: usize = extra[i];
            let rel: usize = p.saturating_sub(base);
            if p >= base && rel < self.capture_buf.len() {
                push_new(&mut deps, rel);
            }
            i += 1;
        }
        sort(&mut deps);
        deps
    }

    /// The pending dependencies that are nodes of the graph already.
    pub(crate) fn pending_existing(&self, extra: &Vec<usize>) -> (r: Vec<usize>)
        ensures
            r@ == self@.pending_existing(extra@),
    {
        let base: usize = self.capture_base();
        let mut out: Vec<usize> = Vec::new();
        let mut i: usize = 0;
        while i < extra.len()
            invariant
                i <= extra@.len(),
                out@ == picked(i as nat, |j: int| self@.pending_existing_at(extra@, base, j)),
            decreases extra@.len() - i,
        {
            if extra[i] < base {
                out.push(extra[i]);
            }
            i += 1;
        }
        sorted_distinct(out.as_slice())
    }

    /// Pending dependencies of the stream, which the next captured node takes.
    pub(crate) fn take_pending(&mut self, device: DeviceId, stream: StreamId) -> (r: Vec<usize>)
        ensures
            final(self)@ == old(self)@.take_pending(device, stream).0,
            r@ == old(self)@.take_pending(device, stream).1,
    {
        if let Some(cap) = self.capturing.as_mut() {
            let taken = cap.pending.remove(Lane(device, stream));
            return match taken {
                Some(v) => v,
                None => Vec::new(),
            };
        }
        Vec::new()
    }

    /// Dependencies of the next captured node on top of `first`.
    pub(crate) fn merge_capture_pending(
        &mut self,
        device: DeviceId,
        stream: StreamId,
        first: &Vec<usize>,
    ) -> (r: Vec<usize>)
        ensures
            final(self)@ == old(self)@.merge_capture_pending(device, stream, first@).0,
            r@ == old(self)@.merge_capture_pending(device, stream, first@).1,
    {
        reveal(SimState::merge_capture_pending);
        let extra: Vec<usize> = self.take_pending(device, stream);
        if extra.len() == 0 {
            return copy_vec(first);
        }
        let deps: Vec<usize> = self.pending_captured(first, &extra);
        let known: Vec<usize> = self.pending_existing(&extra);
        if known.len() > 0 {
            let at: usize = self.capture_buf.len();
            if let Some(cap) = self.capturing.as_mut() {
                cap.extra_abs.insert(at, known);
            }
        }
        deps
    }

    /// Record a submission of a capturing stream as a node.
    pub(crate) fn record_captured(
        &mut self,
        device: DeviceId,
        stream: StreamId,
        kind: GpuOp,
    ) -> (r: Result<OpId, SimError>)
        ensures
            final(self)@ == old(self)@.record_captured(device, stream, kind@).0,
            r == old(self)@.record_captured(device, stream, kind@).1,
    {
        reveal(SimState::record_captured);
        self.capture_events(&kind);
        let first: Vec<usize> = self.capture_step_deps(device, stream, &kind);
        let deps: Vec<usize> = self.merge_capture_pending(device, stream, &first);
        let priority: i32 = self.snap_priority(device, stream);
        let (domain, map) = self.snap_mem_sync(device, stream, &kind)?;
        let attrs = self.node_attrs(priority, domain, map);
        let step = GraphStep { device, stream, kind, deps, enabled: true, destroyed: false, attrs };
        self.capture_buf.push(step);
        let id = self.take_op_id();
        Ok(id)
    }

    /// Submission while a capture is in progress.
    pub(crate) fn submit_captured(
        &mut self,
        device: DeviceId,
        stream: StreamId,
        kind: GpuOp,
    ) -> (r: Result<OpId, SimError>)
        ensures
            final(self)@ == old(self)@.submit_captured(device, stream, kind@).0,
            r == old(self)@.submit_captured(device, stream, kind@).1,
    {
        reveal(SimState::submit_captured);
        self.capture_fork(device, stream, &kind)?;
        if !self.in_capture(device, stream) {
            let live: bool = match self.capturing.as_ref() {
                Some(c) => c.mode.live_uncaptured(),
                None => false,
            };
            if live {
                return self.submit_live(device, stream, kind, LaunchCost::Kernel);
            }
            return Err(invalid("stream not capturing"));
        }
        self.record_captured(device, stream, kind)
    }

    pub(crate) fn submit_launch(
        &mut self,
        device: DeviceId,
        stream: StreamId,
        kind: GpuOp,
        launch: LaunchCost,
    ) -> (r: Result<OpId, SimError>)
        ensures
            final(self)@ == old(self)@.submit_launch(device, stream, kind@, launch).0,
            r == old(self)@.submit_launch(device, stream, kind@, launch).1,
    {
        if self.unavailable.contains(device) {
            return Err(SimError::Unavailable { device });
        }
        if self.capturing.is_some() {
            return self.submit_captured(device, stream, kind);
        }
        self.submit_live(device, stream, kind, launch)
    }

    pub(crate) fn submit(
        &mut self,
        device: DeviceId,
        stream: StreamId,
        kind: GpuOp,
    ) -> (r: Result<OpId, SimError>)
        ensures
            final(self)@ == old(self)@.submit(device, stream, kind@).0,
            r == old(self)@.submit(device, stream, kind@).1,
    {
        self.submit_launch(device, stream, kind, LaunchCost::Kernel)
    }

    /// Ring reduction among `parts`. Each allocation must be resident on its device.
    pub fn allreduce(
        &mut self,
        parts: &[(DeviceId, AllocId)],
        bytes: u64,
        stream: StreamId,
    ) -> (r: Result<OpId, SimError>)
        ensures
            final(self)@ == old(self)@.allreduce(parts@, bytes, stream).0,
            r == old(self)@.allreduce(parts@, bytes, stream).1,
    {
        if parts.len() < 2 {
            return Err(invalid("allreduce needs >= 2 ranks"));
        }
        let device = parts[0].0;
        self.submit(device, stream, GpuOp::AllReduce { parts: copy_slice(parts), bytes })
    }
}

} // verus!
