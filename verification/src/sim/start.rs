//! Start of queued operations: admission, costs and leases.
use vstd::prelude::*;
use crate::error::{invalid, SimError};
use crate::ids::{
    AllocId, CondId, DeviceId, EventId, MulticastId, OpId, Peer, PoolId, StreamId, Word,
};
use crate::list::{
    all_ok, copy_vec, drop_key, Dup, each_ok, has_key, joined, lemma_all_done, lemma_all_ok,
    lemma_each_ok, ok_view, one, without,
};
use crate::num::{max_u16, max_u64, min_u16, min_u64, mul_sat};
use crate::ops::{
    AccessPolicyWindow, AccessProperty, BatchMemOp, ClusterSchedulingPolicy, GpuOp, GpuOpView,
    KernelBuf, KernelKind, MemcpyOp, MemsetOp, Place, ProgrammaticLaunch, SharedMemCarveout,
    SharedMemoryMode,
};
use crate::persist::{
    lines_filled, lines_joined, lines_ordered, lines_overlap, lines_used, merge_persist_spans,
    persist_discount, persist_fill, persist_used, span_overlap_with,
};
use crate::profile::{endpoint, ns_for_bytes, scale_ns_permille};
use crate::sim::{Sim, SimState};
use crate::spans::{
    kernel_span, maps_cover, memcpy_2d_check, validate_access_policy, vmm_covers, wait_value_mask,
    wait_value_span,
};
use crate::state::{
    Alloc, AllocView, Cond, CondPred, GpuRtView, LaunchCost, Op, OpAttrs, OpView, PersistLine,
    Preferred, Running, Share,
};
use crate::table::{KeySet, order_of, Table};

verus! {

impl SimState {
    /// Whether a predicate skips its operation.
    pub open spec fn pred_skips(self, p: CondPred) -> bool {
        match p {
            CondPred::Nonzero(h) => match self.conds.get(h) {
                Some(c) => c.value == 0,
                None => false,
            },
            CondPred::Equals(h, branch) => match self.conds.get(h) {
                Some(c) => c.value != branch,
                None => true,
            },
        }
    }

    /// Whether any predicate skips the operation.
    pub open spec fn cond_skip(self, preds: Seq<CondPred>) -> bool {
        exists|i: int| 0 <= i < preds.len() && self.pred_skips(#[trigger] preds[i])
    }
}

impl Sim {
    fn pred_skips(&self, p: CondPred) -> (r: bool)
        ensures
            r == self@.pred_skips(p),
    {
        match p {
            CondPred::Nonzero(h) => match self.conds.get(h) {
                Some(c) => c.value == 0,
                None => false,
            },
            CondPred::Equals(h, branch) => match self.conds.get(h) {
                Some(c) => c.value != branch,
                None => true,
            },
        }
    }

    pub(crate) fn cond_skip(&self, preds: &Vec<CondPred>) -> (r: bool)
        ensures
            r == self@.cond_skip(preds@),
    {
        let mut i: usize = 0;
        while i < preds.len()
            invariant
                i <= preds@.len(),
                forall|j: int| 0 <= j < i ==> !self@.pred_skips(#[trigger] preds@[j]),
            decreases preds@.len() - i,
        {
            if self.pred_skips(preds[i]) {
                assert(self@.pred_skips(preds@[i as int]));
                return true;
            }
            i += 1;
        }
        false
    }
}

impl SimState {
    /// Effect of [`Sim::run_solo`].
    pub open spec fn run_solo(self, op: OpId, ns: u64) -> SimState {
        let s = self;
        let s = SimState {
            running: s.running.push(
                Running { op, remaining_ns: max_u64(ns, 1), share: Share::Solo },
            ),
            ..s
        };
        s
    }

    /// Value of [`Sim::require_device_attach`].
    pub open spec fn require_device_attach(
        self,
        id: AllocId,
        stream: StreamId,
    ) -> Result<(), SimError> {
        match self.alloc_ref(id) {
            Err(e) => Err(e),
            Ok(a) => if a.device_attach_ok(stream) {
                Ok(())
            } else {
                Err(invalid("not attached"))
            },
        }
    }

    /// Check of position `i` in [`Sim::require_bufs_attached`].
    pub open spec fn require_bufs_attached_at(
        self,
        stream: StreamId,
        bufs: Seq<KernelBuf>,
        i: int,
    ) -> Result<(), SimError> {
        match self.require_device_attach(bufs[i].id, stream) {
            Err(e) => Err(e),
            Ok(_v) => Ok(()),
        }
    }

    /// Value of [`Sim::require_bufs_attached`].
    pub open spec fn require_bufs_attached(
        self,
        stream: StreamId,
        bufs: Seq<KernelBuf>,
    ) -> Result<(), SimError> {
        each_ok(bufs.len(), |i: int| self.require_bufs_attached_at(stream, bufs, i))
    }

    /// Value of [`Sim::require_memcpy_attach`].
    pub open spec fn require_memcpy_attach(
        self,
        stream: StreamId,
        m: MemcpyOp,
    ) -> Result<(), SimError> {
        match m.dst {
            Place::Device(_d) => self.require_device_attach(m.alloc, stream),
            Place::Host | Place::HostPinned => Ok(()),
        }
    }

    /// Value of [`Sim::read_faults`].
    pub open spec fn read_faults(
        self,
        device: DeviceId,
        reads: Seq<KernelBuf>,
    ) -> Result<Set<AllocId>, SimError> {
        let wait = Set::empty();
        self.read_faults_from(device, reads, wait, 0)
    }

    /// [`Sim::read_faults`] from position `i` on.
    pub open spec fn read_faults_from(
        self,
        device: DeviceId,
        reads: Seq<KernelBuf>,
        wait: Set<AllocId>,
        i: int,
    ) -> Result<Set<AllocId>, SimError>
        decreases reads.len() - i,
    {
        if 0 <= i < reads.len() {
            match self.alloc_ref(reads[i].id) {
                Err(e) => Err(e),
                Ok(a) => {
                    let wait = if a.live && a.managed && !a.devices.contains(device) && !a.remote_read_ok(device) {
                        let wait = wait.insert(reads[i].id);
                        wait
                    } else {
                        wait
                    };
                    self.read_faults_from(device, reads, wait, i + 1)
                },
            }
        } else {
            Ok(wait)
        }
    }

    /// Value of [`Sim::write_faults`].
    pub open spec fn write_faults(
        self,
        device: DeviceId,
        writes: Seq<KernelBuf>,
        first: Set<AllocId>,
    ) -> Result<Set<AllocId>, SimError> {
        let wait = first;
        self.write_faults_from(device, writes, wait, 0)
    }

    /// [`Sim::write_faults`] from position `i` on.
    pub open spec fn write_faults_from(
        self,
        device: DeviceId,
        writes: Seq<KernelBuf>,
        wait: Set<AllocId>,
        i: int,
    ) -> Result<Set<AllocId>, SimError>
        decreases writes.len() - i,
    {
        if 0 <= i < writes.len() {
            match self.alloc_ref(writes[i].id) {
                Err(e) => Err(e),
                Ok(a) => {
                    let wait = if a.live && a.managed && !a.devices.contains(device) {
                        let wait = wait.insert(writes[i].id);
                        wait
                    } else {
                        wait
                    };
                    self.write_faults_from(device, writes, wait, i + 1)
                },
            }
        } else {
            Ok(wait)
        }
    }

    /// Value of [`Sim::managed_fault_ids`].
    pub open spec fn managed_fault_ids(
        self,
        device: DeviceId,
        reads: Seq<KernelBuf>,
        writes: Seq<KernelBuf>,
    ) -> Result<Seq<AllocId>, SimError> {
        match self.read_faults(device, reads) {
            Err(e) => Err(e),
            Ok(first) => match self.write_faults(device, writes, first) {
                Err(e) => Err(e),
                Ok(wait) => Ok(order_of(wait)),
            },
        }
    }

    /// Value of [`Sim::fault_attrs`].
    pub open spec fn fault_attrs(self, priority: i32) -> OpAttrs {
        OpAttrs {
            priority,
            pdl: ProgrammaticLaunch::none(),
            programmatic_event: None,
            launch_completion: None,
            access_policy: None,
            mem_sync_physical: 0,
            cluster: None,
            cluster_policy: ClusterSchedulingPolicy::Default,
            preferred_cluster: None,
            carveout: SharedMemCarveout::Default,
            shared_mem: SharedMemoryMode::Default,
            nvlink_util_centric: false,
        }
    }

    /// Effect of [`Sim::inject_fault_memcpy`].
    #[verifier::opaque]
    pub open spec fn inject_fault_memcpy(
        self,
        kernel: OpId,
        device: DeviceId,
        alloc: AllocId,
        deps: Seq<OpId>,
    ) -> (SimState, Result<(), SimError>) {
        let s = self;
        match s.op_ref(kernel) {
            Err(e) => (s, Err(e)),
            Ok(row) => {
                let stream = row.stream;
                let priority = row.attrs.priority;
                match s.managed_move_src(alloc, Some(device)) {
                    Err(e) => (s, Err(e)),
                    Ok((bytes, src)) => {
                        let attrs = s.fault_attrs(priority);
                        let (s, id) = s.take_op_id();
                        let op = OpView {
                            device,
                            stream,
                            kind: GpuOpView::Memcpy(
                                MemcpyOp::packed_1d(src, Place::Device(device), alloc, bytes),
                            ),
                            deps,
                            done: false,
                            cancelled: false,
                            launch: LaunchCost::Kernel,
                            submit_ns: s.clock,
                            start_ns: None,
                            done_ns: None,
                            preds: Seq::empty(),
                            skipped: false,
                            attrs,
                            pdl_trigger_ns: None,
                            domain_fence_paid: false,
                        };
                        let s = SimState { ops: s.ops.insert(id, op), ..s };
                        let s = s.add_op_dep(kernel, id);
                        (s, Ok(()))
                    },
                }
            },
        }
    }

    /// Effect of [`Sim::inject_faults`].
    pub open spec fn inject_faults(
        self,
        kernel: OpId,
        device: DeviceId,
        wait: Seq<AllocId>,
        deps: Seq<OpId>,
    ) -> (SimState, Result<(), SimError>) {
        let s = self;
        s.inject_faults_from(kernel, device, wait, deps, 0)
    }

    /// [`Sim::inject_faults`] from position `i` on.
    pub open spec fn inject_faults_from(
        self,
        kernel: OpId,
        device: DeviceId,
        wait: Seq<AllocId>,
        deps: Seq<OpId>,
        i: int,
    ) -> (SimState, Result<(), SimError>)
        decreases wait.len() - i,
    {
        let s = self;
        if 0 <= i < wait.len() {
            match s.inject_fault_memcpy(kernel, device, wait[i], deps) {
                (s, Err(e)) => (s, Err(e)),
                (s, Ok(_v)) => s.inject_faults_from(kernel, device, wait, deps, i + 1),
            }
        } else {
            (s, Ok(()))
        }
    }

    /// Effect of [`Sim::inject_managed_faults`].
    pub open spec fn inject_managed_faults(
        self,
        kernel: OpId,
        device: DeviceId,
        reads: Seq<KernelBuf>,
        writes: Seq<KernelBuf>,
    ) -> (SimState, Result<bool, SimError>) {
        let s = self;
        match s.managed_fault_ids(device, reads, writes) {
            Err(e) => (s, Err(e)),
            Ok(wait) => if wait.len() == 0 {
                (s, Ok(false))
            } else {
                match s.op_ref(kernel) {
                    Err(e) => (s, Err(e)),
                    Ok(row) => {
                        let deps = row.deps;
                        match s.inject_faults(kernel, device, wait, deps) {
                            (s, Err(e)) => (s, Err(e)),
                            (s, Ok(_v)) => (s, Ok(true)),
                        }
                    },
                }
            },
        }
    }

    /// Value of [`Sim::pool_peer_ok`].
    pub open spec fn pool_peer_ok(self, a: AllocView, device: DeviceId) -> bool {
        if !a.live {
            false
        } else {
            match a.pool {
                None => false,
                Some(pid) => match self.pools.get(pid) {
                    None => false,
                    Some(p) => {
                        let root_id = (match p.share_root {
                            Some(r) => r,
                            None => pid,
                        });
                        match self.pools.get(root_id) {
                            None => false,
                            Some(root) => if root.device == device || !a.devices.contains(root.device) {
                                false
                            } else {
                                p.accessed_by.contains(device) || root.accessed_by.contains(device)
                            },
                        }
                    },
                },
            }
        }
    }

    /// Value of [`Sim::buf_on_device`].
    pub open spec fn buf_on_device(
        self,
        buf: KernelBuf,
        device: DeviceId,
        mapped_ok: bool,
        allow_remote: bool,
    ) -> Result<bool, SimError> {
        match self.alloc_ref(buf.id) {
            Err(e) => Err(e),
            Ok(alias) => {
                let root = (match alias.share_src {
                    Some(src) => src,
                    None => {
                        (match alias.ipc_src {
                            Some(src) => src,
                            None => buf.id,
                        })
                    },
                });
                match self.alloc_ref(root) {
                    Err(e) => Err(e),
                    Ok(a) => match kernel_span(a.bytes, buf) {
                        Err(e) => Err(e),
                        Ok((off, n)) => {
                            let on_device = if a.vmm {
                                a.live && maps_cover(a.vmm_maps, device, off, n)
                            } else {
                                a.live && a.devices.contains(device)
                            };
                            let home_span = (match a.vmm_home() {
                                Some(h) => maps_cover(a.vmm_maps, h, off, n),
                                None => false,
                            });
                            let mapped = mapped_ok && a.live && a.host_mapped;
                            let accessed = mapped_ok && allow_remote && a.remote_read_ok(device) && (
                                !a.vmm || home_span
                            );
                            let vmm_rw = a.vmm && a.vmm_write_by.contains(device) && home_span;
                            Ok(
                                on_device || mapped || accessed || self.pool_peer_ok(a, device) || vmm_rw,
                            )
                        },
                    },
                }
            },
        }
    }

    /// Check of position `i` in [`Sim::require_bufs_on_device`].
    pub open spec fn require_bufs_on_device_at(
        self,
        device: DeviceId,
        bufs: Seq<KernelBuf>,
        mapped_ok: bool,
        allow_remote: bool,
        i: int,
    ) -> Result<(), SimError> {
        match self.buf_on_device(bufs[i], device, mapped_ok, allow_remote) {
            Err(e) => Err(e),
            Ok(ok) => if !ok {
                Err(SimError::NotResident { alloc: bufs[i].id, device })
            } else {
                Ok(())
            },
        }
    }

    /// Value of [`Sim::require_bufs_on_device`].
    pub open spec fn require_bufs_on_device(
        self,
        device: DeviceId,
        bufs: Seq<KernelBuf>,
        mapped_ok: bool,
        allow_remote: bool,
    ) -> Result<(), SimError> {
        each_ok(
            bufs.len(),
            |i: int| self.require_bufs_on_device_at(device, bufs, mapped_ok, allow_remote, i),
        )
    }

    /// Effect of [`Sim::lease_bufs`].
    pub open spec fn lease_bufs(self, bufs: Seq<KernelBuf>) -> (SimState, Result<(), SimError>) {
        let s = self;
        s.lease_bufs_from(bufs, 0)
    }

    /// [`Sim::lease_bufs`] from position `i` on.
    pub open spec fn lease_bufs_from(
        self,
        bufs: Seq<KernelBuf>,
        i: int,
    ) -> (SimState, Result<(), SimError>)
        decreases bufs.len() - i,
    {
        let s = self;
        if 0 <= i < bufs.len() {
            match s.alloc_ref(bufs[i].id) {
                Err(e) => (s, Err(e)),
                Ok(a) => {
                    let a = AllocView { leases: a.leases.saturating_add(1), ..a };
                    let s = SimState { allocs: s.allocs.insert(bufs[i].id, a), ..s };
                    s.lease_bufs_from(bufs, i + 1)
                },
            }
        } else {
            (s, Ok(()))
        }
    }

    /// Effect of [`Sim::lease_kernel`].
    pub open spec fn lease_kernel(
        self,
        device: DeviceId,
        reads: Seq<KernelBuf>,
        writes: Seq<KernelBuf>,
        mapped_ok: bool,
    ) -> (SimState, Result<(), SimError>) {
        let s = self;
        match s.require_bufs_on_device(device, reads, mapped_ok, true) {
            Err(e) => (s, Err(e)),
            Ok(_v) => match s.require_bufs_on_device(device, writes, mapped_ok, false) {
                Err(e) => (s, Err(e)),
                Ok(_v) => match s.lease_bufs(reads) {
                    (s, Err(e)) => (s, Err(e)),
                    (s, Ok(_v)) => s.lease_bufs(writes),
                },
            },
        }
    }

    /// Value of [`Sim::replicated_writes`].
    pub open spec fn replicated_writes(
        self,
        writes: Seq<KernelBuf>,
    ) -> Result<Set<AllocId>, SimError> {
        let ids = Set::empty();
        self.replicated_writes_from(writes, ids, 0)
    }

    /// [`Sim::replicated_writes`] from position `i` on.
    pub open spec fn replicated_writes_from(
        self,
        writes: Seq<KernelBuf>,
        ids: Set<AllocId>,
        i: int,
    ) -> Result<Set<AllocId>, SimError>
        decreases writes.len() - i,
    {
        if 0 <= i < writes.len() {
            match self.alloc_ref(writes[i].id) {
                Err(e) => Err(e),
                Ok(a) => {
                    let ids = if a.live && a.managed && a.read_mostly {
                        let ids = ids.insert(writes[i].id);
                        ids
                    } else {
                        ids
                    };
                    self.replicated_writes_from(writes, ids, i + 1)
                },
            }
        } else {
            Ok(ids)
        }
    }

    /// Effect of [`Sim::migrate_each`].
    pub open spec fn migrate_each(
        self,
        ids: Seq<AllocId>,
        keep: DeviceId,
    ) -> (SimState, Result<(), SimError>) {
        let s = self;
        s.migrate_each_from(ids, keep, 0)
    }

    /// [`Sim::migrate_each`] from position `i` on.
    pub open spec fn migrate_each_from(
        self,
        ids: Seq<AllocId>,
        keep: DeviceId,
        i: int,
    ) -> (SimState, Result<(), SimError>)
        decreases ids.len() - i,
    {
        let s = self;
        if 0 <= i < ids.len() {
            match s.migrate_off_except(ids[i], keep) {
                (s, Err(e)) => (s, Err(e)),
                (s, Ok(_v)) => s.migrate_each_from(ids, keep, i + 1),
            }
        } else {
            (s, Ok(()))
        }
    }

    /// Effect of [`Sim::invalidate_read_mostly_writes`].
    pub open spec fn invalidate_read_mostly_writes(
        self,
        device: DeviceId,
        writes: Seq<KernelBuf>,
    ) -> (SimState, Result<(), SimError>) {
        let s = self;
        match s.replicated_writes(writes) {
            Err(e) => (s, Err(e)),
            Ok(ids) => {
                let list = order_of(ids);
                s.migrate_each(list, device)
            },
        }
    }

    /// Value of [`Sim::peer_or_host_bps`].
    pub open spec fn peer_or_host_bps(self, src: DeviceId, dst: DeviceId) -> Result<u64, SimError> {
        match self.profile.link(Some(src), Some(dst)) {
            Ok(link) => Ok(link.bps),
            Err(_e) => match self.profile.link(None, Some(dst)) {
                Err(e) => Err(e),
                Ok(host) => Ok(host.bps),
            },
        }
    }

    /// Value of [`Sim::nvls_bps`].
    pub open spec fn nvls_bps(self, src: DeviceId, mc: MulticastId) -> Result<u64, SimError> {
        match self.mc_ref(mc) {
            Err(e) => Err(e),
            Ok(obj) => {
                let team = obj.devices;
                let bps = u64::MAX;
                let any = false;
                self.nvls_bps_from(src, team, bps, any, 0)
            },
        }
    }

    /// [`Sim::nvls_bps`] from position `i` on.
    pub open spec fn nvls_bps_from(
        self,
        src: DeviceId,
        team: Seq<DeviceId>,
        bps: u64,
        any: bool,
        i: int,
    ) -> Result<u64, SimError>
        decreases team.len() - i,
    {
        if 0 <= i < team.len() {
            if team[i] == src {
                self.nvls_bps_from(src, team, bps, any, i + 1)
            } else {
                let any = true;
                match self.peer_or_host_bps(src, team[i]) {
                    Err(e) => Err(e),
                    Ok(hop) => {
                        let bps = min_u64(bps, hop);
                        self.nvls_bps_from(src, team, bps, any, i + 1)
                    },
                }
            }
        } else if !any {
            match self.profile.gpu(src) {
                Err(e) => Err(e),
                Ok(gpu) => Ok(gpu.hbm_bps),
            }
        } else {
            Ok(bps)
        }
    }

    /// Value of [`Sim::remote_source`].
    pub open spec fn remote_source(self, a: AllocView, device: DeviceId) -> Option<DeviceId> {
        if a.vmm {
            a.vmm_home()
        } else if self.pool_peer_ok(a, device) {
            match a.pool {
                Some(p) => match self.pools.get(p) {
                    Some(pool) => Some(pool.device),
                    None => None,
                },
                None => None,
            }
        } else {
            match a.preferred {
                Preferred::Gpu(p) => if a.devices.contains(p) {
                    Some(p)
                } else {
                    a.first_device()
                },
                Preferred::Nowhere | Preferred::Host => a.first_device(),
            }
        }
    }

    /// Value of [`Sim::buf_remote_bps`].
    pub open spec fn buf_remote_bps(
        self,
        device: DeviceId,
        id: AllocId,
    ) -> Result<Option<u64>, SimError> {
        match self.mc_vas.get(id) {
            Some(mc) => match self.nvls_bps(device, mc) {
                Err(e) => Err(e),
                Ok(bps) => Ok(Some(bps)),
            },
            _ => match self.alloc_ref(id) {
                Err(e) => Err(e),
                Ok(a) => if a.devices.contains(device) {
                    Ok(None)
                } else if a.host_mapped {
                    match self.profile.link(None, Some(device)) {
                        Err(e) => Err(e),
                        Ok(host) => Ok(Some(host.bps)),
                    }
                } else if a.remote_read_ok(device) || self.pool_peer_ok(a, device) || (a.vmm && a.vmm_write_by.contains(device)) {
                    match self.remote_source(a, device) {
                        Some(src) => match self.peer_or_host_bps(src, device) {
                            Err(e) => Err(e),
                            Ok(bps) => Ok(Some(bps)),
                        },
                        None => match self.profile.link(None, Some(device)) {
                            Err(e) => Err(e),
                            Ok(host) => Ok(Some(host.bps)),
                        },
                    }
                } else {
                    Ok(None)
                },
            },
        }
    }

    /// Value of [`Sim::kernel_mem_bps`].
    pub open spec fn kernel_mem_bps(
        self,
        device: DeviceId,
        bufs: Seq<KernelBuf>,
    ) -> Result<u64, SimError> {
        match self.profile.gpu(device) {
            Err(e) => Err(e),
            Ok(gpu) => {
                let bps = gpu.hbm_bps;
                self.kernel_mem_bps_from(device, bufs, bps, 0)
            },
        }
    }

    /// [`Sim::kernel_mem_bps`] from position `i` on.
    pub open spec fn kernel_mem_bps_from(
        self,
        device: DeviceId,
        bufs: Seq<KernelBuf>,
        bps: u64,
        i: int,
    ) -> Result<u64, SimError>
        decreases bufs.len() - i,
    {
        if 0 <= i < bufs.len() {
            match self.buf_remote_bps(device, bufs[i].id) {
                Err(e) => Err(e),
                Ok(remote) => {
                    let bps = match remote {
                        Some(r) => {
                            let bps = min_u64(bps, r);
                            bps
                        },
                        _ => bps,
                    };
                    self.kernel_mem_bps_from(device, bufs, bps, i + 1)
                },
            }
        } else {
            Ok(bps)
        }
    }

    /// Value of [`Sim::multicast_write_bytes`].
    pub open spec fn multicast_write_bytes(self, writes: Seq<KernelBuf>) -> u64 {
        let n = 0;
        self.multicast_write_bytes_from(writes, n, 0)
    }

    /// [`Sim::multicast_write_bytes`] from position `i` on.
    pub open spec fn multicast_write_bytes_from(self, writes: Seq<KernelBuf>, n: u64, i: int) -> u64
        decreases writes.len() - i,
    {
        if 0 <= i < writes.len() {
            let w = writes[i];
            let n = if self.mc_vas.contains_key(w.id) {
                let n = match self.allocs.get(w.id) {
                    Some(a) => {
                        let n = match kernel_span(a.bytes, w) {
                            Ok((_o, m)) => {
                                let n = n.saturating_add(m);
                                n
                            },
                            _ => n,
                        };
                        n
                    },
                    _ => n,
                };
                n
            } else {
                n
            };
            self.multicast_write_bytes_from(writes, n, i + 1)
        } else {
            n
        }
    }

    /// Value of [`Sim::validate_access_policy_window`].
    pub open spec fn validate_access_policy_window(
        self,
        device: DeviceId,
        window: AccessPolicyWindow,
    ) -> Result<(), SimError> {
        match validate_access_policy(window) {
            Err(e) => Err(e),
            Ok(_v) => match self.gpu_rt(device) {
                Err(e) => Err(e),
                Ok(rt) => {
                    let gran = rt.limits.l2_fetch;
                    if gran <= 1 {
                        Ok(())
                    } else {
                        match self.alloc_ref(window.buf.id) {
                            Err(e) => Err(e),
                            Ok(a) => match kernel_span(a.bytes, window.buf) {
                                Err(e) => Err(e),
                                Ok((off, n)) => if off % gran != 0 || n % gran != 0 {
                                    Err(invalid("access policy L2 fetch"))
                                } else {
                                    Ok(())
                                },
                            },
                        }
                    }
                },
            },
        }
    }

    /// Element `i` of [`Sim::kernel_touch_spans`].
    pub open spec fn kernel_touch_spans_at(
        self,
        bufs: Seq<KernelBuf>,
        i: int,
    ) -> Result<PersistLine, SimError> {
        match self.alloc_ref(bufs[i].id) {
            Err(e) => Err(e),
            Ok(a) => match kernel_span(a.bytes, bufs[i]) {
                Err(e) => Err(e),
                Ok((offset, bytes)) => Ok(PersistLine { id: bufs[i].id, offset, bytes }),
            },
        }
    }

    /// Value of [`Sim::kernel_touch_spans`].
    pub open spec fn kernel_touch_spans(
        self,
        bufs: Seq<KernelBuf>,
    ) -> Result<Seq<PersistLine>, SimError> {
        match all_ok(bufs.len(), |i: int| self.kernel_touch_spans_at(bufs, i)) {
            Err(e) => Err(e),
            Ok(spans) => Ok(lines_joined(lines_ordered(spans))),
        }
    }

    /// Effect of [`Sim::persist_kernel_bytes`].
    #[verifier::opaque]
    pub open spec fn persist_kernel_bytes(
        self,
        device: DeviceId,
        window: Option<AccessPolicyWindow>,
        kind: KernelKind,
        bufs: Seq<KernelBuf>,
    ) -> (SimState, Result<u64, SimError>) {
        let s = self;
        let kind_bytes = kind.traffic();
        match window {
            None => (s, Ok(kind_bytes)),
            Some(w) => match s.validate_access_policy_window(device, w) {
                Err(e) => (s, Err(e)),
                Ok(_v) => if w.hit != AccessProperty::Persisting {
                    (s, Ok(kind_bytes))
                } else {
                    match s.profile.gpu(device) {
                        Err(e) => (s, Err(e)),
                        Ok(gpu) => {
                            let persist_hit = min_u16(gpu.l2_persist_hit_permille, 1000) as u64;
                            match s.alloc_ref(w.buf.id) {
                                Err(e) => (s, Err(e)),
                                Ok(a) => match kernel_span(a.bytes, w.buf) {
                                    Err(e) => (s, Err(e)),
                                    Ok((off, n)) => match s.kernel_touch_spans(bufs) {
                                        Err(e) => (s, Err(e)),
                                        Ok(touch) => {
                                            let overlap = lines_overlap(touch, w.buf.id, off, n);
                                            if overlap == 0 {
                                                (s, Ok(kind_bytes))
                                            } else {
                                                match s.gpu_rt(device) {
                                                    Err(e) => (s, Err(e)),
                                                    Ok(rt0) => {
                                                        let limit = rt0.persist_limit;
                                                        if limit == 0 {
                                                            (s, Ok(kind_bytes))
                                                        } else {
                                                            let want = mul_sat(
                                                                overlap,
                                                                min_u16(
                                                                    w.hit_ratio_permille,
                                                                    1000,
                                                                ) as u64,
                                                            ) / 1000;
                                                            let cap = min_u64(want, limit);
                                                            let cached = min_u64(
                                                                lines_overlap(
                                                                    rt0.persist_lines,
                                                                    w.buf.id,
                                                                    off,
                                                                    n,
                                                                ),
                                                                overlap,
                                                            );
                                                            let billed = persist_discount(
                                                                kind_bytes,
                                                                min_u64(cached, cap),
                                                                lines_used(touch),
                                                                persist_hit,
                                                            );
                                                            match s.gpu_rt(device) {
                                                                Err(e) => (s, Err(e)),
                                                                Ok(rt) => {
                                                                    let rt = GpuRtView {
                                                                        persist_lines: lines_filled(
                                                                            rt.persist_lines,
                                                                            limit,
                                                                            w.buf.id,
                                                                            off,
                                                                            cap,
                                                                        ),
                                                                        ..rt
                                                                    };
                                                                    let s = SimState {
                                                                        gpus: s.gpus.insert(device, rt),
                                                                        ..s
                                                                    };
                                                                    (s, Ok(billed))
                                                                },
                                                            }
                                                        }
                                                    },
                                                }
                                            }
                                        },
                                    },
                                },
                            }
                        },
                    }
                },
            },
        }
    }

    /// Value of [`Sim::launch_ns`].
    pub open spec fn launch_ns(
        self,
        device: DeviceId,
        launch: LaunchCost,
    ) -> Result<u64, SimError> {
        match self.profile.gpu(device) {
            Err(e) => Err(e),
            Ok(g) => match launch {
                LaunchCost::Kernel => Ok(g.launch_overhead_ns),
                LaunchCost::GraphHead => Ok(g.graph_launch_ns),
                LaunchCost::GraphBody => Ok(0),
            },
        }
    }

    /// Value of [`Sim::kernel_ns`].
    pub open spec fn kernel_ns(
        self,
        device: DeviceId,
        stream: StreamId,
        kind: KernelKind,
        launch: LaunchCost,
        mem_bps: u64,
        billed_bytes: u64,
    ) -> Result<u64, SimError> {
        match self.profile.gpu(device) {
            Err(e) => Err(e),
            Ok(g) => match self.launch_ns(device, launch) {
                Err(e) => Err(e),
                Ok(overhead) => {
                    let sm = self.stream_sm_permille(device, stream) as u64;
                    let peak = max_u64(mul_sat(g.flops(kind.dtype()), sm) / 1000, 1);
                    let compute = ns_for_bytes(kind.flops(), peak);
                    let memory = ns_for_bytes(billed_bytes, max_u64(mem_bps, 1));
                    let util = max_u16(g.gemm_util_permille, 1) as u64;
                    let ns = mul_sat(
                        overhead.saturating_add(max_u64(compute, memory)),
                        1000,
                    ) / util;
                    if (match kind { KernelKind::GroupedMoeGemm { .. } => true, _ => false }) {
                        Ok(mul_sat(ns, max_u16(g.grouped_moe_permille, 1) as u64) / 1000)
                    } else {
                        Ok(ns)
                    }
                },
            },
        }
    }

    /// Value of [`Sim::shared_mem_ns`].
    pub open spec fn shared_mem_ns(
        self,
        device: DeviceId,
        mode: SharedMemoryMode,
        ns: u64,
    ) -> Result<u64, SimError> {
        match self.profile.gpu(device) {
            Err(e) => Err(e),
            Ok(g) => match mode {
                SharedMemoryMode::Default => Ok(ns),
                SharedMemoryMode::FourByte => Ok(
                    scale_ns_permille(ns, g.shared_mem_four_byte_permille),
                ),
                SharedMemoryMode::EightByte => Ok(
                    scale_ns_permille(ns, g.shared_mem_eight_byte_permille),
                ),
            },
        }
    }

    /// Value of [`Sim::memset_ns`].
    pub open spec fn memset_ns(
        self,
        device: DeviceId,
        bytes: u64,
        launch: LaunchCost,
        mem_bps: u64,
    ) -> Result<u64, SimError> {
        match self.launch_ns(device, launch) {
            Err(e) => Err(e),
            Ok(overhead) => Ok(overhead.saturating_add(ns_for_bytes(bytes, max_u64(mem_bps, 1)))),
        }
    }

    /// Value of [`Sim::graph_head_ns`].
    pub open spec fn graph_head_ns(
        self,
        device: DeviceId,
        launch: LaunchCost,
    ) -> Result<u64, SimError> {
        if launch == LaunchCost::GraphHead {
            match self.profile.gpu(device) {
                Err(e) => Err(e),
                Ok(g) => Ok(g.graph_launch_ns),
            }
        } else {
            Ok(0)
        }
    }

    /// Value of [`Sim::host_func_ns`].
    pub open spec fn host_func_ns(
        self,
        device: DeviceId,
        launch: LaunchCost,
    ) -> Result<u64, SimError> {
        match self.profile.gpu(device) {
            Err(e) => Err(e),
            Ok(g) => match self.graph_head_ns(device, launch) {
                Err(e) => Err(e),
                Ok(head) => Ok(head.saturating_add(max_u64(g.host_func_ns, 1))),
            },
        }
    }

    /// Value of [`Sim::slots_of`].
    pub open spec fn slots_of(self, id: OpId) -> Result<u8, SimError> {
        match self.op_ref(id) {
            Err(e) => Err(e),
            Ok(op) => self.op_kernel_slots(op),
        }
    }

    /// Effect of [`Sim::bill_kernel`].
    #[verifier::opaque]
    pub open spec fn bill_kernel(
        self,
        id: OpId,
        device: DeviceId,
        stream: StreamId,
        launch: LaunchCost,
        kind: KernelKind,
        reads: Seq<KernelBuf>,
        writes: Seq<KernelBuf>,
        mem_bps: u64,
    ) -> (SimState, Result<u64, SimError>) {
        let s = self;
        match s.lease_kernel(device, reads, writes, true) {
            (s, Err(e)) => (s, Err(e)),
            (s, Ok(_v)) => match s.invalidate_read_mostly_writes(device, writes) {
                (s, Err(e)) => (s, Err(e)),
                (s, Ok(_v)) => match s.op_ref(id) {
                    Err(e) => (s, Err(e)),
                    Ok(row) => {
                        let window = row.attrs.access_policy;
                        let shared_mem = row.attrs.shared_mem;
                        let bufs = (reads + writes);
                        match s.persist_kernel_bytes(device, window, kind, bufs) {
                            (s, Err(e)) => (s, Err(e)),
                            (s, Ok(billed)) => match s.kernel_ns(
                                device,
                                stream,
                                kind,
                                launch,
                                mem_bps,
                                billed,
                            ) {
                                Err(e) => (s, Err(e)),
                                Ok(ns) => (s, s.shared_mem_ns(device, shared_mem, ns)),
                            },
                        }
                    },
                },
            },
        }
    }

    /// Value of [`Sim::trigger_at`].
    pub open spec fn trigger_at(self, device: DeviceId, ns: u64) -> u64 {
        let permille = (match self.profile.gpu(device) {
            Ok(g) => min_u16(g.pdl_trigger_permille, 1000) as u64,
            Err(_e) => 1000,
        });
        self.clock.saturating_add(mul_sat(ns, permille) / 1000)
    }

    /// Effect of [`Sim::start_kernel`].
    #[verifier::opaque]
    pub open spec fn start_kernel(
        self,
        id: OpId,
        device: DeviceId,
        stream: StreamId,
        launch: LaunchCost,
        kind: KernelKind,
        reads: Seq<KernelBuf>,
        writes: Seq<KernelBuf>,
    ) -> (SimState, Result<bool, SimError>) {
        let s = self;
        match s.require_bufs_attached(stream, reads) {
            Err(e) => (s, Err(e)),
            Ok(_v) => match s.require_bufs_attached(stream, writes) {
                Err(e) => (s, Err(e)),
                Ok(_v) => if launch == LaunchCost::Kernel {
                    match s.inject_managed_faults(id, device, reads, writes) {
                        (s, Err(e)) => (s, Err(e)),
                        (s, Ok(fetched)) => if fetched {
                            (s, Ok(true))
                        } else {
                            match s.slots_of(id) {
                                Err(e) => (s, Err(e)),
                                Ok(slots) => match s.take_compute_n(device, slots) {
                                    (s, Err(e)) => (s, Err(e)),
                                    (s, Ok(free)) => if !free {
                                        (s, Ok(false))
                                    } else {
                                        let bufs = (reads + writes);
                                        match s.kernel_mem_bps(device, bufs) {
                                            Err(e) => (s, Err(e)),
                                            Ok(mem_bps) => {
                                                let (s, v1) = s.bill_kernel(
                                                    id,
                                                    device,
                                                    stream,
                                                    launch,
                                                    kind,
                                                    reads,
                                                    writes,
                                                    mem_bps,
                                                );
                                                match v1 {
                                                    Err(e) => match s.drop_compute_n(device, slots) {
                                                        (s, Err(e)) => (s, Err(e)),
                                                        (s, Ok(_v)) => (s, Err(e)),
                                                    },
                                                    Ok(ns) => {
                                                        let s = s.run_solo(id, ns);
                                                        match s.op_ref(id) {
                                                            Err(e) => (s, Err(e)),
                                                            Ok(row) => if row.attrs.pdl.trigger {
                                                                let at = s.trigger_at(device, ns);
                                                                match s.op_ref(id) {
                                                                    Err(e) => (s, Err(e)),
                                                                    Ok(o) => {
                                                                        let s = SimState {
                                                                            ops: s.ops.insert(
                                                                                id,
                                                                                OpView {
                                                                                    pdl_trigger_ns: Some(at),
                                                                                    ..o
                                                                                },
                                                                            ),
                                                                            ..s
                                                                        };
                                                                        (s, Ok(true))
                                                                    },
                                                                }
                                                            } else {
                                                                (s, Ok(true))
                                                            },
                                                        }
                                                    },
                                                }
                                            },
                                        }
                                    },
                                },
                            }
                        },
                    }
                } else {
                    match s.slots_of(id) {
                        Err(e) => (s, Err(e)),
                        Ok(slots) => match s.take_compute_n(device, slots) {
                            (s, Err(e)) => (s, Err(e)),
                            (s, Ok(free)) => if !free {
                                (s, Ok(false))
                            } else {
                                let bufs = (reads + writes);
                                match s.kernel_mem_bps(device, bufs) {
                                    Err(e) => (s, Err(e)),
                                    Ok(mem_bps) => {
                                        let (s, v2) = s.bill_kernel(
                                            id,
                                            device,
                                            stream,
                                            launch,
                                            kind,
                                            reads,
                                            writes,
                                            mem_bps,
                                        );
                                        match v2 {
                                            Err(e) => match s.drop_compute_n(device, slots) {
                                                (s, Err(e)) => (s, Err(e)),
                                                (s, Ok(_v)) => (s, Err(e)),
                                            },
                                            Ok(ns) => {
                                                let s = s.run_solo(id, ns);
                                                match s.op_ref(id) {
                                                    Err(e) => (s, Err(e)),
                                                    Ok(row) => if row.attrs.pdl.trigger {
                                                        let at = s.trigger_at(device, ns);
                                                        match s.op_ref(id) {
                                                            Err(e) => (s, Err(e)),
                                                            Ok(o) => {
                                                                let s = SimState {
                                                                    ops: s.ops.insert(
                                                                        id,
                                                                        OpView {
                                                                            pdl_trigger_ns: Some(at),
                                                                            ..o
                                                                        },
                                                                    ),
                                                                    ..s
                                                                };
                                                                (s, Ok(true))
                                                            },
                                                        }
                                                    } else {
                                                        (s, Ok(true))
                                                    },
                                                }
                                            },
                                        }
                                    },
                                }
                            },
                        },
                    }
                },
            },
        }
    }

    /// Effect of [`Sim::bill_memset`].
    #[verifier::opaque]
    pub open spec fn bill_memset(
        self,
        device: DeviceId,
        launch: LaunchCost,
        op: MemsetOp,
    ) -> (SimState, Result<u64, SimError>) {
        let s = self;
        let none = Seq::empty();
        let writes = seq![KernelBuf::span(op.id, op.offset, op.extent_bytes())];
        match s.lease_kernel(device, none, writes, false) {
            (s, Err(e)) => (s, Err(e)),
            (s, Ok(_v)) => match s.invalidate_read_mostly_writes(device, writes) {
                (s, Err(e)) => (s, Err(e)),
                (s, Ok(_v)) => match s.kernel_mem_bps(device, writes) {
                    Err(e) => (s, Err(e)),
                    Ok(mem_bps) => (s, s.memset_ns(device, op.payload_bytes(), launch, mem_bps)),
                },
            },
        }
    }

    /// Effect of [`Sim::start_memset`].
    pub open spec fn start_memset(
        self,
        id: OpId,
        device: DeviceId,
        stream: StreamId,
        launch: LaunchCost,
        op: MemsetOp,
    ) -> (SimState, Result<bool, SimError>) {
        let s = self;
        match s.require_device_attach(op.id, stream) {
            Err(e) => (s, Err(e)),
            Ok(_v) => match s.take_compute(device) {
                (s, Err(e)) => (s, Err(e)),
                (s, Ok(free)) => if !free {
                    (s, Ok(false))
                } else {
                    let (s, v1) = s.bill_memset(device, launch, op);
                    match v1 {
                        Err(e) => match s.drop_compute(device) {
                            (s, Err(e)) => (s, Err(e)),
                            (s, Ok(_v)) => (s, Err(e)),
                        },
                        Ok(ns) => {
                            let s = s.run_solo(id, ns);
                            (s, Ok(true))
                        },
                    }
                },
            },
        }
    }

    /// Effect of [`Sim::start_alloc`].
    #[verifier::opaque]
    pub open spec fn start_alloc(
        self,
        op: OpId,
        device: DeviceId,
        alloc: AllocId,
        bytes: u64,
    ) -> (SimState, Result<bool, SimError>) {
        let s = self;
        match s.alloc_ref(alloc) {
            Err(e) => (s, Err(e)),
            Ok(a) => {
                let pool = a.pool;
                let already = a.live && a.devices.contains(device);
                let gpu = s.profile.gpu(device);
                match pool {
                    Some(p) => if already {
                        match gpu {
                            Err(e) => (s, Err(e)),
                            Ok(g) => {
                                let ns = g.pool_reuse_ns;
                                let s = s.run_solo(op, ns);
                                (s, Ok(true))
                            },
                        }
                    } else {
                        match s.pool_ref(p) {
                            Err(e) => (s, Err(e)),
                            Ok(owner) => if owner.device != device {
                                (s, Err(invalid("pool device mismatch")))
                            } else {
                                match s.pool_acquire(p, bytes) {
                                    (s, Err(e)) => (s, Err(e)),
                                    (s, Ok(ns)) => {
                                        let s = s.run_solo(op, ns);
                                        (s, Ok(true))
                                    },
                                }
                            },
                        }
                    },
                    None => if already {
                        let ns = 1;
                        let s = s.run_solo(op, ns);
                        (s, Ok(true))
                    } else {
                        match s.reserve_hbm(device, bytes) {
                            (s, Err(e)) => (s, Err(e)),
                            (s, Ok(_v)) => match gpu {
                                Err(e) => (s, Err(e)),
                                Ok(g) => {
                                    let ns = g.alloc_overhead_ns;
                                    let s = s.run_solo(op, ns);
                                    (s, Ok(true))
                                },
                            },
                        }
                    },
                }
            },
        }
    }

    /// Effect of [`Sim::drop_copy`].
    #[verifier::opaque]
    pub open spec fn drop_copy(
        self,
        device: DeviceId,
        alloc: AllocId,
        bytes: u64,
    ) -> (SimState, Result<(), SimError>) {
        let s = self;
        match s.refund_device(device, alloc, bytes) {
            (s, Err(e)) => (s, Err(e)),
            (s, Ok(_v)) => match s.alloc_ref(alloc) {
                Err(e) => (s, Err(e)),
                Ok(a) => {
                    let a = AllocView { devices: without(a.devices, device), ..a };
                    let gone = a.devices.len() == 0 && !a.host_pinned;
                    let a = AllocView { live: a.live && !gone, ..a };
                    let s = SimState { allocs: s.allocs.insert(alloc, a), ..s };
                    let s = if gone {
                        let s = s.clear_mailbox(alloc);
                        s
                    } else {
                        s
                    };
                    (s, Ok(()))
                },
            },
        }
    }

    /// Effect of [`Sim::start_free`].
    #[verifier::opaque]
    pub open spec fn start_free(
        self,
        op: OpId,
        device: DeviceId,
        alloc: AllocId,
    ) -> (SimState, Result<bool, SimError>) {
        let s = self;
        match s.alloc_ref(alloc) {
            Err(e) => (s, Err(e)),
            Ok(a) => {
                let bytes = a.bytes;
                if a.leases > 0 {
                    (s, Err(SimError::Leased { alloc }))
                } else if a.ipc_src.is_some() {
                    match s.drop_ipc_import(alloc) {
                        (s, Err(e)) => (s, Err(e)),
                        (s, Ok(_v)) => {
                            let s = s.run_solo(op, 1);
                            (s, Ok(true))
                        },
                    }
                } else if a.share_src.is_some() {
                    match s.drop_share_import(alloc) {
                        (s, Err(e)) => (s, Err(e)),
                        (s, Ok(_v)) => {
                            let s = s.run_solo(op, 1);
                            (s, Ok(true))
                        },
                    }
                } else if a.ipc_opens > 0 {
                    (s, Err(invalid("ipc mapped")))
                } else if a.share_opens > 0 {
                    (s, Err(invalid("share mapped")))
                } else if !a.live || !a.devices.contains(device) {
                    (s, Err(SimError::UnknownAlloc { alloc }))
                } else {
                    match s.drop_copy(device, alloc, bytes) {
                        (s, Err(e)) => (s, Err(e)),
                        (s, Ok(_v)) => {
                            let s = s.run_solo(op, 1);
                            (s, Ok(true))
                        },
                    }
                }
            },
        }
    }

    /// Value of [`Sim::memcpy_lease_check`].
    pub open spec fn memcpy_lease_check(self, a: AllocView, m: MemcpyOp) -> Result<(), SimError> {
        let staying = (match m.dst {
            Place::Device(d) => a.devices.contains(d),
            Place::Host | Place::HostPinned => a.devices.len() == 0,
        });
        if a.managed && a.leases > 0 && !staying {
            Err(SimError::Leased { alloc: m.alloc })
        } else {
            Ok(())
        }
    }

    /// Value of [`Sim::memcpy_peer_check`].
    pub open spec fn memcpy_peer_check(self, m: MemcpyOp) -> Result<(), SimError> {
        match (m.src, m.dst) {
            (
                Place::Device(src),
                Place::Device(dst),
            ) => if src != dst && !self.peer_enabled.contains(Peer(src, dst)) && self.profile.link(Some(src), Some(dst)).is_ok() {
                Err(SimError::PeerDisabled { src, dst })
            } else {
                Ok(())
            },
            _ => Ok(()),
        }
    }

    /// Value of [`Sim::memcpy_resident_check`].
    pub open spec fn memcpy_resident_check(
        self,
        a: AllocView,
        m: MemcpyOp,
    ) -> Result<(), SimError> {
        let span = m.extent_bytes();
        let src_ok = (match m.src {
            Place::Device(d) => if a.vmm {
                maps_cover(a.vmm_maps, d, m.offset, span)
            } else {
                a.devices.contains(d)
            },
            Place::Host | Place::HostPinned => true,
        });
        let dst_ok = (match m.dst {
            Place::Device(d) => !a.vmm || maps_cover(a.vmm_maps, d, m.offset, span),
            Place::Host | Place::HostPinned => true,
        });
        if !src_ok {
            Err(SimError::NotResident { alloc: m.alloc, device: endpoint(m.src.device()) })
        } else if !dst_ok {
            Err(SimError::NotResident { alloc: m.alloc, device: endpoint(m.dst.device()) })
        } else {
            Ok(())
        }
    }

    /// Value of [`Sim::memcpy_precheck`].
    pub open spec fn memcpy_precheck(self, m: MemcpyOp) -> Result<(), SimError> {
        match memcpy_2d_check(m) {
            Err(e) => Err(e),
            Ok(_v) => match self.alloc_ref(m.alloc) {
                Err(e) => Err(e),
                Ok(a) => if !a.live {
                    Err(SimError::UnknownAlloc { alloc: m.alloc })
                } else {
                    let span = m.extent_bytes();
                    if (a.vmm || m.offset > 0 || m.is_2d() || m.is_3d())
                        && m.offset.saturating_add(span) > a.bytes {
                        Err(invalid("memcpy range past alloc"))
                    } else {
                        match self.memcpy_lease_check(a, m) {
                            Err(e) => Err(e),
                            Ok(_v) => match self.memcpy_peer_check(m) {
                                Err(e) => Err(e),
                                Ok(_v) => self.memcpy_resident_check(a, m),
                            },
                        }
                    }
                },
            },
        }
    }

    /// Value of [`Sim::memcpy_ns`].
    pub open spec fn memcpy_ns(self, m: MemcpyOp) -> Result<(u64, usize), SimError> {
        let src = m.src.device();
        let dst = m.dst.device();
        match self.profile.link_index(src, dst) {
            Some(idx) => {
                let link = self.profile.links[idx as int];
                let copy = if m.src.is_pageable() || m.dst.is_pageable() {
                    link.pageable_copy_ns(m.payload_bytes())
                } else {
                    link.copy_ns(m.payload_bytes())
                };
                Ok((copy.saturating_add(self.extra_transfer_ns), idx))
            },
            None => Err(SimError::NoPeer { src: endpoint(src), dst: endpoint(dst) }),
        }
    }

    /// Value of [`Sim::managed_local_copy`].
    pub open spec fn managed_local_copy(self, m: MemcpyOp) -> Result<bool, SimError> {
        match self.alloc_ref(m.alloc) {
            Err(e) => Err(e),
            Ok(a) => if !a.managed {
                Ok(false)
            } else {
                match m.dst {
                    Place::Device(d) => Ok(a.devices.contains(d)),
                    Place::Host | Place::HostPinned => Ok(a.devices.len() == 0),
                }
            },
        }
    }

    /// Effect of [`Sim::fail_transfer`].
    pub open spec fn fail_transfer(self, id: OpId) -> SimState {
        let s = self;
        let s = SimState { fail_next_memcpy: false, ..s };
        let now = s.clock;
        match s.ops.get(id) {
            Some(op) => {
                let op = OpView { cancelled: true, done: true, done_ns: Some(now), ..op };
                let s = SimState { ops: s.ops.insert(id, op), ..s };
                s
            },
            _ => s,
        }
    }

    /// Effect of [`Sim::start_memcpy`].
    #[verifier::opaque]
    pub open spec fn start_memcpy(
        self,
        id: OpId,
        device: DeviceId,
        stream: StreamId,
        launch: LaunchCost,
        m: MemcpyOp,
    ) -> (SimState, Result<bool, SimError>) {
        let s = self;
        if s.fail_next_memcpy {
            let s = s.fail_transfer(id);
            (s, Err(SimError::TransferFailed { alloc: m.alloc }))
        } else {
            match s.require_memcpy_attach(stream, m) {
                Err(e) => (s, Err(e)),
                Ok(_v) => match s.memcpy_precheck(m) {
                    Err(e) => (s, Err(e)),
                    Ok(_v) => match s.managed_local_copy(m) {
                        Err(e) => (s, Err(e)),
                        Ok(local) => if local {
                            let s = s.run_solo(id, 1);
                            (s, Ok(true))
                        } else {
                            match s.profile.gpu(device) {
                                Err(e) => (s, Err(e)),
                                Ok(gp) => match s.gpu_rt(device) {
                                    Err(e) => (s, Err(e)),
                                    Ok(rt0) => if rt0.copies >= gp.copy_engines {
                                        (s, Ok(false))
                                    } else {
                                        match s.charge_replica_hbm(m) {
                                            (s, Err(e)) => (s, Err(e)),
                                            (s, Ok(_v)) => match s.memcpy_ns(m) {
                                                Err(e) => (s, Err(e)),
                                                Ok((ns, link)) => match s.graph_head_ns(device, launch) {
                                                    Err(e) => (s, Err(e)),
                                                    Ok(head) => match s.gpu_rt(device) {
                                                        Err(e) => (s, Err(e)),
                                                        Ok(rt) => {
                                                            let rt = GpuRtView {
                                                                copies: rt.copies.saturating_add(1),
                                                                ..rt
                                                            };
                                                            let s = SimState {
                                                                gpus: s.gpus.insert(device, rt),
                                                                ..s
                                                            };
                                                            let s = SimState {
                                                                running: s.running.push(
                                                                    Running {
                                                                        op: id,
                                                                        remaining_ns: max_u64(
                                                                            ns.saturating_add(head),
                                                                            1,
                                                                        ),
                                                                        share: Share::Link(link),
                                                                    },
                                                                ),
                                                                ..s
                                                            };
                                                            (s, Ok(true))
                                                        },
                                                    },
                                                },
                                            },
                                        }
                                    },
                                },
                            }
                        },
                    },
                },
            }
        }
    }

    /// Check of position `i` in [`Sim::require_parts`].
    pub open spec fn require_parts_at(
        self,
        parts: Seq<(DeviceId, AllocId)>,
        i: int,
    ) -> Result<(), SimError> {
        match self.alloc_ref(parts[i].1) {
            Err(e) => Err(e),
            Ok(a) => if !a.live || !a.devices.contains(parts[i].0) {
                Err(SimError::NotResident { alloc: parts[i].1, device: parts[i].0 })
            } else {
                Ok(())
            },
        }
    }

    /// Value of [`Sim::require_parts`].
    pub open spec fn require_parts(self, parts: Seq<(DeviceId, AllocId)>) -> Result<(), SimError> {
        each_ok(parts.len(), |i: int| self.require_parts_at(parts, i))
    }

    /// Value of [`Sim::ring_hop_ns`].
    pub open spec fn ring_hop_ns(
        self,
        parts: Seq<(DeviceId, AllocId)>,
        bytes: u64,
    ) -> Result<u64, SimError> {
        let worst = 0;
        self.ring_hop_ns_from(parts, bytes, worst, 0)
    }

    /// [`Sim::ring_hop_ns`] from position `i` on.
    pub open spec fn ring_hop_ns_from(
        self,
        parts: Seq<(DeviceId, AllocId)>,
        bytes: u64,
        worst: u64,
        i: int,
    ) -> Result<u64, SimError>
        decreases parts.len() - i,
    {
        if 0 <= i < parts.len() {
            let k = if (i as usize).saturating_add(1) >= parts.len() {
                0
            } else {
                (i as usize).saturating_add(1)
            };
            match self.profile.link(Some(parts[i].0), Some(parts[k as int].0)) {
                Err(e) => Err(e),
                Ok(link) => {
                    let worst = max_u64(worst, link.copy_ns(bytes));
                    self.ring_hop_ns_from(parts, bytes, worst, i + 1)
                },
            }
        } else {
            Ok(worst)
        }
    }

    /// Value of [`Sim::allreduce_ns`].
    pub open spec fn allreduce_ns(
        self,
        parts: Seq<(DeviceId, AllocId)>,
        bytes: u64,
    ) -> Result<u64, SimError> {
        if parts.len() < 2 {
            Err(invalid("allreduce needs >= 2 ranks"))
        } else {
            match self.ring_hop_ns(parts, bytes) {
                Err(e) => Err(e),
                Ok(worst) => {
                    let hops = (parts.len() as usize).saturating_sub(1) as u64;
                    Ok(mul_sat(worst, hops).saturating_add(self.extra_transfer_ns))
                },
            }
        }
    }

    /// Effect of [`Sim::lease_parts`].
    pub open spec fn lease_parts(
        self,
        parts: Seq<(DeviceId, AllocId)>,
    ) -> (SimState, Result<(), SimError>) {
        let s = self;
        s.lease_parts_from(parts, 0)
    }

    /// [`Sim::lease_parts`] from position `i` on.
    pub open spec fn lease_parts_from(
        self,
        parts: Seq<(DeviceId, AllocId)>,
        i: int,
    ) -> (SimState, Result<(), SimError>)
        decreases parts.len() - i,
    {
        let s = self;
        if 0 <= i < parts.len() {
            match s.alloc_ref(parts[i].1) {
                Err(e) => (s, Err(e)),
                Ok(a) => {
                    let a = AllocView { leases: a.leases.saturating_add(1), ..a };
                    let s = SimState { allocs: s.allocs.insert(parts[i].1, a), ..s };
                    s.lease_parts_from(parts, i + 1)
                },
            }
        } else {
            (s, Ok(()))
        }
    }

    /// Effect of [`Sim::start_allreduce`].
    pub open spec fn start_allreduce(
        self,
        id: OpId,
        device: DeviceId,
        parts: Seq<(DeviceId, AllocId)>,
        bytes: u64,
    ) -> (SimState, Result<bool, SimError>) {
        let s = self;
        match s.require_parts(parts) {
            Err(e) => (s, Err(e)),
            Ok(_v) => match s.allreduce_ns(parts, bytes) {
                Err(e) => (s, Err(e)),
                Ok(ns) => match s.take_compute(device) {
                    (s, Err(e)) => (s, Err(e)),
                    (s, Ok(free)) => if !free {
                        (s, Ok(false))
                    } else {
                        match s.lease_parts(parts) {
                            (s, Err(e)) => (s, Err(e)),
                            (s, Ok(_v)) => {
                                let s = s.run_solo(id, ns);
                                (s, Ok(true))
                            },
                        }
                    },
                },
            },
        }
    }

    /// Value of [`Sim::require_wait_value_resident`].
    pub open spec fn require_wait_value_resident(
        self,
        device: DeviceId,
        alloc: AllocId,
        offset: u64,
        bits32: bool,
    ) -> Result<(), SimError> {
        match self.alloc_ref(alloc) {
            Err(e) => Err(e),
            Ok(a) => match wait_value_span(a.bytes, offset, bits32) {
                Err(e) => Err(e),
                Ok(width) => match self.buf_on_device(
                    KernelBuf::span(alloc, offset, width),
                    device,
                    true,
                    false,
                ) {
                    Err(e) => Err(e),
                    Ok(ok) => if !ok {
                        Err(SimError::NotResident { alloc, device })
                    } else {
                        Ok(())
                    },
                },
            },
        }
    }

    /// Value of [`Sim::overlaid`].
    pub open spec fn overlaid(self, overlay: Map<Word, u64>, id: AllocId, offset: u64) -> u64 {
        match overlay.get(Word(id, offset)) {
            Some(w) => w,
            None => self.mailbox_word(id, offset),
        }
    }

    /// Value of [`Sim::wait_holds`].
    pub open spec fn wait_holds(self, overlay: Map<Word, u64>, op: BatchMemOp) -> bool {
        match op {
            BatchMemOp::Write { .. } => true,
            BatchMemOp::Wait { id, offset, value, bits32, cmp } => {
                let mask = wait_value_mask(bits32);
                cmp.matches(self.overlaid(overlay, id, offset) & mask, value & mask)
            },
        }
    }

    /// Value of [`Sim::batch_mem_ready`].
    pub open spec fn batch_mem_ready(
        self,
        device: DeviceId,
        ops: Seq<BatchMemOp>,
    ) -> Result<bool, SimError> {
        let overlay = Map::empty();
        self.batch_mem_ready_from(device, ops, overlay, 0)
    }

    /// [`Sim::batch_mem_ready`] from position `i` on.
    pub open spec fn batch_mem_ready_from(
        self,
        device: DeviceId,
        ops: Seq<BatchMemOp>,
        overlay: Map<Word, u64>,
        i: int,
    ) -> Result<bool, SimError>
        decreases ops.len() - i,
    {
        if 0 <= i < ops.len() {
            match ops[i] {
                BatchMemOp::Write {
                    id,
                    offset,
                    value,
                    bits32,
                } => match self.require_wait_value_resident(device, id, offset, bits32) {
                    Err(e) => Err(e),
                    Ok(_v) => {
                        let mask = wait_value_mask(bits32);
                        let prev = self.overlaid(overlay, id, offset);
                        let overlay = overlay.insert(
                            Word(id, offset),
                            (prev & !mask) | (value & mask),
                        );
                        self.batch_mem_ready_from(device, ops, overlay, i + 1)
                    },
                },
                BatchMemOp::Wait { id, offset, bits32, .. } => match self.require_wait_value_resident(
                    device,
                    id,
                    offset,
                    bits32,
                ) {
                    Err(e) => Err(e),
                    Ok(_v) => if !self.wait_holds(overlay, ops[i]) {
                        Ok(false)
                    } else {
                        self.batch_mem_ready_from(device, ops, overlay, i + 1)
                    },
                },
            }
        } else {
            Ok(true)
        }
    }

    /// Effect of [`Sim::start_batch_mem_ops`].
    pub open spec fn start_batch_mem_ops(
        self,
        op: OpId,
        device: DeviceId,
        ops: Seq<BatchMemOp>,
    ) -> (SimState, Result<bool, SimError>) {
        let s = self;
        match s.batch_mem_ready(device, ops) {
            Err(e) => (s, Err(e)),
            Ok(ready) => if !ready {
                (s, Ok(false))
            } else {
                let s = s.run_solo(op, 1);
                (s, Ok(true))
            },
        }
    }

    /// Effect of [`Sim::start_device_launch`].
    pub open spec fn start_device_launch(
        self,
        op: OpId,
        device: DeviceId,
    ) -> (SimState, Result<bool, SimError>) {
        let s = self;
        match s.take_compute(device) {
            (s, Err(e)) => (s, Err(e)),
            (s, Ok(free)) => if !free {
                (s, Ok(false))
            } else {
                match s.profile.gpu(device) {
                    Err(e) => (s, Err(e)),
                    Ok(gpu) => {
                        let s = s.run_solo(op, gpu.graph_launch_ns);
                        (s, Ok(true))
                    },
                }
            },
        }
    }

    /// Effect of [`Sim::start_event_wait`].
    pub open spec fn start_event_wait(
        self,
        id: OpId,
        event: EventId,
        skip_graph: bool,
    ) -> (SimState, Result<bool, SimError>) {
        let s = self;
        match s.event_wait_gate(event, skip_graph) {
            Err(e) => (s, Err(e)),
            Ok(gate) => if gate.is_none() {
                (s, Ok(false))
            } else {
                let s = s.run_solo(id, 1);
                (s, Ok(true))
            },
        }
    }

    /// Effect of [`Sim::start_set_conditional`].
    pub open spec fn start_set_conditional(
        self,
        id: OpId,
        handle: CondId,
        value: u32,
    ) -> (SimState, Result<bool, SimError>) {
        let s = self;
        match s.conds.get(handle) {
            None => (s, Err(invalid("unknown conditional"))),
            Some(c) => {
                let c = Cond { value: value, ..c };
                let s = SimState { conds: s.conds.insert(handle, c), ..s };
                let s = s.run_solo(id, 1);
                (s, Ok(true))
            },
        }
    }

    /// Effect of [`Sim::start_skipped`].
    pub open spec fn start_skipped(self, id: OpId) -> SimState {
        let s = self;
        let s = match s.ops.get(id) {
            Some(op) => {
                let op = OpView { skipped: true, ..op };
                let s = SimState { ops: s.ops.insert(id, op), ..s };
                s
            },
            _ => s,
        };
        let s = s.run_solo(id, 1);
        s
    }

    /// Effect of [`Sim::start_kind`].
    #[verifier::opaque]
    pub open spec fn start_kind(
        self,
        id: OpId,
        device: DeviceId,
        stream: StreamId,
        launch: LaunchCost,
        kind: GpuOpView,
    ) -> (SimState, Result<bool, SimError>) {
        let s = self;
        match kind {
            GpuOpView::Alloc { id: alloc, bytes } => s.start_alloc(id, device, alloc, bytes),
            GpuOpView::Free { id: alloc } => s.start_free(id, device, alloc),
            GpuOpView::Kernel { kind, reads, writes, cooperative } => s.start_kernel(
                id,
                device,
                stream,
                launch,
                kind,
                reads,
                writes,
            ),
            GpuOpView::Memset(op) => s.start_memset(id, device, stream, launch, op),
            GpuOpView::HostFunc { fn_id, user_data } => match s.host_func_ns(device, launch) {
                Err(e) => (s, Err(e)),
                Ok(ns) => {
                    let s = s.run_solo(id, ns);
                    (s, Ok(true))
                },
            },
            GpuOpView::Empty | GpuOpView::Attach { .. } | GpuOpView::WhileTick { .. } => {
                let s = s.run_solo(id, 1);
                (s, Ok(true))
            },
            GpuOpView::Memcpy(m) => s.start_memcpy(id, device, stream, launch, m),
            GpuOpView::EventRecord { event, external } => {
                let root = s.event_root(event);
                let s = s.mark_recorded(root, id);
                let s = s.run_solo(id, 1);
                (s, Ok(true))
            },
            GpuOpView::EventWait { event, external } => s.start_event_wait(
                id,
                event,
                external && launch != LaunchCost::Kernel,
            ),
            GpuOpView::AllReduce { parts, bytes } => s.start_allreduce(id, device, parts, bytes),
            GpuOpView::ChildGraph { graph } => (s, Err(invalid("child graph must be expanded"))),
            GpuOpView::If { handle, body } => (s, Err(invalid("conditional if must be expanded"))),
            GpuOpView::While { handle, body } => (
                s,
                Err(invalid("conditional while must be expanded")),
            ),
            GpuOpView::Switch { handle, bodies } => (
                s,
                Err(invalid("conditional switch must be expanded")),
            ),
            GpuOpView::SetConditional { handle, value } => s.start_set_conditional(
                id,
                handle,
                value,
            ),
            GpuOpView::WriteValue { id: alloc, offset, value, bits32 } => {
                let ops = seq![BatchMemOp::Write { id: alloc, offset, value, bits32 }];
                s.start_batch_mem_ops(id, device, ops)
            },
            GpuOpView::WaitValue { id: alloc, offset, value, bits32, cmp } => {
                let ops = seq![BatchMemOp::Wait { id: alloc, offset, value, bits32, cmp }];
                s.start_batch_mem_ops(id, device, ops)
            },
            GpuOpView::BatchMem { ops } => s.start_batch_mem_ops(id, device, ops),
            GpuOpView::DeviceLaunch { graph } => s.start_device_launch(id, device),
        }
    }

    /// Effect of [`Sim::try_start`].
    #[verifier::opaque]
    pub open spec fn try_start(self, id: OpId) -> (SimState, Result<bool, SimError>) {
        let s = self;
        match s.op_ref(id) {
            Err(e) => (s, Err(e)),
            Ok(op) => {
                let device = op.device;
                let stream = op.stream;
                let launch = op.launch;
                let kind = op.kind;
                if s.unavailable.contains(device) {
                    (s, Err(SimError::Unavailable { device }))
                } else if s.cond_skip(op.preds) {
                    let s = s.start_skipped(id);
                    (s, Ok(true))
                } else {
                    s.start_kind(id, device, stream, launch, kind)
                }
            },
        }
    }
}

impl Sim {
    /// Put an operation in flight for `ns` nanoseconds, at least one.
    pub(crate) fn run_solo(&mut self, op: OpId, ns: u64)
        ensures
            final(self)@ == old(self)@.run_solo(op, ns),
    {
        self.running.push(Running { op, remaining_ns: max_u64(ns, 1), share: Share::Solo });
    }

    pub(crate) fn require_device_attach(
        &self,
        id: AllocId,
        stream: StreamId,
    ) -> (r: Result<(), SimError>)
        ensures
            r == self@.require_device_attach(id, stream),
    {
        let a = self.alloc_ref(id)?;
        if a.device_attach_ok(stream) {
            Ok(())
        } else {
            Err(invalid("not attached"))
        }
    }

    pub(crate) fn require_bufs_attached(
        &self,
        stream: StreamId,
        bufs: &Vec<KernelBuf>,
    ) -> (r: Result<(), SimError>)
        ensures
            r == self@.require_bufs_attached(stream, bufs@),
    {
        let mut i: usize = 0;
        while i < bufs.len()
            invariant
                i <= bufs@.len(),
                self@.require_bufs_attached(stream, bufs@) == each_ok(
                    bufs@.len(),
                    |j: int| self@.require_bufs_attached_at(stream, bufs@, j),
                ),
                forall|j: int| 0 <= j < i ==> #[trigger] self@.require_bufs_attached_at(
                    stream,
                    bufs@,
                    j,
                ) is Ok,
            decreases bufs@.len() - i,
        {
            proof {
                lemma_each_ok(
                    bufs@.len(),
                    |j: int| self@.require_bufs_attached_at(stream, bufs@, j),
                    i as int,
                );
            }
            self.require_device_attach(bufs[i].id, stream)?;
            i += 1;
        }
        proof {
            lemma_each_ok(
                bufs@.len(),
                |j: int| self@.require_bufs_attached_at(stream, bufs@, j),
                i as int,
            );
        }
        Ok(())
    }

    pub(crate) fn require_memcpy_attach(
        &self,
        stream: StreamId,
        m: MemcpyOp,
    ) -> (r: Result<(), SimError>)
        ensures
            r == self@.require_memcpy_attach(stream, m),
    {
        match m.dst {
            Place::Device(_d) => self.require_device_attach(m.alloc, stream),
            Place::Host | Place::HostPinned => Ok(()),
        }
    }

    /// Managed allocations that a kernel must fetch before it can read.
    pub(crate) fn read_faults(
        &self,
        device: DeviceId,
        reads: &Vec<KernelBuf>,
    ) -> (r: Result<KeySet<AllocId>, SimError>)
        ensures
            ok_view(r) == self@.read_faults(device, reads@),
    {
        let mut wait: KeySet<AllocId> = KeySet::new();
        let mut i: usize = 0;
        while i < reads.len()
            invariant
                i <= reads@.len(),
                self@.read_faults(device, reads@) == self@.read_faults_from(
                    device,
                    reads@,
                    wait@,
                    i as int,
                ),
            decreases reads@.len() - i,
        {
            let a = self.alloc_ref(reads[i].id)?;
            if a.live && a.managed && !has_key(&a.devices, device) && !a.remote_read_ok(device) {
                let _new = wait.insert(reads[i].id);
            }
            i += 1;
        }
        Ok(wait)
    }

    /// The same for writes, on top of `first`.
    pub(crate) fn write_faults(
        &self,
        device: DeviceId,
        writes: &Vec<KernelBuf>,
        first: KeySet<AllocId>,
    ) -> (r: Result<KeySet<AllocId>, SimError>)
        ensures
            ok_view(r) == self@.write_faults(device, writes@, first@),
    {
        let mut wait: KeySet<AllocId> = first;
        let mut i: usize = 0;
        while i < writes.len()
            invariant
                i <= writes@.len(),
                self@.write_faults(device, writes@, first@) == self@.write_faults_from(
                    device,
                    writes@,
                    wait@,
                    i as int,
                ),
            decreases writes@.len() - i,
        {
            let a = self.alloc_ref(writes[i].id)?;
            if a.live && a.managed && !has_key(&a.devices, device) {
                let _new = wait.insert(writes[i].id);
            }
            i += 1;
        }
        Ok(wait)
    }

    /// Managed allocations that a kernel faults on, ascending.
    pub(crate) fn managed_fault_ids(
        &self,
        device: DeviceId,
        reads: &Vec<KernelBuf>,
        writes: &Vec<KernelBuf>,
    ) -> (r: Result<Vec<AllocId>, SimError>)
        ensures
            ok_view(r) == self@.managed_fault_ids(device, reads@, writes@),
    {
        let first: KeySet<AllocId> = self.read_faults(device, reads)?;
        let wait: KeySet<AllocId> = self.write_faults(device, writes, first)?;
        Ok(wait.to_list())
    }

    /// Attributes of a migration that a fault injects.
    pub(crate) fn fault_attrs(&self, priority: i32) -> (r: OpAttrs)
        ensures
            r == self@.fault_attrs(priority),
    {
        OpAttrs {
            priority,
            pdl: ProgrammaticLaunch::none(),
            programmatic_event: None,
            launch_completion: None,
            access_policy: None,
            mem_sync_physical: 0,
            cluster: None,
            cluster_policy: ClusterSchedulingPolicy::Default,
            preferred_cluster: None,
            carveout: SharedMemCarveout::Default,
            shared_mem: SharedMemoryMode::Default,
            nvlink_util_centric: false,
        }
    }

    /// Queue a migration ahead of a kernel.
    pub(crate) fn inject_fault_memcpy(
        &mut self,
        kernel: OpId,
        device: DeviceId,
        alloc: AllocId,
        deps: &Vec<OpId>,
    ) -> (r: Result<(), SimError>)
        ensures
            final(self)@ == old(self)@.inject_fault_memcpy(kernel, device, alloc, deps@).0,
            r == old(self)@.inject_fault_memcpy(kernel, device, alloc, deps@).1,
    {
        reveal(SimState::inject_fault_memcpy);
        let row = self.op_ref(kernel)?;
        let stream = row.stream;
        let priority: i32 = row.attrs.priority;
        let (bytes, src) = self.managed_move_src(alloc, Some(device))?;
        let attrs = self.fault_attrs(priority);
        let id = self.take_op_id();
        let op = Op {
            device,
            stream,
            kind: GpuOp::Memcpy(MemcpyOp::packed_1d(src, Place::Device(device), alloc, bytes)),
            deps: copy_vec(deps),
            done: false,
            cancelled: false,
            launch: LaunchCost::Kernel,
            submit_ns: self.clock,
            start_ns: None,
            done_ns: None,
            preds: Vec::new(),
            skipped: false,
            attrs,
            pdl_trigger_ns: None,
            domain_fence_paid: false,
        };
        self.ops.insert(id, op);
        self.add_op_dep(kernel, id);
        Ok(())
    }

    pub(crate) fn inject_faults(
        &mut self,
        kernel: OpId,
        device: DeviceId,
        wait: &Vec<AllocId>,
        deps: &Vec<OpId>,
    ) -> (r: Result<(), SimError>)
        ensures
            final(self)@ == old(self)@.inject_faults(kernel, device, wait@, deps@).0,
            r == old(self)@.inject_faults(kernel, device, wait@, deps@).1,
    {
        let mut i: usize = 0;
        while i < wait.len()
            invariant
                i <= wait@.len(),
                old(self)@.inject_faults(kernel, device, wait@, deps@) == self@.inject_faults_from(
                    kernel,
                    device,
                    wait@,
                    deps@,
                    i as int,
                ),
            decreases wait@.len() - i,
        {
            self.inject_fault_memcpy(kernel, device, wait[i], deps)?;
            i += 1;
        }
        Ok(())
    }

    /// A live kernel that touches managed memory elsewhere waits for its migration. Returns
    /// whether one was queued.
    pub(crate) fn inject_managed_faults(
        &mut self,
        kernel: OpId,
        device: DeviceId,
        reads: &Vec<KernelBuf>,
        writes: &Vec<KernelBuf>,
    ) -> (r: Result<bool, SimError>)
        ensures
            final(self)@ == old(self)@.inject_managed_faults(kernel, device, reads@, writes@).0,
            r == old(self)@.inject_managed_faults(kernel, device, reads@, writes@).1,
    {
        let wait: Vec<AllocId> = self.managed_fault_ids(device, reads, writes)?;
        if wait.len() == 0 {
            return Ok(false);
        }
        let row = self.op_ref(kernel)?;
        let deps: Vec<OpId> = copy_vec(&row.deps);
        self.inject_faults(kernel, device, &wait, &deps)?;
        Ok(true)
    }

    /// Whether peers of the pool of an allocation may use it from `device`.
    pub(crate) fn pool_peer_ok(&self, a: &Alloc, device: DeviceId) -> (r: bool)
        ensures
            r == self@.pool_peer_ok(a@, device),
    {
        if !a.live {
            return false;
        }
        match a.pool {
            None => false,
            Some(pid) => match self.pools.get(pid) {
                None => false,
                Some(p) => {
                    let root_id = match p.share_root {
                        Some(r) => r,
                        None => pid,
                    };
                    match self.pools.get(root_id) {
                        None => false,
                        Some(root) => {
                            if root.device == device || !has_key(&a.devices, root.device) {
                                return false;
                            }
                            p.accessed_by.contains(device) || root.accessed_by.contains(device)
                        },
                    }
                },
            },
        }
    }

    /// Whether a kernel on `device` can use a buffer: a local copy, mapped host memory, a permitted
    /// remote read, pool access or a peer write permission.
    pub(crate) fn buf_on_device(
        &self,
        buf: KernelBuf,
        device: DeviceId,
        mapped_ok: bool,
        allow_remote: bool,
    ) -> (r: Result<bool, SimError>)
        ensures
            r == self@.buf_on_device(buf, device, mapped_ok, allow_remote),
    {
        let alias = self.alloc_ref(buf.id)?;
        let root = match alias.share_src {
            Some(src) => src,
            None => match alias.ipc_src {
                Some(src) => src,
                None => buf.id,
            },
        };
        let a = self.alloc_ref(root)?;
        let (off, n) = kernel_span(a.bytes, buf)?;
        let on_device: bool = if a.vmm {
            a.live && vmm_covers(&a.vmm_maps, device, off, n)
        } else {
            a.live && has_key(&a.devices, device)
        };
        let home_span: bool = match a.vmm_home() {
            Some(h) => vmm_covers(&a.vmm_maps, h, off, n),
            None => false,
        };
        let mapped: bool = mapped_ok && a.live && a.host_mapped;
        let accessed: bool = mapped_ok && allow_remote && a.remote_read_ok(device) && (
            !a.vmm || home_span
        );
        let vmm_rw: bool = a.vmm && a.vmm_write_by.contains(device) && home_span;
        Ok(on_device || mapped || accessed || self.pool_peer_ok(a, device) || vmm_rw)
    }

    /// Every buffer can be used from `device`.
    pub(crate) fn require_bufs_on_device(
        &self,
        device: DeviceId,
        bufs: &Vec<KernelBuf>,
        mapped_ok: bool,
        allow_remote: bool,
    ) -> (r: Result<(), SimError>)
        ensures
            r == self@.require_bufs_on_device(device, bufs@, mapped_ok, allow_remote),
    {
        let mut i: usize = 0;
        while i < bufs.len()
            invariant
                i <= bufs@.len(),
                self@.require_bufs_on_device(device, bufs@, mapped_ok, allow_remote) == each_ok(
                    bufs@.len(),
                    |j: int| self@.require_bufs_on_device_at(
                        device,
                        bufs@,
                        mapped_ok,
                        allow_remote,
                        j,
                    ),
                ),
                forall|j: int| 0 <= j < i ==> #[trigger] self@.require_bufs_on_device_at(
                    device,
                    bufs@,
                    mapped_ok,
                    allow_remote,
                    j,
                ) is Ok,
            decreases bufs@.len() - i,
        {
            proof {
                lemma_each_ok(
                    bufs@.len(),
                    |j: int| self@.require_bufs_on_device_at(
                        device,
                        bufs@,
                        mapped_ok,
                        allow_remote,
                        j,
                    ),
                    i as int,
                );
            }
            let ok: bool = self.buf_on_device(bufs[i], device, mapped_ok, allow_remote)?;
            if !ok {
                return Err(SimError::NotResident { alloc: bufs[i].id, device });
            }
            i += 1;
        }
        proof {
            lemma_each_ok(
                bufs@.len(),
                |j: int| self@.require_bufs_on_device_at(device, bufs@, mapped_ok, allow_remote, j),
                i as int,
            );
        }
        Ok(())
    }

    /// Take one lease for every buffer.
    pub(crate) fn lease_bufs(&mut self, bufs: &Vec<KernelBuf>) -> (r: Result<(), SimError>)
        ensures
            final(self)@ == old(self)@.lease_bufs(bufs@).0,
            r == old(self)@.lease_bufs(bufs@).1,
    {
        let mut i: usize = 0;
        while i < bufs.len()
            invariant
                i <= bufs@.len(),
                old(self)@.lease_bufs(bufs@) == self@.lease_bufs_from(bufs@, i as int),
            decreases bufs@.len() - i,
        {
            let a = self.alloc_mut(bufs[i].id)?;
            a.leases = a.leases.saturating_add(1);
            i += 1;
        }
        Ok(())
    }

    /// Check residency, then lease every buffer.
    pub(crate) fn lease_kernel(
        &mut self,
        device: DeviceId,
        reads: &Vec<KernelBuf>,
        writes: &Vec<KernelBuf>,
        mapped_ok: bool,
    ) -> (r: Result<(), SimError>)
        ensures
            final(self)@ == old(self)@.lease_kernel(device, reads@, writes@, mapped_ok).0,
            r == old(self)@.lease_kernel(device, reads@, writes@, mapped_ok).1,
    {
        self.require_bufs_on_device(device, reads, mapped_ok, true)?;
        self.require_bufs_on_device(device, writes, mapped_ok, false)?;
        self.lease_bufs(reads)?;
        self.lease_bufs(writes)
    }

    /// Replicated managed allocations that a kernel writes.
    pub(crate) fn replicated_writes(
        &self,
        writes: &Vec<KernelBuf>,
    ) -> (r: Result<KeySet<AllocId>, SimError>)
        ensures
            ok_view(r) == self@.replicated_writes(writes@),
    {
        let mut ids: KeySet<AllocId> = KeySet::new();
        let mut i: usize = 0;
        while i < writes.len()
            invariant
                i <= writes@.len(),
                self@.replicated_writes(writes@) == self@.replicated_writes_from(
                    writes@,
                    ids@,
                    i as int,
                ),
            decreases writes@.len() - i,
        {
            let a = self.alloc_ref(writes[i].id)?;
            if a.live && a.managed && a.read_mostly {
                let _new = ids.insert(writes[i].id);
            }
            i += 1;
        }
        Ok(ids)
    }

    pub(crate) fn migrate_each(
        &mut self,
        ids: &Vec<AllocId>,
        keep: DeviceId,
    ) -> (r: Result<(), SimError>)
        ensures
            final(self)@ == old(self)@.migrate_each(ids@, keep).0,
            r == old(self)@.migrate_each(ids@, keep).1,
    {
        let mut i: usize = 0;
        while i < ids.len()
            invariant
                i <= ids@.len(),
                old(self)@.migrate_each(ids@, keep) == self@.migrate_each_from(
                    ids@,
                    keep,
                    i as int,
                ),
            decreases ids@.len() - i,
        {
            self.migrate_off_except(ids[i], keep)?;
            i += 1;
        }
        Ok(())
    }

    /// A write to replicated managed memory drops the other copies.
    pub(crate) fn invalidate_read_mostly_writes(
        &mut self,
        device: DeviceId,
        writes: &Vec<KernelBuf>,
    ) -> (r: Result<(), SimError>)
        ensures
            final(self)@ == old(self)@.invalidate_read_mostly_writes(device, writes@).0,
            r == old(self)@.invalidate_read_mostly_writes(device, writes@).1,
    {
        let ids: KeySet<AllocId> = self.replicated_writes(writes)?;
        let list: Vec<AllocId> = ids.to_list();
        self.migrate_each(&list, device)
    }

    /// Rate between two GPUs, or of the host link of `dst` where no link joins them.
    pub(crate) fn peer_or_host_bps(
        &self,
        src: DeviceId,
        dst: DeviceId,
    ) -> (r: Result<u64, SimError>)
        ensures
            r == self@.peer_or_host_bps(src, dst),
    {
        match self.profile.link(Some(src), Some(dst)) {
            Ok(link) => Ok(link.bps),
            Err(_e) => {
                let host = self.profile.link(None, Some(dst))?;
                Ok(host.bps)
            },
        }
    }

    /// Slowest link from `src` to the team of a multicast object.
    pub(crate) fn nvls_bps(&self, src: DeviceId, mc: MulticastId) -> (r: Result<u64, SimError>)
        ensures
            r == self@.nvls_bps(src, mc),
    {
        let obj = self.mc_ref(mc)?;
        let team: Vec<DeviceId> = copy_vec(&obj.devices);
        let mut bps: u64 = u64::MAX;
        let mut any: bool = false;
        let mut i: usize = 0;
        while i < team.len()
            invariant
                i <= team@.len(),
                self@.nvls_bps(src, mc) == self@.nvls_bps_from(src, team@, bps, any, i as int),
            decreases team@.len() - i,
        {
            if team[i] == src {
                i += 1;
                continue;
            }
            any = true;
            let hop: u64 = self.peer_or_host_bps(src, team[i])?;
            bps = min_u64(bps, hop);
            i += 1;
        }
        if !any {
            let gpu = self.profile.gpu(src)?;
            return Ok(gpu.hbm_bps);
        }
        Ok(bps)
    }

    /// GPU that serves a remote access to an allocation.
    pub(crate) fn remote_source(&self, a: &Alloc, device: DeviceId) -> (r: Option<DeviceId>)
        ensures
            r == self@.remote_source(a@, device),
    {
        if a.vmm {
            return a.vmm_home();
        }
        if self.pool_peer_ok(a, device) {
            return match a.pool {
                Some(p) => match self.pools.get(p) {
                    Some(pool) => Some(pool.device),
                    None => None,
                },
                None => None,
            };
        }
        match a.preferred {
            Preferred::Gpu(p) => if has_key(&a.devices, p) {
                Some(p)
            } else {
                a.first_device()
            },
            Preferred::Nowhere | Preferred::Host => a.first_device(),
        }
    }

    /// Rate of an access that does not go to local HBM.
    pub(crate) fn buf_remote_bps(
        &self,
        device: DeviceId,
        id: AllocId,
    ) -> (r: Result<Option<u64>, SimError>)
        ensures
            r == self@.buf_remote_bps(device, id),
    {
        if let Some(mc) = self.mc_vas.get(id) {
            let bps: u64 = self.nvls_bps(device, *mc)?;
            return Ok(Some(bps));
        }
        let a = self.alloc_ref(id)?;
        if has_key(&a.devices, device) {
            return Ok(None);
        }
        if a.host_mapped {
            let host = self.profile.link(None, Some(device))?;
            return Ok(Some(host.bps));
        }
        if a.remote_read_ok(device) || self.pool_peer_ok(a, device)
            || (a.vmm && a.vmm_write_by.contains(device)) {
            return match self.remote_source(a, device) {
                Some(src) => {
                    let bps: u64 = self.peer_or_host_bps(src, device)?;
                    Ok(Some(bps))
                },
                None => {
                    let host = self.profile.link(None, Some(device))?;
                    Ok(Some(host.bps))
                },
            };
        }
        Ok(None)
    }

    /// Memory rate of a kernel: local HBM, or its slowest remote buffer.
    pub(crate) fn kernel_mem_bps(
        &self,
        device: DeviceId,
        bufs: &Vec<KernelBuf>,
    ) -> (r: Result<u64, SimError>)
        ensures
            r == self@.kernel_mem_bps(device, bufs@),
    {
        let gpu = self.profile.gpu(device)?;
        let mut bps: u64 = gpu.hbm_bps;
        let mut i: usize = 0;
        while i < bufs.len()
            invariant
                i <= bufs@.len(),
                self@.kernel_mem_bps(device, bufs@) == self@.kernel_mem_bps_from(
                    device,
                    bufs@,
                    bps,
                    i as int,
                ),
            decreases bufs@.len() - i,
        {
            let remote: Option<u64> = self.buf_remote_bps(device, bufs[i].id)?;
            if let Some(r) = remote {
                bps = min_u64(bps, r);
            }
            i += 1;
        }
        Ok(bps)
    }

    /// Bytes that a kernel writes to multicast ranges.
    pub(crate) fn multicast_write_bytes(&self, writes: &Vec<KernelBuf>) -> (r: u64)
        ensures
            r == self@.multicast_write_bytes(writes@),
    {
        let mut n: u64 = 0;
        let mut i: usize = 0;
        while i < writes.len()
            invariant
                i <= writes@.len(),
                self@.multicast_write_bytes(writes@) == self@.multicast_write_bytes_from(
                    writes@,
                    n,
                    i as int,
                ),
            decreases writes@.len() - i,
        {
            let w = writes[i];
            if self.mc_vas.contains_key(w.id) {
                if let Some(a) = self.allocs.get(w.id) {
                    if let Ok((_o, m)) = kernel_span(a.bytes, w) {
                        n = n.saturating_add(m);
                    }
                }
            }
            i += 1;
        }
        n
    }

    pub(crate) fn validate_access_policy_window(
        &self,
        device: DeviceId,
        window: AccessPolicyWindow,
    ) -> (r: Result<(), SimError>)
        ensures
            r == self@.validate_access_policy_window(device, window),
    {
        validate_access_policy(window)?;
        let rt = self.gpu_rt(device)?;
        let gran: u64 = rt.limits.l2_fetch;
        if gran <= 1 {
            return Ok(());
        }
        let a = self.alloc_ref(window.buf.id)?;
        let (off, n) = kernel_span(a.bytes, window.buf)?;
        if off % gran != 0 || n % gran != 0 {
            return Err(invalid("access policy L2 fetch"));
        }
        Ok(())
    }

    /// Ranges that a kernel touches, merged.
    pub(crate) fn kernel_touch_spans(
        &self,
        bufs: &Vec<KernelBuf>,
    ) -> (r: Result<Vec<PersistLine>, SimError>)
        ensures
            ok_view(r) == self@.kernel_touch_spans(bufs@),
    {
        let mut spans: Vec<PersistLine> = Vec::new();
        let mut i: usize = 0;
        while i < bufs.len()
            invariant
                i <= bufs@.len(),
                all_ok(bufs@.len(), |j: int| self@.kernel_touch_spans_at(bufs@, j)) is Err ==> self@.kernel_touch_spans(bufs@) == Err::<Seq<PersistLine>, SimError>(
                    all_ok(bufs@.len(), |j: int| self@.kernel_touch_spans_at(bufs@, j))->Err_0,
                ),
                spans@.len() == i,
                forall|j: int| 0 <= j < i ==> #[trigger] self@.kernel_touch_spans_at(bufs@, j) is Ok && self@.kernel_touch_spans_at(bufs@, j)->Ok_0 == spans@[j],
            decreases bufs@.len() - i,
        {
            proof {
                lemma_all_ok(bufs@.len(), |j: int| self@.kernel_touch_spans_at(bufs@, j), i as int);
            }
            let a = self.alloc_ref(bufs[i].id)?;
            let (offset, bytes) = kernel_span(a.bytes, bufs[i])?;
            spans.push(PersistLine { id: bufs[i].id, offset, bytes });
            i += 1;
        }
        proof {
            lemma_all_done(bufs@.len(), |j: int| self@.kernel_touch_spans_at(bufs@, j), spans@);
        }
        Ok(merge_persist_spans(&spans))
    }

    /// Traffic of a kernel after hits in persisting L2, which the kernel also fills.
    pub(crate) fn persist_kernel_bytes(
        &mut self,
        device: DeviceId,
        window: Option<AccessPolicyWindow>,
        kind: KernelKind,
        bufs: &Vec<KernelBuf>,
    ) -> (r: Result<u64, SimError>)
        ensures
            final(self)@ == old(self)@.persist_kernel_bytes(device, window, kind, bufs@).0,
            r == old(self)@.persist_kernel_bytes(device, window, kind, bufs@).1,
    {
        reveal(SimState::persist_kernel_bytes);
        let kind_bytes: u64 = kind.traffic();
        match window {
            None => Ok(kind_bytes),
            Some(w) => {
                self.validate_access_policy_window(device, w)?;
                if w.hit != AccessProperty::Persisting {
                    return Ok(kind_bytes);
                }
                let gpu = self.profile.gpu(device)?;
                let persist_hit: u64 = min_u16(gpu.l2_persist_hit_permille, 1000) as u64;
                let a = self.alloc_ref(w.buf.id)?;
                let (off, n) = kernel_span(a.bytes, w.buf)?;
                let touch: Vec<PersistLine> = self.kernel_touch_spans(bufs)?;
                let overlap: u64 = span_overlap_with(w.buf.id, off, n, &touch);
                if overlap == 0 {
                    return Ok(kind_bytes);
                }
                let rt0 = self.gpu_rt(device)?;
                let limit: u64 = rt0.persist_limit;
                if limit == 0 {
                    return Ok(kind_bytes);
                }
                let want: u64 = mul_sat(overlap, min_u16(w.hit_ratio_permille, 1000) as u64) / 1000;
                let cap: u64 = min_u64(want, limit);
                let cached: u64 = min_u64(
                    span_overlap_with(w.buf.id, off, n, &rt0.persist_lines),
                    overlap,
                );
                let billed: u64 = persist_discount(
                    kind_bytes,
                    min_u64(cached, cap),
                    persist_used(&touch),
                    persist_hit,
                );
                let rt = self.gpu_rt_mut(device)?;
                persist_fill(&mut rt.persist_lines, limit, w.buf.id, off, cap);
                Ok(billed)
            },
        }
    }

    /// Launch overhead of a kernel or fill.
    pub(crate) fn launch_ns(
        &self,
        device: DeviceId,
        launch: LaunchCost,
    ) -> (r: Result<u64, SimError>)
        ensures
            r == self@.launch_ns(device, launch),
    {
        let g = self.profile.gpu(device)?;
        match launch {
            LaunchCost::Kernel => Ok(g.launch_overhead_ns),
            LaunchCost::GraphHead => Ok(g.graph_launch_ns),
            LaunchCost::GraphBody => Ok(0),
        }
    }

    /// Time of a kernel: overhead plus the larger of compute and memory time, over the achieved
    /// utilization.
    pub(crate) fn kernel_ns(
        &self,
        device: DeviceId,
        stream: StreamId,
        kind: KernelKind,
        launch: LaunchCost,
        mem_bps: u64,
        billed_bytes: u64,
    ) -> (r: Result<u64, SimError>)
        ensures
            r == self@.kernel_ns(device, stream, kind, launch, mem_bps, billed_bytes),
    {
        let g = self.profile.gpu(device)?;
        let overhead: u64 = self.launch_ns(device, launch)?;
        let sm: u64 = self.stream_sm_permille(device, stream) as u64;
        let peak: u64 = max_u64(mul_sat(g.flops(kind.dtype()), sm) / 1000, 1);
        let compute: u64 = ns_for_bytes(kind.flops(), peak);
        let memory: u64 = ns_for_bytes(billed_bytes, max_u64(mem_bps, 1));
        let util: u64 = max_u16(g.gemm_util_permille, 1) as u64;
        let ns: u64 = mul_sat(overhead.saturating_add(max_u64(compute, memory)), 1000) / util;
        if matches!(kind, KernelKind::GroupedMoeGemm { .. }) {
            return Ok(mul_sat(ns, max_u16(g.grouped_moe_permille, 1) as u64) / 1000);
        }
        Ok(ns)
    }

    /// Scale by the shared-memory bank mode.
    pub(crate) fn shared_mem_ns(
        &self,
        device: DeviceId,
        mode: SharedMemoryMode,
        ns: u64,
    ) -> (r: Result<u64, SimError>)
        ensures
            r == self@.shared_mem_ns(device, mode, ns),
    {
        let g = self.profile.gpu(device)?;
        match mode {
            SharedMemoryMode::Default => Ok(ns),
            SharedMemoryMode::FourByte => Ok(
                scale_ns_permille(ns, g.shared_mem_four_byte_permille),
            ),
            SharedMemoryMode::EightByte => Ok(
                scale_ns_permille(ns, g.shared_mem_eight_byte_permille),
            ),
        }
    }

    pub(crate) fn memset_ns(
        &self,
        device: DeviceId,
        bytes: u64,
        launch: LaunchCost,
        mem_bps: u64,
    ) -> (r: Result<u64, SimError>)
        ensures
            r == self@.memset_ns(device, bytes, launch, mem_bps),
    {
        let overhead: u64 = self.launch_ns(device, launch)?;
        Ok(overhead.saturating_add(ns_for_bytes(bytes, max_u64(mem_bps, 1))))
    }

    pub(crate) fn graph_head_ns(
        &self,
        device: DeviceId,
        launch: LaunchCost,
    ) -> (r: Result<u64, SimError>)
        ensures
            r == self@.graph_head_ns(device, launch),
    {
        if launch == LaunchCost::GraphHead {
            let g = self.profile.gpu(device)?;
            return Ok(g.graph_launch_ns);
        }
        Ok(0)
    }

    pub(crate) fn host_func_ns(
        &self,
        device: DeviceId,
        launch: LaunchCost,
    ) -> (r: Result<u64, SimError>)
        ensures
            r == self@.host_func_ns(device, launch),
    {
        let g = self.profile.gpu(device)?;
        let head: u64 = self.graph_head_ns(device, launch)?;
        Ok(head.saturating_add(max_u64(g.host_func_ns, 1)))
    }

    /// Slots of a queued operation.
    pub(crate) fn slots_of(&self, id: OpId) -> (r: Result<u8, SimError>)
        ensures
            r == self@.slots_of(id),
    {
        let op = self.op_ref(id)?;
        self.op_kernel_slots(op)
    }

    /// Leases and time of a kernel that holds its slots.
    pub(crate) fn bill_kernel(
        &mut self,
        id: OpId,
        device: DeviceId,
        stream: StreamId,
        launch: LaunchCost,
        kind: KernelKind,
        reads: &Vec<KernelBuf>,
        writes: &Vec<KernelBuf>,
        mem_bps: u64,
    ) -> (r: Result<u64, SimError>)
        ensures
            final(self)@ == old(self)@.bill_kernel(
                id,
                device,
                stream,
                launch,
                kind,
                reads@,
                writes@,
                mem_bps,
            ).0,
            r == old(self)@.bill_kernel(
                id,
                device,
                stream,
                launch,
                kind,
                reads@,
                writes@,
                mem_bps,
            ).1,
    {
        reveal(SimState::bill_kernel);
        self.lease_kernel(device, reads, writes, true)?;
        self.invalidate_read_mostly_writes(device, writes)?;
        let row = self.op_ref(id)?;
        let window: Option<AccessPolicyWindow> = row.attrs.access_policy;
        let shared_mem = row.attrs.shared_mem;
        let bufs: Vec<KernelBuf> = joined(reads.as_slice(), writes.as_slice());
        let billed: u64 = self.persist_kernel_bytes(device, window, kind, &bufs)?;
        let ns: u64 = self.kernel_ns(device, stream, kind, launch, mem_bps, billed)?;
        self.shared_mem_ns(device, shared_mem, ns)
    }

    /// Clock of the programmatic trigger of a kernel that runs for `ns`.
    pub(crate) fn trigger_at(&self, device: DeviceId, ns: u64) -> (r: u64)
        ensures
            r == self@.trigger_at(device, ns),
    {
        let permille: u64 = match self.profile.gpu(device) {
            Ok(g) => min_u16(g.pdl_trigger_permille, 1000) as u64,
            Err(_e) => 1000,
        };
        self.clock.saturating_add(mul_sat(ns, permille) / 1000)
    }

    /// Start a kernel. Returns `false` when its slots are not free, and `true` also when it was
    /// put behind a migration instead.
    pub(crate) fn start_kernel(
        &mut self,
        id: OpId,
        device: DeviceId,
        stream: StreamId,
        launch: LaunchCost,
        kind: KernelKind,
        reads: &Vec<KernelBuf>,
        writes: &Vec<KernelBuf>,
    ) -> (r: Result<bool, SimError>)
        ensures
            final(self)@ == old(self)@.start_kernel(
                id,
                device,
                stream,
                launch,
                kind,
                reads@,
                writes@,
            ).0,
            r == old(self)@.start_kernel(id, device, stream, launch, kind, reads@, writes@).1,
    {
        reveal(SimState::start_kernel);
        self.require_bufs_attached(stream, reads)?;
        self.require_bufs_attached(stream, writes)?;
        if launch == LaunchCost::Kernel {
            let fetched: bool = self.inject_managed_faults(id, device, reads, writes)?;
            if fetched {
                return Ok(true);
            }
        }
        let slots: u8 = self.slots_of(id)?;
        let free: bool = self.take_compute_n(device, slots)?;
        if !free {
            return Ok(false);
        }
        let bufs: Vec<KernelBuf> = joined(reads.as_slice(), writes.as_slice());
        let mem_bps: u64 = self.kernel_mem_bps(device, &bufs)?;
        match self.bill_kernel(id, device, stream, launch, kind, reads, writes, mem_bps) {
            Err(e) => {
                self.drop_compute_n(device, slots)?;
                Err(e)
            },
            Ok(ns) => {
                self.run_solo(id, ns);
                let row = self.op_ref(id)?;
                if row.attrs.pdl.trigger {
                    let at: u64 = self.trigger_at(device, ns);
                    self.op_mut(id)?.pdl_trigger_ns = Some(at);
                }
                Ok(true)
            },
        }
    }

    /// Leases and time of a fill that holds its slot.
    pub(crate) fn bill_memset(
        &mut self,
        device: DeviceId,
        launch: LaunchCost,
        op: MemsetOp,
    ) -> (r: Result<u64, SimError>)
        ensures
            final(self)@ == old(self)@.bill_memset(device, launch, op).0,
            r == old(self)@.bill_memset(device, launch, op).1,
    {
        reveal(SimState::bill_memset);
        let none: Vec<KernelBuf> = Vec::new();
        let writes: Vec<KernelBuf> = one(KernelBuf::span(op.id, op.offset, op.extent_bytes()));
        self.lease_kernel(device, &none, &writes, false)?;
        self.invalidate_read_mostly_writes(device, &writes)?;
        let mem_bps: u64 = self.kernel_mem_bps(device, &writes)?;
        self.memset_ns(device, op.payload_bytes(), launch, mem_bps)
    }

    /// Start a fill.
    pub(crate) fn start_memset(
        &mut self,
        id: OpId,
        device: DeviceId,
        stream: StreamId,
        launch: LaunchCost,
        op: MemsetOp,
    ) -> (r: Result<bool, SimError>)
        ensures
            final(self)@ == old(self)@.start_memset(id, device, stream, launch, op).0,
            r == old(self)@.start_memset(id, device, stream, launch, op).1,
    {
        self.require_device_attach(op.id, stream)?;
        let free: bool = self.take_compute(device)?;
        if !free {
            return Ok(false);
        }
        match self.bill_memset(device, launch, op) {
            Err(e) => {
                self.drop_compute(device)?;
                Err(e)
            },
            Ok(ns) => {
                self.run_solo(id, ns);
                Ok(true)
            },
        }
    }

    /// Start a stream-ordered allocation: capacity is reserved now.
    pub(crate) fn start_alloc(
        &mut self,
        op: OpId,
        device: DeviceId,
        alloc: AllocId,
        bytes: u64,
    ) -> (r: Result<bool, SimError>)
        ensures
            final(self)@ == old(self)@.start_alloc(op, device, alloc, bytes).0,
            r == old(self)@.start_alloc(op, device, alloc, bytes).1,
    {
        reveal(SimState::start_alloc);
        let a = self.alloc_ref(alloc)?;
        let pool: Option<PoolId> = a.pool;
        let already: bool = a.live && has_key(&a.devices, device);
        let gpu = self.profile.gpu(device);
        let ns: u64 = match pool {
            Some(p) => if already {
                let g = gpu?;
                g.pool_reuse_ns
            } else {
                let owner = self.pool_ref(p)?;
                if owner.device != device {
                    return Err(invalid("pool device mismatch"));
                }
                self.pool_acquire(p, bytes)?
            },
            None => if already {
                1
            } else {
                self.reserve_hbm(device, bytes)?;
                let g = gpu?;
                g.alloc_overhead_ns
            },
        };
        self.run_solo(op, ns);
        Ok(true)
    }

    /// Drop the copy of an allocation on `device`; without a copy left it is no longer live.
    pub(crate) fn drop_copy(
        &mut self,
        device: DeviceId,
        alloc: AllocId,
        bytes: u64,
    ) -> (r: Result<(), SimError>)
        ensures
            final(self)@ == old(self)@.drop_copy(device, alloc, bytes).0,
            r == old(self)@.drop_copy(device, alloc, bytes).1,
    {
        reveal(SimState::drop_copy);
        self.refund_device(device, alloc, bytes)?;
        let a = self.alloc_mut(alloc)?;
        drop_key(&mut a.devices, device);
        let gone: bool = a.devices.len() == 0 && !a.host_pinned;
        a.live = a.live && !gone;
        if gone {
            self.clear_mailbox(alloc);
        }
        Ok(())
    }

    /// Start a stream-ordered free: capacity returns now.
    pub(crate) fn start_free(
        &mut self,
        op: OpId,
        device: DeviceId,
        alloc: AllocId,
    ) -> (r: Result<bool, SimError>)
        ensures
            final(self)@ == old(self)@.start_free(op, device, alloc).0,
            r == old(self)@.start_free(op, device, alloc).1,
    {
        reveal(SimState::start_free);
        let a = self.alloc_ref(alloc)?;
        let bytes: u64 = a.bytes;
        if a.leases > 0 {
            return Err(SimError::Leased { alloc });
        }
        if a.ipc_src.is_some() {
            self.drop_ipc_import(alloc)?;
            self.run_solo(op, 1);
            return Ok(true);
        }
        if a.share_src.is_some() {
            self.drop_share_import(alloc)?;
            self.run_solo(op, 1);
            return Ok(true);
        }
        if a.ipc_opens > 0 {
            return Err(invalid("ipc mapped"));
        }
        if a.share_opens > 0 {
            return Err(invalid("share mapped"));
        }
        if !a.live || !has_key(&a.devices, device) {
            return Err(SimError::UnknownAlloc { alloc });
        }
        self.drop_copy(device, alloc, bytes)?;
        self.run_solo(op, 1);
        Ok(true)
    }

    /// Leased managed memory does not move.
    pub(crate) fn memcpy_lease_check(&self, a: &Alloc, m: MemcpyOp) -> (r: Result<(), SimError>)
        ensures
            r == self@.memcpy_lease_check(a@, m),
    {
        let staying: bool = match m.dst {
            Place::Device(d) => has_key(&a.devices, d),
            Place::Host | Place::HostPinned => a.devices.len() == 0,
        };
        if a.managed && a.leases > 0 && !staying {
            return Err(SimError::Leased { alloc: m.alloc });
        }
        Ok(())
    }

    /// Linked GPUs copy directly only with peer access.
    pub(crate) fn memcpy_peer_check(&self, m: MemcpyOp) -> (r: Result<(), SimError>)
        ensures
            r == self@.memcpy_peer_check(m),
    {
        match (m.src, m.dst) {
            (Place::Device(src), Place::Device(dst)) => {
                if src != dst && !self.peer_enabled.contains(Peer(src, dst))
                    && self.profile.link(Some(src), Some(dst)).is_ok() {
                    return Err(SimError::PeerDisabled { src, dst });
                }
                Ok(())
            },
            _ => Ok(()),
        }
    }

    /// The source holds the range, and so does the destination of a reserved range.
    pub(crate) fn memcpy_resident_check(&self, a: &Alloc, m: MemcpyOp) -> (r: Result<(), SimError>)
        ensures
            r == self@.memcpy_resident_check(a@, m),
    {
        let span: u64 = m.extent_bytes();
        let src_ok: bool = match m.src {
            Place::Device(d) => if a.vmm {
                vmm_covers(&a.vmm_maps, d, m.offset, span)
            } else {
                has_key(&a.devices, d)
            },
            Place::Host | Place::HostPinned => true,
        };
        let dst_ok: bool = match m.dst {
            Place::Device(d) => !a.vmm || vmm_covers(&a.vmm_maps, d, m.offset, span),
            Place::Host | Place::HostPinned => true,
        };
        if !src_ok {
            return Err(SimError::NotResident { alloc: m.alloc, device: endpoint(m.src.device()) });
        }
        if !dst_ok {
            return Err(SimError::NotResident { alloc: m.alloc, device: endpoint(m.dst.device()) });
        }
        Ok(())
    }

    /// A copy that may start: shape, range, leases, peers and residency.
    pub(crate) fn memcpy_precheck(&self, m: MemcpyOp) -> (r: Result<(), SimError>)
        ensures
            r == self@.memcpy_precheck(m),
    {
        memcpy_2d_check(m)?;
        let a = self.alloc_ref(m.alloc)?;
        if !a.live {
            return Err(SimError::UnknownAlloc { alloc: m.alloc });
        }
        let span: u64 = m.extent_bytes();
        if (a.vmm || m.offset > 0 || m.is_2d() || m.is_3d())
            && m.offset.saturating_add(span) > a.bytes {
            return Err(invalid("memcpy range past alloc"));
        }
        self.memcpy_lease_check(a, m)?;
        self.memcpy_peer_check(m)?;
        self.memcpy_resident_check(a, m)
    }

    /// Time of a copy and the link it runs on.
    pub(crate) fn memcpy_ns(&self, m: MemcpyOp) -> (r: Result<(u64, usize), SimError>)
        ensures
            r == self@.memcpy_ns(m),
    {
        let src = m.src.device();
        let dst = m.dst.device();
        match self.profile.link_index(src, dst) {
            Some(idx) => {
                let link = self.profile.links[idx];
                let copy: u64 = if m.src.is_pageable() || m.dst.is_pageable() {
                    link.pageable_copy_ns(m.payload_bytes())
                } else {
                    link.copy_ns(m.payload_bytes())
                };
                Ok((copy.saturating_add(self.extra_transfer_ns), idx))
            },
            None => Err(SimError::NoPeer { src: endpoint(src), dst: endpoint(dst) }),
        }
    }

    /// A migration to where the managed allocation already is.
    pub(crate) fn managed_local_copy(&self, m: MemcpyOp) -> (r: Result<bool, SimError>)
        ensures
            r == self@.managed_local_copy(m),
    {
        let a = self.alloc_ref(m.alloc)?;
        if !a.managed {
            return Ok(false);
        }
        match m.dst {
            Place::Device(d) => Ok(has_key(&a.devices, d)),
            Place::Host | Place::HostPinned => Ok(a.devices.len() == 0),
        }
    }

    /// The transfer that an injected failure hits: the operation ends as cancelled.
    pub(crate) fn fail_transfer(&mut self, id: OpId)
        ensures
            final(self)@ == old(self)@.fail_transfer(id),
    {
        self.fail_next_memcpy = false;
        let now: u64 = self.clock;
        if let Some(op) = self.ops.get_mut(id) {
            op.cancelled = true;
            op.done = true;
            op.done_ns = Some(now);
        }
    }

    /// Start a copy.
    pub(crate) fn start_memcpy(
        &mut self,
        id: OpId,
        device: DeviceId,
        stream: StreamId,
        launch: LaunchCost,
        m: MemcpyOp,
    ) -> (r: Result<bool, SimError>)
        ensures
            final(self)@ == old(self)@.start_memcpy(id, device, stream, launch, m).0,
            r == old(self)@.start_memcpy(id, device, stream, launch, m).1,
    {
        reveal(SimState::start_memcpy);
        if self.fail_next_memcpy {
            self.fail_transfer(id);
            return Err(SimError::TransferFailed { alloc: m.alloc });
        }
        self.require_memcpy_attach(stream, m)?;
        self.memcpy_precheck(m)?;
        let local: bool = self.managed_local_copy(m)?;
        if local {
            self.run_solo(id, 1);
            return Ok(true);
        }
        let gp = self.profile.gpu(device)?;
        let rt0 = self.gpu_rt(device)?;
        if rt0.copies >= gp.copy_engines {
            return Ok(false);
        }
        self.charge_replica_hbm(m)?;
        let (ns, link) = self.memcpy_ns(m)?;
        let head: u64 = self.graph_head_ns(device, launch)?;
        let rt = self.gpu_rt_mut(device)?;
        rt.copies = rt.copies.saturating_add(1);
        self.running.push(
            Running {
                op: id,
                remaining_ns: max_u64(ns.saturating_add(head), 1),
                share: Share::Link(link),
            },
        );
        Ok(true)
    }

    /// Every rank holds its part.
    pub(crate) fn require_parts(
        &self,
        parts: &Vec<(DeviceId, AllocId)>,
    ) -> (r: Result<(), SimError>)
        ensures
            r == self@.require_parts(parts@),
    {
        let mut i: usize = 0;
        while i < parts.len()
            invariant
                i <= parts@.len(),
                self@.require_parts(parts@) == each_ok(
                    parts@.len(),
                    |j: int| self@.require_parts_at(parts@, j),
                ),
                forall|j: int| 0 <= j < i ==> #[trigger] self@.require_parts_at(parts@, j) is Ok,
            decreases parts@.len() - i,
        {
            proof {
                lemma_each_ok(parts@.len(), |j: int| self@.require_parts_at(parts@, j), i as int);
            }
            let a = self.alloc_ref(parts[i].1)?;
            if !a.live || !has_key(&a.devices, parts[i].0) {
                return Err(SimError::NotResident { alloc: parts[i].1, device: parts[i].0 });
            }
            i += 1;
        }
        proof {
            lemma_each_ok(parts@.len(), |j: int| self@.require_parts_at(parts@, j), i as int);
        }
        Ok(())
    }

    /// Slowest hop of the ring.
    pub(crate) fn ring_hop_ns(
        &self,
        parts: &Vec<(DeviceId, AllocId)>,
        bytes: u64,
    ) -> (r: Result<u64, SimError>)
        ensures
            r == self@.ring_hop_ns(parts@, bytes),
    {
        let mut worst: u64 = 0;
        let mut i: usize = 0;
        while i < parts.len()
            invariant
                i <= parts@.len(),
                self@.ring_hop_ns(parts@, bytes) == self@.ring_hop_ns_from(
                    parts@,
                    bytes,
                    worst,
                    i as int,
                ),
            decreases parts@.len() - i,
        {
            let k: usize = if i.saturating_add(1) >= parts.len() { 0 } else { i.saturating_add(1) };
            let link = self.profile.link(Some(parts[i].0), Some(parts[k].0))?;
            worst = max_u64(worst, link.copy_ns(bytes));
            i += 1;
        }
        Ok(worst)
    }

    /// Time of a ring reduction.
    pub(crate) fn allreduce_ns(
        &self,
        parts: &Vec<(DeviceId, AllocId)>,
        bytes: u64,
    ) -> (r: Result<u64, SimError>)
        ensures
            r == self@.allreduce_ns(parts@, bytes),
    {
        if parts.len() < 2 {
            return Err(invalid("allreduce needs >= 2 ranks"));
        }
        let worst: u64 = self.ring_hop_ns(parts, bytes)?;
        let hops: u64 = parts.len().saturating_sub(1) as u64;
        Ok(mul_sat(worst, hops).saturating_add(self.extra_transfer_ns))
    }

    pub(crate) fn lease_parts(
        &mut self,
        parts: &Vec<(DeviceId, AllocId)>,
    ) -> (r: Result<(), SimError>)
        ensures
            final(self)@ == old(self)@.lease_parts(parts@).0,
            r == old(self)@.lease_parts(parts@).1,
    {
        let mut i: usize = 0;
        while i < parts.len()
            invariant
                i <= parts@.len(),
                old(self)@.lease_parts(parts@) == self@.lease_parts_from(parts@, i as int),
            decreases parts@.len() - i,
        {
            let a = self.alloc_mut(parts[i].1)?;
            a.leases = a.leases.saturating_add(1);
            i += 1;
        }
        Ok(())
    }

    /// Start a reduction.
    pub(crate) fn start_allreduce(
        &mut self,
        id: OpId,
        device: DeviceId,
        parts: &Vec<(DeviceId, AllocId)>,
        bytes: u64,
    ) -> (r: Result<bool, SimError>)
        ensures
            final(self)@ == old(self)@.start_allreduce(id, device, parts@, bytes).0,
            r == old(self)@.start_allreduce(id, device, parts@, bytes).1,
    {
        self.require_parts(parts)?;
        let ns: u64 = self.allreduce_ns(parts, bytes)?;
        let free: bool = self.take_compute(device)?;
        if !free {
            return Ok(false);
        }
        self.lease_parts(parts)?;
        self.run_solo(id, ns);
        Ok(true)
    }

    pub(crate) fn require_wait_value_resident(
        &self,
        device: DeviceId,
        alloc: AllocId,
        offset: u64,
        bits32: bool,
    ) -> (r: Result<(), SimError>)
        ensures
            r == self@.require_wait_value_resident(device, alloc, offset, bits32),
    {
        let a = self.alloc_ref(alloc)?;
        let width: u64 = wait_value_span(a.bytes, offset, bits32)?;
        let ok: bool = self.buf_on_device(
            KernelBuf::span(alloc, offset, width),
            device,
            true,
            false,
        )?;
        if !ok {
            return Err(SimError::NotResident { alloc, device });
        }
        Ok(())
    }

    /// Word as earlier operations of the batch leave it.
    pub(crate) fn overlaid(&self, overlay: &Table<Word, u64>, id: AllocId, offset: u64) -> (r: u64)
        ensures
            r == self@.overlaid(overlay@, id, offset),
    {
        match overlay.get(Word(id, offset)) {
            Some(w) => *w,
            None => self.mailbox_word(id, offset),
        }
    }

    /// Whether the condition of a wait holds; a write has none.
    pub(crate) fn wait_holds(&self, overlay: &Table<Word, u64>, op: BatchMemOp) -> (r: bool)
        ensures
            r == self@.wait_holds(overlay@, op),
    {
        match op {
            BatchMemOp::Write { .. } => true,
            BatchMemOp::Wait { id, offset, value, bits32, cmp } => {
                let mask: u64 = wait_value_mask(bits32);
                cmp.matches(self.overlaid(overlay, id, offset) & mask, value & mask)
            },
        }
    }

    /// Whether every wait of a batch is satisfied, each after the writes before it.
    pub(crate) fn batch_mem_ready(
        &self,
        device: DeviceId,
        ops: &Vec<BatchMemOp>,
    ) -> (r: Result<bool, SimError>)
        ensures
            r == self@.batch_mem_ready(device, ops@),
    {
        let mut overlay: Table<Word, u64> = Table::new();
        let mut i: usize = 0;
        while i < ops.len()
            invariant
                i <= ops@.len(),
                self@.batch_mem_ready(device, ops@) == self@.batch_mem_ready_from(
                    device,
                    ops@,
                    overlay@,
                    i as int,
                ),
            decreases ops@.len() - i,
        {
            match ops[i] {
                BatchMemOp::Write { id, offset, value, bits32 } => {
                    self.require_wait_value_resident(device, id, offset, bits32)?;
                    let mask: u64 = wait_value_mask(bits32);
                    let prev: u64 = self.overlaid(&overlay, id, offset);
                    overlay.insert(Word(id, offset), (prev & !mask) | (value & mask));
                },
                BatchMemOp::Wait { id, offset, bits32, .. } => {
                    self.require_wait_value_resident(device, id, offset, bits32)?;
                    if !self.wait_holds(&overlay, ops[i]) {
                        return Ok(false);
                    }
                },
            }
            i += 1;
        }
        Ok(true)
    }

    /// Start stream memory operations once their waits hold.
    pub(crate) fn start_batch_mem_ops(
        &mut self,
        op: OpId,
        device: DeviceId,
        ops: &Vec<BatchMemOp>,
    ) -> (r: Result<bool, SimError>)
        ensures
            final(self)@ == old(self)@.start_batch_mem_ops(op, device, ops@).0,
            r == old(self)@.start_batch_mem_ops(op, device, ops@).1,
    {
        let ready: bool = self.batch_mem_ready(device, ops)?;
        if !ready {
            return Ok(false);
        }
        self.run_solo(op, 1);
        Ok(true)
    }

    /// Start a graph launch from the device.
    pub(crate) fn start_device_launch(
        &mut self,
        op: OpId,
        device: DeviceId,
    ) -> (r: Result<bool, SimError>)
        ensures
            final(self)@ == old(self)@.start_device_launch(op, device).0,
            r == old(self)@.start_device_launch(op, device).1,
    {
        let free: bool = self.take_compute(device)?;
        if !free {
            return Ok(false);
        }
        let gpu = self.profile.gpu(device)?;
        self.run_solo(op, gpu.graph_launch_ns);
        Ok(true)
    }

    /// Start an event wait once the event has fired.
    pub(crate) fn start_event_wait(
        &mut self,
        id: OpId,
        event: EventId,
        skip_graph: bool,
    ) -> (r: Result<bool, SimError>)
        ensures
            final(self)@ == old(self)@.start_event_wait(id, event, skip_graph).0,
            r == old(self)@.start_event_wait(id, event, skip_graph).1,
    {
        let gate = self.event_wait_gate(event, skip_graph)?;
        if gate.is_none() {
            return Ok(false);
        }
        self.run_solo(id, 1);
        Ok(true)
    }

    /// Store the value of a conditional handle.
    pub(crate) fn start_set_conditional(
        &mut self,
        id: OpId,
        handle: CondId,
        value: u32,
    ) -> (r: Result<bool, SimError>)
        ensures
            final(self)@ == old(self)@.start_set_conditional(id, handle, value).0,
            r == old(self)@.start_set_conditional(id, handle, value).1,
    {
        match self.conds.get_mut(handle) {
            None => Err(invalid("unknown conditional")),
            Some(c) => {
                c.value = value;
                self.run_solo(id, 1);
                Ok(true)
            },
        }
    }

    /// An operation whose predicate fails runs without effect.
    pub(crate) fn start_skipped(&mut self, id: OpId)
        ensures
            final(self)@ == old(self)@.start_skipped(id),
    {
        if let Some(op) = self.ops.get_mut(id) {
            op.skipped = true;
        }
        self.run_solo(id, 1);
    }

    /// Start an operation by its kind. Returns `false` when it has to wait.
    #[verifier::rlimit(40)]
    pub(crate) fn start_kind(
        &mut self,
        id: OpId,
        device: DeviceId,
        stream: StreamId,
        launch: LaunchCost,
        kind: GpuOp,
    ) -> (r: Result<bool, SimError>)
        ensures
            final(self)@ == old(self)@.start_kind(id, device, stream, launch, kind@).0,
            r == old(self)@.start_kind(id, device, stream, launch, kind@).1,
    {
        reveal(SimState::start_kind);
        match kind {
            GpuOp::Alloc { id: alloc, bytes } => self.start_alloc(id, device, alloc, bytes),
            GpuOp::Free { id: alloc } => self.start_free(id, device, alloc),
            GpuOp::Kernel { kind, reads, writes, cooperative } => self.start_kernel(
                id,
                device,
                stream,
                launch,
                kind,
                &reads,
                &writes,
            ),
            GpuOp::Memset(op) => self.start_memset(id, device, stream, launch, op),
            GpuOp::HostFunc { fn_id, user_data } => {
                let ns: u64 = self.host_func_ns(device, launch)?;
                self.run_solo(id, ns);
                Ok(true)
            },
            GpuOp::Empty | GpuOp::Attach { .. } | GpuOp::WhileTick { .. } => {
                self.run_solo(id, 1);
                Ok(true)
            },
            GpuOp::Memcpy(m) => self.start_memcpy(id, device, stream, launch, m),
            GpuOp::EventRecord { event, external } => {
                let root = self.event_root(event);
                self.mark_recorded(root, id);
                self.run_solo(id, 1);
                Ok(true)
            },
            GpuOp::EventWait { event, external } => {
                self.start_event_wait(id, event, external && launch != LaunchCost::Kernel)
            },
            GpuOp::AllReduce { parts, bytes } => self.start_allreduce(id, device, &parts, bytes),
            GpuOp::ChildGraph { graph } => Err(invalid("child graph must be expanded")),
            GpuOp::If { handle, body } => Err(invalid("conditional if must be expanded")),
            GpuOp::While { handle, body } => Err(invalid("conditional while must be expanded")),
            GpuOp::Switch { handle, bodies } => Err(invalid("conditional switch must be expanded")),
            GpuOp::SetConditional { handle, value } => self.start_set_conditional(
                id,
                handle,
                value,
            ),
            GpuOp::WriteValue { id: alloc, offset, value, bits32 } => {
                let ops: Vec<BatchMemOp> = one(
                    BatchMemOp::Write { id: alloc, offset, value, bits32 },
                );
                self.start_batch_mem_ops(id, device, &ops)
            },
            GpuOp::WaitValue { id: alloc, offset, value, bits32, cmp } => {
                let ops: Vec<BatchMemOp> = one(
                    BatchMemOp::Wait { id: alloc, offset, value, bits32, cmp },
                );
                self.start_batch_mem_ops(id, device, &ops)
            },
            GpuOp::BatchMem { ops } => self.start_batch_mem_ops(id, device, &ops),
            GpuOp::DeviceLaunch { graph } => self.start_device_launch(id, device),
        }
    }

    /// Start a ready operation. Returns `false` when it has to wait for a resource or a condition.
    pub(crate) fn try_start(&mut self, id: OpId) -> (r: Result<bool, SimError>)
        ensures
            final(self)@ == old(self)@.try_start(id).0,
            r == old(self)@.try_start(id).1,
    {
        reveal(SimState::try_start);
        let op = self.op_ref(id)?;
        let device = op.device;
        let stream = op.stream;
        let launch = op.launch;
        let kind: GpuOp = op.kind.dup();
        if self.unavailable.contains(device) {
            return Err(SimError::Unavailable { device });
        }
        if self.cond_skip(&op.preds) {
            self.start_skipped(id);
            return Ok(true);
        }
        self.start_kind(id, device, stream, launch, kind)
    }
}

} // verus!
