//! The simulator: its state, construction and plain counters.
//!
//! Every operation has a twin on [`SimState`] of the same name. The twin states what the operation
//! returns and the state that it leaves; the contract of the operation is equality with the twin.
pub mod access;
pub mod attrs;
pub mod capture;
pub mod charge;
pub mod clone;
pub mod device;
pub mod dot;
pub mod edit;
pub mod events;
pub mod start;
pub mod instantiate;
pub mod launch;
pub mod memory;
pub mod objects;
pub mod params;
pub mod pools;
pub mod run;
pub mod streams;
pub mod submit;
pub mod transfer;
pub mod tree;
pub mod update;
pub mod vmm;

use vstd::prelude::*;
use crate::ids::{
    AllocId, CondId, DeviceId, EventId, GraphId, IpcEventHandleId, IpcHandleId, Lane, MemHandleId,
    MulticastId, OpId, Peer, Piece, PoolId, PtrExportId, ShareableHandleId, UserObjectId, Word,
};
use crate::list::{opt_view, Rows};
use crate::ops::{MemSyncDomain, MemSyncDomainMap, StreamCaptureMode, SynchronizationPolicy};
use crate::profile::{GpuProfile, HardwareProfile, Link, ProfileView};
use crate::state::{
    Alloc, AllocView, Capture, CaptureView, Cond, CondPred, Enq, Ev, GpuRt, GpuRtView, Graph,
    GraphStep, GraphView, MemHandle, Multicast, MulticastView, NextIds, Op, OpView, Pool, PoolView,
    Running, StepView, UserObject, UserObjectView,
};
use crate::table::{KeySet, Table};

verus! {

/// Deterministic GPU node.
pub struct Sim {
    profile: HardwareProfile,
    clock: u64,
    next: NextIds,
    allocs: Table<AllocId, Alloc>,
    ops: Table<OpId, Op>,
    /// Last operation of each stream.
    tail: Table<Lane, OpId>,
    events: Table<EventId, Ev>,
    graphs: Table<GraphId, Graph>,
    capturing: Option<Capture>,
    /// Nodes captured so far.
    capture_buf: Rows<GraphStep>,
    /// Allocations owned by graph nodes.
    graph_allocs: Table<GraphId, Vec<AllocId>>,
    /// Internal-stream operations that a launch stream still waits for.
    graph_joins: Table<Lane, Vec<OpId>>,
    running: Vec<Running>,
    gpus: Table<DeviceId, GpuRt>,
    bytes_moved: u64,
    hbm_peak: u64,
    unavailable: KeySet<DeviceId>,
    fail_next_memcpy: bool,
    extra_transfer_ns: u64,
    peer_enabled: KeySet<Peer>,
    legacy_null_stream: bool,
    priority: Table<Lane, i32>,
    /// Streams that serialize with the null stream.
    blocking: KeySet<Lane>,
    /// Share of the multiprocessors of a stream.
    sm_permille: Table<Lane, u16>,
    stream_mem_sync_domain: Table<Lane, MemSyncDomain>,
    stream_mem_sync_map: Table<Lane, MemSyncDomainMap>,
    stream_sync_policy: Table<Lane, SynchronizationPolicy>,
    pools: Table<PoolId, Pool>,
    default_pools: Table<DeviceId, PoolId>,
    current_pools: Table<DeviceId, PoolId>,
    graph_pools: Table<DeviceId, PoolId>,
    mem_handles: Table<MemHandleId, MemHandle>,
    ipc_handles: Table<IpcHandleId, AllocId>,
    ipc_event_handles: Table<IpcEventHandleId, EventId>,
    share_handles: Table<ShareableHandleId, PoolId>,
    ptr_exports: Table<PtrExportId, AllocId>,
    /// Handles of explicit maps.
    vmm_handle_at: Table<Piece, MemHandleId>,
    multicasts: Table<MulticastId, Multicast>,
    /// Ranges mapped to multicast objects.
    mc_vas: Table<AllocId, MulticastId>,
    /// Spans mapped to multicast objects: they charge no memory of their own.
    mc_at: KeySet<Piece>,
    pinned_used: u64,
    /// Unmapped live ranges that may be reused.
    vmm_idle: Vec<AllocId>,
    conds: Table<CondId, Cond>,
    /// Predicates of the operations being submitted.
    enqueue_preds: Vec<CondPred>,
    /// Source of each cloned graph.
    clone_of: Table<GraphId, GraphId>,
    enq: Enq,
    non_portable_cluster: KeySet<DeviceId>,
    max_dynamic_shared: Table<DeviceId, u32>,
    stream_nvlink_util_centric: KeySet<Lane>,
    /// Words of stream memory operations; a missing word is `0`.
    mailbox: Table<Word, u64>,
    capture_mode: StreamCaptureMode,
    user_objects: Table<UserObjectId, UserObject>,
    /// Fired destructors, in order.
    user_object_dtors: Vec<(UserObjectId, u64)>,
}

/// Mathematical form of [`Sim`].
pub struct SimState {
    pub profile: ProfileView,
    pub clock: u64,
    pub next: NextIds,
    pub allocs: Map<AllocId, AllocView>,
    pub ops: Map<OpId, OpView>,
    pub tail: Map<Lane, OpId>,
    pub events: Map<EventId, Ev>,
    pub graphs: Map<GraphId, GraphView>,
    pub capturing: Option<CaptureView>,
    pub capture_buf: Seq<StepView>,
    pub graph_allocs: Map<GraphId, Seq<AllocId>>,
    pub graph_joins: Map<Lane, Seq<OpId>>,
    pub running: Seq<Running>,
    pub gpus: Map<DeviceId, GpuRtView>,
    pub bytes_moved: u64,
    pub hbm_peak: u64,
    pub unavailable: Set<DeviceId>,
    pub fail_next_memcpy: bool,
    pub extra_transfer_ns: u64,
    pub peer_enabled: Set<Peer>,
    pub legacy_null_stream: bool,
    pub priority: Map<Lane, i32>,
    pub blocking: Set<Lane>,
    pub sm_permille: Map<Lane, u16>,
    pub stream_mem_sync_domain: Map<Lane, MemSyncDomain>,
    pub stream_mem_sync_map: Map<Lane, MemSyncDomainMap>,
    pub stream_sync_policy: Map<Lane, SynchronizationPolicy>,
    pub pools: Map<PoolId, PoolView>,
    pub default_pools: Map<DeviceId, PoolId>,
    pub current_pools: Map<DeviceId, PoolId>,
    pub graph_pools: Map<DeviceId, PoolId>,
    pub mem_handles: Map<MemHandleId, MemHandle>,
    pub ipc_handles: Map<IpcHandleId, AllocId>,
    pub ipc_event_handles: Map<IpcEventHandleId, EventId>,
    pub share_handles: Map<ShareableHandleId, PoolId>,
    pub ptr_exports: Map<PtrExportId, AllocId>,
    pub vmm_handle_at: Map<Piece, MemHandleId>,
    pub multicasts: Map<MulticastId, MulticastView>,
    pub mc_vas: Map<AllocId, MulticastId>,
    pub mc_at: Set<Piece>,
    pub pinned_used: u64,
    pub vmm_idle: Seq<AllocId>,
    pub conds: Map<CondId, Cond>,
    pub enqueue_preds: Seq<CondPred>,
    pub clone_of: Map<GraphId, GraphId>,
    pub enq: Enq,
    pub non_portable_cluster: Set<DeviceId>,
    pub max_dynamic_shared: Map<DeviceId, u32>,
    pub stream_nvlink_util_centric: Set<Lane>,
    pub mailbox: Map<Word, u64>,
    pub capture_mode: StreamCaptureMode,
    pub user_objects: Map<UserObjectId, UserObjectView>,
    pub user_object_dtors: Seq<(UserObjectId, u64)>,
}

impl View for Sim {
    type V = SimState;

    closed spec fn view(&self) -> SimState {
        SimState {
            profile: self.profile@,
            clock: self.clock,
            next: self.next,
            allocs: self.allocs@,
            ops: self.ops@,
            tail: self.tail@,
            events: self.events@,
            graphs: self.graphs@,
            capturing: opt_view(self.capturing),
            capture_buf: self.capture_buf@,
            graph_allocs: self.graph_allocs@,
            graph_joins: self.graph_joins@,
            running: self.running@,
            gpus: self.gpus@,
            bytes_moved: self.bytes_moved,
            hbm_peak: self.hbm_peak,
            unavailable: self.unavailable@,
            fail_next_memcpy: self.fail_next_memcpy,
            extra_transfer_ns: self.extra_transfer_ns,
            peer_enabled: self.peer_enabled@,
            legacy_null_stream: self.legacy_null_stream,
            priority: self.priority@,
            blocking: self.blocking@,
            sm_permille: self.sm_permille@,
            stream_mem_sync_domain: self.stream_mem_sync_domain@,
            stream_mem_sync_map: self.stream_mem_sync_map@,
            stream_sync_policy: self.stream_sync_policy@,
            pools: self.pools@,
            default_pools: self.default_pools@,
            current_pools: self.current_pools@,
            graph_pools: self.graph_pools@,
            mem_handles: self.mem_handles@,
            ipc_handles: self.ipc_handles@,
            ipc_event_handles: self.ipc_event_handles@,
            share_handles: self.share_handles@,
            ptr_exports: self.ptr_exports@,
            vmm_handle_at: self.vmm_handle_at@,
            multicasts: self.multicasts@,
            mc_vas: self.mc_vas@,
            mc_at: self.mc_at@,
            pinned_used: self.pinned_used,
            vmm_idle: self.vmm_idle@,
            conds: self.conds@,
            enqueue_preds: self.enqueue_preds@,
            clone_of: self.clone_of@,
            enq: self.enq,
            non_portable_cluster: self.non_portable_cluster@,
            max_dynamic_shared: self.max_dynamic_shared@,
            stream_nvlink_util_centric: self.stream_nvlink_util_centric@,
            mailbox: self.mailbox@,
            capture_mode: self.capture_mode,
            user_objects: self.user_objects@,
            user_object_dtors: self.user_object_dtors@,
        }
    }
}

/// Pools numbered so far, and the pool of each device.
#[verifier::ext_equal]
pub struct Seeds {
    pub next: u32,
    pub pools: Map<PoolId, PoolView>,
    pub by_device: Map<DeviceId, PoolId>,
}

/// The pool that construction gives a device.
pub open spec fn seed_pool(device: DeviceId, graph: bool) -> PoolView {
    PoolView {
        release_threshold: if graph {
            u64::MAX
        } else {
            0
        },
        graph,
        ..PoolView::fresh(device)
    }
}

/// One pool for each GPU, numbered in profile order from `start.next`.
pub open spec fn seed_pools(gpus: Seq<GpuProfile>, start: Seeds, graph: bool) -> Seeds
    decreases gpus.len(),
{
    if gpus.len() == 0 {
        start
    } else {
        let s = seed_pools(gpus.drop_last(), start, graph);
        let id = PoolId(s.next);
        Seeds {
            next: s.next.saturating_add(1),
            pools: s.pools.insert(id, seed_pool(gpus.last().id, graph)),
            by_device: s.by_device.insert(gpus.last().id, id),
        }
    }
}

/// Whether a GPU has this id.
pub open spec fn has_gpu(gpus: Seq<GpuProfile>, d: DeviceId) -> bool {
    exists|i: int| 0 <= i < gpus.len() && (#[trigger] gpus[i]).id == d
}

/// Ordered pairs of GPUs that a link joins.
pub open spec fn linked_peers(links: Seq<Link>) -> Set<Peer> {
    Set::new(
        |p: Peer|
            exists|i: int|
                0 <= i < links.len() && (#[trigger] links[i]).connects(Some(p.0), Some(p.1)),
    )
}

impl SimState {
    /// Idle node at time zero.
    pub open spec fn fresh(profile: ProfileView) -> SimState {
        let none = Seeds { next: 1, pools: Map::empty(), by_device: Map::empty() };
        let user = seed_pools(profile.gpus, none, false);
        let graph = seed_pools(profile.gpus, Seeds { by_device: Map::empty(), ..user }, true);
        SimState {
            profile,
            clock: 0,
            next: NextIds {
                op: 1,
                alloc: 1,
                graph: 1,
                capture: 1,
                pool: graph.next,
                handle: 1,
                ipc: 1,
                ipc_event: 1,
                imported_event: 1,
                share: 1,
                ptr: 1,
                mc: 1,
                cond: 1,
                user_object: 1,
            },
            allocs: Map::empty(),
            ops: Map::empty(),
            tail: Map::empty(),
            events: Map::empty(),
            graphs: Map::empty(),
            capturing: None,
            capture_buf: Seq::empty(),
            graph_allocs: Map::empty(),
            graph_joins: Map::empty(),
            running: Seq::empty(),
            gpus: Map::new(|d: DeviceId| has_gpu(profile.gpus, d), |d: DeviceId| GpuRtView::idle()),
            bytes_moved: 0,
            hbm_peak: 0,
            unavailable: Set::empty(),
            fail_next_memcpy: false,
            extra_transfer_ns: 0,
            peer_enabled: linked_peers(profile.links),
            legacy_null_stream: false,
            priority: Map::empty(),
            blocking: Set::empty(),
            sm_permille: Map::empty(),
            stream_mem_sync_domain: Map::empty(),
            stream_mem_sync_map: Map::empty(),
            stream_sync_policy: Map::empty(),
            pools: graph.pools,
            default_pools: user.by_device,
            current_pools: user.by_device,
            graph_pools: graph.by_device,
            mem_handles: Map::empty(),
            ipc_handles: Map::empty(),
            ipc_event_handles: Map::empty(),
            share_handles: Map::empty(),
            ptr_exports: Map::empty(),
            vmm_handle_at: Map::empty(),
            multicasts: Map::empty(),
            mc_vas: Map::empty(),
            mc_at: Set::empty(),
            pinned_used: 0,
            vmm_idle: Seq::empty(),
            conds: Map::empty(),
            enqueue_preds: Seq::empty(),
            clone_of: Map::empty(),
            enq: Enq::plain(),
            non_portable_cluster: Set::empty(),
            max_dynamic_shared: Map::empty(),
            stream_nvlink_util_centric: Set::empty(),
            mailbox: Map::empty(),
            capture_mode: StreamCaptureMode::Relaxed,
            user_objects: Map::empty(),
            user_object_dtors: Seq::empty(),
        }
    }
}

fn idle_gpus(profile: &HardwareProfile) -> (r: Table<DeviceId, GpuRt>)
    ensures
        r@ == Map::new(
            |d: DeviceId| has_gpu(profile@.gpus, d),
            |d: DeviceId| GpuRtView::idle(),
        ),
{
    let mut out: Table<DeviceId, GpuRt> = Table::new();
    let mut i: usize = 0;
    let ghost q = profile.gpus@;
    assert(out@ =~= Map::new(|d: DeviceId| has_gpu(q.take(0), d), |d: DeviceId| GpuRtView::idle()));
    while i < profile.gpus.len()
        invariant
            q == profile.gpus@,
            i <= q.len(),
            out@ == Map::new(
                |d: DeviceId| has_gpu(q.take(i as int), d),
                |d: DeviceId| GpuRtView::idle(),
            ),
        decreases q.len() - i,
    {
        out.insert(profile.gpus[i].id, GpuRt::idle());
        proof {
            let a = q.take(i as int);
            let b = q.take(i + 1);
            assert forall|d: DeviceId| has_gpu(b, d) <==> (
                d == q[i as int].id || has_gpu(a, d)
            ) by {
                if has_gpu(a, d) {
                    let j = choose|j: int| 0 <= j < a.len() && (#[trigger] a[j]).id == d;
                    assert(b[j] == a[j]);
                }
                if has_gpu(b, d) {
                    let j = choose|j: int| 0 <= j < b.len() && (#[trigger] b[j]).id == d;
                    if j < i {
                        assert(a[j] == b[j]);
                    }
                }
                assert(b[i as int] == q[i as int]);
            }
            assert(out@ =~= Map::new(|d: DeviceId| has_gpu(b, d), |d: DeviceId| GpuRtView::idle()));
        }
        i += 1;
    }
    assert(q.take(i as int) =~= q);
    out
}

fn seed_peers(profile: &HardwareProfile) -> (r: KeySet<Peer>)
    ensures
        r@ == linked_peers(profile@.links),
{
    let mut out: KeySet<Peer> = KeySet::new();
    let mut i: usize = 0;
    let ghost q = profile.links@;
    assert(out@ =~= linked_peers(q.take(0)));
    while i < profile.links.len()
        invariant
            q == profile.links@,
            i <= q.len(),
            out@ == linked_peers(q.take(i as int)),
        decreases q.len() - i,
    {
        let link = profile.links[i];
        if let Some(a) = link.a {
            if let Some(b) = link.b {
                let _ab = out.insert(Peer(a, b));
                let _ba = out.insert(Peer(b, a));
            }
        }
        proof {
            let p = q.take(i as int);
            let b = q.take(i + 1);
            assert forall|x: Peer| out@.contains(x) <==> linked_peers(b).contains(x) by {
                if linked_peers(p).contains(x) {
                    let j = choose|j: int|
                        0 <= j < p.len() && (#[trigger] p[j]).connects(Some(x.0), Some(x.1));
                    assert(b[j] == p[j]);
                }
                if linked_peers(b).contains(x) {
                    let j = choose|j: int|
                        0 <= j < b.len() && (#[trigger] b[j]).connects(Some(x.0), Some(x.1));
                    if j < i {
                        assert(p[j] == b[j]);
                    }
                }
                assert(b[i as int] == link);
            }
            assert(out@ =~= linked_peers(b));
        }
        i += 1;
    }
    assert(q.take(i as int) =~= q);
    out
}

fn add_pools(
    profile: &HardwareProfile,
    next: u32,
    pools: &mut Table<PoolId, Pool>,
    by_device: &mut Table<DeviceId, PoolId>,
    graph: bool,
) -> (r: u32)
    ensures
        ({
            let start = Seeds { next, pools: old(pools)@, by_device: old(by_device)@ };
            let end = seed_pools(profile@.gpus, start, graph);
            r == end.next && final(pools)@ == end.pools && final(by_device)@ == end.by_device
        }),
{
    let ghost start = Seeds { next, pools: pools@, by_device: by_device@ };
    let ghost q = profile.gpus@;
    let mut n: u32 = next;
    let mut i: usize = 0;
    while i < profile.gpus.len()
        invariant
            q == profile.gpus@,
            i <= q.len(),
            seed_pools(q.take(i as int), start, graph) == (Seeds {
                next: n,
                pools: pools@,
                by_device: by_device@,
            }),
        decreases q.len() - i,
    {
        let g = profile.gpus[i].id;
        let id = PoolId(n);
        n = n.saturating_add(1);
        let mut p = Pool::fresh(g);
        if graph {
            p.release_threshold = u64::MAX;
            p.graph = true;
        }
        pools.insert(id, p);
        by_device.insert(g, id);
        i += 1;
        assert(q.take(i as int).drop_last() =~= q.take(i - 1));
    }
    assert(q.take(i as int) =~= q);
    n
}

impl Sim {
    /// Idle node at time zero.
    pub fn new(profile: HardwareProfile) -> (r: Sim)
        ensures
            r@ == SimState::fresh(profile@),
    {
        let gpus = idle_gpus(&profile);
        let peer_enabled = seed_peers(&profile);
        let mut pools: Table<PoolId, Pool> = Table::new();
        let mut default_pools: Table<DeviceId, PoolId> = Table::new();
        let mut current_pools: Table<DeviceId, PoolId> = Table::new();
        let mut graph_pools: Table<DeviceId, PoolId> = Table::new();
        let mut again: Table<PoolId, Pool> = Table::new();
        let user: u32 = add_pools(&profile, 1, &mut pools, &mut default_pools, false);
        let _same: u32 = add_pools(&profile, 1, &mut again, &mut current_pools, false);
        let next_pool: u32 = add_pools(&profile, user, &mut pools, &mut graph_pools, true);
        Sim {
            profile,
            clock: 0,
            next: NextIds {
                op: 1,
                alloc: 1,
                graph: 1,
                capture: 1,
                pool: next_pool,
                handle: 1,
                ipc: 1,
                ipc_event: 1,
                imported_event: 1,
                share: 1,
                ptr: 1,
                mc: 1,
                cond: 1,
                user_object: 1,
            },
            allocs: Table::new(),
            ops: Table::new(),
            tail: Table::new(),
            events: Table::new(),
            graphs: Table::new(),
            capturing: None,
            capture_buf: Rows::new(),
            graph_allocs: Table::new(),
            graph_joins: Table::new(),
            running: Vec::new(),
            gpus,
            bytes_moved: 0,
            hbm_peak: 0,
            unavailable: KeySet::new(),
            fail_next_memcpy: false,
            extra_transfer_ns: 0,
            peer_enabled,
            legacy_null_stream: false,
            priority: Table::new(),
            blocking: KeySet::new(),
            sm_permille: Table::new(),
            stream_mem_sync_domain: Table::new(),
            stream_mem_sync_map: Table::new(),
            stream_sync_policy: Table::new(),
            pools,
            default_pools,
            current_pools,
            graph_pools,
            mem_handles: Table::new(),
            ipc_handles: Table::new(),
            ipc_event_handles: Table::new(),
            share_handles: Table::new(),
            ptr_exports: Table::new(),
            vmm_handle_at: Table::new(),
            multicasts: Table::new(),
            mc_vas: Table::new(),
            mc_at: KeySet::new(),
            pinned_used: 0,
            vmm_idle: Vec::new(),
            conds: Table::new(),
            enqueue_preds: Vec::new(),
            clone_of: Table::new(),
            enq: Enq::plain(),
            non_portable_cluster: KeySet::new(),
            max_dynamic_shared: Table::new(),
            stream_nvlink_util_centric: KeySet::new(),
            mailbox: Table::new(),
            capture_mode: StreamCaptureMode::Relaxed,
            user_objects: Table::new(),
            user_object_dtors: Vec::new(),
        }
    }

    /// Virtual clock, nanoseconds.
    pub fn clock_ns(&self) -> (r: u64)
        ensures
            r == self@.clock,
    {
        self.clock
    }

    /// Payload bytes moved by completed copies.
    pub fn bytes_moved(&self) -> (r: u64)
        ensures
            r == self@.bytes_moved,
    {
        self.bytes_moved
    }

    /// High-water HBM bytes on the greediest GPU.
    pub fn hbm_peak(&self) -> (r: u64)
        ensures
            r == self@.hbm_peak,
    {
        self.hbm_peak
    }

    /// Page-locked host bytes charged against the pin budget.
    pub fn pin_used(&self) -> (r: u64)
        ensures
            r == self@.pinned_used,
    {
        self.pinned_used
    }

    /// Pin budget of the profile; `u64::MAX` is unlimited.
    pub fn pin_budget(&self) -> (r: u64)
        ensures
            r == self@.profile.host_pin_bytes,
    {
        self.profile.host_pin_bytes
    }

    /// Borrow the profile.
    pub fn profile(&self) -> (r: &HardwareProfile)
        ensures
            r@ == self@.profile,
    {
        &self.profile
    }

    /// Lists of nodes are no longer than a list can be.
    pub proof fn lengths_fit(&self, graph: GraphId)
        ensures
            self@.capture_buf.len() <= usize::MAX,
            self@.graphs.contains_key(graph) ==> self@.graphs[graph].steps.len() <= usize::MAX,
            self@.graphs.contains_key(graph) && self@.graphs[graph].snapshot is Some
                ==> self@.graphs[graph].snapshot->0.len() <= usize::MAX,
    {
        self.capture_buf.len_fits();
        if self@.graphs.contains_key(graph) {
            let g = self.graphs.value_of(graph);
            g.steps.len_fits();
            if g.snapshot is Some {
                g.snapshot->0.len_fits();
            }
        }
    }
}

} // verus!
