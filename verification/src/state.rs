//! State of the simulated node and its mathematical form.
use vstd::prelude::*;
use crate::ids::{
    AllocId, CondId, DeviceId, EventId, GraphId, IpcEventHandleId, IpcHandleId, Lane, MemHandleId,
    MulticastId, OpId, Peer, Piece, PoolId, PtrExportId, ShareableHandleId, StreamId, UserObjectId,
    Word,
};
use crate::list::{copy_vec, opt_view, Dup, Rows};
use crate::ops::{
    AccessPolicyWindow, ClusterDim, ClusterSchedulingPolicy, GpuOp, GpuOpView,
    LaunchCompletionEvent, MemSyncDomain, MemSyncDomainMap, PortableClusterMode,
    PortableSharedMode, ProgrammaticEvent, ProgrammaticLaunch, SharedMemCarveout, SharedMemoryMode,
    StreamCaptureMode, SynchronizationPolicy,
};
use crate::profile::{HardwareProfile, ProfileView};
use crate::table::{KeySet, Table};

verus! {

/// Preferred location of managed memory.
#[derive(Clone, Copy, Debug, PartialEq, Eq, Structural)]
pub enum Preferred {
    Nowhere,
    Host,
    Gpu(DeviceId),
}

impl View for Preferred {
    type V = Preferred;

    open spec fn view(&self) -> Preferred {
        *self
    }
}

/// Stream visibility of managed memory.
#[derive(Clone, Copy, Debug, PartialEq, Eq, Structural)]
pub enum Attach {
    Global,
    Host,
    Single(StreamId),
}

impl View for Attach {
    type V = Attach;

    open spec fn view(&self) -> Attach {
        *self
    }
}

/// One allocation.
pub struct Alloc {
    pub bytes: u64,
    /// GPUs that hold a copy.
    pub devices: Vec<DeviceId>,
    /// Operations in flight that use it.
    pub leases: u32,
    pub live: bool,
    pub host_pinned: bool,
    /// Pageable host memory, not pinned yet.
    pub host_pageable: bool,
    /// Mapped into the device address space.
    pub host_mapped: bool,
    /// Pinned by registration, not at allocation.
    pub host_registered: bool,
    /// One location that a prefetch migrates.
    pub managed: bool,
    /// Stream visibility of managed memory.
    pub attach: Attach,
    /// A prefetch replicates instead of moving.
    pub read_mostly: bool,
    /// GPUs that may read without a local copy.
    pub accessed_by: KeySet<DeviceId>,
    /// GPUs that may write a reserved address range without a local map.
    pub vmm_write_by: KeySet<DeviceId>,
    pub preferred: Preferred,
    /// Reserved address range; HBM is charged only while mapped.
    pub vmm: bool,
    /// Physical maps `(device, offset, bytes)` of a reserved range.
    pub vmm_maps: Vec<(DeviceId, u64, u64)>,
    /// Pool of a stream-ordered allocation.
    pub pool: Option<PoolId>,
    /// Source of an interprocess import.
    pub ipc_src: Option<AllocId>,
    /// Live interprocess imports of this allocation.
    pub ipc_opens: u32,
    /// Source of a pool pointer import.
    pub share_src: Option<AllocId>,
    /// Live pool pointer imports of this allocation.
    pub share_opens: u32,
}

/// Mathematical form of [`Alloc`].
#[verifier::ext_equal]
pub struct AllocView {
    pub bytes: u64,
    pub devices: Seq<DeviceId>,
    pub leases: u32,
    pub live: bool,
    pub host_pinned: bool,
    pub host_pageable: bool,
    pub host_mapped: bool,
    pub host_registered: bool,
    pub managed: bool,
    pub attach: Attach,
    pub read_mostly: bool,
    pub accessed_by: Set<DeviceId>,
    pub vmm_write_by: Set<DeviceId>,
    pub preferred: Preferred,
    pub vmm: bool,
    pub vmm_maps: Seq<(DeviceId, u64, u64)>,
    pub pool: Option<PoolId>,
    pub ipc_src: Option<AllocId>,
    pub ipc_opens: u32,
    pub share_src: Option<AllocId>,
    pub share_opens: u32,
}

impl View for Alloc {
    type V = AllocView;

    open spec fn view(&self) -> AllocView {
        AllocView {
            bytes: self.bytes,
            devices: self.devices@,
            leases: self.leases,
            live: self.live,
            host_pinned: self.host_pinned,
            host_pageable: self.host_pageable,
            host_mapped: self.host_mapped,
            host_registered: self.host_registered,
            managed: self.managed,
            attach: self.attach,
            read_mostly: self.read_mostly,
            accessed_by: self.accessed_by@,
            vmm_write_by: self.vmm_write_by@,
            preferred: self.preferred,
            vmm: self.vmm,
            vmm_maps: self.vmm_maps@,
            pool: self.pool,
            ipc_src: self.ipc_src,
            ipc_opens: self.ipc_opens,
            share_src: self.share_src,
            share_opens: self.share_opens,
        }
    }
}

/// Memory pool.
pub struct Pool {
    pub device: DeviceId,
    pub live: u64,
    /// Freed bytes still charged to the device.
    pub cached: u64,
    pub release_threshold: u64,
    /// GPUs granted access.
    pub accessed_by: KeySet<DeviceId>,
    pub shareable: bool,
    /// Exporter of an imported pool; it holds the counters.
    pub share_root: Option<PoolId>,
    /// Device graph-memory pool.
    pub graph: bool,
    /// The handle is invalid; outstanding allocations stay valid.
    pub destroyed: bool,
}

/// Mathematical form of [`Pool`].
#[verifier::ext_equal]
pub struct PoolView {
    pub device: DeviceId,
    pub live: u64,
    pub cached: u64,
    pub release_threshold: u64,
    pub accessed_by: Set<DeviceId>,
    pub shareable: bool,
    pub share_root: Option<PoolId>,
    pub graph: bool,
    pub destroyed: bool,
}

impl View for Pool {
    type V = PoolView;

    open spec fn view(&self) -> PoolView {
        PoolView {
            device: self.device,
            live: self.live,
            cached: self.cached,
            release_threshold: self.release_threshold,
            accessed_by: self.accessed_by@,
            shareable: self.shareable,
            share_root: self.share_root,
            graph: self.graph,
            destroyed: self.destroyed,
        }
    }
}

/// Physical memory created apart from its mapping.
#[derive(Clone, Copy, Debug, PartialEq, Eq, Structural)]
pub struct MemHandle {
    pub device: DeviceId,
    pub bytes: u64,
    /// Create and retain references; `0` is released.
    pub refs: u32,
    pub maps: u32,
    /// HBM is still charged.
    pub charged: bool,
}

impl View for MemHandle {
    type V = MemHandle;

    open spec fn view(&self) -> MemHandle {
        *self
    }
}

/// Multicast object over a team of GPUs.
pub struct Multicast {
    pub bytes: u64,
    /// Team size.
    pub n_dev: u32,
    pub devices: Vec<DeviceId>,
    pub binds: Table<DeviceId, MemHandleId>,
    pub maps: u32,
}

/// Mathematical form of [`Multicast`].
#[verifier::ext_equal]
pub struct MulticastView {
    pub bytes: u64,
    pub n_dev: u32,
    pub devices: Seq<DeviceId>,
    pub binds: Map<DeviceId, MemHandleId>,
    pub maps: u32,
}

impl View for Multicast {
    type V = MulticastView;

    open spec fn view(&self) -> MulticastView {
        MulticastView {
            bytes: self.bytes,
            n_dev: self.n_dev,
            devices: self.devices@,
            binds: self.binds@,
            maps: self.maps,
        }
    }
}

/// How a submitted operation pays launch overhead.
#[derive(Clone, Copy, Debug, PartialEq, Eq, Structural)]
pub enum LaunchCost {
    /// Standalone kernel.
    Kernel,
    /// First operation of a graph launch.
    GraphHead,
    /// Later operation of a graph launch: no overhead.
    GraphBody,
}

impl View for LaunchCost {
    type V = LaunchCost;

    open spec fn view(&self) -> LaunchCost {
        *self
    }
}

/// Skip predicate of conditional body operations.
#[derive(Clone, Copy, Debug, PartialEq, Eq, Structural)]
pub enum CondPred {
    /// Skip when the handle is `0`.
    Nonzero(CondId),
    /// Skip when the handle is not this branch.
    Equals(CondId, u32),
}

impl View for CondPred {
    type V = CondPred;

    open spec fn view(&self) -> CondPred {
        *self
    }
}

/// Launch attributes of a submitted operation.
#[derive(Clone, Copy, Debug, PartialEq, Eq, Structural)]
pub struct OpAttrs {
    pub priority: i32,
    pub pdl: ProgrammaticLaunch,
    pub programmatic_event: Option<ProgrammaticEvent>,
    pub launch_completion: Option<LaunchCompletionEvent>,
    pub access_policy: Option<AccessPolicyWindow>,
    /// Resolved memory-synchronization domain.
    pub mem_sync_physical: u8,
    pub cluster: Option<ClusterDim>,
    pub cluster_policy: ClusterSchedulingPolicy,
    pub preferred_cluster: Option<ClusterDim>,
    pub carveout: SharedMemCarveout,
    pub shared_mem: SharedMemoryMode,
    pub nvlink_util_centric: bool,
}

impl View for OpAttrs {
    type V = OpAttrs;

    open spec fn view(&self) -> OpAttrs {
        *self
    }
}

/// Submitted operation.
pub struct Op {
    pub device: DeviceId,
    pub stream: StreamId,
    pub kind: GpuOp,
    pub deps: Vec<OpId>,
    pub done: bool,
    pub cancelled: bool,
    pub launch: LaunchCost,
    pub submit_ns: u64,
    pub start_ns: Option<u64>,
    pub done_ns: Option<u64>,
    /// Any failing predicate skips the operation at its start.
    pub preds: Vec<CondPred>,
    /// Completion has no effect beyond ordering.
    pub skipped: bool,
    pub attrs: OpAttrs,
    /// Clock at which a programmatic trigger fires.
    pub pdl_trigger_ns: Option<u64>,
    /// Completion already waited for leftover same-domain traffic.
    pub domain_fence_paid: bool,
}

/// Mathematical form of [`Op`].
#[verifier::ext_equal]
pub struct OpView {
    pub device: DeviceId,
    pub stream: StreamId,
    pub kind: GpuOpView,
    pub deps: Seq<OpId>,
    pub done: bool,
    pub cancelled: bool,
    pub launch: LaunchCost,
    pub submit_ns: u64,
    pub start_ns: Option<u64>,
    pub done_ns: Option<u64>,
    pub preds: Seq<CondPred>,
    pub skipped: bool,
    pub attrs: OpAttrs,
    pub pdl_trigger_ns: Option<u64>,
    pub domain_fence_paid: bool,
}

impl View for Op {
    type V = OpView;

    open spec fn view(&self) -> OpView {
        OpView {
            device: self.device,
            stream: self.stream,
            kind: self.kind@,
            deps: self.deps@,
            done: self.done,
            cancelled: self.cancelled,
            launch: self.launch,
            submit_ns: self.submit_ns,
            start_ns: self.start_ns,
            done_ns: self.done_ns,
            preds: self.preds@,
            skipped: self.skipped,
            attrs: self.attrs,
            pdl_trigger_ns: self.pdl_trigger_ns,
            domain_fence_paid: self.domain_fence_paid,
        }
    }
}

/// What a running operation shares bandwidth with.
#[derive(Clone, Copy, Debug, PartialEq, Eq, Structural)]
pub enum Share {
    /// Nothing.
    Solo,
    /// Other copies on this link.
    Link(usize),
}

impl View for Share {
    type V = Share;

    open spec fn view(&self) -> Share {
        *self
    }
}

/// Operation in flight.
#[derive(Clone, Copy, Debug, PartialEq, Eq, Structural)]
pub struct Running {
    pub op: OpId,
    pub remaining_ns: u64,
    pub share: Share,
}

impl View for Running {
    type V = Running;

    open spec fn view(&self) -> Running {
        *self
    }
}

/// Device limits other than persisting L2.
#[derive(Clone, Copy, Debug, PartialEq, Eq, Structural)]
pub struct DeviceLimits {
    pub stack_size: u64,
    pub printf_fifo: u64,
    pub malloc_heap: u64,
    pub sync_depth: u64,
    pub pending_launch: u64,
    pub l2_fetch: u64,
}

impl View for DeviceLimits {
    type V = DeviceLimits;

    open spec fn view(&self) -> DeviceLimits {
        *self
    }
}

impl DeviceLimits {
    /// Limits of a fresh device.
    #[verifier::allow_in_spec]
    pub fn sm80() -> DeviceLimits
        returns
            (DeviceLimits {
                stack_size: 1024,
                printf_fifo: 0x10_0000,
                malloc_heap: 0x80_0000,
                sync_depth: 2,
                pending_launch: 2048,
                l2_fetch: 128,
            }),
    {
        DeviceLimits {
            stack_size: 1024,
            printf_fifo: 0x10_0000,
            malloc_heap: 0x80_0000,
            sync_depth: 2,
            pending_launch: 2048,
            l2_fetch: 128,
        }
    }
}

/// Range that fills persisting L2.
#[derive(Clone, Copy, Debug, PartialEq, Eq, Structural)]
pub struct PersistLine {
    pub id: AllocId,
    pub offset: u64,
    pub bytes: u64,
}

impl View for PersistLine {
    type V = PersistLine;

    open spec fn view(&self) -> PersistLine {
        *self
    }
}

/// Run-time state of one GPU.
pub struct GpuRt {
    /// Charged HBM bytes.
    pub used: u64,
    /// Occupied compute slots.
    pub compute: u8,
    /// Busy copy engines.
    pub copies: u8,
    /// High-water of live graph allocations.
    pub graph_used_high: u64,
    /// High-water of reserved graph memory.
    pub graph_reserved_high: u64,
    /// Persisting L2 capacity.
    pub persist_limit: u64,
    /// Filled persisting ranges, oldest first.
    pub persist_lines: Vec<PersistLine>,
    pub limits: DeviceLimits,
}

/// Mathematical form of [`GpuRt`].
#[verifier::ext_equal]
pub struct GpuRtView {
    pub used: u64,
    pub compute: u8,
    pub copies: u8,
    pub graph_used_high: u64,
    pub graph_reserved_high: u64,
    pub persist_limit: u64,
    pub persist_lines: Seq<PersistLine>,
    pub limits: DeviceLimits,
}

impl View for GpuRt {
    type V = GpuRtView;

    open spec fn view(&self) -> GpuRtView {
        GpuRtView {
            used: self.used,
            compute: self.compute,
            copies: self.copies,
            graph_used_high: self.graph_used_high,
            graph_reserved_high: self.graph_reserved_high,
            persist_limit: self.persist_limit,
            persist_lines: self.persist_lines@,
            limits: self.limits,
        }
    }
}

/// Event.
#[derive(Clone, Copy, Debug, PartialEq, Eq, Structural)]
pub struct Ev {
    pub recorded_by: Option<OpId>,
    pub timing: bool,
    pub interprocess: bool,
    /// Source of an interprocess import.
    pub ipc_src: Option<EventId>,
    /// Live interprocess imports of this event.
    pub ipc_opens: u32,
}

impl View for Ev {
    type V = Ev;

    open spec fn view(&self) -> Ev {
        *self
    }
}

impl Ev {
    /// Event that was never recorded.
    #[verifier::allow_in_spec]
    pub fn new(timing: bool) -> Ev
        returns
            (Ev { recorded_by: None, timing, interprocess: false, ipc_src: None, ipc_opens: 0 }),
    {
        Ev { recorded_by: None, timing, interprocess: false, ipc_src: None, ipc_opens: 0 }
    }
}

/// Stream capture in progress.
pub struct Capture {
    pub origin: Lane,
    pub streams: KeySet<Lane>,
    pub events: KeySet<EventId>,
    /// Allocations recorded as nodes.
    pub mem_allocs: Vec<AllocId>,
    /// Graph that receives the nodes.
    pub graph: GraphId,
    /// Nodes of that graph on which capture roots depend.
    pub deps: Vec<usize>,
    /// Extra dependencies of the next captured node of a stream.
    pub pending: Table<Lane, Vec<usize>>,
    /// Extra dependencies, by captured node, as nodes of the graph.
    pub extra_abs: Table<usize, Vec<usize>>,
    pub mode: StreamCaptureMode,
    pub id: u64,
}

/// Mathematical form of [`Capture`].
#[verifier::ext_equal]
pub struct CaptureView {
    pub origin: Lane,
    pub streams: Set<Lane>,
    pub events: Set<EventId>,
    pub mem_allocs: Seq<AllocId>,
    pub graph: GraphId,
    pub deps: Seq<usize>,
    pub pending: Map<Lane, Seq<usize>>,
    pub extra_abs: Map<usize, Seq<usize>>,
    pub mode: StreamCaptureMode,
    pub id: u64,
}

impl View for Capture {
    type V = CaptureView;

    open spec fn view(&self) -> CaptureView {
        CaptureView {
            origin: self.origin,
            streams: self.streams@,
            events: self.events@,
            mem_allocs: self.mem_allocs@,
            graph: self.graph,
            deps: self.deps@,
            pending: self.pending@,
            extra_abs: self.extra_abs@,
            mode: self.mode,
            id: self.id,
        }
    }
}

/// Launch attributes of a graph node.
#[derive(Clone, Copy, Debug, PartialEq, Eq, Structural)]
pub struct NodeAttrs {
    pub priority: i32,
    pub pdl: ProgrammaticLaunch,
    pub programmatic_event: Option<ProgrammaticEvent>,
    pub launch_completion: Option<LaunchCompletionEvent>,
    pub access_policy: Option<AccessPolicyWindow>,
    pub mem_sync_domain: MemSyncDomain,
    pub mem_sync_map: MemSyncDomainMap,
    pub cluster: Option<ClusterDim>,
    pub cluster_policy: ClusterSchedulingPolicy,
    pub preferred_cluster: Option<ClusterDim>,
    pub carveout: SharedMemCarveout,
    pub device_updatable: bool,
    pub shared_mem: SharedMemoryMode,
    pub portable_cluster: PortableClusterMode,
    pub dynamic_shared: u32,
    pub portable_shared: PortableSharedMode,
    pub nvlink_util_centric: bool,
}

impl View for NodeAttrs {
    type V = NodeAttrs;

    open spec fn view(&self) -> NodeAttrs {
        *self
    }
}

/// Graph node.
pub struct GraphStep {
    pub device: DeviceId,
    pub stream: StreamId,
    pub kind: GpuOp,
    /// Predecessor nodes.
    pub deps: Vec<usize>,
    /// A disabled node completes at once.
    pub enabled: bool,
    /// The other node indices stay valid.
    pub destroyed: bool,
    pub attrs: NodeAttrs,
}

/// Mathematical form of [`GraphStep`].
#[verifier::ext_equal]
pub struct StepView {
    pub device: DeviceId,
    pub stream: StreamId,
    pub kind: GpuOpView,
    pub deps: Seq<usize>,
    pub enabled: bool,
    pub destroyed: bool,
    pub attrs: NodeAttrs,
}

impl View for GraphStep {
    type V = StepView;

    open spec fn view(&self) -> StepView {
        StepView {
            device: self.device,
            stream: self.stream,
            kind: self.kind@,
            deps: self.deps@,
            enabled: self.enabled,
            destroyed: self.destroyed,
            attrs: self.attrs,
        }
    }
}

impl Dup for GraphStep {
    fn dup(&self) -> (r: Self) {
        GraphStep {
            device: self.device,
            stream: self.stream,
            kind: self.kind.dup(),
            deps: copy_vec(&self.deps),
            enabled: self.enabled,
            destroyed: self.destroyed,
            attrs: self.attrs,
        }
    }
}

/// Graph definition or executable graph.
pub struct Graph {
    /// Definition.
    pub steps: Rows<GraphStep>,
    /// Executable snapshot.
    pub snapshot: Option<Rows<GraphStep>>,
    pub origin: Lane,
    /// This id is an executable graph.
    pub instantiated: bool,
    pub uploaded: bool,
    pub auto_free_on_launch: bool,
    pub instantiate_flags: u32,
    /// Last operation of a device launch in flight.
    pub device_launch_tail: Option<OpId>,
    /// First executable made from this definition.
    pub primary_exec: Option<GraphId>,
    /// Definition of this executable.
    pub src: Option<GraphId>,
}

/// Mathematical form of [`Graph`].
#[verifier::ext_equal]
pub struct GraphView {
    pub steps: Seq<StepView>,
    pub snapshot: Option<Seq<StepView>>,
    pub origin: Lane,
    pub instantiated: bool,
    pub uploaded: bool,
    pub auto_free_on_launch: bool,
    pub instantiate_flags: u32,
    pub device_launch_tail: Option<OpId>,
    pub primary_exec: Option<GraphId>,
    pub src: Option<GraphId>,
}

impl View for Graph {
    type V = GraphView;

    open spec fn view(&self) -> GraphView {
        GraphView {
            steps: self.steps@,
            snapshot: opt_view(self.snapshot),
            origin: self.origin,
            instantiated: self.instantiated,
            uploaded: self.uploaded,
            auto_free_on_launch: self.auto_free_on_launch,
            instantiate_flags: self.instantiate_flags,
            device_launch_tail: self.device_launch_tail,
            primary_exec: self.primary_exec,
            src: self.src,
        }
    }
}

/// Conditional handle.
#[derive(Clone, Copy, Debug, PartialEq, Eq, Structural)]
pub struct Cond {
    pub graph: GraphId,
    pub default: u32,
    pub value: u32,
}

impl View for Cond {
    type V = Cond;

    open spec fn view(&self) -> Cond {
        *self
    }
}

/// Reference-counted user object.
pub struct UserObject {
    pub destroy_fn: u64,
    /// References of the creator.
    pub caller: u32,
    /// References of graphs.
    pub graphs: Table<GraphId, u32>,
}

/// Mathematical form of [`UserObject`].
#[verifier::ext_equal]
pub struct UserObjectView {
    pub destroy_fn: u64,
    pub caller: u32,
    pub graphs: Map<GraphId, u32>,
}

impl View for UserObject {
    type V = UserObjectView;

    open spec fn view(&self) -> UserObjectView {
        UserObjectView {
            destroy_fn: self.destroy_fn,
            caller: self.caller,
            graphs: self.graphs@,
        }
    }
}

/// Launch attributes of the next submission.
#[derive(Clone, Copy, Debug, PartialEq, Eq, Structural)]
pub struct Enq {
    pub priority: Option<i32>,
    pub pdl: ProgrammaticLaunch,
    pub programmatic_event: Option<ProgrammaticEvent>,
    pub launch_completion: Option<LaunchCompletionEvent>,
    pub access_policy: Option<AccessPolicyWindow>,
    pub mem_sync_domain: Option<MemSyncDomain>,
    pub mem_sync_map: Option<MemSyncDomainMap>,
    pub cluster: Option<ClusterDim>,
    pub cluster_policy: ClusterSchedulingPolicy,
    pub preferred_cluster: Option<ClusterDim>,
    pub carveout: SharedMemCarveout,
    pub device_updatable: bool,
    pub shared_mem: SharedMemoryMode,
    pub portable_cluster: PortableClusterMode,
    pub dynamic_shared: u32,
    pub portable_shared: PortableSharedMode,
    pub nvlink_util_centric: bool,
}

impl View for Enq {
    type V = Enq;

    open spec fn view(&self) -> Enq {
        *self
    }
}

impl Enq {
    /// No attribute set.
    #[verifier::allow_in_spec]
    pub fn plain() -> Enq
        returns
            (Enq {
                priority: None,
                pdl: ProgrammaticLaunch::none(),
                programmatic_event: None,
                launch_completion: None,
                access_policy: None,
                mem_sync_domain: None,
                mem_sync_map: None,
                cluster: None,
                cluster_policy: ClusterSchedulingPolicy::Default,
                preferred_cluster: None,
                carveout: SharedMemCarveout::Default,
                device_updatable: false,
                shared_mem: SharedMemoryMode::Default,
                portable_cluster: PortableClusterMode::Default,
                dynamic_shared: 0,
                portable_shared: PortableSharedMode::Default,
                nvlink_util_centric: false,
            }),
    {
        Enq {
            priority: None,
            pdl: ProgrammaticLaunch::none(),
            programmatic_event: None,
            launch_completion: None,
            access_policy: None,
            mem_sync_domain: None,
            mem_sync_map: None,
            cluster: None,
            cluster_policy: ClusterSchedulingPolicy::Default,
            preferred_cluster: None,
            carveout: SharedMemCarveout::Default,
            device_updatable: false,
            shared_mem: SharedMemoryMode::Default,
            portable_cluster: PortableClusterMode::Default,
            dynamic_shared: 0,
            portable_shared: PortableSharedMode::Default,
            nvlink_util_centric: false,
        }
    }
}

/// Next number of each handle type.
#[derive(Clone, Copy, Debug, PartialEq, Eq, Structural)]
pub struct NextIds {
    pub op: u64,
    pub alloc: u64,
    pub graph: u32,
    pub capture: u64,
    pub pool: u32,
    pub handle: u64,
    pub ipc: u64,
    pub ipc_event: u64,
    pub imported_event: u32,
    pub share: u64,
    pub ptr: u64,
    pub mc: u32,
    pub cond: u32,
    pub user_object: u32,
}

impl View for NextIds {
    type V = NextIds;

    open spec fn view(&self) -> NextIds {
        *self
    }
}

impl AllocView {
    /// Fresh allocation that is not live yet.
    pub open spec fn blank(bytes: u64) -> AllocView {
        AllocView {
            bytes,
            devices: Seq::empty(),
            leases: 0,
            live: false,
            host_pinned: false,
            host_pageable: false,
            host_mapped: false,
            host_registered: false,
            managed: false,
            attach: Attach::Global,
            read_mostly: false,
            accessed_by: Set::empty(),
            vmm_write_by: Set::empty(),
            preferred: Preferred::Nowhere,
            vmm: false,
            vmm_maps: Seq::empty(),
            pool: None,
            ipc_src: None,
            ipc_opens: 0,
            share_src: None,
            share_opens: 0,
        }
    }
}

impl Alloc {
    /// Fresh allocation that is not live yet.
    pub fn blank(bytes: u64) -> (r: Alloc)
        ensures
            r@ == AllocView::blank(bytes),
    {
        Alloc {
            bytes,
            devices: Vec::new(),
            leases: 0,
            live: false,
            host_pinned: false,
            host_pageable: false,
            host_mapped: false,
            host_registered: false,
            managed: false,
            attach: Attach::Global,
            read_mostly: false,
            accessed_by: KeySet::new(),
            vmm_write_by: KeySet::new(),
            preferred: Preferred::Nowhere,
            vmm: false,
            vmm_maps: Vec::new(),
            pool: None,
            ipc_src: None,
            ipc_opens: 0,
            share_src: None,
            share_opens: 0,
        }
    }
}

impl PoolView {
    /// Empty private pool of `device`.
    pub open spec fn fresh(device: DeviceId) -> PoolView {
        PoolView {
            device,
            live: 0,
            cached: 0,
            release_threshold: 0,
            accessed_by: Set::empty(),
            shareable: false,
            share_root: None,
            graph: false,
            destroyed: false,
        }
    }
}

impl Pool {
    /// Empty private pool of `device`.
    pub fn fresh(device: DeviceId) -> (r: Pool)
        ensures
            r@ == PoolView::fresh(device),
    {
        Pool {
            device,
            live: 0,
            cached: 0,
            release_threshold: 0,
            accessed_by: KeySet::new(),
            shareable: false,
            share_root: None,
            graph: false,
            destroyed: false,
        }
    }
}

impl GpuRtView {
    /// Idle GPU.
    pub open spec fn idle() -> GpuRtView {
        GpuRtView {
            used: 0,
            compute: 0,
            copies: 0,
            graph_used_high: 0,
            graph_reserved_high: 0,
            persist_limit: 0,
            persist_lines: Seq::empty(),
            limits: DeviceLimits::sm80(),
        }
    }
}

impl GpuRt {
    /// Idle GPU.
    pub fn idle() -> (r: GpuRt)
        ensures
            r@ == GpuRtView::idle(),
    {
        GpuRt {
            used: 0,
            compute: 0,
            copies: 0,
            graph_used_high: 0,
            graph_reserved_high: 0,
            persist_limit: 0,
            persist_lines: Vec::new(),
            limits: DeviceLimits::sm80(),
        }
    }
}

} // verus!
