//! Calls that a capture cannot include.
use vstd::prelude::*;
use crate::error::{invalid, SimError};
use crate::ids::{
    AllocId, DeviceId, EventId, GraphId, IpcEventHandleId, IpcHandleId, MemHandleId, MulticastId,
    PoolId, PtrExportId, ShareableHandleId, StreamId, UserObjectId,
};
use crate::ops::{
    AccessPolicyWindow, ClusterDim, ClusterSchedulingPolicy, GraphMemAttr, HostNodeParams,
    KernelParamsView, LaunchCompletionEvent, MemAdvise, MemAttach, MemcpyOp, MemsetOp,
    MemSyncDomain, MemSyncDomainMap, PortableClusterMode, PortableSharedMode, ProgrammaticEvent,
    ProgrammaticLaunch, SharedMemCarveout, SharedMemoryMode,
};
use crate::sim::SimState;

verus! {

/// The call was refused for this reason and changed nothing.
pub open spec fn refused<T>(
    s: SimState,
    out: (SimState, Result<T, SimError>),
    why: &'static str,
) -> bool {
    out.0 == s && out.1 is Err && out.1->Err_0 == invalid(why)
}

/// While a capture is in progress these calls of `sim::attrs` are refused and change nothing.
pub proof fn attrs_refused(
    s: SimState,
    graph: GraphId,
    node: usize,
    priority: i32,
    pdl: ProgrammaticLaunch,
    event: Option<ProgrammaticEvent>,
    event_2: Option<LaunchCompletionEvent>,
    window: Option<AccessPolicyWindow>,
    domain: MemSyncDomain,
    map: MemSyncDomainMap,
    cluster: Option<ClusterDim>,
    policy: ClusterSchedulingPolicy,
    preferred: Option<ClusterDim>,
    carveout: SharedMemCarveout,
    device_updatable: bool,
    shared_mem: SharedMemoryMode,
    mode: PortableClusterMode,
    mode_2: PortableSharedMode,
    bytes: u32,
    enabled: bool,
    dst_graph: GraphId,
    dst: usize,
    src_graph: GraphId,
    src: usize,
)
    requires
        s.capturing is Some,
    ensures
        refused(
            s,
            s.graph_kernel_node_set_priority(graph, node, priority),
            "cannot capture kernel node set attribute",
        ),
        refused(
            s,
            s.graph_exec_kernel_node_set_priority(graph, node, priority),
            "cannot capture kernel node set attribute",
        ),
        refused(
            s,
            s.graph_kernel_node_set_pdl(graph, node, pdl),
            "cannot capture kernel node set attribute",
        ),
        refused(
            s,
            s.graph_exec_kernel_node_set_pdl(graph, node, pdl),
            "cannot capture kernel node set attribute",
        ),
        refused(
            s,
            s.graph_kernel_node_set_programmatic_event(graph, node, event),
            "cannot capture kernel node set attribute",
        ),
        refused(
            s,
            s.graph_exec_kernel_node_set_programmatic_event(graph, node, event),
            "cannot capture kernel node set attribute",
        ),
        refused(
            s,
            s.graph_kernel_node_set_launch_completion(graph, node, event_2),
            "cannot capture kernel node set attribute",
        ),
        refused(
            s,
            s.graph_exec_kernel_node_set_launch_completion(graph, node, event_2),
            "cannot capture kernel node set attribute",
        ),
        refused(
            s,
            s.graph_kernel_node_set_access_policy(graph, node, window),
            "cannot capture kernel node set attribute",
        ),
        refused(
            s,
            s.graph_exec_kernel_node_set_access_policy(graph, node, window),
            "cannot capture kernel node set attribute",
        ),
        refused(
            s,
            s.graph_kernel_node_set_mem_sync_domain(graph, node, domain),
            "cannot capture kernel node set attribute",
        ),
        refused(
            s,
            s.graph_exec_kernel_node_set_mem_sync_domain(graph, node, domain),
            "cannot capture kernel node set attribute",
        ),
        refused(
            s,
            s.graph_kernel_node_set_mem_sync_domain_map(graph, node, map),
            "cannot capture kernel node set attribute",
        ),
        refused(
            s,
            s.graph_exec_kernel_node_set_mem_sync_domain_map(graph, node, map),
            "cannot capture kernel node set attribute",
        ),
        refused(
            s,
            s.graph_kernel_node_set_cluster(graph, node, cluster),
            "cannot capture kernel node set attribute",
        ),
        refused(
            s,
            s.graph_exec_kernel_node_set_cluster(graph, node, cluster),
            "cannot capture kernel node set attribute",
        ),
        refused(
            s,
            s.graph_kernel_node_set_cluster_policy(graph, node, policy),
            "cannot capture kernel node set attribute",
        ),
        refused(
            s,
            s.graph_exec_kernel_node_set_cluster_policy(graph, node, policy),
            "cannot capture kernel node set attribute",
        ),
        refused(
            s,
            s.graph_kernel_node_set_preferred_cluster(graph, node, preferred),
            "cannot capture kernel node set attribute",
        ),
        refused(
            s,
            s.graph_exec_kernel_node_set_preferred_cluster(graph, node, preferred),
            "cannot capture kernel node set attribute",
        ),
        refused(
            s,
            s.graph_kernel_node_set_carveout(graph, node, carveout),
            "cannot capture kernel node set attribute",
        ),
        refused(
            s,
            s.graph_exec_kernel_node_set_carveout(graph, node, carveout),
            "cannot capture kernel node set attribute",
        ),
        refused(
            s,
            s.graph_kernel_node_set_device_updatable(graph, node, device_updatable),
            "cannot capture kernel node set attribute",
        ),
        refused(
            s,
            s.graph_exec_kernel_node_set_device_updatable(graph, node, device_updatable),
            "cannot capture kernel node set attribute",
        ),
        refused(
            s,
            s.graph_kernel_node_set_shared_mem(graph, node, shared_mem),
            "cannot capture kernel node set attribute",
        ),
        refused(
            s,
            s.graph_exec_kernel_node_set_shared_mem(graph, node, shared_mem),
            "cannot capture kernel node set attribute",
        ),
        refused(
            s,
            s.graph_kernel_node_set_portable_cluster(graph, node, mode),
            "cannot capture kernel node set attribute",
        ),
        refused(
            s,
            s.graph_exec_kernel_node_set_portable_cluster(graph, node, mode),
            "cannot capture kernel node set attribute",
        ),
        refused(
            s,
            s.graph_kernel_node_set_portable_shared(graph, node, mode_2),
            "cannot capture kernel node set attribute",
        ),
        refused(
            s,
            s.graph_exec_kernel_node_set_portable_shared(graph, node, mode_2),
            "cannot capture kernel node set attribute",
        ),
        refused(
            s,
            s.graph_kernel_node_set_dynamic_shared(graph, node, bytes),
            "cannot capture kernel node set attribute",
        ),
        refused(
            s,
            s.graph_exec_kernel_node_set_dynamic_shared(graph, node, bytes),
            "cannot capture kernel node set attribute",
        ),
        refused(
            s,
            s.graph_kernel_node_set_nvlink_util_centric(graph, node, enabled),
            "cannot capture kernel node set attribute",
        ),
        refused(
            s,
            s.graph_exec_kernel_node_set_nvlink_util_centric(graph, node, enabled),
            "cannot capture kernel node set attribute",
        ),
        refused(
            s,
            s.graph_kernel_node_copy_attributes(dst_graph, dst, src_graph, src),
            "cannot capture kernel node copy attributes",
        ),
{
}

/// While a capture is in progress these calls of `sim::clone` are refused and change nothing.
pub proof fn clone_refused(
    s: SimState,
    graph: GraphId,
    device: DeviceId,
    stream: StreamId,
)
    requires
        s.capturing is Some,
    ensures
        refused(s, s.clone_graph(graph), "cannot capture graph clone"),
        refused(s, s.destroy_graph(graph), "cannot capture graph destroy"),
        refused(s, s.create_graph(device, stream), "cannot create graph during capture"),
{
}

/// While a capture is in progress these calls of `sim::device` are refused and change nothing.
pub proof fn device_refused(
    s: SimState,
    device: DeviceId,
    bytes: u64,
)
    requires
        s.capturing is Some,
    ensures
        refused(s, s.set_persisting_l2_cache_size(device, bytes), "cannot capture persisting L2"),
        refused(s, s.reset_persisting_l2_cache(device), "cannot capture persisting L2"),
{
}

/// While a capture is in progress these calls of `sim::edit` are refused and change nothing.
pub proof fn edit_refused(
    s: SimState,
    graph: GraphId,
    default: u32,
    edges: Seq<(usize, usize)>,
    node: usize,
)
    requires
        s.capturing is Some,
    ensures
        refused(s, s.graph_conditional_create(graph, default), "cannot capture conditional create"),
        refused(
            s,
            s.graph_remove_dependencies_n(graph, edges),
            "cannot remove graph dependencies during capture",
        ),
        refused(s, s.graph_destroy_node(graph, node), "cannot destroy graph node during capture"),
{
}

/// While a capture is in progress these calls of `sim::instantiate` are refused and change nothing.
pub proof fn instantiate_refused(
    s: SimState,
    graph: GraphId,
    stream: StreamId,
)
    requires
        s.capturing is Some,
    ensures
        refused(s, s.upload_graph(graph), "cannot capture graph upload"),
        refused(s, s.device_launch_graph(graph, stream), "cannot capture device launch"),
{
}

/// While a capture is in progress these calls of `sim::memory` are refused and change nothing.
pub proof fn memory_refused(
    s: SimState,
    alloc: AllocId,
    advice: MemAdvise,
    device: DeviceId,
    id: AllocId,
    handle: IpcHandleId,
    event: EventId,
    handle_2: IpcEventHandleId,
)
    requires
        s.capturing is Some,
    ensures
        refused(s, s.mem_advise(alloc, advice, device), "cannot capture mem advise"),
        refused(s, s.drop_managed_copy(alloc, device), "cannot capture alloc/free"),
        refused(s, s.host_unregister(id), "cannot capture host register"),
        refused(s, s.free_host(id), "cannot capture alloc/free"),
        refused(s, s.free_host_pinned(id), "cannot capture alloc/free"),
        refused(s, s.free_sync(id), "cannot capture alloc/free"),
        refused(s, s.ipc_get(id), "cannot capture ipc"),
        refused(s, s.ipc_open(device, handle), "cannot capture ipc"),
        refused(s, s.ipc_close(id), "cannot capture ipc"),
        refused(s, s.ipc_get_event(event), "cannot capture ipc"),
        refused(s, s.ipc_open_event(handle_2), "cannot capture ipc"),
{
}

/// While a capture is in progress these calls of `sim::objects` are refused and change nothing.
pub proof fn objects_refused(
    s: SimState,
    destroy_fn: u64,
    initial_refcount: u32,
    flags: u32,
    object: UserObjectId,
    count: u32,
    graph: GraphId,
)
    requires
        s.capturing is Some,
    ensures
        refused(
            s,
            s.user_object_create(destroy_fn, initial_refcount, flags),
            "cannot capture user object",
        ),
        refused(s, s.user_object_retain(object, count), "cannot capture user object"),
        refused(s, s.user_object_release(object, count), "cannot capture user object"),
        refused(
            s,
            s.graph_retain_user_object(graph, object, count, flags),
            "cannot capture user object",
        ),
        refused(s, s.graph_release_user_object(graph, object, count), "cannot capture user object"),
{
}

/// While a capture is in progress these calls of `sim::params` are refused and change nothing.
pub proof fn params_refused(
    s: SimState,
    graph: GraphId,
    node: usize,
    params: KernelParamsView,
    op: MemcpyOp,
    op_2: MemsetOp,
    params_2: HostNodeParams,
    alloc: AllocId,
    child: GraphId,
    enabled: bool,
)
    requires
        s.capturing is Some,
    ensures
        refused(
            s,
            s.graph_exec_kernel_set_params(graph, node, params),
            "cannot capture kernel set params",
        ),
        refused(
            s,
            s.graph_kernel_set_params(graph, node, params),
            "cannot capture kernel node set params",
        ),
        refused(
            s,
            s.graph_memcpy_set_params(graph, node, op),
            "cannot capture memcpy node set params",
        ),
        refused(
            s,
            s.graph_exec_memcpy_set_params(graph, node, op),
            "cannot capture memcpy set params",
        ),
        refused(
            s,
            s.graph_memset_set_params(graph, node, op_2),
            "cannot capture memset node set params",
        ),
        refused(
            s,
            s.graph_exec_memset_set_params(graph, node, op_2),
            "cannot capture memset set params",
        ),
        refused(
            s,
            s.graph_host_set_params(graph, node, params_2),
            "cannot capture host node set params",
        ),
        refused(
            s,
            s.graph_exec_host_set_params(graph, node, params_2),
            "cannot capture host set params",
        ),
        refused(
            s,
            s.graph_free_set_params(graph, node, alloc),
            "cannot capture mem free node set params",
        ),
        refused(
            s,
            s.graph_exec_free_set_params(graph, node, alloc),
            "cannot capture mem free node set params",
        ),
        refused(
            s,
            s.graph_child_set_params(graph, node, child),
            "cannot capture child graph node set params",
        ),
        refused(
            s,
            s.graph_exec_child_set_params(graph, node, child),
            "cannot capture child set params",
        ),
        refused(
            s,
            s.graph_node_set_enabled(graph, node, enabled),
            "cannot capture node set enabled",
        ),
{
}

/// While a capture is in progress these calls of `sim::pools` are refused and change nothing.
pub proof fn pools_refused(
    s: SimState,
    device: DeviceId,
    pool: PoolId,
    bytes: u64,
    min_bytes: u64,
    handle: ShareableHandleId,
    id: AllocId,
    export: PtrExportId,
    attr: GraphMemAttr,
    value: u64,
)
    requires
        s.capturing is Some,
    ensures
        refused(s, s.set_device_mempool(device, pool), "cannot capture mempool"),
        refused(s, s.destroy_pool(pool), "cannot capture mempool"),
        refused(s, s.set_pool_release_threshold(pool, bytes), "cannot capture mempool"),
        refused(s, s.pool_trim_to(pool, min_bytes), "cannot capture mempool"),
        refused(s, s.pool_set_access(pool, device), "cannot capture mempool"),
        refused(s, s.pool_unset_access(pool, device), "cannot capture mempool"),
        refused(s, s.pool_export(pool), "cannot capture mempool"),
        refused(s, s.pool_import(device, handle), "cannot capture mempool"),
        refused(s, s.pool_export_ptr(id), "cannot capture mempool"),
        refused(s, s.pool_import_ptr(pool, export), "cannot capture mempool"),
        refused(s, s.graph_mem_set(device, attr, value), "cannot capture graph mem set"),
        refused(s, s.graph_mem_trim(device), "cannot capture graph mem trim"),
{
}

/// While a capture is in progress these calls of `sim::run` are refused and change nothing.
pub proof fn run_refused(
    s: SimState,
    device: DeviceId,
    event: EventId,
)
    requires
        s.capturing is Some,
    ensures
        refused(s, s.synchronize(), "cannot synchronize during capture"),
        refused(s, s.synchronize_device(device), "cannot synchronize device during capture"),
        refused(s, s.destroy_event(event), "cannot capture event destroy"),
{
    reveal(SimState::synchronize_device);
}

/// While a capture is in progress these calls of `sim::streams` are refused and change nothing.
pub proof fn streams_refused(
    s: SimState,
    device: DeviceId,
    stream: StreamId,
    flags: u32,
)
    requires
        s.capturing is Some,
    ensures
        refused(
            s,
            s.stream_create_with_flags(device, stream, flags),
            "cannot capture stream create",
        ),
{
}

/// While a capture is in progress these calls of `sim::transfer` are refused and change nothing.
pub proof fn transfer_refused(
    s: SimState,
    device: DeviceId,
    op: MemcpyOp,
    stream: StreamId,
    id: AllocId,
    flags: MemAttach,
)
    requires
        s.capturing is Some,
    ensures
        refused(s, s.memcpy_sync(device, op, stream), "cannot capture host-sync memcpy"),
        refused(s, s.stream_attach(device, id, stream, flags), "cannot capture stream attach"),
{
}

/// While a capture is in progress these calls of `sim::vmm` are refused and change nothing.
pub proof fn vmm_refused(
    s: SimState,
    id: AllocId,
    device: DeviceId,
    offset: u64,
    handle: MemHandleId,
    bytes: u64,
    mc: MulticastId,
    src: DeviceId,
    dests: Seq<DeviceId>,
    stream: StreamId,
)
    requires
        s.capturing is Some,
    ensures
        refused(s, s.va_map_handle(id, device, offset, handle), "cannot capture alloc/free"),
        refused(s, s.va_release_handle(handle), "cannot capture alloc/free"),
        refused(s, s.va_retain_handle(id, device, offset), "cannot capture alloc/free"),
        refused(s, s.va_map_range(id, device, offset, bytes), "cannot capture alloc/free"),
        refused(s, s.va_unmap(id), "cannot capture alloc/free"),
        refused(s, s.va_unmap_range(id, device, offset, bytes), "cannot capture alloc/free"),
        refused(s, s.va_unset_access(id, device), "cannot capture alloc/free"),
        refused(s, s.va_free(id), "cannot capture alloc/free"),
        refused(s, s.multicast_add_device(mc, device), "cannot capture alloc/free"),
        refused(s, s.multicast_bind_mem(mc, device, handle), "cannot capture alloc/free"),
        refused(s, s.va_map_multicast(id, device, offset, mc), "cannot capture alloc/free"),
        refused(s, s.multicast_store(src, id, dests, stream), "cannot capture alloc/free"),
{
}

} // verus!
