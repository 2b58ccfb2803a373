//! Definitions, executables and their nodes.
use vstd::prelude::*;
use crate::error::{invalid, SimError};
use crate::ids::{GraphId, Lane, StreamId};
use crate::laws::frames::{
    release_graph_allocs_keeps_graphs, release_user_objects_for_graph_keeps_graphs,
};
use crate::ops::{
    AccessPolicyWindow, ClusterDim, ClusterSchedulingPolicy, GpuOpView, HostNodeParams,
    KernelNodeAttr, KernelNodeAttrValue, KernelParamsView, LaunchCompletionEvent, MemcpyOp,
    MemSyncDomain, MemSyncDomainMap, PortableClusterMode, PortableSharedMode, ProgrammaticEvent,
    ProgrammaticLaunch, SharedMemCarveout, SharedMemoryMode,
};
use crate::sim::SimState;
use crate::state::NodeAttrs;

verus! {

/// The attributes with one of them set.
pub open spec fn with_value(
    attrs: NodeAttrs,
    attr: KernelNodeAttr,
    value: KernelNodeAttrValue,
) -> NodeAttrs {
    match (attr, value) {
        (
            KernelNodeAttr::Priority,
            KernelNodeAttrValue::Priority(v),
        ) => NodeAttrs { priority: v, ..attrs },
        (KernelNodeAttr::Pdl, KernelNodeAttrValue::Pdl(v)) => NodeAttrs { pdl: v, ..attrs },
        (
            KernelNodeAttr::ProgrammaticEvent,
            KernelNodeAttrValue::ProgrammaticEvent(v),
        ) => NodeAttrs { programmatic_event: v, ..attrs },
        (
            KernelNodeAttr::LaunchCompletion,
            KernelNodeAttrValue::LaunchCompletion(v),
        ) => NodeAttrs { launch_completion: v, ..attrs },
        (
            KernelNodeAttr::AccessPolicy,
            KernelNodeAttrValue::AccessPolicy(v),
        ) => NodeAttrs { access_policy: v, ..attrs },
        (
            KernelNodeAttr::MemSyncDomain,
            KernelNodeAttrValue::MemSyncDomain(v),
        ) => NodeAttrs { mem_sync_domain: v, ..attrs },
        (
            KernelNodeAttr::MemSyncDomainMap,
            KernelNodeAttrValue::MemSyncDomainMap(v),
        ) => NodeAttrs { mem_sync_map: v, ..attrs },
        (
            KernelNodeAttr::Cluster,
            KernelNodeAttrValue::Cluster(v),
        ) => NodeAttrs { cluster: v, ..attrs },
        (
            KernelNodeAttr::ClusterPolicy,
            KernelNodeAttrValue::ClusterPolicy(v),
        ) => NodeAttrs { cluster_policy: v, ..attrs },
        (
            KernelNodeAttr::PreferredCluster,
            KernelNodeAttrValue::PreferredCluster(v),
        ) => NodeAttrs { preferred_cluster: v, ..attrs },
        (
            KernelNodeAttr::Carveout,
            KernelNodeAttrValue::Carveout(v),
        ) => NodeAttrs { carveout: v, ..attrs },
        (
            KernelNodeAttr::DeviceUpdatable,
            KernelNodeAttrValue::DeviceUpdatable(v),
        ) => NodeAttrs { device_updatable: v, ..attrs },
        (
            KernelNodeAttr::SharedMem,
            KernelNodeAttrValue::SharedMem(v),
        ) => NodeAttrs { shared_mem: v, ..attrs },
        (
            KernelNodeAttr::PortableCluster,
            KernelNodeAttrValue::PortableCluster(v),
        ) => NodeAttrs { portable_cluster: v, ..attrs },
        (
            KernelNodeAttr::PortableShared,
            KernelNodeAttrValue::PortableShared(v),
        ) => NodeAttrs { portable_shared: v, ..attrs },
        (
            KernelNodeAttr::DynamicShared,
            KernelNodeAttrValue::DynamicShared(v),
        ) => NodeAttrs { dynamic_shared: v, ..attrs },
        (
            KernelNodeAttr::NvlinkUtilCentric,
            KernelNodeAttrValue::NvlinkUtilCentric(v),
        ) => NodeAttrs { nvlink_util_centric: v, ..attrs },
        _ => attrs,
    }
}

/// Between two states a definition's kernel node got attributes, and events may have been made.
#[verifier::opaque]
pub open spec fn def_replaced(
    s: SimState,
    t: SimState,
    graph: GraphId,
    node: usize,
    attrs: NodeAttrs,
) -> bool {
    &&& s.kernel_def_step(graph, node) is Ok
    &&& t == (SimState { events: t.events, ..s }).set_def_attrs(graph, node, attrs).0
}

proof fn lemma_exec_set_after_event(
    s: SimState,
    u: SimState,
    id: GraphId,
    node: usize,
    attrs: NodeAttrs,
)
    requires
        u == (SimState { events: u.events, ..s }),
    ensures
        u.kernel_exec_step(id, node) == s.kernel_exec_step(id, node),
        u.set_exec_attrs(id, node, attrs).0.events == u.events,
{
}

/// Between two states an executable's kernel node got attributes, and events may have been made.
#[verifier::opaque]
pub open spec fn exec_replaced(
    s: SimState,
    t: SimState,
    graph: GraphId,
    node: usize,
    attrs: NodeAttrs,
) -> bool {
    &&& s.exec_attrs(graph, node) is Ok
    &&& (SimState { events: t.events, ..s }).set_exec_attrs(
        s.as_exec(graph)->Ok_0,
        node,
        attrs,
    ) == (t, Ok::<(), SimError>(()))
}

/// The priority of a definition's kernel node reads back as it was set.
pub proof fn priority_read_back(s: SimState, graph: GraphId, node: usize, value: i32)
    requires
        s.graph_kernel_node_set_priority(graph, node, value).1 is Ok,
    ensures
        def_replaced(
            s,
            s.graph_kernel_node_set_priority(graph, node, value).0,
            graph,
            node,
            NodeAttrs { priority: value, ..s.def_attrs(graph, node)->Ok_0 },
        ),
        s.graph_kernel_node_set_priority(graph, node, value).0.graph_kernel_node_get_priority(
            graph,
            node,
        ) == Ok::<i32, SimError>(value),
{
    reveal(def_replaced);
}

/// The programmatic launch of a definition's kernel node reads back as it was set.
pub proof fn pdl_read_back(s: SimState, graph: GraphId, node: usize, value: ProgrammaticLaunch)
    requires
        s.graph_kernel_node_set_pdl(graph, node, value).1 is Ok,
    ensures
        def_replaced(
            s,
            s.graph_kernel_node_set_pdl(graph, node, value).0,
            graph,
            node,
            NodeAttrs { pdl: value, ..s.def_attrs(graph, node)->Ok_0 },
        ),
        s.graph_kernel_node_set_pdl(graph, node, value).0.graph_kernel_node_get_pdl(
            graph,
            node,
        ) == Ok::<ProgrammaticLaunch, SimError>(value),
{
    reveal(def_replaced);
}

/// The programmatic event of a definition's kernel node reads back as it was set.
pub proof fn programmatic_event_read_back(
    s: SimState,
    graph: GraphId,
    node: usize,
    value: Option<ProgrammaticEvent>,
)
    requires
        s.graph_kernel_node_set_programmatic_event(graph, node, value).1 is Ok,
    ensures
        def_replaced(
            s,
            s.graph_kernel_node_set_programmatic_event(graph, node, value).0,
            graph,
            node,
            NodeAttrs { programmatic_event: value, ..s.def_attrs(graph, node)->Ok_0 },
        ),
        s.graph_kernel_node_set_programmatic_event(
            graph,
            node,
            value,
        ).0.graph_kernel_node_get_programmatic_event(
            graph,
            node,
        ) == Ok::<Option<ProgrammaticEvent>, SimError>(value),
{
    reveal(def_replaced);
}

/// The launch-completion event of a definition's kernel node reads back as it was set.
pub proof fn launch_completion_read_back(
    s: SimState,
    graph: GraphId,
    node: usize,
    value: Option<LaunchCompletionEvent>,
)
    requires
        s.graph_kernel_node_set_launch_completion(graph, node, value).1 is Ok,
    ensures
        def_replaced(
            s,
            s.graph_kernel_node_set_launch_completion(graph, node, value).0,
            graph,
            node,
            NodeAttrs { launch_completion: value, ..s.def_attrs(graph, node)->Ok_0 },
        ),
        s.graph_kernel_node_set_launch_completion(
            graph,
            node,
            value,
        ).0.graph_kernel_node_get_launch_completion(
            graph,
            node,
        ) == Ok::<Option<LaunchCompletionEvent>, SimError>(value),
{
    reveal(def_replaced);
}

/// The access-policy window of a definition's kernel node reads back as it was set.
pub proof fn access_policy_read_back(
    s: SimState,
    graph: GraphId,
    node: usize,
    value: Option<AccessPolicyWindow>,
)
    requires
        s.graph_kernel_node_set_access_policy(graph, node, value).1 is Ok,
    ensures
        def_replaced(
            s,
            s.graph_kernel_node_set_access_policy(graph, node, value).0,
            graph,
            node,
            NodeAttrs { access_policy: value, ..s.def_attrs(graph, node)->Ok_0 },
        ),
        s.graph_kernel_node_set_access_policy(
            graph,
            node,
            value,
        ).0.graph_kernel_node_get_access_policy(
            graph,
            node,
        ) == Ok::<Option<AccessPolicyWindow>, SimError>(value),
{
    reveal(def_replaced);
}

/// The memory-synchronization domain of a definition's kernel node reads back as it was set.
pub proof fn mem_sync_domain_read_back(
    s: SimState,
    graph: GraphId,
    node: usize,
    value: MemSyncDomain,
)
    requires
        s.graph_kernel_node_set_mem_sync_domain(graph, node, value).1 is Ok,
    ensures
        def_replaced(
            s,
            s.graph_kernel_node_set_mem_sync_domain(graph, node, value).0,
            graph,
            node,
            NodeAttrs { mem_sync_domain: value, ..s.def_attrs(graph, node)->Ok_0 },
        ),
        s.graph_kernel_node_set_mem_sync_domain(
            graph,
            node,
            value,
        ).0.graph_kernel_node_get_mem_sync_domain(
            graph,
            node,
        ) == Ok::<MemSyncDomain, SimError>(value),
{
    reveal(def_replaced);
}

/// The memory-synchronization domain map of a definition's kernel node reads back as it was set.
pub proof fn mem_sync_domain_map_read_back(
    s: SimState,
    graph: GraphId,
    node: usize,
    value: MemSyncDomainMap,
)
    requires
        s.graph_kernel_node_set_mem_sync_domain_map(graph, node, value).1 is Ok,
    ensures
        def_replaced(
            s,
            s.graph_kernel_node_set_mem_sync_domain_map(graph, node, value).0,
            graph,
            node,
            NodeAttrs { mem_sync_map: value, ..s.def_attrs(graph, node)->Ok_0 },
        ),
        s.graph_kernel_node_set_mem_sync_domain_map(
            graph,
            node,
            value,
        ).0.graph_kernel_node_get_mem_sync_domain_map(
            graph,
            node,
        ) == Ok::<MemSyncDomainMap, SimError>(value),
{
    reveal(def_replaced);
}

/// The cluster dimension of a definition's kernel node reads back as it was set.
pub proof fn cluster_read_back(s: SimState, graph: GraphId, node: usize, value: Option<ClusterDim>)
    requires
        s.graph_kernel_node_set_cluster(graph, node, value).1 is Ok,
    ensures
        def_replaced(
            s,
            s.graph_kernel_node_set_cluster(graph, node, value).0,
            graph,
            node,
            NodeAttrs { cluster: value, ..s.def_attrs(graph, node)->Ok_0 },
        ),
        s.graph_kernel_node_set_cluster(graph, node, value).0.graph_kernel_node_get_cluster(
            graph,
            node,
        ) == Ok::<Option<ClusterDim>, SimError>(value),
{
    reveal(def_replaced);
}

/// The cluster scheduling policy of a definition's kernel node reads back as it was set.
pub proof fn cluster_policy_read_back(
    s: SimState,
    graph: GraphId,
    node: usize,
    value: ClusterSchedulingPolicy,
)
    requires
        s.graph_kernel_node_set_cluster_policy(graph, node, value).1 is Ok,
    ensures
        def_replaced(
            s,
            s.graph_kernel_node_set_cluster_policy(graph, node, value).0,
            graph,
            node,
            NodeAttrs { cluster_policy: value, ..s.def_attrs(graph, node)->Ok_0 },
        ),
        s.graph_kernel_node_set_cluster_policy(
            graph,
            node,
            value,
        ).0.graph_kernel_node_get_cluster_policy(
            graph,
            node,
        ) == Ok::<ClusterSchedulingPolicy, SimError>(value),
{
    reveal(def_replaced);
}

/// The preferred cluster dimension of a definition's kernel node reads back as it was set.
pub proof fn preferred_cluster_read_back(
    s: SimState,
    graph: GraphId,
    node: usize,
    value: Option<ClusterDim>,
)
    requires
        s.graph_kernel_node_set_preferred_cluster(graph, node, value).1 is Ok,
    ensures
        def_replaced(
            s,
            s.graph_kernel_node_set_preferred_cluster(graph, node, value).0,
            graph,
            node,
            NodeAttrs { preferred_cluster: value, ..s.def_attrs(graph, node)->Ok_0 },
        ),
        s.graph_kernel_node_set_preferred_cluster(
            graph,
            node,
            value,
        ).0.graph_kernel_node_get_preferred_cluster(
            graph,
            node,
        ) == Ok::<Option<ClusterDim>, SimError>(value),
{
    reveal(def_replaced);
}

/// The shared-memory carveout of a definition's kernel node reads back as it was set.
pub proof fn carveout_read_back(s: SimState, graph: GraphId, node: usize, value: SharedMemCarveout)
    requires
        s.graph_kernel_node_set_carveout(graph, node, value).1 is Ok,
    ensures
        def_replaced(
            s,
            s.graph_kernel_node_set_carveout(graph, node, value).0,
            graph,
            node,
            NodeAttrs { carveout: value, ..s.def_attrs(graph, node)->Ok_0 },
        ),
        s.graph_kernel_node_set_carveout(graph, node, value).0.graph_kernel_node_get_carveout(
            graph,
            node,
        ) == Ok::<SharedMemCarveout, SimError>(value),
{
    reveal(def_replaced);
}

/// The device-updatable mark of a definition's kernel node reads back as it was set.
pub proof fn device_updatable_read_back(s: SimState, graph: GraphId, node: usize, value: bool)
    requires
        s.graph_kernel_node_set_device_updatable(graph, node, value).1 is Ok,
    ensures
        def_replaced(
            s,
            s.graph_kernel_node_set_device_updatable(graph, node, value).0,
            graph,
            node,
            NodeAttrs { device_updatable: value, ..s.def_attrs(graph, node)->Ok_0 },
        ),
        s.graph_kernel_node_set_device_updatable(
            graph,
            node,
            value,
        ).0.graph_kernel_node_get_device_updatable(
            graph,
            node,
        ) == Ok::<bool, SimError>(value),
{
    reveal(def_replaced);
}

/// The shared-memory bank mode of a definition's kernel node reads back as it was set.
pub proof fn shared_mem_read_back(s: SimState, graph: GraphId, node: usize, value: SharedMemoryMode)
    requires
        s.graph_kernel_node_set_shared_mem(graph, node, value).1 is Ok,
    ensures
        def_replaced(
            s,
            s.graph_kernel_node_set_shared_mem(graph, node, value).0,
            graph,
            node,
            NodeAttrs { shared_mem: value, ..s.def_attrs(graph, node)->Ok_0 },
        ),
        s.graph_kernel_node_set_shared_mem(graph, node, value).0.graph_kernel_node_get_shared_mem(
            graph,
            node,
        ) == Ok::<SharedMemoryMode, SimError>(value),
{
    reveal(def_replaced);
}

/// The portable-cluster mode of a definition's kernel node reads back as it was set.
pub proof fn portable_cluster_read_back(
    s: SimState,
    graph: GraphId,
    node: usize,
    value: PortableClusterMode,
)
    requires
        s.graph_kernel_node_set_portable_cluster(graph, node, value).1 is Ok,
    ensures
        def_replaced(
            s,
            s.graph_kernel_node_set_portable_cluster(graph, node, value).0,
            graph,
            node,
            NodeAttrs { portable_cluster: value, ..s.def_attrs(graph, node)->Ok_0 },
        ),
        s.graph_kernel_node_set_portable_cluster(
            graph,
            node,
            value,
        ).0.graph_kernel_node_get_portable_cluster(
            graph,
            node,
        ) == Ok::<PortableClusterMode, SimError>(value),
{
    reveal(def_replaced);
}

/// The portable-shared mode of a definition's kernel node reads back as it was set.
pub proof fn portable_shared_read_back(
    s: SimState,
    graph: GraphId,
    node: usize,
    value: PortableSharedMode,
)
    requires
        s.graph_kernel_node_set_portable_shared(graph, node, value).1 is Ok,
    ensures
        def_replaced(
            s,
            s.graph_kernel_node_set_portable_shared(graph, node, value).0,
            graph,
            node,
            NodeAttrs { portable_shared: value, ..s.def_attrs(graph, node)->Ok_0 },
        ),
        s.graph_kernel_node_set_portable_shared(
            graph,
            node,
            value,
        ).0.graph_kernel_node_get_portable_shared(
            graph,
            node,
        ) == Ok::<PortableSharedMode, SimError>(value),
{
    reveal(def_replaced);
}

/// The dynamic shared memory of a definition's kernel node reads back as it was set.
pub proof fn dynamic_shared_read_back(s: SimState, graph: GraphId, node: usize, value: u32)
    requires
        s.graph_kernel_node_set_dynamic_shared(graph, node, value).1 is Ok,
    ensures
        def_replaced(
            s,
            s.graph_kernel_node_set_dynamic_shared(graph, node, value).0,
            graph,
            node,
            NodeAttrs { dynamic_shared: value, ..s.def_attrs(graph, node)->Ok_0 },
        ),
        s.graph_kernel_node_set_dynamic_shared(
            graph,
            node,
            value,
        ).0.graph_kernel_node_get_dynamic_shared(
            graph,
            node,
        ) == Ok::<u32, SimError>(value),
{
    reveal(def_replaced);
}

/// The NVLink-centric scheduling mark of a definition's kernel node reads back as it was set.
pub proof fn nvlink_util_centric_read_back(s: SimState, graph: GraphId, node: usize, value: bool)
    requires
        s.graph_kernel_node_set_nvlink_util_centric(graph, node, value).1 is Ok,
    ensures
        def_replaced(
            s,
            s.graph_kernel_node_set_nvlink_util_centric(graph, node, value).0,
            graph,
            node,
            NodeAttrs { nvlink_util_centric: value, ..s.def_attrs(graph, node)->Ok_0 },
        ),
        s.graph_kernel_node_set_nvlink_util_centric(
            graph,
            node,
            value,
        ).0.graph_kernel_node_get_nvlink_util_centric(
            graph,
            node,
        ) == Ok::<bool, SimError>(value),
{
    reveal(def_replaced);
}

/// An attribute of a definition's kernel node, given by name, reads back as it was set.
pub proof fn node_attribute_read_back(
    s: SimState,
    graph: GraphId,
    node: usize,
    attr: KernelNodeAttr,
    value: KernelNodeAttrValue,
)
    requires
        s.graph_kernel_node_set_attribute(graph, node, attr, value).1 is Ok,
    ensures
        s.graph_kernel_node_set_attribute(
            graph,
            node,
            attr,
            value,
        ).0.graph_kernel_node_get_attribute(
            graph,
            node,
            attr,
        ) == Ok::<KernelNodeAttrValue, SimError>(value),
{
    match (attr, value) {
        (
            KernelNodeAttr::Priority,
            KernelNodeAttrValue::Priority(v),
        ) => priority_read_back(s, graph, node, v),
        (KernelNodeAttr::Pdl, KernelNodeAttrValue::Pdl(v)) => pdl_read_back(s, graph, node, v),
        (
            KernelNodeAttr::ProgrammaticEvent,
            KernelNodeAttrValue::ProgrammaticEvent(v),
        ) => programmatic_event_read_back(s, graph, node, v),
        (
            KernelNodeAttr::LaunchCompletion,
            KernelNodeAttrValue::LaunchCompletion(v),
        ) => launch_completion_read_back(s, graph, node, v),
        (
            KernelNodeAttr::AccessPolicy,
            KernelNodeAttrValue::AccessPolicy(v),
        ) => access_policy_read_back(s, graph, node, v),
        (
            KernelNodeAttr::MemSyncDomain,
            KernelNodeAttrValue::MemSyncDomain(v),
        ) => mem_sync_domain_read_back(s, graph, node, v),
        (
            KernelNodeAttr::MemSyncDomainMap,
            KernelNodeAttrValue::MemSyncDomainMap(v),
        ) => mem_sync_domain_map_read_back(s, graph, node, v),
        (
            KernelNodeAttr::Cluster,
            KernelNodeAttrValue::Cluster(v),
        ) => cluster_read_back(s, graph, node, v),
        (
            KernelNodeAttr::ClusterPolicy,
            KernelNodeAttrValue::ClusterPolicy(v),
        ) => cluster_policy_read_back(s, graph, node, v),
        (
            KernelNodeAttr::PreferredCluster,
            KernelNodeAttrValue::PreferredCluster(v),
        ) => preferred_cluster_read_back(s, graph, node, v),
        (
            KernelNodeAttr::Carveout,
            KernelNodeAttrValue::Carveout(v),
        ) => carveout_read_back(s, graph, node, v),
        (
            KernelNodeAttr::DeviceUpdatable,
            KernelNodeAttrValue::DeviceUpdatable(v),
        ) => device_updatable_read_back(s, graph, node, v),
        (
            KernelNodeAttr::SharedMem,
            KernelNodeAttrValue::SharedMem(v),
        ) => shared_mem_read_back(s, graph, node, v),
        (
            KernelNodeAttr::PortableCluster,
            KernelNodeAttrValue::PortableCluster(v),
        ) => portable_cluster_read_back(s, graph, node, v),
        (
            KernelNodeAttr::PortableShared,
            KernelNodeAttrValue::PortableShared(v),
        ) => portable_shared_read_back(s, graph, node, v),
        (
            KernelNodeAttr::DynamicShared,
            KernelNodeAttrValue::DynamicShared(v),
        ) => dynamic_shared_read_back(s, graph, node, v),
        (
            KernelNodeAttr::NvlinkUtilCentric,
            KernelNodeAttrValue::NvlinkUtilCentric(v),
        ) => nvlink_util_centric_read_back(s, graph, node, v),
        _ => {},
    }
}

/// The priority of a executable's kernel node reads back as it was set.
pub proof fn exec_priority_read_back(s: SimState, graph: GraphId, node: usize, value: i32)
    requires
        s.graph_exec_kernel_node_set_priority(graph, node, value).1 is Ok,
    ensures
        exec_replaced(
            s,
            s.graph_exec_kernel_node_set_priority(graph, node, value).0,
            graph,
            node,
            NodeAttrs { priority: value, ..s.exec_attrs(graph, node)->Ok_0 },
        ),
        s.graph_exec_kernel_node_set_priority(
            graph,
            node,
            value,
        ).0.graph_exec_kernel_node_get_priority(
            graph,
            node,
        ) == Ok::<i32, SimError>(value),
{
    reveal(exec_replaced);
}

/// The programmatic launch of a executable's kernel node reads back as it was set.
pub proof fn exec_pdl_read_back(s: SimState, graph: GraphId, node: usize, value: ProgrammaticLaunch)
    requires
        s.graph_exec_kernel_node_set_pdl(graph, node, value).1 is Ok,
    ensures
        exec_replaced(
            s,
            s.graph_exec_kernel_node_set_pdl(graph, node, value).0,
            graph,
            node,
            NodeAttrs { pdl: value, ..s.exec_attrs(graph, node)->Ok_0 },
        ),
        s.graph_exec_kernel_node_set_pdl(graph, node, value).0.graph_exec_kernel_node_get_pdl(
            graph,
            node,
        ) == Ok::<ProgrammaticLaunch, SimError>(value),
{
    reveal(exec_replaced);
}

/// The programmatic event of a executable's kernel node reads back as it was set.
#[verifier::rlimit(60)]
pub proof fn exec_programmatic_event_read_back(
    s: SimState,
    graph: GraphId,
    node: usize,
    value: Option<ProgrammaticEvent>,
)
    requires
        s.graph_exec_kernel_node_set_programmatic_event(graph, node, value).1 is Ok,
    ensures
        exec_replaced(
            s,
            s.graph_exec_kernel_node_set_programmatic_event(graph, node, value).0,
            graph,
            node,
            NodeAttrs { programmatic_event: value, ..s.exec_attrs(graph, node)->Ok_0 },
        ),
        s.graph_exec_kernel_node_set_programmatic_event(
            graph,
            node,
            value,
        ).0.graph_exec_kernel_node_get_programmatic_event(
            graph,
            node,
        ) == Ok::<Option<ProgrammaticEvent>, SimError>(value),
{
    let id = s.as_exec(graph)->Ok_0;
    let attrs = NodeAttrs { programmatic_event: value, ..s.exec_attrs(graph, node)->Ok_0 };
    let u = match value {
        Some(e) => s.ensure_event(e.event),
        None => s,
    };
    let t = s.graph_exec_kernel_node_set_programmatic_event(graph, node, value).0;
    lemma_exec_set_after_event(s, u, id, node, attrs);
    assert(s.graph_exec_kernel_node_set_programmatic_event(graph, node, value) == u.set_exec_attrs(
        id,
        node,
        attrs,
    ));
    assert(exec_replaced(s, t, graph, node, attrs)) by {
        reveal(exec_replaced);
    }
    lemma_exec_replaced(s, t, graph, node, attrs, graph, node);
}

/// The launch-completion event of a executable's kernel node reads back as it was set.
#[verifier::rlimit(60)]
pub proof fn exec_launch_completion_read_back(
    s: SimState,
    graph: GraphId,
    node: usize,
    value: Option<LaunchCompletionEvent>,
)
    requires
        s.graph_exec_kernel_node_set_launch_completion(graph, node, value).1 is Ok,
    ensures
        exec_replaced(
            s,
            s.graph_exec_kernel_node_set_launch_completion(graph, node, value).0,
            graph,
            node,
            NodeAttrs { launch_completion: value, ..s.exec_attrs(graph, node)->Ok_0 },
        ),
        s.graph_exec_kernel_node_set_launch_completion(
            graph,
            node,
            value,
        ).0.graph_exec_kernel_node_get_launch_completion(
            graph,
            node,
        ) == Ok::<Option<LaunchCompletionEvent>, SimError>(value),
{
    let id = s.as_exec(graph)->Ok_0;
    let attrs = NodeAttrs { launch_completion: value, ..s.exec_attrs(graph, node)->Ok_0 };
    let u = match value {
        Some(e) => s.ensure_event(e.event),
        None => s,
    };
    let t = s.graph_exec_kernel_node_set_launch_completion(graph, node, value).0;
    lemma_exec_set_after_event(s, u, id, node, attrs);
    assert(s.graph_exec_kernel_node_set_launch_completion(graph, node, value) == u.set_exec_attrs(
        id,
        node,
        attrs,
    ));
    assert(exec_replaced(s, t, graph, node, attrs)) by {
        reveal(exec_replaced);
    }
    lemma_exec_replaced(s, t, graph, node, attrs, graph, node);
}

/// The access-policy window of a executable's kernel node reads back as it was set.
pub proof fn exec_access_policy_read_back(
    s: SimState,
    graph: GraphId,
    node: usize,
    value: Option<AccessPolicyWindow>,
)
    requires
        s.graph_exec_kernel_node_set_access_policy(graph, node, value).1 is Ok,
    ensures
        exec_replaced(
            s,
            s.graph_exec_kernel_node_set_access_policy(graph, node, value).0,
            graph,
            node,
            NodeAttrs { access_policy: value, ..s.exec_attrs(graph, node)->Ok_0 },
        ),
        s.graph_exec_kernel_node_set_access_policy(
            graph,
            node,
            value,
        ).0.graph_exec_kernel_node_get_access_policy(
            graph,
            node,
        ) == Ok::<Option<AccessPolicyWindow>, SimError>(value),
{
    reveal(exec_replaced);
}

/// The memory-synchronization domain of a executable's kernel node reads back as it was set.
pub proof fn exec_mem_sync_domain_read_back(
    s: SimState,
    graph: GraphId,
    node: usize,
    value: MemSyncDomain,
)
    requires
        s.graph_exec_kernel_node_set_mem_sync_domain(graph, node, value).1 is Ok,
    ensures
        exec_replaced(
            s,
            s.graph_exec_kernel_node_set_mem_sync_domain(graph, node, value).0,
            graph,
            node,
            NodeAttrs { mem_sync_domain: value, ..s.exec_attrs(graph, node)->Ok_0 },
        ),
        s.graph_exec_kernel_node_set_mem_sync_domain(
            graph,
            node,
            value,
        ).0.graph_exec_kernel_node_get_mem_sync_domain(
            graph,
            node,
        ) == Ok::<MemSyncDomain, SimError>(value),
{
    reveal(exec_replaced);
}

/// The memory-synchronization domain map of a executable's kernel node reads back as it was set.
pub proof fn exec_mem_sync_domain_map_read_back(
    s: SimState,
    graph: GraphId,
    node: usize,
    value: MemSyncDomainMap,
)
    requires
        s.graph_exec_kernel_node_set_mem_sync_domain_map(graph, node, value).1 is Ok,
    ensures
        exec_replaced(
            s,
            s.graph_exec_kernel_node_set_mem_sync_domain_map(graph, node, value).0,
            graph,
            node,
            NodeAttrs { mem_sync_map: value, ..s.exec_attrs(graph, node)->Ok_0 },
        ),
        s.graph_exec_kernel_node_set_mem_sync_domain_map(
            graph,
            node,
            value,
        ).0.graph_exec_kernel_node_get_mem_sync_domain_map(
            graph,
            node,
        ) == Ok::<MemSyncDomainMap, SimError>(value),
{
    reveal(exec_replaced);
}

/// The cluster dimension of a executable's kernel node reads back as it was set.
pub proof fn exec_cluster_read_back(
    s: SimState,
    graph: GraphId,
    node: usize,
    value: Option<ClusterDim>,
)
    requires
        s.graph_exec_kernel_node_set_cluster(graph, node, value).1 is Ok,
    ensures
        exec_replaced(
            s,
            s.graph_exec_kernel_node_set_cluster(graph, node, value).0,
            graph,
            node,
            NodeAttrs { cluster: value, ..s.exec_attrs(graph, node)->Ok_0 },
        ),
        s.graph_exec_kernel_node_set_cluster(
            graph,
            node,
            value,
        ).0.graph_exec_kernel_node_get_cluster(
            graph,
            node,
        ) == Ok::<Option<ClusterDim>, SimError>(value),
{
    reveal(exec_replaced);
}

/// The cluster scheduling policy of a executable's kernel node reads back as it was set.
pub proof fn exec_cluster_policy_read_back(
    s: SimState,
    graph: GraphId,
    node: usize,
    value: ClusterSchedulingPolicy,
)
    requires
        s.graph_exec_kernel_node_set_cluster_policy(graph, node, value).1 is Ok,
    ensures
        exec_replaced(
            s,
            s.graph_exec_kernel_node_set_cluster_policy(graph, node, value).0,
            graph,
            node,
            NodeAttrs { cluster_policy: value, ..s.exec_attrs(graph, node)->Ok_0 },
        ),
        s.graph_exec_kernel_node_set_cluster_policy(
            graph,
            node,
            value,
        ).0.graph_exec_kernel_node_get_cluster_policy(
            graph,
            node,
        ) == Ok::<ClusterSchedulingPolicy, SimError>(value),
{
    reveal(exec_replaced);
}

/// The preferred cluster dimension of a executable's kernel node reads back as it was set.
pub proof fn exec_preferred_cluster_read_back(
    s: SimState,
    graph: GraphId,
    node: usize,
    value: Option<ClusterDim>,
)
    requires
        s.graph_exec_kernel_node_set_preferred_cluster(graph, node, value).1 is Ok,
    ensures
        exec_replaced(
            s,
            s.graph_exec_kernel_node_set_preferred_cluster(graph, node, value).0,
            graph,
            node,
            NodeAttrs { preferred_cluster: value, ..s.exec_attrs(graph, node)->Ok_0 },
        ),
        s.graph_exec_kernel_node_set_preferred_cluster(
            graph,
            node,
            value,
        ).0.graph_exec_kernel_node_get_preferred_cluster(
            graph,
            node,
        ) == Ok::<Option<ClusterDim>, SimError>(value),
{
    reveal(exec_replaced);
}

/// The shared-memory carveout of a executable's kernel node reads back as it was set.
pub proof fn exec_carveout_read_back(
    s: SimState,
    graph: GraphId,
    node: usize,
    value: SharedMemCarveout,
)
    requires
        s.graph_exec_kernel_node_set_carveout(graph, node, value).1 is Ok,
    ensures
        exec_replaced(
            s,
            s.graph_exec_kernel_node_set_carveout(graph, node, value).0,
            graph,
            node,
            NodeAttrs { carveout: value, ..s.exec_attrs(graph, node)->Ok_0 },
        ),
        s.graph_exec_kernel_node_set_carveout(
            graph,
            node,
            value,
        ).0.graph_exec_kernel_node_get_carveout(
            graph,
            node,
        ) == Ok::<SharedMemCarveout, SimError>(value),
{
    reveal(exec_replaced);
}

/// The device-updatable mark of a executable's kernel node reads back as it was set.
pub proof fn exec_device_updatable_read_back(s: SimState, graph: GraphId, node: usize, value: bool)
    requires
        s.graph_exec_kernel_node_set_device_updatable(graph, node, value).1 is Ok,
    ensures
        exec_replaced(
            s,
            s.graph_exec_kernel_node_set_device_updatable(graph, node, value).0,
            graph,
            node,
            NodeAttrs { device_updatable: value, ..s.exec_attrs(graph, node)->Ok_0 },
        ),
        s.graph_exec_kernel_node_set_device_updatable(
            graph,
            node,
            value,
        ).0.graph_exec_kernel_node_get_device_updatable(
            graph,
            node,
        ) == Ok::<bool, SimError>(value),
{
    reveal(exec_replaced);
}

/// The shared-memory bank mode of a executable's kernel node reads back as it was set.
pub proof fn exec_shared_mem_read_back(
    s: SimState,
    graph: GraphId,
    node: usize,
    value: SharedMemoryMode,
)
    requires
        s.graph_exec_kernel_node_set_shared_mem(graph, node, value).1 is Ok,
    ensures
        exec_replaced(
            s,
            s.graph_exec_kernel_node_set_shared_mem(graph, node, value).0,
            graph,
            node,
            NodeAttrs { shared_mem: value, ..s.exec_attrs(graph, node)->Ok_0 },
        ),
        s.graph_exec_kernel_node_set_shared_mem(
            graph,
            node,
            value,
        ).0.graph_exec_kernel_node_get_shared_mem(
            graph,
            node,
        ) == Ok::<SharedMemoryMode, SimError>(value),
{
    reveal(exec_replaced);
}

/// The portable-cluster mode of a executable's kernel node reads back as it was set.
pub proof fn exec_portable_cluster_read_back(
    s: SimState,
    graph: GraphId,
    node: usize,
    value: PortableClusterMode,
)
    requires
        s.graph_exec_kernel_node_set_portable_cluster(graph, node, value).1 is Ok,
    ensures
        exec_replaced(
            s,
            s.graph_exec_kernel_node_set_portable_cluster(graph, node, value).0,
            graph,
            node,
            NodeAttrs { portable_cluster: value, ..s.exec_attrs(graph, node)->Ok_0 },
        ),
        s.graph_exec_kernel_node_set_portable_cluster(
            graph,
            node,
            value,
        ).0.graph_exec_kernel_node_get_portable_cluster(
            graph,
            node,
        ) == Ok::<PortableClusterMode, SimError>(value),
{
    reveal(exec_replaced);
}

/// The portable-shared mode of a executable's kernel node reads back as it was set.
pub proof fn exec_portable_shared_read_back(
    s: SimState,
    graph: GraphId,
    node: usize,
    value: PortableSharedMode,
)
    requires
        s.graph_exec_kernel_node_set_portable_shared(graph, node, value).1 is Ok,
    ensures
        exec_replaced(
            s,
            s.graph_exec_kernel_node_set_portable_shared(graph, node, value).0,
            graph,
            node,
            NodeAttrs { portable_shared: value, ..s.exec_attrs(graph, node)->Ok_0 },
        ),
        s.graph_exec_kernel_node_set_portable_shared(
            graph,
            node,
            value,
        ).0.graph_exec_kernel_node_get_portable_shared(
            graph,
            node,
        ) == Ok::<PortableSharedMode, SimError>(value),
{
    reveal(exec_replaced);
}

/// The dynamic shared memory of a executable's kernel node reads back as it was set.
pub proof fn exec_dynamic_shared_read_back(s: SimState, graph: GraphId, node: usize, value: u32)
    requires
        s.graph_exec_kernel_node_set_dynamic_shared(graph, node, value).1 is Ok,
    ensures
        exec_replaced(
            s,
            s.graph_exec_kernel_node_set_dynamic_shared(graph, node, value).0,
            graph,
            node,
            NodeAttrs { dynamic_shared: value, ..s.exec_attrs(graph, node)->Ok_0 },
        ),
        s.graph_exec_kernel_node_set_dynamic_shared(
            graph,
            node,
            value,
        ).0.graph_exec_kernel_node_get_dynamic_shared(
            graph,
            node,
        ) == Ok::<u32, SimError>(value),
{
    reveal(exec_replaced);
}

/// The NVLink-centric scheduling mark of a executable's kernel node reads back as it was set.
pub proof fn exec_nvlink_util_centric_read_back(
    s: SimState,
    graph: GraphId,
    node: usize,
    value: bool,
)
    requires
        s.graph_exec_kernel_node_set_nvlink_util_centric(graph, node, value).1 is Ok,
    ensures
        exec_replaced(
            s,
            s.graph_exec_kernel_node_set_nvlink_util_centric(graph, node, value).0,
            graph,
            node,
            NodeAttrs { nvlink_util_centric: value, ..s.exec_attrs(graph, node)->Ok_0 },
        ),
        s.graph_exec_kernel_node_set_nvlink_util_centric(
            graph,
            node,
            value,
        ).0.graph_exec_kernel_node_get_nvlink_util_centric(
            graph,
            node,
        ) == Ok::<bool, SimError>(value),
{
    reveal(exec_replaced);
}

/// An attribute of an executable's kernel node, given by name, reads back as it was set.
pub proof fn exec_node_attribute_read_back(
    s: SimState,
    graph: GraphId,
    node: usize,
    attr: KernelNodeAttr,
    value: KernelNodeAttrValue,
)
    requires
        s.graph_exec_kernel_node_set_attribute(graph, node, attr, value).1 is Ok,
    ensures
        s.graph_exec_kernel_node_set_attribute(
            graph,
            node,
            attr,
            value,
        ).0.graph_exec_kernel_node_get_attribute(
            graph,
            node,
            attr,
        ) == Ok::<KernelNodeAttrValue, SimError>(value),
{
    match (attr, value) {
        (
            KernelNodeAttr::Priority,
            KernelNodeAttrValue::Priority(v),
        ) => exec_priority_read_back(s, graph, node, v),
        (KernelNodeAttr::Pdl, KernelNodeAttrValue::Pdl(v)) => exec_pdl_read_back(s, graph, node, v),
        (
            KernelNodeAttr::ProgrammaticEvent,
            KernelNodeAttrValue::ProgrammaticEvent(v),
        ) => exec_programmatic_event_read_back(s, graph, node, v),
        (
            KernelNodeAttr::LaunchCompletion,
            KernelNodeAttrValue::LaunchCompletion(v),
        ) => exec_launch_completion_read_back(s, graph, node, v),
        (
            KernelNodeAttr::AccessPolicy,
            KernelNodeAttrValue::AccessPolicy(v),
        ) => exec_access_policy_read_back(s, graph, node, v),
        (
            KernelNodeAttr::MemSyncDomain,
            KernelNodeAttrValue::MemSyncDomain(v),
        ) => exec_mem_sync_domain_read_back(s, graph, node, v),
        (
            KernelNodeAttr::MemSyncDomainMap,
            KernelNodeAttrValue::MemSyncDomainMap(v),
        ) => exec_mem_sync_domain_map_read_back(s, graph, node, v),
        (
            KernelNodeAttr::Cluster,
            KernelNodeAttrValue::Cluster(v),
        ) => exec_cluster_read_back(s, graph, node, v),
        (
            KernelNodeAttr::ClusterPolicy,
            KernelNodeAttrValue::ClusterPolicy(v),
        ) => exec_cluster_policy_read_back(s, graph, node, v),
        (
            KernelNodeAttr::PreferredCluster,
            KernelNodeAttrValue::PreferredCluster(v),
        ) => exec_preferred_cluster_read_back(s, graph, node, v),
        (
            KernelNodeAttr::Carveout,
            KernelNodeAttrValue::Carveout(v),
        ) => exec_carveout_read_back(s, graph, node, v),
        (
            KernelNodeAttr::DeviceUpdatable,
            KernelNodeAttrValue::DeviceUpdatable(v),
        ) => exec_device_updatable_read_back(s, graph, node, v),
        (
            KernelNodeAttr::SharedMem,
            KernelNodeAttrValue::SharedMem(v),
        ) => exec_shared_mem_read_back(s, graph, node, v),
        (
            KernelNodeAttr::PortableCluster,
            KernelNodeAttrValue::PortableCluster(v),
        ) => exec_portable_cluster_read_back(s, graph, node, v),
        (
            KernelNodeAttr::PortableShared,
            KernelNodeAttrValue::PortableShared(v),
        ) => exec_portable_shared_read_back(s, graph, node, v),
        (
            KernelNodeAttr::DynamicShared,
            KernelNodeAttrValue::DynamicShared(v),
        ) => exec_dynamic_shared_read_back(s, graph, node, v),
        (
            KernelNodeAttr::NvlinkUtilCentric,
            KernelNodeAttrValue::NvlinkUtilCentric(v),
        ) => exec_nvlink_util_centric_read_back(s, graph, node, v),
        _ => {},
    }
}

/// Changing what a definition's node does leaves every executable snapshot and every other graph as
/// it is.
pub proof fn definition_edit_is_local(
    s: SimState,
    graph: GraphId,
    node: usize,
    kind: GpuOpView,
    other: GraphId,
)
    requires
        s.graphs.contains_key(other),
    ensures
        ({
            let t = s.set_def_kind(graph, node, kind).0;
            &&& t.graphs.contains_key(other)
            &&& t.graphs[other].snapshot == s.graphs[other].snapshot
            &&& t.graphs[other].uploaded == s.graphs[other].uploaded
            &&& other != graph ==> t.graphs[other] == s.graphs[other]
        }),
{
}

/// Changing what an executable's node does leaves every definition and every other graph as it is,
/// and asks for a new upload.
pub proof fn exec_edit_is_local(
    s: SimState,
    id: GraphId,
    node: usize,
    kind: GpuOpView,
    other: GraphId,
)
    requires
        s.graphs.contains_key(other),
    ensures
        ({
            let (t, r) = s.set_exec_kind(id, node, kind);
            &&& t.graphs.contains_key(other)
            &&& t.graphs[other].steps == s.graphs[other].steps
            &&& other != id ==> t.graphs[other] == s.graphs[other]
            &&& r is Ok ==> t.graphs.contains_key(id) && !t.graphs[id].uploaded
        }),
{
}

/// The parameters of a copy node read back as they were set.
pub proof fn memcpy_params_read_back(s: SimState, graph: GraphId, node: usize, op: MemcpyOp)
    requires
        s.graph_memcpy_set_params(graph, node, op).1 is Ok,
    ensures
        s.graph_memcpy_set_params(graph, node, op).0.graph_memcpy_get_params(graph, node) == Ok::<
            MemcpyOp,
            SimError,
        >(op),
{
}

/// The parameters of a host node read back as they were set.
pub proof fn host_params_read_back(s: SimState, graph: GraphId, node: usize, params: HostNodeParams)
    requires
        s.graph_host_set_params(graph, node, params).1 is Ok,
    ensures
        s.graph_host_set_params(graph, node, params).0.graph_host_get_params(graph, node) == Ok::<
            HostNodeParams,
            SimError,
        >(params),
{
}

/// The parameters of a kernel node read back as they were set, with the buffer lengths filled in.
pub proof fn kernel_params_read_back(
    s: SimState,
    graph: GraphId,
    node: usize,
    params: KernelParamsView,
)
    requires
        s.graph_kernel_set_params(graph, node, params).1 is Ok,
    ensures
        s.graph_kernel_set_params(graph, node, params).0.graph_kernel_get_params(graph, node)
            == Ok::<KernelParamsView, SimError>(
            KernelParamsView {
                reads: s.resolve_bufs(params.reads)->Ok_0,
                writes: s.resolve_bufs(params.writes)->Ok_0,
                ..params
            },
        ),
{
}

/// Whether an executable's node is on reads back as it was set.
pub proof fn enabled_read_back(s: SimState, graph: GraphId, node: usize, enabled: bool)
    requires
        s.graph_node_set_enabled(graph, node, enabled).1 is Ok,
    ensures
        s.graph_node_set_enabled(graph, node, enabled).0.graph_node_get_enabled(graph, node)
            == Ok::<bool, SimError>(enabled),
{
}

/// An executable is its own: instantiating it again makes nothing.
pub proof fn executable_instantiates_to_itself(s: SimState, id: GraphId)
    requires
        s.capturing is None,
        s.graphs.contains_key(id),
        s.graphs[id].instantiated,
    ensures
        s.instantiate_graph(id) == (s, Ok::<GraphId, SimError>(id)),
{
    assert(0u32 & !s.graphs[id].instantiate_flags == 0) by (bit_vector);
    assert(0u32 & !(1u32 | 2u32 | 4u32 | 8u32) == 0) by (bit_vector);
    assert(0u32 & 2u32 == 0) by (bit_vector);
}

/// A second upload takes no time and changes nothing.
pub proof fn upload_once(s: SimState, graph: GraphId)
    requires
        s.upload_graph(graph).1 is Ok,
    ensures
        ({
            let t = s.upload_graph(graph).0;
            &&& t.graph_uploaded(graph) == Ok::<bool, SimError>(true)
            &&& t.upload_graph(graph) == (t, Ok::<(), SimError>(()))
        }),
{
}

/// An update leaves the definition and every other graph as it is.
pub proof fn update_is_local(s: SimState, graph: GraphId, src: GraphId, other: GraphId)
    requires
        s.graphs.contains_key(other),
    ensures
        ({
            let t = s.update_graph(graph, src).0;
            &&& t.graphs.contains_key(other)
            &&& t.graphs[other].steps == s.graphs[other].steps
            &&& s.as_exec(graph) != Ok::<GraphId, SimError>(other) ==> t.graphs[other]
                == s.graphs[other]
        }),
{
    reveal(SimState::update_and_report);
    reveal(SimState::replace_steps);
}

/// A refused update changes nothing but time.
pub proof fn refused_update_changes_nothing(s: SimState, graph: GraphId, src: GraphId)
    requires
        s.update_graph(graph, src).1 is Err,
    ensures
        s.update_graph(graph, src).0 == s,
{
    reveal(SimState::update_and_report);
    reveal(SimState::replace_steps);
}

/// A destroyed graph is unknown: it is not launched any more.
pub proof fn destroyed_graph_is_unknown(s: SimState, graph: GraphId, stream: StreamId)
    requires
        s.destroy_graph(graph).1 is Ok,
    ensures
        ({
            let t = s.destroy_graph(graph).0;
            &&& !t.graphs.contains_key(graph)
            &&& t.launch_graph(graph, stream) == (t, Err::<u32, SimError>(invalid("unknown graph")))
        }),
{
    let g = s.graphs[graph];
    let s1 = SimState { graphs: s.graphs.remove(graph), ..s };
    release_graph_allocs_keeps_graphs(s1, graph);
    let s2 = s1.unlink_graph(graph, g.instantiated, g.src).0;
    release_user_objects_for_graph_keeps_graphs(s2, graph);
}

/// Adding a node adds exactly one, at the end and without dependencies.
pub proof fn node_added_last(s: SimState, graph: GraphId, on: Lane, kind: GpuOpView)
    requires
        s.graph_push(graph, on, kind).1 is Ok,
    ensures
        ({
            let t = s.graph_push(graph, on, kind).0;
            let before = s.graphs[graph].steps;
            let after = t.graphs[graph].steps;
            &&& after.len() == before.len() + 1
            &&& after.drop_last() == before
            &&& after.last().kind == kind
            &&& after.last().deps.len() == 0
            &&& !after.last().destroyed
        }),
{
    reveal(SimState::graph_push);
    let t = s.graph_push(graph, on, kind).0;
    assert(t.graphs[graph].steps.drop_last() =~= s.graphs[graph].steps);
}

proof fn lemma_other_value(
    s: SimState,
    attrs: NodeAttrs,
    attr: KernelNodeAttr,
    value: KernelNodeAttrValue,
    read: KernelNodeAttr,
)
    ensures
        read != attr ==> s.attr_value(with_value(attrs, attr, value), read) == s.attr_value(
            attrs,
            read,
        ),
{
}

proof fn lemma_def_replaced(
    s: SimState,
    t: SimState,
    graph: GraphId,
    node: usize,
    attrs: NodeAttrs,
    there: GraphId,
    at: usize,
)
    requires
        def_replaced(s, t, graph, node, attrs),
    ensures
        s.def_attrs(graph, node) is Ok,
        t.def_attrs(graph, node) == Ok::<NodeAttrs, SimError>(attrs),
        there != graph || at != node ==> t.def_attrs(there, at) == s.def_attrs(there, at),
        s.graphs.contains_key(there) && s.graphs[there].instantiated
            && s.graphs[there].snapshot is Some ==> t.exec_attrs(there, at) == s.exec_attrs(
            there,
            at,
        ),
        t.ops == s.ops,
        t.clock == s.clock.saturating_add(1),
{
    reveal(def_replaced);
}

proof fn lemma_exec_replaced(
    s: SimState,
    t: SimState,
    graph: GraphId,
    node: usize,
    attrs: NodeAttrs,
    there: GraphId,
    at: usize,
)
    requires
        exec_replaced(s, t, graph, node, attrs),
    ensures
        s.exec_attrs(graph, node) is Ok,
        t.exec_attrs(graph, node) == Ok::<NodeAttrs, SimError>(attrs),
        s.as_exec(there) != s.as_exec(graph) || at != node ==> t.exec_attrs(there, at)
            == s.exec_attrs(there, at),
        t.def_attrs(there, at) == s.def_attrs(there, at),
        t.ops == s.ops,
        t.clock == s.clock.saturating_add(1),
{
    reveal(exec_replaced);
}

#[verifier::rlimit(60)]
proof fn lemma_written(
    s: SimState,
    graph: GraphId,
    node: usize,
    attr: KernelNodeAttr,
    value: KernelNodeAttrValue,
)
    requires
        s.graph_kernel_node_set_attribute(graph, node, attr, value).1 is Ok,
    ensures
        def_replaced(
            s,
            s.graph_kernel_node_set_attribute(graph, node, attr, value).0,
            graph,
            node,
            with_value(s.def_attrs(graph, node)->Ok_0, attr, value),
        ),
{
    match (attr, value) {
        (
            KernelNodeAttr::Priority,
            KernelNodeAttrValue::Priority(v),
        ) => priority_read_back(s, graph, node, v),
        (KernelNodeAttr::Pdl, KernelNodeAttrValue::Pdl(v)) => pdl_read_back(s, graph, node, v),
        (
            KernelNodeAttr::ProgrammaticEvent,
            KernelNodeAttrValue::ProgrammaticEvent(v),
        ) => programmatic_event_read_back(s, graph, node, v),
        (
            KernelNodeAttr::LaunchCompletion,
            KernelNodeAttrValue::LaunchCompletion(v),
        ) => launch_completion_read_back(s, graph, node, v),
        (
            KernelNodeAttr::AccessPolicy,
            KernelNodeAttrValue::AccessPolicy(v),
        ) => access_policy_read_back(s, graph, node, v),
        (
            KernelNodeAttr::MemSyncDomain,
            KernelNodeAttrValue::MemSyncDomain(v),
        ) => mem_sync_domain_read_back(s, graph, node, v),
        (
            KernelNodeAttr::MemSyncDomainMap,
            KernelNodeAttrValue::MemSyncDomainMap(v),
        ) => mem_sync_domain_map_read_back(s, graph, node, v),
        (
            KernelNodeAttr::Cluster,
            KernelNodeAttrValue::Cluster(v),
        ) => cluster_read_back(s, graph, node, v),
        (
            KernelNodeAttr::ClusterPolicy,
            KernelNodeAttrValue::ClusterPolicy(v),
        ) => cluster_policy_read_back(s, graph, node, v),
        (
            KernelNodeAttr::PreferredCluster,
            KernelNodeAttrValue::PreferredCluster(v),
        ) => preferred_cluster_read_back(s, graph, node, v),
        (
            KernelNodeAttr::Carveout,
            KernelNodeAttrValue::Carveout(v),
        ) => carveout_read_back(s, graph, node, v),
        (
            KernelNodeAttr::DeviceUpdatable,
            KernelNodeAttrValue::DeviceUpdatable(v),
        ) => device_updatable_read_back(s, graph, node, v),
        (
            KernelNodeAttr::SharedMem,
            KernelNodeAttrValue::SharedMem(v),
        ) => shared_mem_read_back(s, graph, node, v),
        (
            KernelNodeAttr::PortableCluster,
            KernelNodeAttrValue::PortableCluster(v),
        ) => portable_cluster_read_back(s, graph, node, v),
        (
            KernelNodeAttr::PortableShared,
            KernelNodeAttrValue::PortableShared(v),
        ) => portable_shared_read_back(s, graph, node, v),
        (
            KernelNodeAttr::DynamicShared,
            KernelNodeAttrValue::DynamicShared(v),
        ) => dynamic_shared_read_back(s, graph, node, v),
        (
            KernelNodeAttr::NvlinkUtilCentric,
            KernelNodeAttrValue::NvlinkUtilCentric(v),
        ) => nvlink_util_centric_read_back(s, graph, node, v),
        _ => {},
    }
}

/// Setting an attribute of a definition's kernel node changes no other attribute of the node, no
/// attribute of another node and none of an executable, submits nothing and takes a nanosecond.
#[verifier::rlimit(60)]
pub proof fn node_attribute_set_alone(
    s: SimState,
    graph: GraphId,
    node: usize,
    attr: KernelNodeAttr,
    value: KernelNodeAttrValue,
    read: KernelNodeAttr,
    there: GraphId,
    at: usize,
)
    requires
        s.graph_kernel_node_set_attribute(graph, node, attr, value).1 is Ok,
    ensures
        ({
            let t = s.graph_kernel_node_set_attribute(graph, node, attr, value).0;
            &&& t.graph_kernel_node_get_attribute(
                graph,
                node,
                attr,
            ) == Ok::<KernelNodeAttrValue, SimError>(value)
            &&& read != attr ==> t.graph_kernel_node_get_attribute(graph, node, read)
                == s.graph_kernel_node_get_attribute(graph, node, read)
            &&& there != graph || at != node ==> t.graph_kernel_node_get_attribute(there, at, read)
                == s.graph_kernel_node_get_attribute(there, at, read)
            &&& s.graphs.contains_key(there) && s.graphs[there].instantiated
                && s.graphs[there].snapshot is Some ==> t.graph_exec_kernel_node_get_attribute(there, at, read)
                == s.graph_exec_kernel_node_get_attribute(there, at, read)
            &&& t.ops == s.ops
            &&& t.clock == s.clock.saturating_add(1)
        }),
{
    node_attribute_read_back(s, graph, node, attr, value);
    lemma_written(s, graph, node, attr, value);
    let t = s.graph_kernel_node_set_attribute(graph, node, attr, value).0;
    let was = s.def_attrs(graph, node)->Ok_0;
    lemma_def_replaced(s, t, graph, node, with_value(was, attr, value), there, at);
    lemma_other_value(s, was, attr, value, read);
}

#[verifier::rlimit(60)]
proof fn lemma_exec_written(
    s: SimState,
    graph: GraphId,
    node: usize,
    attr: KernelNodeAttr,
    value: KernelNodeAttrValue,
)
    requires
        s.graph_exec_kernel_node_set_attribute(graph, node, attr, value).1 is Ok,
    ensures
        exec_replaced(
            s,
            s.graph_exec_kernel_node_set_attribute(graph, node, attr, value).0,
            graph,
            node,
            with_value(s.exec_attrs(graph, node)->Ok_0, attr, value),
        ),
{
    match (attr, value) {
        (
            KernelNodeAttr::Priority,
            KernelNodeAttrValue::Priority(v),
        ) => exec_priority_read_back(s, graph, node, v),
        (KernelNodeAttr::Pdl, KernelNodeAttrValue::Pdl(v)) => exec_pdl_read_back(s, graph, node, v),
        (
            KernelNodeAttr::ProgrammaticEvent,
            KernelNodeAttrValue::ProgrammaticEvent(v),
        ) => exec_programmatic_event_read_back(s, graph, node, v),
        (
            KernelNodeAttr::LaunchCompletion,
            KernelNodeAttrValue::LaunchCompletion(v),
        ) => exec_launch_completion_read_back(s, graph, node, v),
        (
            KernelNodeAttr::AccessPolicy,
            KernelNodeAttrValue::AccessPolicy(v),
        ) => exec_access_policy_read_back(s, graph, node, v),
        (
            KernelNodeAttr::MemSyncDomain,
            KernelNodeAttrValue::MemSyncDomain(v),
        ) => exec_mem_sync_domain_read_back(s, graph, node, v),
        (
            KernelNodeAttr::MemSyncDomainMap,
            KernelNodeAttrValue::MemSyncDomainMap(v),
        ) => exec_mem_sync_domain_map_read_back(s, graph, node, v),
        (
            KernelNodeAttr::Cluster,
            KernelNodeAttrValue::Cluster(v),
        ) => exec_cluster_read_back(s, graph, node, v),
        (
            KernelNodeAttr::ClusterPolicy,
            KernelNodeAttrValue::ClusterPolicy(v),
        ) => exec_cluster_policy_read_back(s, graph, node, v),
        (
            KernelNodeAttr::PreferredCluster,
            KernelNodeAttrValue::PreferredCluster(v),
        ) => exec_preferred_cluster_read_back(s, graph, node, v),
        (
            KernelNodeAttr::Carveout,
            KernelNodeAttrValue::Carveout(v),
        ) => exec_carveout_read_back(s, graph, node, v),
        (
            KernelNodeAttr::DeviceUpdatable,
            KernelNodeAttrValue::DeviceUpdatable(v),
        ) => exec_device_updatable_read_back(s, graph, node, v),
        (
            KernelNodeAttr::SharedMem,
            KernelNodeAttrValue::SharedMem(v),
        ) => exec_shared_mem_read_back(s, graph, node, v),
        (
            KernelNodeAttr::PortableCluster,
            KernelNodeAttrValue::PortableCluster(v),
        ) => exec_portable_cluster_read_back(s, graph, node, v),
        (
            KernelNodeAttr::PortableShared,
            KernelNodeAttrValue::PortableShared(v),
        ) => exec_portable_shared_read_back(s, graph, node, v),
        (
            KernelNodeAttr::DynamicShared,
            KernelNodeAttrValue::DynamicShared(v),
        ) => exec_dynamic_shared_read_back(s, graph, node, v),
        (
            KernelNodeAttr::NvlinkUtilCentric,
            KernelNodeAttrValue::NvlinkUtilCentric(v),
        ) => exec_nvlink_util_centric_read_back(s, graph, node, v),
        _ => {},
    }
}

/// Setting an attribute of an executable's kernel node changes no other attribute of the node, no
/// attribute of another node and none of any definition, submits nothing and takes a nanosecond.
#[verifier::rlimit(60)]
pub proof fn exec_node_attribute_set_alone(
    s: SimState,
    graph: GraphId,
    node: usize,
    attr: KernelNodeAttr,
    value: KernelNodeAttrValue,
    read: KernelNodeAttr,
    there: GraphId,
    at: usize,
)
    requires
        s.graph_exec_kernel_node_set_attribute(graph, node, attr, value).1 is Ok,
    ensures
        ({
            let t = s.graph_exec_kernel_node_set_attribute(graph, node, attr, value).0;
            &&& t.graph_exec_kernel_node_get_attribute(
                graph,
                node,
                attr,
            ) == Ok::<KernelNodeAttrValue, SimError>(value)
            &&& read != attr ==> t.graph_exec_kernel_node_get_attribute(graph, node, read)
                == s.graph_exec_kernel_node_get_attribute(graph, node, read)
            &&& s.as_exec(there) != s.as_exec(graph) || at != node ==> t.graph_exec_kernel_node_get_attribute(
                there,
                at,
                read,
            ) == s.graph_exec_kernel_node_get_attribute(there, at, read)
            &&& t.graph_kernel_node_get_attribute(there, at, read) == s.graph_kernel_node_get_attribute(there, at, read)
            &&& t.ops == s.ops
            &&& t.clock == s.clock.saturating_add(1)
        }),
{
    exec_node_attribute_read_back(s, graph, node, attr, value);
    lemma_exec_written(s, graph, node, attr, value);
    let t = s.graph_exec_kernel_node_set_attribute(graph, node, attr, value).0;
    let was = s.exec_attrs(graph, node)->Ok_0;
    lemma_exec_replaced(s, t, graph, node, with_value(was, attr, value), there, at);
    lemma_other_value(s, was, attr, value, read);
}

} // verus!
