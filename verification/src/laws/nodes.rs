//! Copying the attributes of kernel nodes.
use vstd::prelude::*;
use crate::error::SimError;
use crate::ids::GraphId;
use crate::ops::{
    AccessPolicyWindow, ClusterDim, ClusterSchedulingPolicy, LaunchCompletionEvent, MemSyncDomain,
    MemSyncDomainMap, PortableClusterMode, PortableSharedMode, ProgrammaticEvent,
    ProgrammaticLaunch, SharedMemCarveout, SharedMemoryMode,
};
use crate::sim::SimState;
use crate::state::NodeAttrs;

verus! {

/// From `s` to `t` the kernel node of a definition got these attributes, and no other node changed
/// its own.
pub open spec fn edits_attrs(
    s: SimState,
    t: SimState,
    graph: GraphId,
    node: usize,
    attrs: NodeAttrs,
) -> bool {
    &&& t.def_attrs(graph, node) == Ok::<NodeAttrs, SimError>(attrs)
    &&& forall|g: GraphId, n: usize| g != graph || n != node ==> #[trigger] t.def_attrs(g, n)
        == s.def_attrs(g, n)
}

proof fn lemma_set_priority(s: SimState, graph: GraphId, node: usize, value: i32)
    requires
        s.graph_kernel_node_set_priority(graph, node, value).1 is Ok,
    ensures
        s.def_attrs(graph, node) is Ok,
        edits_attrs(
            s,
            s.graph_kernel_node_set_priority(graph, node, value).0,
            graph,
            node,
            (NodeAttrs { priority: value, ..s.def_attrs(graph, node)->Ok_0 }),
        ),
{
}

proof fn lemma_set_pdl(s: SimState, graph: GraphId, node: usize, value: ProgrammaticLaunch)
    requires
        s.graph_kernel_node_set_pdl(graph, node, value).1 is Ok,
    ensures
        s.def_attrs(graph, node) is Ok,
        edits_attrs(
            s,
            s.graph_kernel_node_set_pdl(graph, node, value).0,
            graph,
            node,
            (NodeAttrs { pdl: value, ..s.def_attrs(graph, node)->Ok_0 }),
        ),
{
}

proof fn lemma_set_programmatic_event(
    s: SimState,
    graph: GraphId,
    node: usize,
    value: Option<ProgrammaticEvent>,
)
    requires
        s.graph_kernel_node_set_programmatic_event(graph, node, value).1 is Ok,
    ensures
        s.def_attrs(graph, node) is Ok,
        edits_attrs(
            s,
            s.graph_kernel_node_set_programmatic_event(graph, node, value).0,
            graph,
            node,
            (NodeAttrs { programmatic_event: value, ..s.def_attrs(graph, node)->Ok_0 }),
        ),
{
}

proof fn lemma_set_launch_completion(
    s: SimState,
    graph: GraphId,
    node: usize,
    value: Option<LaunchCompletionEvent>,
)
    requires
        s.graph_kernel_node_set_launch_completion(graph, node, value).1 is Ok,
    ensures
        s.def_attrs(graph, node) is Ok,
        edits_attrs(
            s,
            s.graph_kernel_node_set_launch_completion(graph, node, value).0,
            graph,
            node,
            (NodeAttrs { launch_completion: value, ..s.def_attrs(graph, node)->Ok_0 }),
        ),
{
}

proof fn lemma_set_access_policy(
    s: SimState,
    graph: GraphId,
    node: usize,
    value: Option<AccessPolicyWindow>,
)
    requires
        s.graph_kernel_node_set_access_policy(graph, node, value).1 is Ok,
    ensures
        s.def_attrs(graph, node) is Ok,
        edits_attrs(
            s,
            s.graph_kernel_node_set_access_policy(graph, node, value).0,
            graph,
            node,
            (NodeAttrs { access_policy: value, ..s.def_attrs(graph, node)->Ok_0 }),
        ),
{
}

proof fn lemma_set_mem_sync_domain(s: SimState, graph: GraphId, node: usize, value: MemSyncDomain)
    requires
        s.graph_kernel_node_set_mem_sync_domain(graph, node, value).1 is Ok,
    ensures
        s.def_attrs(graph, node) is Ok,
        edits_attrs(
            s,
            s.graph_kernel_node_set_mem_sync_domain(graph, node, value).0,
            graph,
            node,
            (NodeAttrs { mem_sync_domain: value, ..s.def_attrs(graph, node)->Ok_0 }),
        ),
{
}

proof fn lemma_set_mem_sync_domain_map(
    s: SimState,
    graph: GraphId,
    node: usize,
    value: MemSyncDomainMap,
)
    requires
        s.graph_kernel_node_set_mem_sync_domain_map(graph, node, value).1 is Ok,
    ensures
        s.def_attrs(graph, node) is Ok,
        edits_attrs(
            s,
            s.graph_kernel_node_set_mem_sync_domain_map(graph, node, value).0,
            graph,
            node,
            (NodeAttrs { mem_sync_map: value, ..s.def_attrs(graph, node)->Ok_0 }),
        ),
{
}

proof fn lemma_set_portable_cluster(
    s: SimState,
    graph: GraphId,
    node: usize,
    value: PortableClusterMode,
)
    requires
        s.graph_kernel_node_set_portable_cluster(graph, node, value).1 is Ok,
    ensures
        s.def_attrs(graph, node) is Ok,
        edits_attrs(
            s,
            s.graph_kernel_node_set_portable_cluster(graph, node, value).0,
            graph,
            node,
            (NodeAttrs { portable_cluster: value, ..s.def_attrs(graph, node)->Ok_0 }),
        ),
{
}

proof fn lemma_set_cluster(s: SimState, graph: GraphId, node: usize, value: Option<ClusterDim>)
    requires
        s.graph_kernel_node_set_cluster(graph, node, value).1 is Ok,
    ensures
        s.def_attrs(graph, node) is Ok,
        edits_attrs(
            s,
            s.graph_kernel_node_set_cluster(graph, node, value).0,
            graph,
            node,
            (NodeAttrs { cluster: value, ..s.def_attrs(graph, node)->Ok_0 }),
        ),
{
}

proof fn lemma_set_cluster_policy(
    s: SimState,
    graph: GraphId,
    node: usize,
    value: ClusterSchedulingPolicy,
)
    requires
        s.graph_kernel_node_set_cluster_policy(graph, node, value).1 is Ok,
    ensures
        s.def_attrs(graph, node) is Ok,
        edits_attrs(
            s,
            s.graph_kernel_node_set_cluster_policy(graph, node, value).0,
            graph,
            node,
            (NodeAttrs { cluster_policy: value, ..s.def_attrs(graph, node)->Ok_0 }),
        ),
{
}

proof fn lemma_set_preferred_cluster(
    s: SimState,
    graph: GraphId,
    node: usize,
    value: Option<ClusterDim>,
)
    requires
        s.graph_kernel_node_set_preferred_cluster(graph, node, value).1 is Ok,
    ensures
        s.def_attrs(graph, node) is Ok,
        edits_attrs(
            s,
            s.graph_kernel_node_set_preferred_cluster(graph, node, value).0,
            graph,
            node,
            (NodeAttrs { preferred_cluster: value, ..s.def_attrs(graph, node)->Ok_0 }),
        ),
{
}

proof fn lemma_set_carveout(s: SimState, graph: GraphId, node: usize, value: SharedMemCarveout)
    requires
        s.graph_kernel_node_set_carveout(graph, node, value).1 is Ok,
    ensures
        s.def_attrs(graph, node) is Ok,
        edits_attrs(
            s,
            s.graph_kernel_node_set_carveout(graph, node, value).0,
            graph,
            node,
            (NodeAttrs { carveout: value, ..s.def_attrs(graph, node)->Ok_0 }),
        ),
{
}

proof fn lemma_set_device_updatable(s: SimState, graph: GraphId, node: usize, value: bool)
    requires
        s.graph_kernel_node_set_device_updatable(graph, node, value).1 is Ok,
    ensures
        s.def_attrs(graph, node) is Ok,
        edits_attrs(
            s,
            s.graph_kernel_node_set_device_updatable(graph, node, value).0,
            graph,
            node,
            (NodeAttrs { device_updatable: value, ..s.def_attrs(graph, node)->Ok_0 }),
        ),
{
}

proof fn lemma_set_shared_mem(s: SimState, graph: GraphId, node: usize, value: SharedMemoryMode)
    requires
        s.graph_kernel_node_set_shared_mem(graph, node, value).1 is Ok,
    ensures
        s.def_attrs(graph, node) is Ok,
        edits_attrs(
            s,
            s.graph_kernel_node_set_shared_mem(graph, node, value).0,
            graph,
            node,
            (NodeAttrs { shared_mem: value, ..s.def_attrs(graph, node)->Ok_0 }),
        ),
{
}

proof fn lemma_set_portable_shared(
    s: SimState,
    graph: GraphId,
    node: usize,
    value: PortableSharedMode,
)
    requires
        s.graph_kernel_node_set_portable_shared(graph, node, value).1 is Ok,
    ensures
        s.def_attrs(graph, node) is Ok,
        edits_attrs(
            s,
            s.graph_kernel_node_set_portable_shared(graph, node, value).0,
            graph,
            node,
            (NodeAttrs { portable_shared: value, ..s.def_attrs(graph, node)->Ok_0 }),
        ),
{
}

proof fn lemma_set_nvlink_util_centric(s: SimState, graph: GraphId, node: usize, value: bool)
    requires
        s.graph_kernel_node_set_nvlink_util_centric(graph, node, value).1 is Ok,
    ensures
        s.def_attrs(graph, node) is Ok,
        edits_attrs(
            s,
            s.graph_kernel_node_set_nvlink_util_centric(graph, node, value).0,
            graph,
            node,
            (NodeAttrs { nvlink_util_centric: value, ..s.def_attrs(graph, node)->Ok_0 }),
        ),
{
}

proof fn lemma_copy_launch_attrs(
    s: SimState,
    dst_graph: GraphId,
    dst: usize,
    src_graph: GraphId,
    src: usize,
)
    requires
        s.copy_launch_attrs(dst_graph, dst, src_graph, src).1 is Ok,
    ensures
        s.def_attrs(src_graph, src) is Ok,
        s.def_attrs(dst_graph, dst) is Ok,
        ({
            let a = s.def_attrs(src_graph, src)->Ok_0;
            let d = s.def_attrs(dst_graph, dst)->Ok_0;
            edits_attrs(s, s.copy_launch_attrs(dst_graph, dst, src_graph, src).0, dst_graph, dst, (NodeAttrs {
                priority: a.priority,
                pdl: a.pdl,
                programmatic_event: a.programmatic_event,
                launch_completion: a.launch_completion,
                access_policy: a.access_policy,
                ..d
            }))
        }),
{
    reveal(SimState::copy_launch_attrs);
    let a = s.def_attrs(src_graph, src)->Ok_0;
    let s0 = s;
    lemma_set_priority(s0, dst_graph, dst, a.priority);
    let s1 = s0.graph_kernel_node_set_priority(dst_graph, dst, a.priority).0;
    lemma_set_pdl(s1, dst_graph, dst, a.pdl);
    let s2 = s1.graph_kernel_node_set_pdl(dst_graph, dst, a.pdl).0;
    lemma_set_programmatic_event(s2, dst_graph, dst, a.programmatic_event);
    let s3 = s2.graph_kernel_node_set_programmatic_event(dst_graph, dst, a.programmatic_event).0;
    lemma_set_launch_completion(s3, dst_graph, dst, a.launch_completion);
    let s4 = s3.graph_kernel_node_set_launch_completion(dst_graph, dst, a.launch_completion).0;
    lemma_set_access_policy(s4, dst_graph, dst, a.access_policy);
    let s5 = s4.graph_kernel_node_set_access_policy(dst_graph, dst, a.access_policy).0;
}

proof fn lemma_copy_sync_attrs(
    s: SimState,
    dst_graph: GraphId,
    dst: usize,
    src_graph: GraphId,
    src: usize,
)
    requires
        s.copy_sync_attrs(dst_graph, dst, src_graph, src).1 is Ok,
    ensures
        s.def_attrs(src_graph, src) is Ok,
        s.def_attrs(dst_graph, dst) is Ok,
        ({
            let a = s.def_attrs(src_graph, src)->Ok_0;
            let d = s.def_attrs(dst_graph, dst)->Ok_0;
            edits_attrs(s, s.copy_sync_attrs(dst_graph, dst, src_graph, src).0, dst_graph, dst, (NodeAttrs {
                mem_sync_domain: a.mem_sync_domain,
                mem_sync_map: a.mem_sync_map,
                ..d
            }))
        }),
{
    reveal(SimState::copy_sync_attrs);
    let a = s.def_attrs(src_graph, src)->Ok_0;
    let s0 = s;
    lemma_set_mem_sync_domain(s0, dst_graph, dst, a.mem_sync_domain);
    let s1 = s0.graph_kernel_node_set_mem_sync_domain(dst_graph, dst, a.mem_sync_domain).0;
    lemma_set_mem_sync_domain_map(s1, dst_graph, dst, a.mem_sync_map);
    let s2 = s1.graph_kernel_node_set_mem_sync_domain_map(dst_graph, dst, a.mem_sync_map).0;
}

proof fn lemma_copy_cluster_attrs(
    s: SimState,
    dst_graph: GraphId,
    dst: usize,
    src_graph: GraphId,
    src: usize,
)
    requires
        s.copy_cluster_attrs(dst_graph, dst, src_graph, src).1 is Ok,
    ensures
        s.def_attrs(src_graph, src) is Ok,
        s.def_attrs(dst_graph, dst) is Ok,
        ({
            let a = s.def_attrs(src_graph, src)->Ok_0;
            let d = s.def_attrs(dst_graph, dst)->Ok_0;
            edits_attrs(s, s.copy_cluster_attrs(dst_graph, dst, src_graph, src).0, dst_graph, dst, (NodeAttrs {
                portable_cluster: a.portable_cluster,
                cluster: a.cluster,
                cluster_policy: a.cluster_policy,
                preferred_cluster: a.preferred_cluster,
                ..d
            }))
        }),
{
    reveal(SimState::copy_cluster_attrs);
    let a = s.def_attrs(src_graph, src)->Ok_0;
    let s0 = s;
    lemma_set_portable_cluster(s0, dst_graph, dst, a.portable_cluster);
    let s1 = s0.graph_kernel_node_set_portable_cluster(dst_graph, dst, a.portable_cluster).0;
    lemma_set_cluster(s1, dst_graph, dst, a.cluster);
    let s2 = s1.graph_kernel_node_set_cluster(dst_graph, dst, a.cluster).0;
    lemma_set_cluster_policy(s2, dst_graph, dst, a.cluster_policy);
    let s3 = s2.graph_kernel_node_set_cluster_policy(dst_graph, dst, a.cluster_policy).0;
    lemma_set_preferred_cluster(s3, dst_graph, dst, a.preferred_cluster);
    let s4 = s3.graph_kernel_node_set_preferred_cluster(dst_graph, dst, a.preferred_cluster).0;
}

proof fn lemma_copy_shared_attrs(
    s: SimState,
    dst_graph: GraphId,
    dst: usize,
    src_graph: GraphId,
    src: usize,
)
    requires
        s.copy_shared_attrs(dst_graph, dst, src_graph, src).1 is Ok,
    ensures
        s.def_attrs(src_graph, src) is Ok,
        s.def_attrs(dst_graph, dst) is Ok,
        ({
            let a = s.def_attrs(src_graph, src)->Ok_0;
            let d = s.def_attrs(dst_graph, dst)->Ok_0;
            edits_attrs(s, s.copy_shared_attrs(dst_graph, dst, src_graph, src).0, dst_graph, dst, (NodeAttrs {
                carveout: a.carveout,
                device_updatable: a.device_updatable,
                shared_mem: a.shared_mem,
                portable_shared: a.portable_shared,
                ..d
            }))
        }),
{
    reveal(SimState::copy_shared_attrs);
    let a = s.def_attrs(src_graph, src)->Ok_0;
    let s0 = s;
    lemma_set_carveout(s0, dst_graph, dst, a.carveout);
    let s1 = s0.graph_kernel_node_set_carveout(dst_graph, dst, a.carveout).0;
    lemma_set_device_updatable(s1, dst_graph, dst, a.device_updatable);
    let s2 = s1.graph_kernel_node_set_device_updatable(dst_graph, dst, a.device_updatable).0;
    lemma_set_shared_mem(s2, dst_graph, dst, a.shared_mem);
    let s3 = s2.graph_kernel_node_set_shared_mem(dst_graph, dst, a.shared_mem).0;
    lemma_set_portable_shared(s3, dst_graph, dst, a.portable_shared);
    let s4 = s3.graph_kernel_node_set_portable_shared(dst_graph, dst, a.portable_shared).0;
}

/// A kernel node gets the attributes of another one, all but the size of its dynamic shared memory.
/// No other node changes its own.
pub proof fn node_attributes_copied(
    s: SimState,
    dst_graph: GraphId,
    dst: usize,
    src_graph: GraphId,
    src: usize,
)
    requires
        s.graph_kernel_node_copy_attributes(dst_graph, dst, src_graph, src).1 is Ok,
    ensures
        s.def_attrs(src_graph, src) is Ok,
        s.def_attrs(dst_graph, dst) is Ok,
        edits_attrs(
            s,
            s.graph_kernel_node_copy_attributes(dst_graph, dst, src_graph, src).0,
            dst_graph,
            dst,
            (NodeAttrs {
                dynamic_shared: s.def_attrs(dst_graph, dst)->Ok_0.dynamic_shared,
                ..s.def_attrs(src_graph, src)->Ok_0
            }),
        ),
{
    let a = s.def_attrs(src_graph, src)->Ok_0;
    lemma_copy_launch_attrs(s, dst_graph, dst, src_graph, src);
    let s1 = s.copy_launch_attrs(dst_graph, dst, src_graph, src).0;
    lemma_copy_sync_attrs(s1, dst_graph, dst, src_graph, src);
    let s2 = s1.copy_sync_attrs(dst_graph, dst, src_graph, src).0;
    lemma_copy_cluster_attrs(s2, dst_graph, dst, src_graph, src);
    let s3 = s2.copy_cluster_attrs(dst_graph, dst, src_graph, src).0;
    lemma_copy_shared_attrs(s3, dst_graph, dst, src_graph, src);
    let s4 = s3.copy_shared_attrs(dst_graph, dst, src_graph, src).0;
    lemma_set_nvlink_util_centric(s4, dst_graph, dst, a.nvlink_util_centric);
}

} // verus!
