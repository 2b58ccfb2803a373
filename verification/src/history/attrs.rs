//! Histories of the operations in `sim::attrs`.
use vstd::prelude::*;
use crate::history::follows;
use crate::history::access::tick_follows;
use crate::history::events::ensure_event_follows;
use crate::history::params::{put_def_step_follows, put_exec_step_follows};
use crate::ids::GraphId;
use crate::ops::{
    AccessPolicyWindow, ClusterDim, ClusterSchedulingPolicy, KernelNodeAttr, KernelNodeAttrValue,
    LaunchCompletionEvent, MemSyncDomain, MemSyncDomainMap, PortableClusterMode, PortableSharedMode,
    ProgrammaticEvent, ProgrammaticLaunch, SharedMemCarveout, SharedMemoryMode,
};
use crate::sim::SimState;
use crate::state::{NodeAttrs, StepView};

verus! {

/// [`Sim::set_def_attrs`] continues the history.
pub proof fn set_def_attrs_follows(
    z: SimState,
    s0: SimState,
    graph: GraphId,
    node: usize,
    attrs: NodeAttrs,
)
    requires
        follows(z, s0),
    ensures
        follows(z, s0.set_def_attrs(graph, node, attrs).0),
{
    let s = s0;
    match s.kernel_def_step(graph, node) {
        Err(e) => {},
        Ok(v1) => {
            let step = v1;
            let step = StepView { attrs: attrs, ..step };
            put_def_step_follows(z, s, graph, node, step);
            let s = s.put_def_step(graph, node, step);
            tick_follows(z, s, 1);
        },
    }
}

/// [`Sim::set_exec_attrs`] continues the history.
pub proof fn set_exec_attrs_follows(
    z: SimState,
    s0: SimState,
    id: GraphId,
    node: usize,
    attrs: NodeAttrs,
)
    requires
        follows(z, s0),
    ensures
        follows(z, s0.set_exec_attrs(id, node, attrs).0),
{
    let s = s0;
    match s.kernel_exec_step(id, node) {
        Err(e) => {},
        Ok(v1) => {
            let step = v1;
            match s.graph_ref(id) {
                Err(e) => {},
                Ok(g) => {
                    let uploaded = g.uploaded;
                    let step = StepView { attrs: attrs, ..step };
                    put_exec_step_follows(z, s, id, node, step, uploaded);
                    match s.put_exec_step(id, node, step, uploaded) {
                        (s, Err(e)) => {},
                        (s, Ok(_v)) => {
                            tick_follows(z, s, 1);
                        },
                    }
                },
            }
        },
    }
}

/// [`Sim::graph_kernel_node_set_priority`] continues the history.
pub proof fn graph_kernel_node_set_priority_follows(
    z: SimState,
    s0: SimState,
    graph: GraphId,
    node: usize,
    priority: i32,
)
    requires
        follows(z, s0),
    ensures
        follows(z, s0.graph_kernel_node_set_priority(graph, node, priority).0),
{
    let s = s0;
    match s.fail_if_capturing("cannot capture kernel node set attribute") {
        Err(e) => {},
        Ok(_v) => match s.kernel_def_step(graph, node) {
            Err(e) => {},
            Ok(step) => {
                let attrs = step.attrs;
                let attrs = NodeAttrs { priority: priority, ..attrs };
                set_def_attrs_follows(z, s, graph, node, attrs);
            },
        },
    }
}

/// [`Sim::graph_exec_kernel_node_set_priority`] continues the history.
pub proof fn graph_exec_kernel_node_set_priority_follows(
    z: SimState,
    s0: SimState,
    graph: GraphId,
    node: usize,
    priority: i32,
)
    requires
        follows(z, s0),
    ensures
        follows(z, s0.graph_exec_kernel_node_set_priority(graph, node, priority).0),
{
    let s = s0;
    match s.fail_if_capturing("cannot capture kernel node set attribute") {
        Err(e) => {},
        Ok(_v) => match s.as_exec(graph) {
            Err(e) => {},
            Ok(id) => match s.kernel_exec_step(id, node) {
                Err(e) => {},
                Ok(step) => {
                    let attrs = step.attrs;
                    let attrs = NodeAttrs { priority: priority, ..attrs };
                    set_exec_attrs_follows(z, s, id, node, attrs);
                },
            },
        },
    }
}

/// [`Sim::graph_kernel_node_set_pdl`] continues the history.
pub proof fn graph_kernel_node_set_pdl_follows(
    z: SimState,
    s0: SimState,
    graph: GraphId,
    node: usize,
    pdl: ProgrammaticLaunch,
)
    requires
        follows(z, s0),
    ensures
        follows(z, s0.graph_kernel_node_set_pdl(graph, node, pdl).0),
{
    let s = s0;
    match s.fail_if_capturing("cannot capture kernel node set attribute") {
        Err(e) => {},
        Ok(_v) => match s.kernel_def_step(graph, node) {
            Err(e) => {},
            Ok(step) => {
                let attrs = step.attrs;
                let attrs = NodeAttrs { pdl: pdl, ..attrs };
                set_def_attrs_follows(z, s, graph, node, attrs);
            },
        },
    }
}

/// [`Sim::graph_exec_kernel_node_set_pdl`] continues the history.
pub proof fn graph_exec_kernel_node_set_pdl_follows(
    z: SimState,
    s0: SimState,
    graph: GraphId,
    node: usize,
    pdl: ProgrammaticLaunch,
)
    requires
        follows(z, s0),
    ensures
        follows(z, s0.graph_exec_kernel_node_set_pdl(graph, node, pdl).0),
{
    let s = s0;
    match s.fail_if_capturing("cannot capture kernel node set attribute") {
        Err(e) => {},
        Ok(_v) => match s.as_exec(graph) {
            Err(e) => {},
            Ok(id) => match s.kernel_exec_step(id, node) {
                Err(e) => {},
                Ok(step) => {
                    let attrs = step.attrs;
                    let attrs = NodeAttrs { pdl: pdl, ..attrs };
                    set_exec_attrs_follows(z, s, id, node, attrs);
                },
            },
        },
    }
}

/// [`Sim::graph_kernel_node_set_programmatic_event`] continues the history.
pub proof fn graph_kernel_node_set_programmatic_event_follows(
    z: SimState,
    s0: SimState,
    graph: GraphId,
    node: usize,
    event: Option<ProgrammaticEvent>,
)
    requires
        follows(z, s0),
    ensures
        follows(z, s0.graph_kernel_node_set_programmatic_event(graph, node, event).0),
{
    let s = s0;
    match s.fail_if_capturing("cannot capture kernel node set attribute") {
        Err(e) => {},
        Ok(_v) => match s.kernel_def_step(graph, node) {
            Err(e) => {},
            Ok(step) => {
                let attrs = step.attrs;
                let attrs = NodeAttrs { programmatic_event: event, ..attrs };
                match event {
                    Some(e) => {
                        ensure_event_follows(z, s, e.event);
                    },
                    _ => {},
                }
                let s = match event {
                    Some(e) => {
                        let s = s.ensure_event(e.event);
                        s
                    },
                    _ => s,
                };
                set_def_attrs_follows(z, s, graph, node, attrs);
            },
        },
    }
}

/// [`Sim::graph_exec_kernel_node_set_programmatic_event`] continues the history.
pub proof fn graph_exec_kernel_node_set_programmatic_event_follows(
    z: SimState,
    s0: SimState,
    graph: GraphId,
    node: usize,
    event: Option<ProgrammaticEvent>,
)
    requires
        follows(z, s0),
    ensures
        follows(z, s0.graph_exec_kernel_node_set_programmatic_event(graph, node, event).0),
{
    let s = s0;
    match s.fail_if_capturing("cannot capture kernel node set attribute") {
        Err(e) => {},
        Ok(_v) => match s.as_exec(graph) {
            Err(e) => {},
            Ok(id) => {
                match event {
                    Some(e) => {
                        ensure_event_follows(z, s, e.event);
                    },
                    _ => {},
                }
                let s = match event {
                    Some(e) => {
                        let s = s.ensure_event(e.event);
                        s
                    },
                    _ => s,
                };
                match s.kernel_exec_step(id, node) {
                    Err(e) => {},
                    Ok(step) => {
                        let attrs = step.attrs;
                        let attrs = NodeAttrs { programmatic_event: event, ..attrs };
                        set_exec_attrs_follows(z, s, id, node, attrs);
                    },
                }
            },
        },
    }
}

/// [`Sim::graph_kernel_node_set_launch_completion`] continues the history.
pub proof fn graph_kernel_node_set_launch_completion_follows(
    z: SimState,
    s0: SimState,
    graph: GraphId,
    node: usize,
    event: Option<LaunchCompletionEvent>,
)
    requires
        follows(z, s0),
    ensures
        follows(z, s0.graph_kernel_node_set_launch_completion(graph, node, event).0),
{
    let s = s0;
    match s.fail_if_capturing("cannot capture kernel node set attribute") {
        Err(e) => {},
        Ok(_v) => match s.kernel_def_step(graph, node) {
            Err(e) => {},
            Ok(step) => {
                let attrs = step.attrs;
                let attrs = NodeAttrs { launch_completion: event, ..attrs };
                match event {
                    Some(e) => {
                        ensure_event_follows(z, s, e.event);
                    },
                    _ => {},
                }
                let s = match event {
                    Some(e) => {
                        let s = s.ensure_event(e.event);
                        s
                    },
                    _ => s,
                };
                set_def_attrs_follows(z, s, graph, node, attrs);
            },
        },
    }
}

/// [`Sim::graph_exec_kernel_node_set_launch_completion`] continues the history.
pub proof fn graph_exec_kernel_node_set_launch_completion_follows(
    z: SimState,
    s0: SimState,
    graph: GraphId,
    node: usize,
    event: Option<LaunchCompletionEvent>,
)
    requires
        follows(z, s0),
    ensures
        follows(z, s0.graph_exec_kernel_node_set_launch_completion(graph, node, event).0),
{
    let s = s0;
    match s.fail_if_capturing("cannot capture kernel node set attribute") {
        Err(e) => {},
        Ok(_v) => match s.as_exec(graph) {
            Err(e) => {},
            Ok(id) => {
                match event {
                    Some(e) => {
                        ensure_event_follows(z, s, e.event);
                    },
                    _ => {},
                }
                let s = match event {
                    Some(e) => {
                        let s = s.ensure_event(e.event);
                        s
                    },
                    _ => s,
                };
                match s.kernel_exec_step(id, node) {
                    Err(e) => {},
                    Ok(step) => {
                        let attrs = step.attrs;
                        let attrs = NodeAttrs { launch_completion: event, ..attrs };
                        set_exec_attrs_follows(z, s, id, node, attrs);
                    },
                }
            },
        },
    }
}

/// [`Sim::graph_kernel_node_set_access_policy`] continues the history.
pub proof fn graph_kernel_node_set_access_policy_follows(
    z: SimState,
    s0: SimState,
    graph: GraphId,
    node: usize,
    window: Option<AccessPolicyWindow>,
)
    requires
        follows(z, s0),
    ensures
        follows(z, s0.graph_kernel_node_set_access_policy(graph, node, window).0),
{
    let s = s0;
    match s.fail_if_capturing("cannot capture kernel node set attribute") {
        Err(e) => {},
        Ok(_v) => match s.kernel_def_step(graph, node) {
            Err(e) => {},
            Ok(step) => match window {
                Some(w) => match s.validate_access_policy_window(step.device, w) {
                    Err(e) => {},
                    Ok(_v) => {
                        let attrs = step.attrs;
                        let attrs = NodeAttrs { access_policy: window, ..attrs };
                        set_def_attrs_follows(z, s, graph, node, attrs);
                    },
                },
                _ => {
                    let attrs = step.attrs;
                    let attrs = NodeAttrs { access_policy: window, ..attrs };
                    set_def_attrs_follows(z, s, graph, node, attrs);
                },
            },
        },
    }
}

/// [`Sim::graph_exec_kernel_node_set_access_policy`] continues the history.
pub proof fn graph_exec_kernel_node_set_access_policy_follows(
    z: SimState,
    s0: SimState,
    graph: GraphId,
    node: usize,
    window: Option<AccessPolicyWindow>,
)
    requires
        follows(z, s0),
    ensures
        follows(z, s0.graph_exec_kernel_node_set_access_policy(graph, node, window).0),
{
    let s = s0;
    match s.fail_if_capturing("cannot capture kernel node set attribute") {
        Err(e) => {},
        Ok(_v) => match s.as_exec(graph) {
            Err(e) => {},
            Ok(id) => match s.kernel_exec_step(id, node) {
                Err(e) => {},
                Ok(step) => match window {
                    Some(w) => match s.validate_access_policy_window(step.device, w) {
                        Err(e) => {},
                        Ok(_v) => {
                            let attrs = step.attrs;
                            let attrs = NodeAttrs { access_policy: window, ..attrs };
                            set_exec_attrs_follows(z, s, id, node, attrs);
                        },
                    },
                    _ => {
                        let attrs = step.attrs;
                        let attrs = NodeAttrs { access_policy: window, ..attrs };
                        set_exec_attrs_follows(z, s, id, node, attrs);
                    },
                },
            },
        },
    }
}

/// [`Sim::graph_kernel_node_set_mem_sync_domain`] continues the history.
pub proof fn graph_kernel_node_set_mem_sync_domain_follows(
    z: SimState,
    s0: SimState,
    graph: GraphId,
    node: usize,
    domain: MemSyncDomain,
)
    requires
        follows(z, s0),
    ensures
        follows(z, s0.graph_kernel_node_set_mem_sync_domain(graph, node, domain).0),
{
    let s = s0;
    match s.fail_if_capturing("cannot capture kernel node set attribute") {
        Err(e) => {},
        Ok(_v) => match s.kernel_def_step(graph, node) {
            Err(e) => {},
            Ok(step) => {
                let attrs = step.attrs;
                let attrs = NodeAttrs { mem_sync_domain: domain, ..attrs };
                set_def_attrs_follows(z, s, graph, node, attrs);
            },
        },
    }
}

/// [`Sim::graph_exec_kernel_node_set_mem_sync_domain`] continues the history.
pub proof fn graph_exec_kernel_node_set_mem_sync_domain_follows(
    z: SimState,
    s0: SimState,
    graph: GraphId,
    node: usize,
    domain: MemSyncDomain,
)
    requires
        follows(z, s0),
    ensures
        follows(z, s0.graph_exec_kernel_node_set_mem_sync_domain(graph, node, domain).0),
{
    let s = s0;
    match s.fail_if_capturing("cannot capture kernel node set attribute") {
        Err(e) => {},
        Ok(_v) => match s.as_exec(graph) {
            Err(e) => {},
            Ok(id) => match s.kernel_exec_step(id, node) {
                Err(e) => {},
                Ok(step) => {
                    let attrs = step.attrs;
                    let attrs = NodeAttrs { mem_sync_domain: domain, ..attrs };
                    set_exec_attrs_follows(z, s, id, node, attrs);
                },
            },
        },
    }
}

/// [`Sim::graph_kernel_node_set_mem_sync_domain_map`] continues the history.
pub proof fn graph_kernel_node_set_mem_sync_domain_map_follows(
    z: SimState,
    s0: SimState,
    graph: GraphId,
    node: usize,
    map: MemSyncDomainMap,
)
    requires
        follows(z, s0),
    ensures
        follows(z, s0.graph_kernel_node_set_mem_sync_domain_map(graph, node, map).0),
{
    let s = s0;
    match s.fail_if_capturing("cannot capture kernel node set attribute") {
        Err(e) => {},
        Ok(_v) => match s.kernel_def_step(graph, node) {
            Err(e) => {},
            Ok(step) => match s.validate_mem_sync_map(step.device, map) {
                Err(e) => {},
                Ok(_v) => {
                    let attrs = step.attrs;
                    let attrs = NodeAttrs { mem_sync_map: map, ..attrs };
                    set_def_attrs_follows(z, s, graph, node, attrs);
                },
            },
        },
    }
}

/// [`Sim::graph_exec_kernel_node_set_mem_sync_domain_map`] continues the history.
pub proof fn graph_exec_kernel_node_set_mem_sync_domain_map_follows(
    z: SimState,
    s0: SimState,
    graph: GraphId,
    node: usize,
    map: MemSyncDomainMap,
)
    requires
        follows(z, s0),
    ensures
        follows(z, s0.graph_exec_kernel_node_set_mem_sync_domain_map(graph, node, map).0),
{
    let s = s0;
    match s.fail_if_capturing("cannot capture kernel node set attribute") {
        Err(e) => {},
        Ok(_v) => match s.as_exec(graph) {
            Err(e) => {},
            Ok(id) => match s.kernel_exec_step(id, node) {
                Err(e) => {},
                Ok(step) => match s.validate_mem_sync_map(step.device, map) {
                    Err(e) => {},
                    Ok(_v) => {
                        let attrs = step.attrs;
                        let attrs = NodeAttrs { mem_sync_map: map, ..attrs };
                        set_exec_attrs_follows(z, s, id, node, attrs);
                    },
                },
            },
        },
    }
}

/// [`Sim::graph_kernel_node_set_cluster`] continues the history.
pub proof fn graph_kernel_node_set_cluster_follows(
    z: SimState,
    s0: SimState,
    graph: GraphId,
    node: usize,
    cluster: Option<ClusterDim>,
)
    requires
        follows(z, s0),
    ensures
        follows(z, s0.graph_kernel_node_set_cluster(graph, node, cluster).0),
{
    let s = s0;
    match s.fail_if_capturing("cannot capture kernel node set attribute") {
        Err(e) => {},
        Ok(_v) => match s.kernel_def_step(graph, node) {
            Err(e) => {},
            Ok(step) => match cluster {
                Some(c) => match s.validate_cluster(step.device, c, step.attrs.portable_cluster) {
                    Err(e) => {},
                    Ok(_n) => {
                        let attrs = step.attrs;
                        let attrs = NodeAttrs { cluster: cluster, ..attrs };
                        set_def_attrs_follows(z, s, graph, node, attrs);
                    },
                },
                _ => {
                    let attrs = step.attrs;
                    let attrs = NodeAttrs { cluster: cluster, ..attrs };
                    set_def_attrs_follows(z, s, graph, node, attrs);
                },
            },
        },
    }
}

/// [`Sim::graph_exec_kernel_node_set_cluster`] continues the history.
pub proof fn graph_exec_kernel_node_set_cluster_follows(
    z: SimState,
    s0: SimState,
    graph: GraphId,
    node: usize,
    cluster: Option<ClusterDim>,
)
    requires
        follows(z, s0),
    ensures
        follows(z, s0.graph_exec_kernel_node_set_cluster(graph, node, cluster).0),
{
    let s = s0;
    match s.fail_if_capturing("cannot capture kernel node set attribute") {
        Err(e) => {},
        Ok(_v) => match s.as_exec(graph) {
            Err(e) => {},
            Ok(id) => match s.kernel_exec_step(id, node) {
                Err(e) => {},
                Ok(step) => match cluster {
                    Some(c) => match s.validate_cluster(
                        step.device,
                        c,
                        step.attrs.portable_cluster,
                    ) {
                        Err(e) => {},
                        Ok(_n) => {
                            let attrs = step.attrs;
                            let attrs = NodeAttrs { cluster: cluster, ..attrs };
                            set_exec_attrs_follows(z, s, id, node, attrs);
                        },
                    },
                    _ => {
                        let attrs = step.attrs;
                        let attrs = NodeAttrs { cluster: cluster, ..attrs };
                        set_exec_attrs_follows(z, s, id, node, attrs);
                    },
                },
            },
        },
    }
}

/// [`Sim::graph_kernel_node_set_cluster_policy`] continues the history.
pub proof fn graph_kernel_node_set_cluster_policy_follows(
    z: SimState,
    s0: SimState,
    graph: GraphId,
    node: usize,
    policy: ClusterSchedulingPolicy,
)
    requires
        follows(z, s0),
    ensures
        follows(z, s0.graph_kernel_node_set_cluster_policy(graph, node, policy).0),
{
    let s = s0;
    match s.fail_if_capturing("cannot capture kernel node set attribute") {
        Err(e) => {},
        Ok(_v) => match s.kernel_def_step(graph, node) {
            Err(e) => {},
            Ok(step) => {
                let attrs = step.attrs;
                let attrs = NodeAttrs { cluster_policy: policy, ..attrs };
                set_def_attrs_follows(z, s, graph, node, attrs);
            },
        },
    }
}

/// [`Sim::graph_exec_kernel_node_set_cluster_policy`] continues the history.
pub proof fn graph_exec_kernel_node_set_cluster_policy_follows(
    z: SimState,
    s0: SimState,
    graph: GraphId,
    node: usize,
    policy: ClusterSchedulingPolicy,
)
    requires
        follows(z, s0),
    ensures
        follows(z, s0.graph_exec_kernel_node_set_cluster_policy(graph, node, policy).0),
{
    let s = s0;
    match s.fail_if_capturing("cannot capture kernel node set attribute") {
        Err(e) => {},
        Ok(_v) => match s.as_exec(graph) {
            Err(e) => {},
            Ok(id) => match s.kernel_exec_step(id, node) {
                Err(e) => {},
                Ok(step) => {
                    let attrs = step.attrs;
                    let attrs = NodeAttrs { cluster_policy: policy, ..attrs };
                    set_exec_attrs_follows(z, s, id, node, attrs);
                },
            },
        },
    }
}

/// [`Sim::graph_kernel_node_set_preferred_cluster`] continues the history.
pub proof fn graph_kernel_node_set_preferred_cluster_follows(
    z: SimState,
    s0: SimState,
    graph: GraphId,
    node: usize,
    preferred: Option<ClusterDim>,
)
    requires
        follows(z, s0),
    ensures
        follows(z, s0.graph_kernel_node_set_preferred_cluster(graph, node, preferred).0),
{
    let s = s0;
    match s.fail_if_capturing("cannot capture kernel node set attribute") {
        Err(e) => {},
        Ok(_v) => match s.kernel_def_step(graph, node) {
            Err(e) => {},
            Ok(step) => match s.validate_cluster_attrs(
                step.device,
                step.attrs.cluster,
                preferred,
                step.attrs.portable_cluster,
            ) {
                Err(e) => {},
                Ok(_v) => {
                    let attrs = step.attrs;
                    let attrs = NodeAttrs { preferred_cluster: preferred, ..attrs };
                    set_def_attrs_follows(z, s, graph, node, attrs);
                },
            },
        },
    }
}

/// [`Sim::graph_exec_kernel_node_set_preferred_cluster`] continues the history.
pub proof fn graph_exec_kernel_node_set_preferred_cluster_follows(
    z: SimState,
    s0: SimState,
    graph: GraphId,
    node: usize,
    preferred: Option<ClusterDim>,
)
    requires
        follows(z, s0),
    ensures
        follows(z, s0.graph_exec_kernel_node_set_preferred_cluster(graph, node, preferred).0),
{
    let s = s0;
    match s.fail_if_capturing("cannot capture kernel node set attribute") {
        Err(e) => {},
        Ok(_v) => match s.as_exec(graph) {
            Err(e) => {},
            Ok(id) => match s.kernel_exec_step(id, node) {
                Err(e) => {},
                Ok(step) => match s.validate_cluster_attrs(
                    step.device,
                    step.attrs.cluster,
                    preferred,
                    step.attrs.portable_cluster,
                ) {
                    Err(e) => {},
                    Ok(_v) => {
                        let attrs = step.attrs;
                        let attrs = NodeAttrs { preferred_cluster: preferred, ..attrs };
                        set_exec_attrs_follows(z, s, id, node, attrs);
                    },
                },
            },
        },
    }
}

/// [`Sim::graph_kernel_node_set_carveout`] continues the history.
pub proof fn graph_kernel_node_set_carveout_follows(
    z: SimState,
    s0: SimState,
    graph: GraphId,
    node: usize,
    carveout: SharedMemCarveout,
)
    requires
        follows(z, s0),
    ensures
        follows(z, s0.graph_kernel_node_set_carveout(graph, node, carveout).0),
{
    let s = s0;
    match s.fail_if_capturing("cannot capture kernel node set attribute") {
        Err(e) => {},
        Ok(_v) => match s.kernel_def_step(graph, node) {
            Err(e) => {},
            Ok(step) => {
                let attrs = step.attrs;
                let attrs = NodeAttrs { carveout: carveout, ..attrs };
                set_def_attrs_follows(z, s, graph, node, attrs);
            },
        },
    }
}

/// [`Sim::graph_exec_kernel_node_set_carveout`] continues the history.
pub proof fn graph_exec_kernel_node_set_carveout_follows(
    z: SimState,
    s0: SimState,
    graph: GraphId,
    node: usize,
    carveout: SharedMemCarveout,
)
    requires
        follows(z, s0),
    ensures
        follows(z, s0.graph_exec_kernel_node_set_carveout(graph, node, carveout).0),
{
    let s = s0;
    match s.fail_if_capturing("cannot capture kernel node set attribute") {
        Err(e) => {},
        Ok(_v) => match s.as_exec(graph) {
            Err(e) => {},
            Ok(id) => match s.kernel_exec_step(id, node) {
                Err(e) => {},
                Ok(step) => {
                    let attrs = step.attrs;
                    let attrs = NodeAttrs { carveout: carveout, ..attrs };
                    set_exec_attrs_follows(z, s, id, node, attrs);
                },
            },
        },
    }
}

/// [`Sim::graph_kernel_node_set_device_updatable`] continues the history.
pub proof fn graph_kernel_node_set_device_updatable_follows(
    z: SimState,
    s0: SimState,
    graph: GraphId,
    node: usize,
    device_updatable: bool,
)
    requires
        follows(z, s0),
    ensures
        follows(z, s0.graph_kernel_node_set_device_updatable(graph, node, device_updatable).0),
{
    let s = s0;
    match s.fail_if_capturing("cannot capture kernel node set attribute") {
        Err(e) => {},
        Ok(_v) => match s.kernel_def_step(graph, node) {
            Err(e) => {},
            Ok(step) => {
                let attrs = step.attrs;
                let attrs = NodeAttrs { device_updatable: device_updatable, ..attrs };
                set_def_attrs_follows(z, s, graph, node, attrs);
            },
        },
    }
}

/// [`Sim::graph_exec_kernel_node_set_device_updatable`] continues the history.
pub proof fn graph_exec_kernel_node_set_device_updatable_follows(
    z: SimState,
    s0: SimState,
    graph: GraphId,
    node: usize,
    device_updatable: bool,
)
    requires
        follows(z, s0),
    ensures
        follows(z, s0.graph_exec_kernel_node_set_device_updatable(graph, node, device_updatable).0),
{
    let s = s0;
    match s.fail_if_capturing("cannot capture kernel node set attribute") {
        Err(e) => {},
        Ok(_v) => match s.as_exec(graph) {
            Err(e) => {},
            Ok(id) => match s.kernel_exec_step(id, node) {
                Err(e) => {},
                Ok(step) => {
                    let attrs = step.attrs;
                    let attrs = NodeAttrs { device_updatable: device_updatable, ..attrs };
                    set_exec_attrs_follows(z, s, id, node, attrs);
                },
            },
        },
    }
}

/// [`Sim::graph_kernel_node_set_shared_mem`] continues the history.
pub proof fn graph_kernel_node_set_shared_mem_follows(
    z: SimState,
    s0: SimState,
    graph: GraphId,
    node: usize,
    shared_mem: SharedMemoryMode,
)
    requires
        follows(z, s0),
    ensures
        follows(z, s0.graph_kernel_node_set_shared_mem(graph, node, shared_mem).0),
{
    let s = s0;
    match s.fail_if_capturing("cannot capture kernel node set attribute") {
        Err(e) => {},
        Ok(_v) => match s.kernel_def_step(graph, node) {
            Err(e) => {},
            Ok(step) => {
                let attrs = step.attrs;
                let attrs = NodeAttrs { shared_mem: shared_mem, ..attrs };
                set_def_attrs_follows(z, s, graph, node, attrs);
            },
        },
    }
}

/// [`Sim::graph_exec_kernel_node_set_shared_mem`] continues the history.
pub proof fn graph_exec_kernel_node_set_shared_mem_follows(
    z: SimState,
    s0: SimState,
    graph: GraphId,
    node: usize,
    shared_mem: SharedMemoryMode,
)
    requires
        follows(z, s0),
    ensures
        follows(z, s0.graph_exec_kernel_node_set_shared_mem(graph, node, shared_mem).0),
{
    let s = s0;
    match s.fail_if_capturing("cannot capture kernel node set attribute") {
        Err(e) => {},
        Ok(_v) => match s.as_exec(graph) {
            Err(e) => {},
            Ok(id) => match s.kernel_exec_step(id, node) {
                Err(e) => {},
                Ok(step) => {
                    let attrs = step.attrs;
                    let attrs = NodeAttrs { shared_mem: shared_mem, ..attrs };
                    set_exec_attrs_follows(z, s, id, node, attrs);
                },
            },
        },
    }
}

/// [`Sim::graph_kernel_node_set_portable_cluster`] continues the history.
pub proof fn graph_kernel_node_set_portable_cluster_follows(
    z: SimState,
    s0: SimState,
    graph: GraphId,
    node: usize,
    mode: PortableClusterMode,
)
    requires
        follows(z, s0),
    ensures
        follows(z, s0.graph_kernel_node_set_portable_cluster(graph, node, mode).0),
{
    let s = s0;
    match s.fail_if_capturing("cannot capture kernel node set attribute") {
        Err(e) => {},
        Ok(_v) => match s.kernel_def_step(graph, node) {
            Err(e) => {},
            Ok(step) => match s.validate_cluster_attrs(
                step.device,
                step.attrs.cluster,
                step.attrs.preferred_cluster,
                mode,
            ) {
                Err(e) => {},
                Ok(_v) => {
                    let attrs = step.attrs;
                    let attrs = NodeAttrs { portable_cluster: mode, ..attrs };
                    set_def_attrs_follows(z, s, graph, node, attrs);
                },
            },
        },
    }
}

/// [`Sim::graph_exec_kernel_node_set_portable_cluster`] continues the history.
pub proof fn graph_exec_kernel_node_set_portable_cluster_follows(
    z: SimState,
    s0: SimState,
    graph: GraphId,
    node: usize,
    mode: PortableClusterMode,
)
    requires
        follows(z, s0),
    ensures
        follows(z, s0.graph_exec_kernel_node_set_portable_cluster(graph, node, mode).0),
{
    let s = s0;
    match s.fail_if_capturing("cannot capture kernel node set attribute") {
        Err(e) => {},
        Ok(_v) => match s.as_exec(graph) {
            Err(e) => {},
            Ok(id) => match s.kernel_exec_step(id, node) {
                Err(e) => {},
                Ok(step) => match s.validate_cluster_attrs(
                    step.device,
                    step.attrs.cluster,
                    step.attrs.preferred_cluster,
                    mode,
                ) {
                    Err(e) => {},
                    Ok(_v) => {
                        let attrs = step.attrs;
                        let attrs = NodeAttrs { portable_cluster: mode, ..attrs };
                        set_exec_attrs_follows(z, s, id, node, attrs);
                    },
                },
            },
        },
    }
}

/// [`Sim::graph_kernel_node_set_portable_shared`] continues the history.
pub proof fn graph_kernel_node_set_portable_shared_follows(
    z: SimState,
    s0: SimState,
    graph: GraphId,
    node: usize,
    mode: PortableSharedMode,
)
    requires
        follows(z, s0),
    ensures
        follows(z, s0.graph_kernel_node_set_portable_shared(graph, node, mode).0),
{
    let s = s0;
    match s.fail_if_capturing("cannot capture kernel node set attribute") {
        Err(e) => {},
        Ok(_v) => match s.kernel_def_step(graph, node) {
            Err(e) => {},
            Ok(step) => match s.validate_dynamic_shared(
                step.device,
                step.attrs.dynamic_shared,
                mode,
            ) {
                Err(e) => {},
                Ok(_v) => {
                    let attrs = step.attrs;
                    let attrs = NodeAttrs { portable_shared: mode, ..attrs };
                    set_def_attrs_follows(z, s, graph, node, attrs);
                },
            },
        },
    }
}

/// [`Sim::graph_exec_kernel_node_set_portable_shared`] continues the history.
pub proof fn graph_exec_kernel_node_set_portable_shared_follows(
    z: SimState,
    s0: SimState,
    graph: GraphId,
    node: usize,
    mode: PortableSharedMode,
)
    requires
        follows(z, s0),
    ensures
        follows(z, s0.graph_exec_kernel_node_set_portable_shared(graph, node, mode).0),
{
    let s = s0;
    match s.fail_if_capturing("cannot capture kernel node set attribute") {
        Err(e) => {},
        Ok(_v) => match s.as_exec(graph) {
            Err(e) => {},
            Ok(id) => match s.kernel_exec_step(id, node) {
                Err(e) => {},
                Ok(step) => match s.validate_dynamic_shared(
                    step.device,
                    step.attrs.dynamic_shared,
                    mode,
                ) {
                    Err(e) => {},
                    Ok(_v) => {
                        let attrs = step.attrs;
                        let attrs = NodeAttrs { portable_shared: mode, ..attrs };
                        set_exec_attrs_follows(z, s, id, node, attrs);
                    },
                },
            },
        },
    }
}

/// [`Sim::graph_kernel_node_set_dynamic_shared`] continues the history.
pub proof fn graph_kernel_node_set_dynamic_shared_follows(
    z: SimState,
    s0: SimState,
    graph: GraphId,
    node: usize,
    bytes: u32,
)
    requires
        follows(z, s0),
    ensures
        follows(z, s0.graph_kernel_node_set_dynamic_shared(graph, node, bytes).0),
{
    let s = s0;
    match s.fail_if_capturing("cannot capture kernel node set attribute") {
        Err(e) => {},
        Ok(_v) => match s.kernel_def_step(graph, node) {
            Err(e) => {},
            Ok(step) => match s.validate_dynamic_shared(
                step.device,
                bytes,
                step.attrs.portable_shared,
            ) {
                Err(e) => {},
                Ok(_v) => {
                    let attrs = step.attrs;
                    let attrs = NodeAttrs { dynamic_shared: bytes, ..attrs };
                    set_def_attrs_follows(z, s, graph, node, attrs);
                },
            },
        },
    }
}

/// [`Sim::graph_exec_kernel_node_set_dynamic_shared`] continues the history.
pub proof fn graph_exec_kernel_node_set_dynamic_shared_follows(
    z: SimState,
    s0: SimState,
    graph: GraphId,
    node: usize,
    bytes: u32,
)
    requires
        follows(z, s0),
    ensures
        follows(z, s0.graph_exec_kernel_node_set_dynamic_shared(graph, node, bytes).0),
{
    let s = s0;
    match s.fail_if_capturing("cannot capture kernel node set attribute") {
        Err(e) => {},
        Ok(_v) => match s.as_exec(graph) {
            Err(e) => {},
            Ok(id) => match s.kernel_exec_step(id, node) {
                Err(e) => {},
                Ok(step) => match s.validate_dynamic_shared(
                    step.device,
                    bytes,
                    step.attrs.portable_shared,
                ) {
                    Err(e) => {},
                    Ok(_v) => {
                        let attrs = step.attrs;
                        let attrs = NodeAttrs { dynamic_shared: bytes, ..attrs };
                        set_exec_attrs_follows(z, s, id, node, attrs);
                    },
                },
            },
        },
    }
}

/// [`Sim::graph_kernel_node_set_nvlink_util_centric`] continues the history.
pub proof fn graph_kernel_node_set_nvlink_util_centric_follows(
    z: SimState,
    s0: SimState,
    graph: GraphId,
    node: usize,
    enabled: bool,
)
    requires
        follows(z, s0),
    ensures
        follows(z, s0.graph_kernel_node_set_nvlink_util_centric(graph, node, enabled).0),
{
    let s = s0;
    match s.fail_if_capturing("cannot capture kernel node set attribute") {
        Err(e) => {},
        Ok(_v) => match s.kernel_def_step(graph, node) {
            Err(e) => {},
            Ok(step) => {
                let attrs = step.attrs;
                let attrs = NodeAttrs { nvlink_util_centric: enabled, ..attrs };
                set_def_attrs_follows(z, s, graph, node, attrs);
            },
        },
    }
}

/// [`Sim::graph_exec_kernel_node_set_nvlink_util_centric`] continues the history.
pub proof fn graph_exec_kernel_node_set_nvlink_util_centric_follows(
    z: SimState,
    s0: SimState,
    graph: GraphId,
    node: usize,
    enabled: bool,
)
    requires
        follows(z, s0),
    ensures
        follows(z, s0.graph_exec_kernel_node_set_nvlink_util_centric(graph, node, enabled).0),
{
    let s = s0;
    match s.fail_if_capturing("cannot capture kernel node set attribute") {
        Err(e) => {},
        Ok(_v) => match s.as_exec(graph) {
            Err(e) => {},
            Ok(id) => match s.kernel_exec_step(id, node) {
                Err(e) => {},
                Ok(step) => {
                    let attrs = step.attrs;
                    let attrs = NodeAttrs { nvlink_util_centric: enabled, ..attrs };
                    set_exec_attrs_follows(z, s, id, node, attrs);
                },
            },
        },
    }
}

/// [`Sim::copy_launch_attrs`] continues the history.
pub proof fn copy_launch_attrs_follows(
    z: SimState,
    s0: SimState,
    dst_graph: GraphId,
    dst: usize,
    src_graph: GraphId,
    src: usize,
)
    requires
        follows(z, s0),
    ensures
        follows(z, s0.copy_launch_attrs(dst_graph, dst, src_graph, src).0),
{
    reveal(SimState::copy_launch_attrs);
    let s = s0;
    match s.graph_kernel_node_get_priority(src_graph, src) {
        Err(e) => {},
        Ok(priority) => match s.graph_kernel_node_get_pdl(src_graph, src) {
            Err(e) => {},
            Ok(pdl) => match s.graph_kernel_node_get_programmatic_event(src_graph, src) {
                Err(e) => {},
                Ok(
                    programmatic_event,
                ) => match s.graph_kernel_node_get_launch_completion(src_graph, src) {
                    Err(e) => {},
                    Ok(
                        launch_completion,
                    ) => match s.graph_kernel_node_get_access_policy(src_graph, src) {
                        Err(e) => {},
                        Ok(access_policy) => {
                            graph_kernel_node_set_priority_follows(z, s, dst_graph, dst, priority);
                            match s.graph_kernel_node_set_priority(dst_graph, dst, priority) {
                                (s, Err(e)) => {},
                                (s, Ok(_v)) => {
                                    graph_kernel_node_set_pdl_follows(z, s, dst_graph, dst, pdl);
                                    match s.graph_kernel_node_set_pdl(dst_graph, dst, pdl) {
                                        (s, Err(e)) => {},
                                        (s, Ok(_v)) => {
                                            graph_kernel_node_set_programmatic_event_follows(
                                                z,
                                                s,
                                                dst_graph,
                                                dst,
                                                programmatic_event,
                                            );
                                            match s.graph_kernel_node_set_programmatic_event(
                                                dst_graph,
                                                dst,
                                                programmatic_event,
                                            ) {
                                                (s, Err(e)) => {},
                                                (s, Ok(_v)) => {
                                                    graph_kernel_node_set_launch_completion_follows(
                                                        z,
                                                        s,
                                                        dst_graph,
                                                        dst,
                                                        launch_completion,
                                                    );
                                                    match s.graph_kernel_node_set_launch_completion(
                                                        dst_graph,
                                                        dst,
                                                        launch_completion,
                                                    ) {
                                                        (s, Err(e)) => {},
                                                        (s, Ok(_v)) => {
                                                            graph_kernel_node_set_access_policy_follows(
                                                                z,
                                                                s,
                                                                dst_graph,
                                                                dst,
                                                                access_policy,
                                                            );
                                                        },
                                                    }
                                                },
                                            }
                                        },
                                    }
                                },
                            }
                        },
                    },
                },
            },
        },
    }
}

/// [`Sim::copy_sync_attrs`] continues the history.
pub proof fn copy_sync_attrs_follows(
    z: SimState,
    s0: SimState,
    dst_graph: GraphId,
    dst: usize,
    src_graph: GraphId,
    src: usize,
)
    requires
        follows(z, s0),
    ensures
        follows(z, s0.copy_sync_attrs(dst_graph, dst, src_graph, src).0),
{
    reveal(SimState::copy_sync_attrs);
    let s = s0;
    match s.graph_kernel_node_get_mem_sync_domain(src_graph, src) {
        Err(e) => {},
        Ok(mem_sync_domain) => match s.graph_kernel_node_get_mem_sync_domain_map(src_graph, src) {
            Err(e) => {},
            Ok(map) => {
                graph_kernel_node_set_mem_sync_domain_follows(
                    z,
                    s,
                    dst_graph,
                    dst,
                    mem_sync_domain,
                );
                match s.graph_kernel_node_set_mem_sync_domain(dst_graph, dst, mem_sync_domain) {
                    (s, Err(e)) => {},
                    (s, Ok(_v)) => {
                        graph_kernel_node_set_mem_sync_domain_map_follows(
                            z,
                            s,
                            dst_graph,
                            dst,
                            map,
                        );
                    },
                }
            },
        },
    }
}

/// [`Sim::copy_cluster_attrs`] continues the history.
pub proof fn copy_cluster_attrs_follows(
    z: SimState,
    s0: SimState,
    dst_graph: GraphId,
    dst: usize,
    src_graph: GraphId,
    src: usize,
)
    requires
        follows(z, s0),
    ensures
        follows(z, s0.copy_cluster_attrs(dst_graph, dst, src_graph, src).0),
{
    reveal(SimState::copy_cluster_attrs);
    let s = s0;
    match s.graph_kernel_node_get_portable_cluster(src_graph, src) {
        Err(e) => {},
        Ok(portable_cluster) => {
            graph_kernel_node_set_portable_cluster_follows(z, s, dst_graph, dst, portable_cluster);
            match s.graph_kernel_node_set_portable_cluster(dst_graph, dst, portable_cluster) {
                (s, Err(e)) => {},
                (s, Ok(_v)) => match s.graph_kernel_node_get_cluster(src_graph, src) {
                    Err(e) => {},
                    Ok(cluster) => {
                        graph_kernel_node_set_cluster_follows(z, s, dst_graph, dst, cluster);
                        match s.graph_kernel_node_set_cluster(dst_graph, dst, cluster) {
                            (s, Err(e)) => {},
                            (s, Ok(_v)) => match s.graph_kernel_node_get_cluster_policy(src_graph, src) {
                                Err(e) => {},
                                Ok(cluster_policy) => {
                                    graph_kernel_node_set_cluster_policy_follows(
                                        z,
                                        s,
                                        dst_graph,
                                        dst,
                                        cluster_policy,
                                    );
                                    match s.graph_kernel_node_set_cluster_policy(
                                        dst_graph,
                                        dst,
                                        cluster_policy,
                                    ) {
                                        (s, Err(e)) => {},
                                        (s, Ok(_v)) => match s.graph_kernel_node_get_preferred_cluster(src_graph, src) {
                                            Err(e) => {},
                                            Ok(preferred_cluster) => {
                                                graph_kernel_node_set_preferred_cluster_follows(
                                                    z,
                                                    s,
                                                    dst_graph,
                                                    dst,
                                                    preferred_cluster,
                                                );
                                            },
                                        },
                                    }
                                },
                            },
                        }
                    },
                },
            }
        },
    }
}

/// [`Sim::copy_shared_attrs`] continues the history.
pub proof fn copy_shared_attrs_follows(
    z: SimState,
    s0: SimState,
    dst_graph: GraphId,
    dst: usize,
    src_graph: GraphId,
    src: usize,
)
    requires
        follows(z, s0),
    ensures
        follows(z, s0.copy_shared_attrs(dst_graph, dst, src_graph, src).0),
{
    reveal(SimState::copy_shared_attrs);
    let s = s0;
    match s.graph_kernel_node_get_carveout(src_graph, src) {
        Err(e) => {},
        Ok(carveout) => {
            graph_kernel_node_set_carveout_follows(z, s, dst_graph, dst, carveout);
            match s.graph_kernel_node_set_carveout(dst_graph, dst, carveout) {
                (s, Err(e)) => {},
                (s, Ok(_v)) => match s.graph_kernel_node_get_device_updatable(src_graph, src) {
                    Err(e) => {},
                    Ok(device_updatable) => {
                        graph_kernel_node_set_device_updatable_follows(
                            z,
                            s,
                            dst_graph,
                            dst,
                            device_updatable,
                        );
                        match s.graph_kernel_node_set_device_updatable(
                            dst_graph,
                            dst,
                            device_updatable,
                        ) {
                            (s, Err(e)) => {},
                            (s, Ok(_v)) => match s.graph_kernel_node_get_shared_mem(src_graph, src) {
                                Err(e) => {},
                                Ok(shared_mem) => {
                                    graph_kernel_node_set_shared_mem_follows(
                                        z,
                                        s,
                                        dst_graph,
                                        dst,
                                        shared_mem,
                                    );
                                    match s.graph_kernel_node_set_shared_mem(
                                        dst_graph,
                                        dst,
                                        shared_mem,
                                    ) {
                                        (s, Err(e)) => {},
                                        (s, Ok(_v)) => match s.graph_kernel_node_get_portable_shared(src_graph, src) {
                                            Err(e) => {},
                                            Ok(portable_shared) => {
                                                graph_kernel_node_set_portable_shared_follows(
                                                    z,
                                                    s,
                                                    dst_graph,
                                                    dst,
                                                    portable_shared,
                                                );
                                            },
                                        },
                                    }
                                },
                            },
                        }
                    },
                },
            }
        },
    }
}

/// [`Sim::graph_kernel_node_copy_attributes`] continues the history.
pub proof fn graph_kernel_node_copy_attributes_follows(
    z: SimState,
    s0: SimState,
    dst_graph: GraphId,
    dst: usize,
    src_graph: GraphId,
    src: usize,
)
    requires
        follows(z, s0),
    ensures
        follows(z, s0.graph_kernel_node_copy_attributes(dst_graph, dst, src_graph, src).0),
{
    let s = s0;
    match s.fail_if_capturing("cannot capture kernel node copy attributes") {
        Err(e) => {},
        Ok(_v) => {
            copy_launch_attrs_follows(z, s, dst_graph, dst, src_graph, src);
            match s.copy_launch_attrs(dst_graph, dst, src_graph, src) {
                (s, Err(e)) => {},
                (s, Ok(_v)) => {
                    copy_sync_attrs_follows(z, s, dst_graph, dst, src_graph, src);
                    match s.copy_sync_attrs(dst_graph, dst, src_graph, src) {
                        (s, Err(e)) => {},
                        (s, Ok(_v)) => {
                            copy_cluster_attrs_follows(z, s, dst_graph, dst, src_graph, src);
                            match s.copy_cluster_attrs(dst_graph, dst, src_graph, src) {
                                (s, Err(e)) => {},
                                (s, Ok(_v)) => {
                                    copy_shared_attrs_follows(z, s, dst_graph, dst, src_graph, src);
                                    match s.copy_shared_attrs(dst_graph, dst, src_graph, src) {
                                        (s, Err(e)) => {},
                                        (s, Ok(_v)) => match s.graph_kernel_node_get_nvlink_util_centric(src_graph, src) {
                                            Err(e) => {},
                                            Ok(enabled) => {
                                                graph_kernel_node_set_nvlink_util_centric_follows(
                                                    z,
                                                    s,
                                                    dst_graph,
                                                    dst,
                                                    enabled,
                                                );
                                            },
                                        },
                                    }
                                },
                            }
                        },
                    }
                },
            }
        },
    }
}

/// [`Sim::graph_kernel_node_set_attribute`] continues the history.
pub proof fn graph_kernel_node_set_attribute_follows(
    z: SimState,
    s0: SimState,
    graph: GraphId,
    node: usize,
    attr: KernelNodeAttr,
    value: KernelNodeAttrValue,
)
    requires
        follows(z, s0),
    ensures
        follows(z, s0.graph_kernel_node_set_attribute(graph, node, attr, value).0),
{
    let s = s0;
    match (attr, value) {
        (KernelNodeAttr::Priority, KernelNodeAttrValue::Priority(v)) => {
            graph_kernel_node_set_priority_follows(z, s, graph, node, v);
        },
        (KernelNodeAttr::Pdl, KernelNodeAttrValue::Pdl(v)) => {
            graph_kernel_node_set_pdl_follows(z, s, graph, node, v);
        },
        (KernelNodeAttr::ProgrammaticEvent, KernelNodeAttrValue::ProgrammaticEvent(v)) => {
            graph_kernel_node_set_programmatic_event_follows(z, s, graph, node, v);
        },
        (KernelNodeAttr::LaunchCompletion, KernelNodeAttrValue::LaunchCompletion(v)) => {
            graph_kernel_node_set_launch_completion_follows(z, s, graph, node, v);
        },
        (KernelNodeAttr::AccessPolicy, KernelNodeAttrValue::AccessPolicy(v)) => {
            graph_kernel_node_set_access_policy_follows(z, s, graph, node, v);
        },
        (KernelNodeAttr::MemSyncDomain, KernelNodeAttrValue::MemSyncDomain(v)) => {
            graph_kernel_node_set_mem_sync_domain_follows(z, s, graph, node, v);
        },
        (KernelNodeAttr::MemSyncDomainMap, KernelNodeAttrValue::MemSyncDomainMap(v)) => {
            graph_kernel_node_set_mem_sync_domain_map_follows(z, s, graph, node, v);
        },
        (KernelNodeAttr::Cluster, KernelNodeAttrValue::Cluster(v)) => {
            graph_kernel_node_set_cluster_follows(z, s, graph, node, v);
        },
        (KernelNodeAttr::ClusterPolicy, KernelNodeAttrValue::ClusterPolicy(v)) => {
            graph_kernel_node_set_cluster_policy_follows(z, s, graph, node, v);
        },
        (KernelNodeAttr::PreferredCluster, KernelNodeAttrValue::PreferredCluster(v)) => {
            graph_kernel_node_set_preferred_cluster_follows(z, s, graph, node, v);
        },
        (KernelNodeAttr::Carveout, KernelNodeAttrValue::Carveout(v)) => {
            graph_kernel_node_set_carveout_follows(z, s, graph, node, v);
        },
        (KernelNodeAttr::DeviceUpdatable, KernelNodeAttrValue::DeviceUpdatable(v)) => {
            graph_kernel_node_set_device_updatable_follows(z, s, graph, node, v);
        },
        (KernelNodeAttr::SharedMem, KernelNodeAttrValue::SharedMem(v)) => {
            graph_kernel_node_set_shared_mem_follows(z, s, graph, node, v);
        },
        (KernelNodeAttr::PortableCluster, KernelNodeAttrValue::PortableCluster(v)) => {
            graph_kernel_node_set_portable_cluster_follows(z, s, graph, node, v);
        },
        (KernelNodeAttr::PortableShared, KernelNodeAttrValue::PortableShared(v)) => {
            graph_kernel_node_set_portable_shared_follows(z, s, graph, node, v);
        },
        (KernelNodeAttr::DynamicShared, KernelNodeAttrValue::DynamicShared(v)) => {
            graph_kernel_node_set_dynamic_shared_follows(z, s, graph, node, v);
        },
        (KernelNodeAttr::NvlinkUtilCentric, KernelNodeAttrValue::NvlinkUtilCentric(v)) => {
            graph_kernel_node_set_nvlink_util_centric_follows(z, s, graph, node, v);
        },
        _ => {},
    }
}

/// [`Sim::graph_exec_kernel_node_set_attribute`] continues the history.
pub proof fn graph_exec_kernel_node_set_attribute_follows(
    z: SimState,
    s0: SimState,
    graph: GraphId,
    node: usize,
    attr: KernelNodeAttr,
    value: KernelNodeAttrValue,
)
    requires
        follows(z, s0),
    ensures
        follows(z, s0.graph_exec_kernel_node_set_attribute(graph, node, attr, value).0),
{
    let s = s0;
    match (attr, value) {
        (KernelNodeAttr::Priority, KernelNodeAttrValue::Priority(v)) => {
            graph_exec_kernel_node_set_priority_follows(z, s, graph, node, v);
        },
        (KernelNodeAttr::Pdl, KernelNodeAttrValue::Pdl(v)) => {
            graph_exec_kernel_node_set_pdl_follows(z, s, graph, node, v);
        },
        (KernelNodeAttr::ProgrammaticEvent, KernelNodeAttrValue::ProgrammaticEvent(v)) => {
            graph_exec_kernel_node_set_programmatic_event_follows(z, s, graph, node, v);
        },
        (KernelNodeAttr::LaunchCompletion, KernelNodeAttrValue::LaunchCompletion(v)) => {
            graph_exec_kernel_node_set_launch_completion_follows(z, s, graph, node, v);
        },
        (KernelNodeAttr::AccessPolicy, KernelNodeAttrValue::AccessPolicy(v)) => {
            graph_exec_kernel_node_set_access_policy_follows(z, s, graph, node, v);
        },
        (KernelNodeAttr::MemSyncDomain, KernelNodeAttrValue::MemSyncDomain(v)) => {
            graph_exec_kernel_node_set_mem_sync_domain_follows(z, s, graph, node, v);
        },
        (KernelNodeAttr::MemSyncDomainMap, KernelNodeAttrValue::MemSyncDomainMap(v)) => {
            graph_exec_kernel_node_set_mem_sync_domain_map_follows(z, s, graph, node, v);
        },
        (KernelNodeAttr::Cluster, KernelNodeAttrValue::Cluster(v)) => {
            graph_exec_kernel_node_set_cluster_follows(z, s, graph, node, v);
        },
        (KernelNodeAttr::ClusterPolicy, KernelNodeAttrValue::ClusterPolicy(v)) => {
            graph_exec_kernel_node_set_cluster_policy_follows(z, s, graph, node, v);
        },
        (KernelNodeAttr::PreferredCluster, KernelNodeAttrValue::PreferredCluster(v)) => {
            graph_exec_kernel_node_set_preferred_cluster_follows(z, s, graph, node, v);
        },
        (KernelNodeAttr::Carveout, KernelNodeAttrValue::Carveout(v)) => {
            graph_exec_kernel_node_set_carveout_follows(z, s, graph, node, v);
        },
        (KernelNodeAttr::DeviceUpdatable, KernelNodeAttrValue::DeviceUpdatable(v)) => {
            graph_exec_kernel_node_set_device_updatable_follows(z, s, graph, node, v);
        },
        (KernelNodeAttr::SharedMem, KernelNodeAttrValue::SharedMem(v)) => {
            graph_exec_kernel_node_set_shared_mem_follows(z, s, graph, node, v);
        },
        (KernelNodeAttr::PortableCluster, KernelNodeAttrValue::PortableCluster(v)) => {
            graph_exec_kernel_node_set_portable_cluster_follows(z, s, graph, node, v);
        },
        (KernelNodeAttr::PortableShared, KernelNodeAttrValue::PortableShared(v)) => {
            graph_exec_kernel_node_set_portable_shared_follows(z, s, graph, node, v);
        },
        (KernelNodeAttr::DynamicShared, KernelNodeAttrValue::DynamicShared(v)) => {
            graph_exec_kernel_node_set_dynamic_shared_follows(z, s, graph, node, v);
        },
        (KernelNodeAttr::NvlinkUtilCentric, KernelNodeAttrValue::NvlinkUtilCentric(v)) => {
            graph_exec_kernel_node_set_nvlink_util_centric_follows(z, s, graph, node, v);
        },
        _ => {},
    }
}

} // verus!
