//! Launch attributes of kernel nodes, in the definition and in the executable.
use vstd::prelude::*;
use crate::error::{invalid, SimError};
use crate::ids::GraphId;
use crate::list::{Dup, ok_ref};
use crate::ops::{
    AccessPolicyWindow, ClusterDim, ClusterSchedulingPolicy, GpuOp, GpuOpView, KernelNodeAttr,
    KernelNodeAttrValue, LaunchCompletionEvent, MemSyncDomain, MemSyncDomainMap,
    PortableClusterMode, PortableSharedMode, ProgrammaticEvent, ProgrammaticLaunch,
    SharedMemCarveout, SharedMemoryMode,
};
use crate::sim::{Sim, SimState};
use crate::state::{GraphStep, NodeAttrs, StepView};

verus! {

impl SimState {
    /// Value of [`Sim::kernel_def_step`].
    pub open spec fn kernel_def_step(
        self,
        graph: GraphId,
        node: usize,
    ) -> Result<StepView, SimError> {
        match self.graph_def_step(graph, node) {
            Err(e) => Err(e),
            Ok(step) => if !(match step.kind { GpuOpView::Kernel { .. } => true, _ => false }) {
                Err(invalid("not a kernel node"))
            } else {
                Ok(step)
            },
        }
    }

    /// Value of [`Sim::kernel_exec_step`].
    pub open spec fn kernel_exec_step(
        self,
        id: GraphId,
        node: usize,
    ) -> Result<StepView, SimError> {
        match self.current_step(id, node) {
            Err(e) => Err(e),
            Ok(step) => if !(match step.kind { GpuOpView::Kernel { .. } => true, _ => false }) {
                Err(invalid("not a kernel node"))
            } else {
                Ok(step)
            },
        }
    }

    /// Value of [`Sim::def_attrs`].
    pub open spec fn def_attrs(self, graph: GraphId, node: usize) -> Result<NodeAttrs, SimError> {
        match self.kernel_def_step(graph, node) {
            Err(e) => Err(e),
            Ok(step) => Ok(step.attrs),
        }
    }

    /// Value of [`Sim::exec_attrs`].
    pub open spec fn exec_attrs(self, graph: GraphId, node: usize) -> Result<NodeAttrs, SimError> {
        match self.as_exec(graph) {
            Err(e) => Err(e),
            Ok(id) => match self.kernel_exec_step(id, node) {
                Err(e) => Err(e),
                Ok(step) => Ok(step.attrs),
            },
        }
    }

    /// Effect of [`Sim::set_def_attrs`].
    pub open spec fn set_def_attrs(
        self,
        graph: GraphId,
        node: usize,
        attrs: NodeAttrs,
    ) -> (SimState, Result<(), SimError>) {
        let s = self;
        match s.kernel_def_step(graph, node) {
            Err(e) => (s, Err(e)),
            Ok(v1) => {
                let step = v1;
                let step = StepView { attrs: attrs, ..step };
                let s = s.put_def_step(graph, node, step);
                let s = s.tick(1);
                (s, Ok(()))
            },
        }
    }

    /// Effect of [`Sim::set_exec_attrs`].
    pub open spec fn set_exec_attrs(
        self,
        id: GraphId,
        node: usize,
        attrs: NodeAttrs,
    ) -> (SimState, Result<(), SimError>) {
        let s = self;
        match s.kernel_exec_step(id, node) {
            Err(e) => (s, Err(e)),
            Ok(v1) => {
                let step = v1;
                match s.graph_ref(id) {
                    Err(e) => (s, Err(e)),
                    Ok(g) => {
                        let uploaded = g.uploaded;
                        let step = StepView { attrs: attrs, ..step };
                        match s.put_exec_step(id, node, step, uploaded) {
                            (s, Err(e)) => (s, Err(e)),
                            (s, Ok(_v)) => {
                                let s = s.tick(1);
                                (s, Ok(()))
                            },
                        }
                    },
                }
            },
        }
    }

    /// Value of [`Sim::graph_kernel_node_get_priority`].
    pub open spec fn graph_kernel_node_get_priority(
        self,
        graph: GraphId,
        node: usize,
    ) -> Result<i32, SimError> {
        match self.def_attrs(graph, node) {
            Err(e) => Err(e),
            Ok(attrs) => Ok(attrs.priority),
        }
    }

    /// Value of [`Sim::graph_exec_kernel_node_get_priority`].
    pub open spec fn graph_exec_kernel_node_get_priority(
        self,
        graph: GraphId,
        node: usize,
    ) -> Result<i32, SimError> {
        match self.exec_attrs(graph, node) {
            Err(e) => Err(e),
            Ok(attrs) => Ok(attrs.priority),
        }
    }

    /// Effect of [`Sim::graph_kernel_node_set_priority`].
    pub open spec fn graph_kernel_node_set_priority(
        self,
        graph: GraphId,
        node: usize,
        priority: i32,
    ) -> (SimState, Result<(), SimError>) {
        let s = self;
        match s.fail_if_capturing("cannot capture kernel node set attribute") {
            Err(e) => (s, Err(e)),
            Ok(_v) => match s.kernel_def_step(graph, node) {
                Err(e) => (s, Err(e)),
                Ok(step) => {
                    let attrs = step.attrs;
                    let attrs = NodeAttrs { priority: priority, ..attrs };
                    s.set_def_attrs(graph, node, attrs)
                },
            },
        }
    }

    /// Effect of [`Sim::graph_exec_kernel_node_set_priority`].
    pub open spec fn graph_exec_kernel_node_set_priority(
        self,
        graph: GraphId,
        node: usize,
        priority: i32,
    ) -> (SimState, Result<(), SimError>) {
        let s = self;
        match s.fail_if_capturing("cannot capture kernel node set attribute") {
            Err(e) => (s, Err(e)),
            Ok(_v) => match s.as_exec(graph) {
                Err(e) => (s, Err(e)),
                Ok(id) => match s.kernel_exec_step(id, node) {
                    Err(e) => (s, Err(e)),
                    Ok(step) => {
                        let attrs = step.attrs;
                        let attrs = NodeAttrs { priority: priority, ..attrs };
                        s.set_exec_attrs(id, node, attrs)
                    },
                },
            },
        }
    }

    /// Value of [`Sim::graph_kernel_node_get_pdl`].
    pub open spec fn graph_kernel_node_get_pdl(
        self,
        graph: GraphId,
        node: usize,
    ) -> Result<ProgrammaticLaunch, SimError> {
        match self.def_attrs(graph, node) {
            Err(e) => Err(e),
            Ok(attrs) => Ok(attrs.pdl),
        }
    }

    /// Value of [`Sim::graph_exec_kernel_node_get_pdl`].
    pub open spec fn graph_exec_kernel_node_get_pdl(
        self,
        graph: GraphId,
        node: usize,
    ) -> Result<ProgrammaticLaunch, SimError> {
        match self.exec_attrs(graph, node) {
            Err(e) => Err(e),
            Ok(attrs) => Ok(attrs.pdl),
        }
    }

    /// Effect of [`Sim::graph_kernel_node_set_pdl`].
    pub open spec fn graph_kernel_node_set_pdl(
        self,
        graph: GraphId,
        node: usize,
        pdl: ProgrammaticLaunch,
    ) -> (SimState, Result<(), SimError>) {
        let s = self;
        match s.fail_if_capturing("cannot capture kernel node set attribute") {
            Err(e) => (s, Err(e)),
            Ok(_v) => match s.kernel_def_step(graph, node) {
                Err(e) => (s, Err(e)),
                Ok(step) => {
                    let attrs = step.attrs;
                    let attrs = NodeAttrs { pdl: pdl, ..attrs };
                    s.set_def_attrs(graph, node, attrs)
                },
            },
        }
    }

    /// Effect of [`Sim::graph_exec_kernel_node_set_pdl`].
    pub open spec fn graph_exec_kernel_node_set_pdl(
        self,
        graph: GraphId,
        node: usize,
        pdl: ProgrammaticLaunch,
    ) -> (SimState, Result<(), SimError>) {
        let s = self;
        match s.fail_if_capturing("cannot capture kernel node set attribute") {
            Err(e) => (s, Err(e)),
            Ok(_v) => match s.as_exec(graph) {
                Err(e) => (s, Err(e)),
                Ok(id) => match s.kernel_exec_step(id, node) {
                    Err(e) => (s, Err(e)),
                    Ok(step) => {
                        let attrs = step.attrs;
                        let attrs = NodeAttrs { pdl: pdl, ..attrs };
                        s.set_exec_attrs(id, node, attrs)
                    },
                },
            },
        }
    }

    /// Value of [`Sim::graph_kernel_node_get_programmatic_event`].
    pub open spec fn graph_kernel_node_get_programmatic_event(
        self,
        graph: GraphId,
        node: usize,
    ) -> Result<Option<ProgrammaticEvent>, SimError> {
        match self.def_attrs(graph, node) {
            Err(e) => Err(e),
            Ok(attrs) => Ok(attrs.programmatic_event),
        }
    }

    /// Value of [`Sim::graph_exec_kernel_node_get_programmatic_event`].
    pub open spec fn graph_exec_kernel_node_get_programmatic_event(
        self,
        graph: GraphId,
        node: usize,
    ) -> Result<Option<ProgrammaticEvent>, SimError> {
        match self.exec_attrs(graph, node) {
            Err(e) => Err(e),
            Ok(attrs) => Ok(attrs.programmatic_event),
        }
    }

    /// Effect of [`Sim::graph_kernel_node_set_programmatic_event`].
    pub open spec fn graph_kernel_node_set_programmatic_event(
        self,
        graph: GraphId,
        node: usize,
        event: Option<ProgrammaticEvent>,
    ) -> (SimState, Result<(), SimError>) {
        let s = self;
        match s.fail_if_capturing("cannot capture kernel node set attribute") {
            Err(e) => (s, Err(e)),
            Ok(_v) => match s.kernel_def_step(graph, node) {
                Err(e) => (s, Err(e)),
                Ok(step) => {
                    let attrs = step.attrs;
                    let attrs = NodeAttrs { programmatic_event: event, ..attrs };
                    let s = match event {
                        Some(e) => {
                            let s = s.ensure_event(e.event);
                            s
                        },
                        _ => s,
                    };
                    s.set_def_attrs(graph, node, attrs)
                },
            },
        }
    }

    /// Effect of [`Sim::graph_exec_kernel_node_set_programmatic_event`].
    pub open spec fn graph_exec_kernel_node_set_programmatic_event(
        self,
        graph: GraphId,
        node: usize,
        event: Option<ProgrammaticEvent>,
    ) -> (SimState, Result<(), SimError>) {
        let s = self;
        match s.fail_if_capturing("cannot capture kernel node set attribute") {
            Err(e) => (s, Err(e)),
            Ok(_v) => match s.as_exec(graph) {
                Err(e) => (s, Err(e)),
                Ok(id) => {
                    let s = match event {
                        Some(e) => {
                            let s = s.ensure_event(e.event);
                            s
                        },
                        _ => s,
                    };
                    match s.kernel_exec_step(id, node) {
                        Err(e) => (s, Err(e)),
                        Ok(step) => {
                            let attrs = step.attrs;
                            let attrs = NodeAttrs { programmatic_event: event, ..attrs };
                            s.set_exec_attrs(id, node, attrs)
                        },
                    }
                },
            },
        }
    }

    /// Value of [`Sim::graph_kernel_node_get_launch_completion`].
    pub open spec fn graph_kernel_node_get_launch_completion(
        self,
        graph: GraphId,
        node: usize,
    ) -> Result<Option<LaunchCompletionEvent>, SimError> {
        match self.def_attrs(graph, node) {
            Err(e) => Err(e),
            Ok(attrs) => Ok(attrs.launch_completion),
        }
    }

    /// Value of [`Sim::graph_exec_kernel_node_get_launch_completion`].
    pub open spec fn graph_exec_kernel_node_get_launch_completion(
        self,
        graph: GraphId,
        node: usize,
    ) -> Result<Option<LaunchCompletionEvent>, SimError> {
        match self.exec_attrs(graph, node) {
            Err(e) => Err(e),
            Ok(attrs) => Ok(attrs.launch_completion),
        }
    }

    /// Effect of [`Sim::graph_kernel_node_set_launch_completion`].
    pub open spec fn graph_kernel_node_set_launch_completion(
        self,
        graph: GraphId,
        node: usize,
        event: Option<LaunchCompletionEvent>,
    ) -> (SimState, Result<(), SimError>) {
        let s = self;
        match s.fail_if_capturing("cannot capture kernel node set attribute") {
            Err(e) => (s, Err(e)),
            Ok(_v) => match s.kernel_def_step(graph, node) {
                Err(e) => (s, Err(e)),
                Ok(step) => {
                    let attrs = step.attrs;
                    let attrs = NodeAttrs { launch_completion: event, ..attrs };
                    let s = match event {
                        Some(e) => {
                            let s = s.ensure_event(e.event);
                            s
                        },
                        _ => s,
                    };
                    s.set_def_attrs(graph, node, attrs)
                },
            },
        }
    }

    /// Effect of [`Sim::graph_exec_kernel_node_set_launch_completion`].
    pub open spec fn graph_exec_kernel_node_set_launch_completion(
        self,
        graph: GraphId,
        node: usize,
        event: Option<LaunchCompletionEvent>,
    ) -> (SimState, Result<(), SimError>) {
        let s = self;
        match s.fail_if_capturing("cannot capture kernel node set attribute") {
            Err(e) => (s, Err(e)),
            Ok(_v) => match s.as_exec(graph) {
                Err(e) => (s, Err(e)),
                Ok(id) => {
                    let s = match event {
                        Some(e) => {
                            let s = s.ensure_event(e.event);
                            s
                        },
                        _ => s,
                    };
                    match s.kernel_exec_step(id, node) {
                        Err(e) => (s, Err(e)),
                        Ok(step) => {
                            let attrs = step.attrs;
                            let attrs = NodeAttrs { launch_completion: event, ..attrs };
                            s.set_exec_attrs(id, node, attrs)
                        },
                    }
                },
            },
        }
    }

    /// Value of [`Sim::graph_kernel_node_get_access_policy`].
    pub open spec fn graph_kernel_node_get_access_policy(
        self,
        graph: GraphId,
        node: usize,
    ) -> Result<Option<AccessPolicyWindow>, SimError> {
        match self.def_attrs(graph, node) {
            Err(e) => Err(e),
            Ok(attrs) => Ok(attrs.access_policy),
        }
    }

    /// Value of [`Sim::graph_exec_kernel_node_get_access_policy`].
    pub open spec fn graph_exec_kernel_node_get_access_policy(
        self,
        graph: GraphId,
        node: usize,
    ) -> Result<Option<AccessPolicyWindow>, SimError> {
        match self.exec_attrs(graph, node) {
            Err(e) => Err(e),
            Ok(attrs) => Ok(attrs.access_policy),
        }
    }

    /// Effect of [`Sim::graph_kernel_node_set_access_policy`].
    pub open spec fn graph_kernel_node_set_access_policy(
        self,
        graph: GraphId,
        node: usize,
        window: Option<AccessPolicyWindow>,
    ) -> (SimState, Result<(), SimError>) {
        let s = self;
        match s.fail_if_capturing("cannot capture kernel node set attribute") {
            Err(e) => (s, Err(e)),
            Ok(_v) => match s.kernel_def_step(graph, node) {
                Err(e) => (s, Err(e)),
                Ok(step) => match window {
                    Some(w) => match s.validate_access_policy_window(step.device, w) {
                        Err(e) => (s, Err(e)),
                        Ok(_v) => {
                            let attrs = step.attrs;
                            let attrs = NodeAttrs { access_policy: window, ..attrs };
                            s.set_def_attrs(graph, node, attrs)
                        },
                    },
                    _ => {
                        let attrs = step.attrs;
                        let attrs = NodeAttrs { access_policy: window, ..attrs };
                        s.set_def_attrs(graph, node, attrs)
                    },
                },
            },
        }
    }

    /// Effect of [`Sim::graph_exec_kernel_node_set_access_policy`].
    pub open spec fn graph_exec_kernel_node_set_access_policy(
        self,
        graph: GraphId,
        node: usize,
        window: Option<AccessPolicyWindow>,
    ) -> (SimState, Result<(), SimError>) {
        let s = self;
        match s.fail_if_capturing("cannot capture kernel node set attribute") {
            Err(e) => (s, Err(e)),
            Ok(_v) => match s.as_exec(graph) {
                Err(e) => (s, Err(e)),
                Ok(id) => match s.kernel_exec_step(id, node) {
                    Err(e) => (s, Err(e)),
                    Ok(step) => match window {
                        Some(w) => match s.validate_access_policy_window(step.device, w) {
                            Err(e) => (s, Err(e)),
                            Ok(_v) => {
                                let attrs = step.attrs;
                                let attrs = NodeAttrs { access_policy: window, ..attrs };
                                s.set_exec_attrs(id, node, attrs)
                            },
                        },
                        _ => {
                            let attrs = step.attrs;
                            let attrs = NodeAttrs { access_policy: window, ..attrs };
                            s.set_exec_attrs(id, node, attrs)
                        },
                    },
                },
            },
        }
    }

    /// Value of [`Sim::graph_kernel_node_get_mem_sync_domain`].
    pub open spec fn graph_kernel_node_get_mem_sync_domain(
        self,
        graph: GraphId,
        node: usize,
    ) -> Result<MemSyncDomain, SimError> {
        match self.def_attrs(graph, node) {
            Err(e) => Err(e),
            Ok(attrs) => Ok(attrs.mem_sync_domain),
        }
    }

    /// Value of [`Sim::graph_exec_kernel_node_get_mem_sync_domain`].
    pub open spec fn graph_exec_kernel_node_get_mem_sync_domain(
        self,
        graph: GraphId,
        node: usize,
    ) -> Result<MemSyncDomain, SimError> {
        match self.exec_attrs(graph, node) {
            Err(e) => Err(e),
            Ok(attrs) => Ok(attrs.mem_sync_domain),
        }
    }

    /// Effect of [`Sim::graph_kernel_node_set_mem_sync_domain`].
    pub open spec fn graph_kernel_node_set_mem_sync_domain(
        self,
        graph: GraphId,
        node: usize,
        domain: MemSyncDomain,
    ) -> (SimState, Result<(), SimError>) {
        let s = self;
        match s.fail_if_capturing("cannot capture kernel node set attribute") {
            Err(e) => (s, Err(e)),
            Ok(_v) => match s.kernel_def_step(graph, node) {
                Err(e) => (s, Err(e)),
                Ok(step) => {
                    let attrs = step.attrs;
                    let attrs = NodeAttrs { mem_sync_domain: domain, ..attrs };
                    s.set_def_attrs(graph, node, attrs)
                },
            },
        }
    }

    /// Effect of [`Sim::graph_exec_kernel_node_set_mem_sync_domain`].
    pub open spec fn graph_exec_kernel_node_set_mem_sync_domain(
        self,
        graph: GraphId,
        node: usize,
        domain: MemSyncDomain,
    ) -> (SimState, Result<(), SimError>) {
        let s = self;
        match s.fail_if_capturing("cannot capture kernel node set attribute") {
            Err(e) => (s, Err(e)),
            Ok(_v) => match s.as_exec(graph) {
                Err(e) => (s, Err(e)),
                Ok(id) => match s.kernel_exec_step(id, node) {
                    Err(e) => (s, Err(e)),
                    Ok(step) => {
                        let attrs = step.attrs;
                        let attrs = NodeAttrs { mem_sync_domain: domain, ..attrs };
                        s.set_exec_attrs(id, node, attrs)
                    },
                },
            },
        }
    }

    /// Value of [`Sim::graph_kernel_node_get_mem_sync_domain_map`].
    pub open spec fn graph_kernel_node_get_mem_sync_domain_map(
        self,
        graph: GraphId,
        node: usize,
    ) -> Result<MemSyncDomainMap, SimError> {
        match self.def_attrs(graph, node) {
            Err(e) => Err(e),
            Ok(attrs) => Ok(attrs.mem_sync_map),
        }
    }

    /// Value of [`Sim::graph_exec_kernel_node_get_mem_sync_domain_map`].
    pub open spec fn graph_exec_kernel_node_get_mem_sync_domain_map(
        self,
        graph: GraphId,
        node: usize,
    ) -> Result<MemSyncDomainMap, SimError> {
        match self.exec_attrs(graph, node) {
            Err(e) => Err(e),
            Ok(attrs) => Ok(attrs.mem_sync_map),
        }
    }

    /// Effect of [`Sim::graph_kernel_node_set_mem_sync_domain_map`].
    pub open spec fn graph_kernel_node_set_mem_sync_domain_map(
        self,
        graph: GraphId,
        node: usize,
        map: MemSyncDomainMap,
    ) -> (SimState, Result<(), SimError>) {
        let s = self;
        match s.fail_if_capturing("cannot capture kernel node set attribute") {
            Err(e) => (s, Err(e)),
            Ok(_v) => match s.kernel_def_step(graph, node) {
                Err(e) => (s, Err(e)),
                Ok(step) => match s.validate_mem_sync_map(step.device, map) {
                    Err(e) => (s, Err(e)),
                    Ok(_v) => {
                        let attrs = step.attrs;
                        let attrs = NodeAttrs { mem_sync_map: map, ..attrs };
                        s.set_def_attrs(graph, node, attrs)
                    },
                },
            },
        }
    }

    /// Effect of [`Sim::graph_exec_kernel_node_set_mem_sync_domain_map`].
    pub open spec fn graph_exec_kernel_node_set_mem_sync_domain_map(
        self,
        graph: GraphId,
        node: usize,
        map: MemSyncDomainMap,
    ) -> (SimState, Result<(), SimError>) {
        let s = self;
        match s.fail_if_capturing("cannot capture kernel node set attribute") {
            Err(e) => (s, Err(e)),
            Ok(_v) => match s.as_exec(graph) {
                Err(e) => (s, Err(e)),
                Ok(id) => match s.kernel_exec_step(id, node) {
                    Err(e) => (s, Err(e)),
                    Ok(step) => match s.validate_mem_sync_map(step.device, map) {
                        Err(e) => (s, Err(e)),
                        Ok(_v) => {
                            let attrs = step.attrs;
                            let attrs = NodeAttrs { mem_sync_map: map, ..attrs };
                            s.set_exec_attrs(id, node, attrs)
                        },
                    },
                },
            },
        }
    }

    /// Value of [`Sim::graph_kernel_node_get_cluster`].
    pub open spec fn graph_kernel_node_get_cluster(
        self,
        graph: GraphId,
        node: usize,
    ) -> Result<Option<ClusterDim>, SimError> {
        match self.def_attrs(graph, node) {
            Err(e) => Err(e),
            Ok(attrs) => Ok(attrs.cluster),
        }
    }

    /// Value of [`Sim::graph_exec_kernel_node_get_cluster`].
    pub open spec fn graph_exec_kernel_node_get_cluster(
        self,
        graph: GraphId,
        node: usize,
    ) -> Result<Option<ClusterDim>, SimError> {
        match self.exec_attrs(graph, node) {
            Err(e) => Err(e),
            Ok(attrs) => Ok(attrs.cluster),
        }
    }

    /// Effect of [`Sim::graph_kernel_node_set_cluster`].
    pub open spec fn graph_kernel_node_set_cluster(
        self,
        graph: GraphId,
        node: usize,
        cluster: Option<ClusterDim>,
    ) -> (SimState, Result<(), SimError>) {
        let s = self;
        match s.fail_if_capturing("cannot capture kernel node set attribute") {
            Err(e) => (s, Err(e)),
            Ok(_v) => match s.kernel_def_step(graph, node) {
                Err(e) => (s, Err(e)),
                Ok(step) => match cluster {
                    Some(c) => match s.validate_cluster(
                        step.device,
                        c,
                        step.attrs.portable_cluster,
                    ) {
                        Err(e) => (s, Err(e)),
                        Ok(_n) => {
                            let attrs = step.attrs;
                            let attrs = NodeAttrs { cluster: cluster, ..attrs };
                            s.set_def_attrs(graph, node, attrs)
                        },
                    },
                    _ => {
                        let attrs = step.attrs;
                        let attrs = NodeAttrs { cluster: cluster, ..attrs };
                        s.set_def_attrs(graph, node, attrs)
                    },
                },
            },
        }
    }

    /// Effect of [`Sim::graph_exec_kernel_node_set_cluster`].
    pub open spec fn graph_exec_kernel_node_set_cluster(
        self,
        graph: GraphId,
        node: usize,
        cluster: Option<ClusterDim>,
    ) -> (SimState, Result<(), SimError>) {
        let s = self;
        match s.fail_if_capturing("cannot capture kernel node set attribute") {
            Err(e) => (s, Err(e)),
            Ok(_v) => match s.as_exec(graph) {
                Err(e) => (s, Err(e)),
                Ok(id) => match s.kernel_exec_step(id, node) {
                    Err(e) => (s, Err(e)),
                    Ok(step) => match cluster {
                        Some(c) => match s.validate_cluster(
                            step.device,
                            c,
                            step.attrs.portable_cluster,
                        ) {
                            Err(e) => (s, Err(e)),
                            Ok(_n) => {
                                let attrs = step.attrs;
                                let attrs = NodeAttrs { cluster: cluster, ..attrs };
                                s.set_exec_attrs(id, node, attrs)
                            },
                        },
                        _ => {
                            let attrs = step.attrs;
                            let attrs = NodeAttrs { cluster: cluster, ..attrs };
                            s.set_exec_attrs(id, node, attrs)
                        },
                    },
                },
            },
        }
    }

    /// Value of [`Sim::graph_kernel_node_get_cluster_policy`].
    pub open spec fn graph_kernel_node_get_cluster_policy(
        self,
        graph: GraphId,
        node: usize,
    ) -> Result<ClusterSchedulingPolicy, SimError> {
        match self.def_attrs(graph, node) {
            Err(e) => Err(e),
            Ok(attrs) => Ok(attrs.cluster_policy),
        }
    }

    /// Value of [`Sim::graph_exec_kernel_node_get_cluster_policy`].
    pub open spec fn graph_exec_kernel_node_get_cluster_policy(
        self,
        graph: GraphId,
        node: usize,
    ) -> Result<ClusterSchedulingPolicy, SimError> {
        match self.exec_attrs(graph, node) {
            Err(e) => Err(e),
            Ok(attrs) => Ok(attrs.cluster_policy),
        }
    }

    /// Effect of [`Sim::graph_kernel_node_set_cluster_policy`].
    pub open spec fn graph_kernel_node_set_cluster_policy(
        self,
        graph: GraphId,
        node: usize,
        policy: ClusterSchedulingPolicy,
    ) -> (SimState, Result<(), SimError>) {
        let s = self;
        match s.fail_if_capturing("cannot capture kernel node set attribute") {
            Err(e) => (s, Err(e)),
            Ok(_v) => match s.kernel_def_step(graph, node) {
                Err(e) => (s, Err(e)),
                Ok(step) => {
                    let attrs = step.attrs;
                    let attrs = NodeAttrs { cluster_policy: policy, ..attrs };
                    s.set_def_attrs(graph, node, attrs)
                },
            },
        }
    }

    /// Effect of [`Sim::graph_exec_kernel_node_set_cluster_policy`].
    pub open spec fn graph_exec_kernel_node_set_cluster_policy(
        self,
        graph: GraphId,
        node: usize,
        policy: ClusterSchedulingPolicy,
    ) -> (SimState, Result<(), SimError>) {
        let s = self;
        match s.fail_if_capturing("cannot capture kernel node set attribute") {
            Err(e) => (s, Err(e)),
            Ok(_v) => match s.as_exec(graph) {
                Err(e) => (s, Err(e)),
                Ok(id) => match s.kernel_exec_step(id, node) {
                    Err(e) => (s, Err(e)),
                    Ok(step) => {
                        let attrs = step.attrs;
                        let attrs = NodeAttrs { cluster_policy: policy, ..attrs };
                        s.set_exec_attrs(id, node, attrs)
                    },
                },
            },
        }
    }

    /// Value of [`Sim::graph_kernel_node_get_preferred_cluster`].
    pub open spec fn graph_kernel_node_get_preferred_cluster(
        self,
        graph: GraphId,
        node: usize,
    ) -> Result<Option<ClusterDim>, SimError> {
        match self.def_attrs(graph, node) {
            Err(e) => Err(e),
            Ok(attrs) => Ok(attrs.preferred_cluster),
        }
    }

    /// Value of [`Sim::graph_exec_kernel_node_get_preferred_cluster`].
    pub open spec fn graph_exec_kernel_node_get_preferred_cluster(
        self,
        graph: GraphId,
        node: usize,
    ) -> Result<Option<ClusterDim>, SimError> {
        match self.exec_attrs(graph, node) {
            Err(e) => Err(e),
            Ok(attrs) => Ok(attrs.preferred_cluster),
        }
    }

    /// Effect of [`Sim::graph_kernel_node_set_preferred_cluster`].
    pub open spec fn graph_kernel_node_set_preferred_cluster(
        self,
        graph: GraphId,
        node: usize,
        preferred: Option<ClusterDim>,
    ) -> (SimState, Result<(), SimError>) {
        let s = self;
        match s.fail_if_capturing("cannot capture kernel node set attribute") {
            Err(e) => (s, Err(e)),
            Ok(_v) => match s.kernel_def_step(graph, node) {
                Err(e) => (s, Err(e)),
                Ok(step) => match s.validate_cluster_attrs(
                    step.device,
                    step.attrs.cluster,
                    preferred,
                    step.attrs.portable_cluster,
                ) {
                    Err(e) => (s, Err(e)),
                    Ok(_v) => {
                        let attrs = step.attrs;
                        let attrs = NodeAttrs { preferred_cluster: preferred, ..attrs };
                        s.set_def_attrs(graph, node, attrs)
                    },
                },
            },
        }
    }

    /// Effect of [`Sim::graph_exec_kernel_node_set_preferred_cluster`].
    pub open spec fn graph_exec_kernel_node_set_preferred_cluster(
        self,
        graph: GraphId,
        node: usize,
        preferred: Option<ClusterDim>,
    ) -> (SimState, Result<(), SimError>) {
        let s = self;
        match s.fail_if_capturing("cannot capture kernel node set attribute") {
            Err(e) => (s, Err(e)),
            Ok(_v) => match s.as_exec(graph) {
                Err(e) => (s, Err(e)),
                Ok(id) => match s.kernel_exec_step(id, node) {
                    Err(e) => (s, Err(e)),
                    Ok(step) => match s.validate_cluster_attrs(
                        step.device,
                        step.attrs.cluster,
                        preferred,
                        step.attrs.portable_cluster,
                    ) {
                        Err(e) => (s, Err(e)),
                        Ok(_v) => {
                            let attrs = step.attrs;
                            let attrs = NodeAttrs { preferred_cluster: preferred, ..attrs };
                            s.set_exec_attrs(id, node, attrs)
                        },
                    },
                },
            },
        }
    }

    /// Value of [`Sim::graph_kernel_node_get_carveout`].
    pub open spec fn graph_kernel_node_get_carveout(
        self,
        graph: GraphId,
        node: usize,
    ) -> Result<SharedMemCarveout, SimError> {
        match self.def_attrs(graph, node) {
            Err(e) => Err(e),
            Ok(attrs) => Ok(attrs.carveout),
        }
    }

    /// Value of [`Sim::graph_exec_kernel_node_get_carveout`].
    pub open spec fn graph_exec_kernel_node_get_carveout(
        self,
        graph: GraphId,
        node: usize,
    ) -> Result<SharedMemCarveout, SimError> {
        match self.exec_attrs(graph, node) {
            Err(e) => Err(e),
            Ok(attrs) => Ok(attrs.carveout),
        }
    }

    /// Effect of [`Sim::graph_kernel_node_set_carveout`].
    pub open spec fn graph_kernel_node_set_carveout(
        self,
        graph: GraphId,
        node: usize,
        carveout: SharedMemCarveout,
    ) -> (SimState, Result<(), SimError>) {
        let s = self;
        match s.fail_if_capturing("cannot capture kernel node set attribute") {
            Err(e) => (s, Err(e)),
            Ok(_v) => match s.kernel_def_step(graph, node) {
                Err(e) => (s, Err(e)),
                Ok(step) => {
                    let attrs = step.attrs;
                    let attrs = NodeAttrs { carveout: carveout, ..attrs };
                    s.set_def_attrs(graph, node, attrs)
                },
            },
        }
    }

    /// Effect of [`Sim::graph_exec_kernel_node_set_carveout`].
    pub open spec fn graph_exec_kernel_node_set_carveout(
        self,
        graph: GraphId,
        node: usize,
        carveout: SharedMemCarveout,
    ) -> (SimState, Result<(), SimError>) {
        let s = self;
        match s.fail_if_capturing("cannot capture kernel node set attribute") {
            Err(e) => (s, Err(e)),
            Ok(_v) => match s.as_exec(graph) {
                Err(e) => (s, Err(e)),
                Ok(id) => match s.kernel_exec_step(id, node) {
                    Err(e) => (s, Err(e)),
                    Ok(step) => {
                        let attrs = step.attrs;
                        let attrs = NodeAttrs { carveout: carveout, ..attrs };
                        s.set_exec_attrs(id, node, attrs)
                    },
                },
            },
        }
    }

    /// Value of [`Sim::graph_kernel_node_get_device_updatable`].
    pub open spec fn graph_kernel_node_get_device_updatable(
        self,
        graph: GraphId,
        node: usize,
    ) -> Result<bool, SimError> {
        match self.def_attrs(graph, node) {
            Err(e) => Err(e),
            Ok(attrs) => Ok(attrs.device_updatable),
        }
    }

    /// Value of [`Sim::graph_exec_kernel_node_get_device_updatable`].
    pub open spec fn graph_exec_kernel_node_get_device_updatable(
        self,
        graph: GraphId,
        node: usize,
    ) -> Result<bool, SimError> {
        match self.exec_attrs(graph, node) {
            Err(e) => Err(e),
            Ok(attrs) => Ok(attrs.device_updatable),
        }
    }

    /// Effect of [`Sim::graph_kernel_node_set_device_updatable`].
    pub open spec fn graph_kernel_node_set_device_updatable(
        self,
        graph: GraphId,
        node: usize,
        device_updatable: bool,
    ) -> (SimState, Result<(), SimError>) {
        let s = self;
        match s.fail_if_capturing("cannot capture kernel node set attribute") {
            Err(e) => (s, Err(e)),
            Ok(_v) => match s.kernel_def_step(graph, node) {
                Err(e) => (s, Err(e)),
                Ok(step) => {
                    let attrs = step.attrs;
                    let attrs = NodeAttrs { device_updatable: device_updatable, ..attrs };
                    s.set_def_attrs(graph, node, attrs)
                },
            },
        }
    }

    /// Effect of [`Sim::graph_exec_kernel_node_set_device_updatable`].
    pub open spec fn graph_exec_kernel_node_set_device_updatable(
        self,
        graph: GraphId,
        node: usize,
        device_updatable: bool,
    ) -> (SimState, Result<(), SimError>) {
        let s = self;
        match s.fail_if_capturing("cannot capture kernel node set attribute") {
            Err(e) => (s, Err(e)),
            Ok(_v) => match s.as_exec(graph) {
                Err(e) => (s, Err(e)),
                Ok(id) => match s.kernel_exec_step(id, node) {
                    Err(e) => (s, Err(e)),
                    Ok(step) => {
                        let attrs = step.attrs;
                        let attrs = NodeAttrs { device_updatable: device_updatable, ..attrs };
                        s.set_exec_attrs(id, node, attrs)
                    },
                },
            },
        }
    }

    /// Value of [`Sim::graph_kernel_node_get_shared_mem`].
    pub open spec fn graph_kernel_node_get_shared_mem(
        self,
        graph: GraphId,
        node: usize,
    ) -> Result<SharedMemoryMode, SimError> {
        match self.def_attrs(graph, node) {
            Err(e) => Err(e),
            Ok(attrs) => Ok(attrs.shared_mem),
        }
    }

    /// Value of [`Sim::graph_exec_kernel_node_get_shared_mem`].
    pub open spec fn graph_exec_kernel_node_get_shared_mem(
        self,
        graph: GraphId,
        node: usize,
    ) -> Result<SharedMemoryMode, SimError> {
        match self.exec_attrs(graph, node) {
            Err(e) => Err(e),
            Ok(attrs) => Ok(attrs.shared_mem),
        }
    }

    /// Effect of [`Sim::graph_kernel_node_set_shared_mem`].
    pub open spec fn graph_kernel_node_set_shared_mem(
        self,
        graph: GraphId,
        node: usize,
        shared_mem: SharedMemoryMode,
    ) -> (SimState, Result<(), SimError>) {
        let s = self;
        match s.fail_if_capturing("cannot capture kernel node set attribute") {
            Err(e) => (s, Err(e)),
            Ok(_v) => match s.kernel_def_step(graph, node) {
                Err(e) => (s, Err(e)),
                Ok(step) => {
                    let attrs = step.attrs;
                    let attrs = NodeAttrs { shared_mem: shared_mem, ..attrs };
                    s.set_def_attrs(graph, node, attrs)
                },
            },
        }
    }

    /// Effect of [`Sim::graph_exec_kernel_node_set_shared_mem`].
    pub open spec fn graph_exec_kernel_node_set_shared_mem(
        self,
        graph: GraphId,
        node: usize,
        shared_mem: SharedMemoryMode,
    ) -> (SimState, Result<(), SimError>) {
        let s = self;
        match s.fail_if_capturing("cannot capture kernel node set attribute") {
            Err(e) => (s, Err(e)),
            Ok(_v) => match s.as_exec(graph) {
                Err(e) => (s, Err(e)),
                Ok(id) => match s.kernel_exec_step(id, node) {
                    Err(e) => (s, Err(e)),
                    Ok(step) => {
                        let attrs = step.attrs;
                        let attrs = NodeAttrs { shared_mem: shared_mem, ..attrs };
                        s.set_exec_attrs(id, node, attrs)
                    },
                },
            },
        }
    }

    /// Value of [`Sim::graph_kernel_node_get_portable_cluster`].
    pub open spec fn graph_kernel_node_get_portable_cluster(
        self,
        graph: GraphId,
        node: usize,
    ) -> Result<PortableClusterMode, SimError> {
        match self.def_attrs(graph, node) {
            Err(e) => Err(e),
            Ok(attrs) => Ok(attrs.portable_cluster),
        }
    }

    /// Value of [`Sim::graph_exec_kernel_node_get_portable_cluster`].
    pub open spec fn graph_exec_kernel_node_get_portable_cluster(
        self,
        graph: GraphId,
        node: usize,
    ) -> Result<PortableClusterMode, SimError> {
        match self.exec_attrs(graph, node) {
            Err(e) => Err(e),
            Ok(attrs) => Ok(attrs.portable_cluster),
        }
    }

    /// Effect of [`Sim::graph_kernel_node_set_portable_cluster`].
    pub open spec fn graph_kernel_node_set_portable_cluster(
        self,
        graph: GraphId,
        node: usize,
        mode: PortableClusterMode,
    ) -> (SimState, Result<(), SimError>) {
        let s = self;
        match s.fail_if_capturing("cannot capture kernel node set attribute") {
            Err(e) => (s, Err(e)),
            Ok(_v) => match s.kernel_def_step(graph, node) {
                Err(e) => (s, Err(e)),
                Ok(step) => match s.validate_cluster_attrs(
                    step.device,
                    step.attrs.cluster,
                    step.attrs.preferred_cluster,
                    mode,
                ) {
                    Err(e) => (s, Err(e)),
                    Ok(_v) => {
                        let attrs = step.attrs;
                        let attrs = NodeAttrs { portable_cluster: mode, ..attrs };
                        s.set_def_attrs(graph, node, attrs)
                    },
                },
            },
        }
    }

    /// Effect of [`Sim::graph_exec_kernel_node_set_portable_cluster`].
    pub open spec fn graph_exec_kernel_node_set_portable_cluster(
        self,
        graph: GraphId,
        node: usize,
        mode: PortableClusterMode,
    ) -> (SimState, Result<(), SimError>) {
        let s = self;
        match s.fail_if_capturing("cannot capture kernel node set attribute") {
            Err(e) => (s, Err(e)),
            Ok(_v) => match s.as_exec(graph) {
                Err(e) => (s, Err(e)),
                Ok(id) => match s.kernel_exec_step(id, node) {
                    Err(e) => (s, Err(e)),
                    Ok(step) => match s.validate_cluster_attrs(
                        step.device,
                        step.attrs.cluster,
                        step.attrs.preferred_cluster,
                        mode,
                    ) {
                        Err(e) => (s, Err(e)),
                        Ok(_v) => {
                            let attrs = step.attrs;
                            let attrs = NodeAttrs { portable_cluster: mode, ..attrs };
                            s.set_exec_attrs(id, node, attrs)
                        },
                    },
                },
            },
        }
    }

    /// Value of [`Sim::graph_kernel_node_get_portable_shared`].
    pub open spec fn graph_kernel_node_get_portable_shared(
        self,
        graph: GraphId,
        node: usize,
    ) -> Result<PortableSharedMode, SimError> {
        match self.def_attrs(graph, node) {
            Err(e) => Err(e),
            Ok(attrs) => Ok(attrs.portable_shared),
        }
    }

    /// Value of [`Sim::graph_exec_kernel_node_get_portable_shared`].
    pub open spec fn graph_exec_kernel_node_get_portable_shared(
        self,
        graph: GraphId,
        node: usize,
    ) -> Result<PortableSharedMode, SimError> {
        match self.exec_attrs(graph, node) {
            Err(e) => Err(e),
            Ok(attrs) => Ok(attrs.portable_shared),
        }
    }

    /// Effect of [`Sim::graph_kernel_node_set_portable_shared`].
    pub open spec fn graph_kernel_node_set_portable_shared(
        self,
        graph: GraphId,
        node: usize,
        mode: PortableSharedMode,
    ) -> (SimState, Result<(), SimError>) {
        let s = self;
        match s.fail_if_capturing("cannot capture kernel node set attribute") {
            Err(e) => (s, Err(e)),
            Ok(_v) => match s.kernel_def_step(graph, node) {
                Err(e) => (s, Err(e)),
                Ok(step) => match s.validate_dynamic_shared(
                    step.device,
                    step.attrs.dynamic_shared,
                    mode,
                ) {
                    Err(e) => (s, Err(e)),
                    Ok(_v) => {
                        let attrs = step.attrs;
                        let attrs = NodeAttrs { portable_shared: mode, ..attrs };
                        s.set_def_attrs(graph, node, attrs)
                    },
                },
            },
        }
    }

    /// Effect of [`Sim::graph_exec_kernel_node_set_portable_shared`].
    pub open spec fn graph_exec_kernel_node_set_portable_shared(
        self,
        graph: GraphId,
        node: usize,
        mode: PortableSharedMode,
    ) -> (SimState, Result<(), SimError>) {
        let s = self;
        match s.fail_if_capturing("cannot capture kernel node set attribute") {
            Err(e) => (s, Err(e)),
            Ok(_v) => match s.as_exec(graph) {
                Err(e) => (s, Err(e)),
                Ok(id) => match s.kernel_exec_step(id, node) {
                    Err(e) => (s, Err(e)),
                    Ok(step) => match s.validate_dynamic_shared(
                        step.device,
                        step.attrs.dynamic_shared,
                        mode,
                    ) {
                        Err(e) => (s, Err(e)),
                        Ok(_v) => {
                            let attrs = step.attrs;
                            let attrs = NodeAttrs { portable_shared: mode, ..attrs };
                            s.set_exec_attrs(id, node, attrs)
                        },
                    },
                },
            },
        }
    }

    /// Value of [`Sim::graph_kernel_node_get_dynamic_shared`].
    pub open spec fn graph_kernel_node_get_dynamic_shared(
        self,
        graph: GraphId,
        node: usize,
    ) -> Result<u32, SimError> {
        match self.def_attrs(graph, node) {
            Err(e) => Err(e),
            Ok(attrs) => Ok(attrs.dynamic_shared),
        }
    }

    /// Value of [`Sim::graph_exec_kernel_node_get_dynamic_shared`].
    pub open spec fn graph_exec_kernel_node_get_dynamic_shared(
        self,
        graph: GraphId,
        node: usize,
    ) -> Result<u32, SimError> {
        match self.exec_attrs(graph, node) {
            Err(e) => Err(e),
            Ok(attrs) => Ok(attrs.dynamic_shared),
        }
    }

    /// Effect of [`Sim::graph_kernel_node_set_dynamic_shared`].
    pub open spec fn graph_kernel_node_set_dynamic_shared(
        self,
        graph: GraphId,
        node: usize,
        bytes: u32,
    ) -> (SimState, Result<(), SimError>) {
        let s = self;
        match s.fail_if_capturing("cannot capture kernel node set attribute") {
            Err(e) => (s, Err(e)),
            Ok(_v) => match s.kernel_def_step(graph, node) {
                Err(e) => (s, Err(e)),
                Ok(step) => match s.validate_dynamic_shared(
                    step.device,
                    bytes,
                    step.attrs.portable_shared,
                ) {
                    Err(e) => (s, Err(e)),
                    Ok(_v) => {
                        let attrs = step.attrs;
                        let attrs = NodeAttrs { dynamic_shared: bytes, ..attrs };
                        s.set_def_attrs(graph, node, attrs)
                    },
                },
            },
        }
    }

    /// Effect of [`Sim::graph_exec_kernel_node_set_dynamic_shared`].
    pub open spec fn graph_exec_kernel_node_set_dynamic_shared(
        self,
        graph: GraphId,
        node: usize,
        bytes: u32,
    ) -> (SimState, Result<(), SimError>) {
        let s = self;
        match s.fail_if_capturing("cannot capture kernel node set attribute") {
            Err(e) => (s, Err(e)),
            Ok(_v) => match s.as_exec(graph) {
                Err(e) => (s, Err(e)),
                Ok(id) => match s.kernel_exec_step(id, node) {
                    Err(e) => (s, Err(e)),
                    Ok(step) => match s.validate_dynamic_shared(
                        step.device,
                        bytes,
                        step.attrs.portable_shared,
                    ) {
                        Err(e) => (s, Err(e)),
                        Ok(_v) => {
                            let attrs = step.attrs;
                            let attrs = NodeAttrs { dynamic_shared: bytes, ..attrs };
                            s.set_exec_attrs(id, node, attrs)
                        },
                    },
                },
            },
        }
    }

    /// Value of [`Sim::graph_kernel_node_get_nvlink_util_centric`].
    pub open spec fn graph_kernel_node_get_nvlink_util_centric(
        self,
        graph: GraphId,
        node: usize,
    ) -> Result<bool, SimError> {
        match self.def_attrs(graph, node) {
            Err(e) => Err(e),
            Ok(attrs) => Ok(attrs.nvlink_util_centric),
        }
    }

    /// Value of [`Sim::graph_exec_kernel_node_get_nvlink_util_centric`].
    pub open spec fn graph_exec_kernel_node_get_nvlink_util_centric(
        self,
        graph: GraphId,
        node: usize,
    ) -> Result<bool, SimError> {
        match self.exec_attrs(graph, node) {
            Err(e) => Err(e),
            Ok(attrs) => Ok(attrs.nvlink_util_centric),
        }
    }

    /// Effect of [`Sim::graph_kernel_node_set_nvlink_util_centric`].
    pub open spec fn graph_kernel_node_set_nvlink_util_centric(
        self,
        graph: GraphId,
        node: usize,
        enabled: bool,
    ) -> (SimState, Result<(), SimError>) {
        let s = self;
        match s.fail_if_capturing("cannot capture kernel node set attribute") {
            Err(e) => (s, Err(e)),
            Ok(_v) => match s.kernel_def_step(graph, node) {
                Err(e) => (s, Err(e)),
                Ok(step) => {
                    let attrs = step.attrs;
                    let attrs = NodeAttrs { nvlink_util_centric: enabled, ..attrs };
                    s.set_def_attrs(graph, node, attrs)
                },
            },
        }
    }

    /// Effect of [`Sim::graph_exec_kernel_node_set_nvlink_util_centric`].
    pub open spec fn graph_exec_kernel_node_set_nvlink_util_centric(
        self,
        graph: GraphId,
        node: usize,
        enabled: bool,
    ) -> (SimState, Result<(), SimError>) {
        let s = self;
        match s.fail_if_capturing("cannot capture kernel node set attribute") {
            Err(e) => (s, Err(e)),
            Ok(_v) => match s.as_exec(graph) {
                Err(e) => (s, Err(e)),
                Ok(id) => match s.kernel_exec_step(id, node) {
                    Err(e) => (s, Err(e)),
                    Ok(step) => {
                        let attrs = step.attrs;
                        let attrs = NodeAttrs { nvlink_util_centric: enabled, ..attrs };
                        s.set_exec_attrs(id, node, attrs)
                    },
                },
            },
        }
    }

    /// Effect of [`Sim::copy_launch_attrs`].
    #[verifier::opaque]
    pub open spec fn copy_launch_attrs(
        self,
        dst_graph: GraphId,
        dst: usize,
        src_graph: GraphId,
        src: usize,
    ) -> (SimState, Result<(), SimError>) {
        let s = self;
        match s.graph_kernel_node_get_priority(src_graph, src) {
            Err(e) => (s, Err(e)),
            Ok(priority) => match s.graph_kernel_node_get_pdl(src_graph, src) {
                Err(e) => (s, Err(e)),
                Ok(pdl) => match s.graph_kernel_node_get_programmatic_event(src_graph, src) {
                    Err(e) => (s, Err(e)),
                    Ok(
                        programmatic_event,
                    ) => match s.graph_kernel_node_get_launch_completion(src_graph, src) {
                        Err(e) => (s, Err(e)),
                        Ok(
                            launch_completion,
                        ) => match s.graph_kernel_node_get_access_policy(src_graph, src) {
                            Err(e) => (s, Err(e)),
                            Ok(access_policy) => match s.graph_kernel_node_set_priority(
                                dst_graph,
                                dst,
                                priority,
                            ) {
                                (s, Err(e)) => (s, Err(e)),
                                (s, Ok(_v)) => match s.graph_kernel_node_set_pdl(
                                    dst_graph,
                                    dst,
                                    pdl,
                                ) {
                                    (s, Err(e)) => (s, Err(e)),
                                    (s, Ok(_v)) => match s.graph_kernel_node_set_programmatic_event(
                                        dst_graph,
                                        dst,
                                        programmatic_event,
                                    ) {
                                        (s, Err(e)) => (s, Err(e)),
                                        (s, Ok(_v)) => match s.graph_kernel_node_set_launch_completion(
                                            dst_graph,
                                            dst,
                                            launch_completion,
                                        ) {
                                            (s, Err(e)) => (s, Err(e)),
                                            (s, Ok(_v)) => match s.graph_kernel_node_set_access_policy(
                                                dst_graph,
                                                dst,
                                                access_policy,
                                            ) {
                                                (s, Err(e)) => (s, Err(e)),
                                                (s, Ok(_v)) => (s, Ok(())),
                                            },
                                        },
                                    },
                                },
                            },
                        },
                    },
                },
            },
        }
    }

    /// Effect of [`Sim::copy_sync_attrs`].
    #[verifier::opaque]
    pub open spec fn copy_sync_attrs(
        self,
        dst_graph: GraphId,
        dst: usize,
        src_graph: GraphId,
        src: usize,
    ) -> (SimState, Result<(), SimError>) {
        let s = self;
        match s.graph_kernel_node_get_mem_sync_domain(src_graph, src) {
            Err(e) => (s, Err(e)),
            Ok(mem_sync_domain) => match s.graph_kernel_node_get_mem_sync_domain_map(src_graph, src) {
                Err(e) => (s, Err(e)),
                Ok(map) => match s.graph_kernel_node_set_mem_sync_domain(
                    dst_graph,
                    dst,
                    mem_sync_domain,
                ) {
                    (s, Err(e)) => (s, Err(e)),
                    (s, Ok(_v)) => match s.graph_kernel_node_set_mem_sync_domain_map(
                        dst_graph,
                        dst,
                        map,
                    ) {
                        (s, Err(e)) => (s, Err(e)),
                        (s, Ok(_v)) => (s, Ok(())),
                    },
                },
            },
        }
    }

    /// Effect of [`Sim::copy_cluster_attrs`].
    #[verifier::opaque]
    pub open spec fn copy_cluster_attrs(
        self,
        dst_graph: GraphId,
        dst: usize,
        src_graph: GraphId,
        src: usize,
    ) -> (SimState, Result<(), SimError>) {
        let s = self;
        match s.graph_kernel_node_get_portable_cluster(src_graph, src) {
            Err(e) => (s, Err(e)),
            Ok(portable_cluster) => match s.graph_kernel_node_set_portable_cluster(
                dst_graph,
                dst,
                portable_cluster,
            ) {
                (s, Err(e)) => (s, Err(e)),
                (s, Ok(_v)) => match s.graph_kernel_node_get_cluster(src_graph, src) {
                    Err(e) => (s, Err(e)),
                    Ok(cluster) => match s.graph_kernel_node_set_cluster(dst_graph, dst, cluster) {
                        (s, Err(e)) => (s, Err(e)),
                        (s, Ok(_v)) => match s.graph_kernel_node_get_cluster_policy(src_graph, src) {
                            Err(e) => (s, Err(e)),
                            Ok(cluster_policy) => match s.graph_kernel_node_set_cluster_policy(
                                dst_graph,
                                dst,
                                cluster_policy,
                            ) {
                                (s, Err(e)) => (s, Err(e)),
                                (s, Ok(_v)) => match s.graph_kernel_node_get_preferred_cluster(src_graph, src) {
                                    Err(e) => (s, Err(e)),
                                    Ok(preferred_cluster) => match s.graph_kernel_node_set_preferred_cluster(
                                        dst_graph,
                                        dst,
                                        preferred_cluster,
                                    ) {
                                        (s, Err(e)) => (s, Err(e)),
                                        (s, Ok(_v)) => (s, Ok(())),
                                    },
                                },
                            },
                        },
                    },
                },
            },
        }
    }

    /// Effect of [`Sim::copy_shared_attrs`].
    #[verifier::opaque]
    pub open spec fn copy_shared_attrs(
        self,
        dst_graph: GraphId,
        dst: usize,
        src_graph: GraphId,
        src: usize,
    ) -> (SimState, Result<(), SimError>) {
        let s = self;
        match s.graph_kernel_node_get_carveout(src_graph, src) {
            Err(e) => (s, Err(e)),
            Ok(carveout) => match s.graph_kernel_node_set_carveout(dst_graph, dst, carveout) {
                (s, Err(e)) => (s, Err(e)),
                (s, Ok(_v)) => match s.graph_kernel_node_get_device_updatable(src_graph, src) {
                    Err(e) => (s, Err(e)),
                    Ok(device_updatable) => match s.graph_kernel_node_set_device_updatable(
                        dst_graph,
                        dst,
                        device_updatable,
                    ) {
                        (s, Err(e)) => (s, Err(e)),
                        (s, Ok(_v)) => match s.graph_kernel_node_get_shared_mem(src_graph, src) {
                            Err(e) => (s, Err(e)),
                            Ok(shared_mem) => match s.graph_kernel_node_set_shared_mem(
                                dst_graph,
                                dst,
                                shared_mem,
                            ) {
                                (s, Err(e)) => (s, Err(e)),
                                (s, Ok(_v)) => match s.graph_kernel_node_get_portable_shared(src_graph, src) {
                                    Err(e) => (s, Err(e)),
                                    Ok(portable_shared) => match s.graph_kernel_node_set_portable_shared(
                                        dst_graph,
                                        dst,
                                        portable_shared,
                                    ) {
                                        (s, Err(e)) => (s, Err(e)),
                                        (s, Ok(_v)) => (s, Ok(())),
                                    },
                                },
                            },
                        },
                    },
                },
            },
        }
    }

    /// Effect of [`Sim::graph_kernel_node_copy_attributes`].
    pub open spec fn graph_kernel_node_copy_attributes(
        self,
        dst_graph: GraphId,
        dst: usize,
        src_graph: GraphId,
        src: usize,
    ) -> (SimState, Result<(), SimError>) {
        let s = self;
        match s.fail_if_capturing("cannot capture kernel node copy attributes") {
            Err(e) => (s, Err(e)),
            Ok(_v) => match s.copy_launch_attrs(dst_graph, dst, src_graph, src) {
                (s, Err(e)) => (s, Err(e)),
                (s, Ok(_v)) => match s.copy_sync_attrs(dst_graph, dst, src_graph, src) {
                    (s, Err(e)) => (s, Err(e)),
                    (s, Ok(_v)) => match s.copy_cluster_attrs(dst_graph, dst, src_graph, src) {
                        (s, Err(e)) => (s, Err(e)),
                        (s, Ok(_v)) => match s.copy_shared_attrs(dst_graph, dst, src_graph, src) {
                            (s, Err(e)) => (s, Err(e)),
                            (s, Ok(_v)) => match s.graph_kernel_node_get_nvlink_util_centric(src_graph, src) {
                                Err(e) => (s, Err(e)),
                                Ok(enabled) => s.graph_kernel_node_set_nvlink_util_centric(
                                    dst_graph,
                                    dst,
                                    enabled,
                                ),
                            },
                        },
                    },
                },
            },
        }
    }

    /// Value of [`Sim::attr_value`].
    pub open spec fn attr_value(
        self,
        attrs: NodeAttrs,
        attr: KernelNodeAttr,
    ) -> KernelNodeAttrValue {
        match attr {
            KernelNodeAttr::Priority => KernelNodeAttrValue::Priority(attrs.priority),
            KernelNodeAttr::Pdl => KernelNodeAttrValue::Pdl(attrs.pdl),
            KernelNodeAttr::ProgrammaticEvent => KernelNodeAttrValue::ProgrammaticEvent(
                attrs.programmatic_event,
            ),
            KernelNodeAttr::LaunchCompletion => KernelNodeAttrValue::LaunchCompletion(
                attrs.launch_completion,
            ),
            KernelNodeAttr::AccessPolicy => KernelNodeAttrValue::AccessPolicy(attrs.access_policy),
            KernelNodeAttr::MemSyncDomain => KernelNodeAttrValue::MemSyncDomain(
                attrs.mem_sync_domain,
            ),
            KernelNodeAttr::MemSyncDomainMap => KernelNodeAttrValue::MemSyncDomainMap(
                attrs.mem_sync_map,
            ),
            KernelNodeAttr::Cluster => KernelNodeAttrValue::Cluster(attrs.cluster),
            KernelNodeAttr::ClusterPolicy => KernelNodeAttrValue::ClusterPolicy(
                attrs.cluster_policy,
            ),
            KernelNodeAttr::PreferredCluster => KernelNodeAttrValue::PreferredCluster(
                attrs.preferred_cluster,
            ),
            KernelNodeAttr::Carveout => KernelNodeAttrValue::Carveout(attrs.carveout),
            KernelNodeAttr::DeviceUpdatable => KernelNodeAttrValue::DeviceUpdatable(
                attrs.device_updatable,
            ),
            KernelNodeAttr::SharedMem => KernelNodeAttrValue::SharedMem(attrs.shared_mem),
            KernelNodeAttr::PortableCluster => KernelNodeAttrValue::PortableCluster(
                attrs.portable_cluster,
            ),
            KernelNodeAttr::PortableShared => KernelNodeAttrValue::PortableShared(
                attrs.portable_shared,
            ),
            KernelNodeAttr::DynamicShared => KernelNodeAttrValue::DynamicShared(
                attrs.dynamic_shared,
            ),
            KernelNodeAttr::NvlinkUtilCentric => KernelNodeAttrValue::NvlinkUtilCentric(
                attrs.nvlink_util_centric,
            ),
        }
    }

    /// Value of [`Sim::graph_kernel_node_get_attribute`].
    pub open spec fn graph_kernel_node_get_attribute(
        self,
        graph: GraphId,
        node: usize,
        attr: KernelNodeAttr,
    ) -> Result<KernelNodeAttrValue, SimError> {
        match self.def_attrs(graph, node) {
            Err(e) => Err(e),
            Ok(attrs) => Ok(self.attr_value(attrs, attr)),
        }
    }

    /// Value of [`Sim::graph_exec_kernel_node_get_attribute`].
    pub open spec fn graph_exec_kernel_node_get_attribute(
        self,
        graph: GraphId,
        node: usize,
        attr: KernelNodeAttr,
    ) -> Result<KernelNodeAttrValue, SimError> {
        match self.exec_attrs(graph, node) {
            Err(e) => Err(e),
            Ok(attrs) => Ok(self.attr_value(attrs, attr)),
        }
    }

    /// Effect of [`Sim::graph_kernel_node_set_attribute`].
    pub open spec fn graph_kernel_node_set_attribute(
        self,
        graph: GraphId,
        node: usize,
        attr: KernelNodeAttr,
        value: KernelNodeAttrValue,
    ) -> (SimState, Result<(), SimError>) {
        let s = self;
        match (attr, value) {
            (
                KernelNodeAttr::Priority,
                KernelNodeAttrValue::Priority(v),
            ) => s.graph_kernel_node_set_priority(graph, node, v),
            (
                KernelNodeAttr::Pdl,
                KernelNodeAttrValue::Pdl(v),
            ) => s.graph_kernel_node_set_pdl(graph, node, v),
            (
                KernelNodeAttr::ProgrammaticEvent,
                KernelNodeAttrValue::ProgrammaticEvent(v),
            ) => s.graph_kernel_node_set_programmatic_event(graph, node, v),
            (
                KernelNodeAttr::LaunchCompletion,
                KernelNodeAttrValue::LaunchCompletion(v),
            ) => s.graph_kernel_node_set_launch_completion(graph, node, v),
            (
                KernelNodeAttr::AccessPolicy,
                KernelNodeAttrValue::AccessPolicy(v),
            ) => s.graph_kernel_node_set_access_policy(graph, node, v),
            (
                KernelNodeAttr::MemSyncDomain,
                KernelNodeAttrValue::MemSyncDomain(v),
            ) => s.graph_kernel_node_set_mem_sync_domain(graph, node, v),
            (
                KernelNodeAttr::MemSyncDomainMap,
                KernelNodeAttrValue::MemSyncDomainMap(v),
            ) => s.graph_kernel_node_set_mem_sync_domain_map(graph, node, v),
            (
                KernelNodeAttr::Cluster,
                KernelNodeAttrValue::Cluster(v),
            ) => s.graph_kernel_node_set_cluster(graph, node, v),
            (
                KernelNodeAttr::ClusterPolicy,
                KernelNodeAttrValue::ClusterPolicy(v),
            ) => s.graph_kernel_node_set_cluster_policy(graph, node, v),
            (
                KernelNodeAttr::PreferredCluster,
                KernelNodeAttrValue::PreferredCluster(v),
            ) => s.graph_kernel_node_set_preferred_cluster(graph, node, v),
            (
                KernelNodeAttr::Carveout,
                KernelNodeAttrValue::Carveout(v),
            ) => s.graph_kernel_node_set_carveout(graph, node, v),
            (
                KernelNodeAttr::DeviceUpdatable,
                KernelNodeAttrValue::DeviceUpdatable(v),
            ) => s.graph_kernel_node_set_device_updatable(graph, node, v),
            (
                KernelNodeAttr::SharedMem,
                KernelNodeAttrValue::SharedMem(v),
            ) => s.graph_kernel_node_set_shared_mem(graph, node, v),
            (
                KernelNodeAttr::PortableCluster,
                KernelNodeAttrValue::PortableCluster(v),
            ) => s.graph_kernel_node_set_portable_cluster(graph, node, v),
            (
                KernelNodeAttr::PortableShared,
                KernelNodeAttrValue::PortableShared(v),
            ) => s.graph_kernel_node_set_portable_shared(graph, node, v),
            (
                KernelNodeAttr::DynamicShared,
                KernelNodeAttrValue::DynamicShared(v),
            ) => s.graph_kernel_node_set_dynamic_shared(graph, node, v),
            (
                KernelNodeAttr::NvlinkUtilCentric,
                KernelNodeAttrValue::NvlinkUtilCentric(v),
            ) => s.graph_kernel_node_set_nvlink_util_centric(graph, node, v),
            _ => (s, Err(invalid("kernel node attr"))),
        }
    }

    /// Effect of [`Sim::graph_exec_kernel_node_set_attribute`].
    pub open spec fn graph_exec_kernel_node_set_attribute(
        self,
        graph: GraphId,
        node: usize,
        attr: KernelNodeAttr,
        value: KernelNodeAttrValue,
    ) -> (SimState, Result<(), SimError>) {
        let s = self;
        match (attr, value) {
            (
                KernelNodeAttr::Priority,
                KernelNodeAttrValue::Priority(v),
            ) => s.graph_exec_kernel_node_set_priority(graph, node, v),
            (
                KernelNodeAttr::Pdl,
                KernelNodeAttrValue::Pdl(v),
            ) => s.graph_exec_kernel_node_set_pdl(graph, node, v),
            (
                KernelNodeAttr::ProgrammaticEvent,
                KernelNodeAttrValue::ProgrammaticEvent(v),
            ) => s.graph_exec_kernel_node_set_programmatic_event(graph, node, v),
            (
                KernelNodeAttr::LaunchCompletion,
                KernelNodeAttrValue::LaunchCompletion(v),
            ) => s.graph_exec_kernel_node_set_launch_completion(graph, node, v),
            (
                KernelNodeAttr::AccessPolicy,
                KernelNodeAttrValue::AccessPolicy(v),
            ) => s.graph_exec_kernel_node_set_access_policy(graph, node, v),
            (
                KernelNodeAttr::MemSyncDomain,
                KernelNodeAttrValue::MemSyncDomain(v),
            ) => s.graph_exec_kernel_node_set_mem_sync_domain(graph, node, v),
            (
                KernelNodeAttr::MemSyncDomainMap,
                KernelNodeAttrValue::MemSyncDomainMap(v),
            ) => s.graph_exec_kernel_node_set_mem_sync_domain_map(graph, node, v),
            (
                KernelNodeAttr::Cluster,
                KernelNodeAttrValue::Cluster(v),
            ) => s.graph_exec_kernel_node_set_cluster(graph, node, v),
            (
                KernelNodeAttr::ClusterPolicy,
                KernelNodeAttrValue::ClusterPolicy(v),
            ) => s.graph_exec_kernel_node_set_cluster_policy(graph, node, v),
            (
                KernelNodeAttr::PreferredCluster,
                KernelNodeAttrValue::PreferredCluster(v),
            ) => s.graph_exec_kernel_node_set_preferred_cluster(graph, node, v),
            (
                KernelNodeAttr::Carveout,
                KernelNodeAttrValue::Carveout(v),
            ) => s.graph_exec_kernel_node_set_carveout(graph, node, v),
            (
                KernelNodeAttr::DeviceUpdatable,
                KernelNodeAttrValue::DeviceUpdatable(v),
            ) => s.graph_exec_kernel_node_set_device_updatable(graph, node, v),
            (
                KernelNodeAttr::SharedMem,
                KernelNodeAttrValue::SharedMem(v),
            ) => s.graph_exec_kernel_node_set_shared_mem(graph, node, v),
            (
                KernelNodeAttr::PortableCluster,
                KernelNodeAttrValue::PortableCluster(v),
            ) => s.graph_exec_kernel_node_set_portable_cluster(graph, node, v),
            (
                KernelNodeAttr::PortableShared,
                KernelNodeAttrValue::PortableShared(v),
            ) => s.graph_exec_kernel_node_set_portable_shared(graph, node, v),
            (
                KernelNodeAttr::DynamicShared,
                KernelNodeAttrValue::DynamicShared(v),
            ) => s.graph_exec_kernel_node_set_dynamic_shared(graph, node, v),
            (
                KernelNodeAttr::NvlinkUtilCentric,
                KernelNodeAttrValue::NvlinkUtilCentric(v),
            ) => s.graph_exec_kernel_node_set_nvlink_util_centric(graph, node, v),
            _ => (s, Err(invalid("kernel node attr"))),
        }
    }

    /// Value of [`Sim::graph_node_find_in_clone`].
    pub open spec fn graph_node_find_in_clone(
        self,
        original: GraphId,
        node: usize,
        cloned: GraphId,
    ) -> Result<usize, SimError> {
        if !self.graphs.contains_key(original) || !self.graphs.contains_key(cloned) {
            Err(invalid("unknown graph"))
        } else if original == cloned {
            Err(invalid("not a clone"))
        } else {
            match self.clone_of.get(cloned) {
                None => Err(invalid("not a clone")),
                Some(src) => if src != original {
                    Err(invalid("not a clone"))
                } else {
                    match self.graph_def_step(original, node) {
                        Err(e) => Err(e),
                        Ok(_from) => match self.graph_def_step(cloned, node) {
                            Err(e) => Err(e),
                            Ok(_to) => Ok(node),
                        },
                    }
                },
            }
        }
    }
}

impl Sim {
    /// Live kernel node of a definition.
    pub(crate) fn kernel_def_step(
        &self,
        graph: GraphId,
        node: usize,
    ) -> (r: Result<&GraphStep, SimError>)
        ensures
            ok_ref(r) == self@.kernel_def_step(graph, node),
    {
        let step = self.graph_def_step(graph, node)?;
        if !matches!(step.kind, GpuOp::Kernel { .. }) {
            return Err(invalid("not a kernel node"));
        }
        Ok(step)
    }

    /// Live kernel node of this very executable.
    pub(crate) fn kernel_exec_step(
        &self,
        id: GraphId,
        node: usize,
    ) -> (r: Result<&GraphStep, SimError>)
        ensures
            ok_ref(r) == self@.kernel_exec_step(id, node),
    {
        let step = self.current_step(id, node)?;
        if !matches!(step.kind, GpuOp::Kernel { .. }) {
            return Err(invalid("not a kernel node"));
        }
        Ok(step)
    }

    /// Launch attributes of a kernel node of a definition.
    pub(crate) fn def_attrs(&self, graph: GraphId, node: usize) -> (r: Result<NodeAttrs, SimError>)
        ensures
            r == self@.def_attrs(graph, node),
    {
        let step = self.kernel_def_step(graph, node)?;
        Ok(step.attrs)
    }

    /// Launch attributes of a kernel node of an executable.
    pub(crate) fn exec_attrs(&self, graph: GraphId, node: usize) -> (r: Result<NodeAttrs, SimError>)
        ensures
            r == self@.exec_attrs(graph, node),
    {
        let id = self.as_exec(graph)?;
        let step = self.kernel_exec_step(id, node)?;
        Ok(step.attrs)
    }

    /// Change the launch attributes of a kernel node of a definition. Takes one nanosecond.
    pub(crate) fn set_def_attrs(
        &mut self,
        graph: GraphId,
        node: usize,
        attrs: NodeAttrs,
    ) -> (r: Result<(), SimError>)
        ensures
            final(self)@ == old(self)@.set_def_attrs(graph, node, attrs).0,
            r == old(self)@.set_def_attrs(graph, node, attrs).1,
    {
        let mut step: GraphStep = self.kernel_def_step(graph, node)?.dup();
        step.attrs = attrs;
        self.put_def_step(graph, node, step);
        self.tick(1);
        Ok(())
    }

    /// Change the launch attributes of a kernel node of an executable. Takes one nanosecond.
    pub(crate) fn set_exec_attrs(
        &mut self,
        id: GraphId,
        node: usize,
        attrs: NodeAttrs,
    ) -> (r: Result<(), SimError>)
        ensures
            final(self)@ == old(self)@.set_exec_attrs(id, node, attrs).0,
            r == old(self)@.set_exec_attrs(id, node, attrs).1,
    {
        let mut step: GraphStep = self.kernel_exec_step(id, node)?.dup();
        let g = self.graph_ref(id)?;
        let uploaded: bool = g.uploaded;
        step.attrs = attrs;
        self.put_exec_step(id, node, step, uploaded)?;
        self.tick(1);
        Ok(())
    }

    /// The priority of a kernel node of a definition.
    pub fn graph_kernel_node_get_priority(
        &self,
        graph: GraphId,
        node: usize,
    ) -> (r: Result<i32, SimError>)
        ensures
            r == self@.graph_kernel_node_get_priority(graph, node),
    {
        let attrs = self.def_attrs(graph, node)?;
        Ok(attrs.priority)
    }

    /// The priority of a kernel node of an executable.
    pub fn graph_exec_kernel_node_get_priority(
        &self,
        graph: GraphId,
        node: usize,
    ) -> (r: Result<i32, SimError>)
        ensures
            r == self@.graph_exec_kernel_node_get_priority(graph, node),
    {
        let attrs = self.exec_attrs(graph, node)?;
        Ok(attrs.priority)
    }

    /// Change the priority of a kernel node of a definition.
    pub fn graph_kernel_node_set_priority(
        &mut self,
        graph: GraphId,
        node: usize,
        priority: i32,
    ) -> (r: Result<(), SimError>)
        ensures
            final(self)@ == old(self)@.graph_kernel_node_set_priority(graph, node, priority).0,
            r == old(self)@.graph_kernel_node_set_priority(graph, node, priority).1,
    {
        self.fail_if_capturing("cannot capture kernel node set attribute")?;
        let step = self.kernel_def_step(graph, node)?;
        let mut attrs: NodeAttrs = step.attrs;
        attrs.priority = priority;
        self.set_def_attrs(graph, node, attrs)
    }

    /// Change the priority of a kernel node of an executable.
    pub fn graph_exec_kernel_node_set_priority(
        &mut self,
        graph: GraphId,
        node: usize,
        priority: i32,
    ) -> (r: Result<(), SimError>)
        ensures
            final(self)@ == old(self)@.graph_exec_kernel_node_set_priority(graph, node, priority).0,
            r == old(self)@.graph_exec_kernel_node_set_priority(graph, node, priority).1,
    {
        self.fail_if_capturing("cannot capture kernel node set attribute")?;
        let id = self.as_exec(graph)?;
        let step = self.kernel_exec_step(id, node)?;
        let mut attrs: NodeAttrs = step.attrs;
        attrs.priority = priority;
        self.set_exec_attrs(id, node, attrs)
    }

    /// The programmatic launch of a kernel node of a definition.
    pub fn graph_kernel_node_get_pdl(
        &self,
        graph: GraphId,
        node: usize,
    ) -> (r: Result<ProgrammaticLaunch, SimError>)
        ensures
            r == self@.graph_kernel_node_get_pdl(graph, node),
    {
        let attrs = self.def_attrs(graph, node)?;
        Ok(attrs.pdl)
    }

    /// The programmatic launch of a kernel node of an executable.
    pub fn graph_exec_kernel_node_get_pdl(
        &self,
        graph: GraphId,
        node: usize,
    ) -> (r: Result<ProgrammaticLaunch, SimError>)
        ensures
            r == self@.graph_exec_kernel_node_get_pdl(graph, node),
    {
        let attrs = self.exec_attrs(graph, node)?;
        Ok(attrs.pdl)
    }

    /// Change the programmatic launch of a kernel node of a definition.
    pub fn graph_kernel_node_set_pdl(
        &mut self,
        graph: GraphId,
        node: usize,
        pdl: ProgrammaticLaunch,
    ) -> (r: Result<(), SimError>)
        ensures
            final(self)@ == old(self)@.graph_kernel_node_set_pdl(graph, node, pdl).0,
            r == old(self)@.graph_kernel_node_set_pdl(graph, node, pdl).1,
    {
        self.fail_if_capturing("cannot capture kernel node set attribute")?;
        let step = self.kernel_def_step(graph, node)?;
        let mut attrs: NodeAttrs = step.attrs;
        attrs.pdl = pdl;
        self.set_def_attrs(graph, node, attrs)
    }

    /// Change the programmatic launch of a kernel node of an executable.
    pub fn graph_exec_kernel_node_set_pdl(
        &mut self,
        graph: GraphId,
        node: usize,
        pdl: ProgrammaticLaunch,
    ) -> (r: Result<(), SimError>)
        ensures
            final(self)@ == old(self)@.graph_exec_kernel_node_set_pdl(graph, node, pdl).0,
            r == old(self)@.graph_exec_kernel_node_set_pdl(graph, node, pdl).1,
    {
        self.fail_if_capturing("cannot capture kernel node set attribute")?;
        let id = self.as_exec(graph)?;
        let step = self.kernel_exec_step(id, node)?;
        let mut attrs: NodeAttrs = step.attrs;
        attrs.pdl = pdl;
        self.set_exec_attrs(id, node, attrs)
    }

    /// The programmatic event of a kernel node of a definition.
    pub fn graph_kernel_node_get_programmatic_event(
        &self,
        graph: GraphId,
        node: usize,
    ) -> (r: Result<Option<ProgrammaticEvent>, SimError>)
        ensures
            r == self@.graph_kernel_node_get_programmatic_event(graph, node),
    {
        let attrs = self.def_attrs(graph, node)?;
        Ok(attrs.programmatic_event)
    }

    /// The programmatic event of a kernel node of an executable.
    pub fn graph_exec_kernel_node_get_programmatic_event(
        &self,
        graph: GraphId,
        node: usize,
    ) -> (r: Result<Option<ProgrammaticEvent>, SimError>)
        ensures
            r == self@.graph_exec_kernel_node_get_programmatic_event(graph, node),
    {
        let attrs = self.exec_attrs(graph, node)?;
        Ok(attrs.programmatic_event)
    }

    /// Change the programmatic event of a kernel node of a definition.
    pub fn graph_kernel_node_set_programmatic_event(
        &mut self,
        graph: GraphId,
        node: usize,
        event: Option<ProgrammaticEvent>,
    ) -> (r: Result<(), SimError>)
        ensures
            final(self)@ == old(self)@.graph_kernel_node_set_programmatic_event(
                graph,
                node,
                event,
            ).0,
            r == old(self)@.graph_kernel_node_set_programmatic_event(graph, node, event).1,
    {
        self.fail_if_capturing("cannot capture kernel node set attribute")?;
        let step = self.kernel_def_step(graph, node)?;
        let mut attrs: NodeAttrs = step.attrs;
        attrs.programmatic_event = event;
        if let Some(e) = event {
            self.ensure_event(e.event);
        }
        self.set_def_attrs(graph, node, attrs)
    }

    /// Change the programmatic event of a kernel node of an executable.
    pub fn graph_exec_kernel_node_set_programmatic_event(
        &mut self,
        graph: GraphId,
        node: usize,
        event: Option<ProgrammaticEvent>,
    ) -> (r: Result<(), SimError>)
        ensures
            final(self)@ == old(self)@.graph_exec_kernel_node_set_programmatic_event(
                graph,
                node,
                event,
            ).0,
            r == old(self)@.graph_exec_kernel_node_set_programmatic_event(graph, node, event).1,
    {
        self.fail_if_capturing("cannot capture kernel node set attribute")?;
        let id = self.as_exec(graph)?;
        if let Some(e) = event {
            self.ensure_event(e.event);
        }
        let step = self.kernel_exec_step(id, node)?;
        let mut attrs: NodeAttrs = step.attrs;
        attrs.programmatic_event = event;
        self.set_exec_attrs(id, node, attrs)
    }

    /// The launch-completion event of a kernel node of a definition.
    pub fn graph_kernel_node_get_launch_completion(
        &self,
        graph: GraphId,
        node: usize,
    ) -> (r: Result<Option<LaunchCompletionEvent>, SimError>)
        ensures
            r == self@.graph_kernel_node_get_launch_completion(graph, node),
    {
        let attrs = self.def_attrs(graph, node)?;
        Ok(attrs.launch_completion)
    }

    /// The launch-completion event of a kernel node of an executable.
    pub fn graph_exec_kernel_node_get_launch_completion(
        &self,
        graph: GraphId,
        node: usize,
    ) -> (r: Result<Option<LaunchCompletionEvent>, SimError>)
        ensures
            r == self@.graph_exec_kernel_node_get_launch_completion(graph, node),
    {
        let attrs = self.exec_attrs(graph, node)?;
        Ok(attrs.launch_completion)
    }

    /// Change the launch-completion event of a kernel node of a definition.
    pub fn graph_kernel_node_set_launch_completion(
        &mut self,
        graph: GraphId,
        node: usize,
        event: Option<LaunchCompletionEvent>,
    ) -> (r: Result<(), SimError>)
        ensures
            final(self)@ == old(self)@.graph_kernel_node_set_launch_completion(
                graph,
                node,
                event,
            ).0,
            r == old(self)@.graph_kernel_node_set_launch_completion(graph, node, event).1,
    {
        self.fail_if_capturing("cannot capture kernel node set attribute")?;
        let step = self.kernel_def_step(graph, node)?;
        let mut attrs: NodeAttrs = step.attrs;
        attrs.launch_completion = event;
        if let Some(e) = event {
            self.ensure_event(e.event);
        }
        self.set_def_attrs(graph, node, attrs)
    }

    /// Change the launch-completion event of a kernel node of an executable.
    pub fn graph_exec_kernel_node_set_launch_completion(
        &mut self,
        graph: GraphId,
        node: usize,
        event: Option<LaunchCompletionEvent>,
    ) -> (r: Result<(), SimError>)
        ensures
            final(self)@ == old(self)@.graph_exec_kernel_node_set_launch_completion(
                graph,
                node,
                event,
            ).0,
            r == old(self)@.graph_exec_kernel_node_set_launch_completion(graph, node, event).1,
    {
        self.fail_if_capturing("cannot capture kernel node set attribute")?;
        let id = self.as_exec(graph)?;
        if let Some(e) = event {
            self.ensure_event(e.event);
        }
        let step = self.kernel_exec_step(id, node)?;
        let mut attrs: NodeAttrs = step.attrs;
        attrs.launch_completion = event;
        self.set_exec_attrs(id, node, attrs)
    }

    /// The access-policy window of a kernel node of a definition.
    pub fn graph_kernel_node_get_access_policy(
        &self,
        graph: GraphId,
        node: usize,
    ) -> (r: Result<Option<AccessPolicyWindow>, SimError>)
        ensures
            r == self@.graph_kernel_node_get_access_policy(graph, node),
    {
        let attrs = self.def_attrs(graph, node)?;
        Ok(attrs.access_policy)
    }

    /// The access-policy window of a kernel node of an executable.
    pub fn graph_exec_kernel_node_get_access_policy(
        &self,
        graph: GraphId,
        node: usize,
    ) -> (r: Result<Option<AccessPolicyWindow>, SimError>)
        ensures
            r == self@.graph_exec_kernel_node_get_access_policy(graph, node),
    {
        let attrs = self.exec_attrs(graph, node)?;
        Ok(attrs.access_policy)
    }

    /// Change the access-policy window of a kernel node of a definition.
    pub fn graph_kernel_node_set_access_policy(
        &mut self,
        graph: GraphId,
        node: usize,
        window: Option<AccessPolicyWindow>,
    ) -> (r: Result<(), SimError>)
        ensures
            final(self)@ == old(self)@.graph_kernel_node_set_access_policy(graph, node, window).0,
            r == old(self)@.graph_kernel_node_set_access_policy(graph, node, window).1,
    {
        self.fail_if_capturing("cannot capture kernel node set attribute")?;
        let step = self.kernel_def_step(graph, node)?;
        if let Some(w) = window {
            self.validate_access_policy_window(step.device, w)?;
        }
        let mut attrs: NodeAttrs = step.attrs;
        attrs.access_policy = window;
        self.set_def_attrs(graph, node, attrs)
    }

    /// Change the access-policy window of a kernel node of an executable.
    pub fn graph_exec_kernel_node_set_access_policy(
        &mut self,
        graph: GraphId,
        node: usize,
        window: Option<AccessPolicyWindow>,
    ) -> (r: Result<(), SimError>)
        ensures
            final(self)@ == old(self)@.graph_exec_kernel_node_set_access_policy(
                graph,
                node,
                window,
            ).0,
            r == old(self)@.graph_exec_kernel_node_set_access_policy(graph, node, window).1,
    {
        self.fail_if_capturing("cannot capture kernel node set attribute")?;
        let id = self.as_exec(graph)?;
        let step = self.kernel_exec_step(id, node)?;
        if let Some(w) = window {
            self.validate_access_policy_window(step.device, w)?;
        }
        let mut attrs: NodeAttrs = step.attrs;
        attrs.access_policy = window;
        self.set_exec_attrs(id, node, attrs)
    }

    /// The memory-synchronization domain of a kernel node of a definition.
    pub fn graph_kernel_node_get_mem_sync_domain(
        &self,
        graph: GraphId,
        node: usize,
    ) -> (r: Result<MemSyncDomain, SimError>)
        ensures
            r == self@.graph_kernel_node_get_mem_sync_domain(graph, node),
    {
        let attrs = self.def_attrs(graph, node)?;
        Ok(attrs.mem_sync_domain)
    }

    /// The memory-synchronization domain of a kernel node of an executable.
    pub fn graph_exec_kernel_node_get_mem_sync_domain(
        &self,
        graph: GraphId,
        node: usize,
    ) -> (r: Result<MemSyncDomain, SimError>)
        ensures
            r == self@.graph_exec_kernel_node_get_mem_sync_domain(graph, node),
    {
        let attrs = self.exec_attrs(graph, node)?;
        Ok(attrs.mem_sync_domain)
    }

    /// Change the memory-synchronization domain of a kernel node of a definition.
    pub fn graph_kernel_node_set_mem_sync_domain(
        &mut self,
        graph: GraphId,
        node: usize,
        domain: MemSyncDomain,
    ) -> (r: Result<(), SimError>)
        ensures
            final(self)@ == old(self)@.graph_kernel_node_set_mem_sync_domain(graph, node, domain).0,
            r == old(self)@.graph_kernel_node_set_mem_sync_domain(graph, node, domain).1,
    {
        self.fail_if_capturing("cannot capture kernel node set attribute")?;
        let step = self.kernel_def_step(graph, node)?;
        let mut attrs: NodeAttrs = step.attrs;
        attrs.mem_sync_domain = domain;
        self.set_def_attrs(graph, node, attrs)
    }

    /// Change the memory-synchronization domain of a kernel node of an executable.
    pub fn graph_exec_kernel_node_set_mem_sync_domain(
        &mut self,
        graph: GraphId,
        node: usize,
        domain: MemSyncDomain,
    ) -> (r: Result<(), SimError>)
        ensures
            final(self)@ == old(self)@.graph_exec_kernel_node_set_mem_sync_domain(
                graph,
                node,
                domain,
            ).0,
            r == old(self)@.graph_exec_kernel_node_set_mem_sync_domain(graph, node, domain).1,
    {
        self.fail_if_capturing("cannot capture kernel node set attribute")?;
        let id = self.as_exec(graph)?;
        let step = self.kernel_exec_step(id, node)?;
        let mut attrs: NodeAttrs = step.attrs;
        attrs.mem_sync_domain = domain;
        self.set_exec_attrs(id, node, attrs)
    }

    /// The memory-synchronization domain map of a kernel node of a definition.
    pub fn graph_kernel_node_get_mem_sync_domain_map(
        &self,
        graph: GraphId,
        node: usize,
    ) -> (r: Result<MemSyncDomainMap, SimError>)
        ensures
            r == self@.graph_kernel_node_get_mem_sync_domain_map(graph, node),
    {
        let attrs = self.def_attrs(graph, node)?;
        Ok(attrs.mem_sync_map)
    }

    /// The memory-synchronization domain map of a kernel node of an executable.
    pub fn graph_exec_kernel_node_get_mem_sync_domain_map(
        &self,
        graph: GraphId,
        node: usize,
    ) -> (r: Result<MemSyncDomainMap, SimError>)
        ensures
            r == self@.graph_exec_kernel_node_get_mem_sync_domain_map(graph, node),
    {
        let attrs = self.exec_attrs(graph, node)?;
        Ok(attrs.mem_sync_map)
    }

    /// Change the memory-synchronization domain map of a kernel node of a definition.
    pub fn graph_kernel_node_set_mem_sync_domain_map(
        &mut self,
        graph: GraphId,
        node: usize,
        map: MemSyncDomainMap,
    ) -> (r: Result<(), SimError>)
        ensures
            final(self)@ == old(self)@.graph_kernel_node_set_mem_sync_domain_map(
                graph,
                node,
                map,
            ).0,
            r == old(self)@.graph_kernel_node_set_mem_sync_domain_map(graph, node, map).1,
    {
        self.fail_if_capturing("cannot capture kernel node set attribute")?;
        let step = self.kernel_def_step(graph, node)?;
        self.validate_mem_sync_map(step.device, map)?;
        let mut attrs: NodeAttrs = step.attrs;
        attrs.mem_sync_map = map;
        self.set_def_attrs(graph, node, attrs)
    }

    /// Change the memory-synchronization domain map of a kernel node of an executable.
    pub fn graph_exec_kernel_node_set_mem_sync_domain_map(
        &mut self,
        graph: GraphId,
        node: usize,
        map: MemSyncDomainMap,
    ) -> (r: Result<(), SimError>)
        ensures
            final(self)@ == old(self)@.graph_exec_kernel_node_set_mem_sync_domain_map(
                graph,
                node,
                map,
            ).0,
            r == old(self)@.graph_exec_kernel_node_set_mem_sync_domain_map(graph, node, map).1,
    {
        self.fail_if_capturing("cannot capture kernel node set attribute")?;
        let id = self.as_exec(graph)?;
        let step = self.kernel_exec_step(id, node)?;
        self.validate_mem_sync_map(step.device, map)?;
        let mut attrs: NodeAttrs = step.attrs;
        attrs.mem_sync_map = map;
        self.set_exec_attrs(id, node, attrs)
    }

    /// The cluster dimension of a kernel node of a definition.
    pub fn graph_kernel_node_get_cluster(
        &self,
        graph: GraphId,
        node: usize,
    ) -> (r: Result<Option<ClusterDim>, SimError>)
        ensures
            r == self@.graph_kernel_node_get_cluster(graph, node),
    {
        let attrs = self.def_attrs(graph, node)?;
        Ok(attrs.cluster)
    }

    /// The cluster dimension of a kernel node of an executable.
    pub fn graph_exec_kernel_node_get_cluster(
        &self,
        graph: GraphId,
        node: usize,
    ) -> (r: Result<Option<ClusterDim>, SimError>)
        ensures
            r == self@.graph_exec_kernel_node_get_cluster(graph, node),
    {
        let attrs = self.exec_attrs(graph, node)?;
        Ok(attrs.cluster)
    }

    /// Change the cluster dimension of a kernel node of a definition.
    pub fn graph_kernel_node_set_cluster(
        &mut self,
        graph: GraphId,
        node: usize,
        cluster: Option<ClusterDim>,
    ) -> (r: Result<(), SimError>)
        ensures
            final(self)@ == old(self)@.graph_kernel_node_set_cluster(graph, node, cluster).0,
            r == old(self)@.graph_kernel_node_set_cluster(graph, node, cluster).1,
    {
        self.fail_if_capturing("cannot capture kernel node set attribute")?;
        let step = self.kernel_def_step(graph, node)?;
        if let Some(c) = cluster {
            let _n = self.validate_cluster(step.device, c, step.attrs.portable_cluster)?;
        }
        let mut attrs: NodeAttrs = step.attrs;
        attrs.cluster = cluster;
        self.set_def_attrs(graph, node, attrs)
    }

    /// Change the cluster dimension of a kernel node of an executable.
    pub fn graph_exec_kernel_node_set_cluster(
        &mut self,
        graph: GraphId,
        node: usize,
        cluster: Option<ClusterDim>,
    ) -> (r: Result<(), SimError>)
        ensures
            final(self)@ == old(self)@.graph_exec_kernel_node_set_cluster(graph, node, cluster).0,
            r == old(self)@.graph_exec_kernel_node_set_cluster(graph, node, cluster).1,
    {
        self.fail_if_capturing("cannot capture kernel node set attribute")?;
        let id = self.as_exec(graph)?;
        let step = self.kernel_exec_step(id, node)?;
        if let Some(c) = cluster {
            let _n = self.validate_cluster(step.device, c, step.attrs.portable_cluster)?;
        }
        let mut attrs: NodeAttrs = step.attrs;
        attrs.cluster = cluster;
        self.set_exec_attrs(id, node, attrs)
    }

    /// The cluster scheduling policy of a kernel node of a definition.
    pub fn graph_kernel_node_get_cluster_policy(
        &self,
        graph: GraphId,
        node: usize,
    ) -> (r: Result<ClusterSchedulingPolicy, SimError>)
        ensures
            r == self@.graph_kernel_node_get_cluster_policy(graph, node),
    {
        let attrs = self.def_attrs(graph, node)?;
        Ok(attrs.cluster_policy)
    }

    /// The cluster scheduling policy of a kernel node of an executable.
    pub fn graph_exec_kernel_node_get_cluster_policy(
        &self,
        graph: GraphId,
        node: usize,
    ) -> (r: Result<ClusterSchedulingPolicy, SimError>)
        ensures
            r == self@.graph_exec_kernel_node_get_cluster_policy(graph, node),
    {
        let attrs = self.exec_attrs(graph, node)?;
        Ok(attrs.cluster_policy)
    }

    /// Change the cluster scheduling policy of a kernel node of a definition.
    pub fn graph_kernel_node_set_cluster_policy(
        &mut self,
        graph: GraphId,
        node: usize,
        policy: ClusterSchedulingPolicy,
    ) -> (r: Result<(), SimError>)
        ensures
            final(self)@ == old(self)@.graph_kernel_node_set_cluster_policy(graph, node, policy).0,
            r == old(self)@.graph_kernel_node_set_cluster_policy(graph, node, policy).1,
    {
        self.fail_if_capturing("cannot capture kernel node set attribute")?;
        let step = self.kernel_def_step(graph, node)?;
        let mut attrs: NodeAttrs = step.attrs;
        attrs.cluster_policy = policy;
        self.set_def_attrs(graph, node, attrs)
    }

    /// Change the cluster scheduling policy of a kernel node of an executable.
    pub fn graph_exec_kernel_node_set_cluster_policy(
        &mut self,
        graph: GraphId,
        node: usize,
        policy: ClusterSchedulingPolicy,
    ) -> (r: Result<(), SimError>)
        ensures
            final(self)@ == old(self)@.graph_exec_kernel_node_set_cluster_policy(
                graph,
                node,
                policy,
            ).0,
            r == old(self)@.graph_exec_kernel_node_set_cluster_policy(graph, node, policy).1,
    {
        self.fail_if_capturing("cannot capture kernel node set attribute")?;
        let id = self.as_exec(graph)?;
        let step = self.kernel_exec_step(id, node)?;
        let mut attrs: NodeAttrs = step.attrs;
        attrs.cluster_policy = policy;
        self.set_exec_attrs(id, node, attrs)
    }

    /// The preferred cluster dimension of a kernel node of a definition.
    pub fn graph_kernel_node_get_preferred_cluster(
        &self,
        graph: GraphId,
        node: usize,
    ) -> (r: Result<Option<ClusterDim>, SimError>)
        ensures
            r == self@.graph_kernel_node_get_preferred_cluster(graph, node),
    {
        let attrs = self.def_attrs(graph, node)?;
        Ok(attrs.preferred_cluster)
    }

    /// The preferred cluster dimension of a kernel node of an executable.
    pub fn graph_exec_kernel_node_get_preferred_cluster(
        &self,
        graph: GraphId,
        node: usize,
    ) -> (r: Result<Option<ClusterDim>, SimError>)
        ensures
            r == self@.graph_exec_kernel_node_get_preferred_cluster(graph, node),
    {
        let attrs = self.exec_attrs(graph, node)?;
        Ok(attrs.preferred_cluster)
    }

    /// Change the preferred cluster dimension of a kernel node of a definition.
    pub fn graph_kernel_node_set_preferred_cluster(
        &mut self,
        graph: GraphId,
        node: usize,
        preferred: Option<ClusterDim>,
    ) -> (r: Result<(), SimError>)
        ensures
            final(self)@ == old(self)@.graph_kernel_node_set_preferred_cluster(
                graph,
                node,
                preferred,
            ).0,
            r == old(self)@.graph_kernel_node_set_preferred_cluster(graph, node, preferred).1,
    {
        self.fail_if_capturing("cannot capture kernel node set attribute")?;
        let step = self.kernel_def_step(graph, node)?;
        self.validate_cluster_attrs(
            step.device,
            step.attrs.cluster,
            preferred,
            step.attrs.portable_cluster,
        )?;
        let mut attrs: NodeAttrs = step.attrs;
        attrs.preferred_cluster = preferred;
        self.set_def_attrs(graph, node, attrs)
    }

    /// Change the preferred cluster dimension of a kernel node of an executable.
    pub fn graph_exec_kernel_node_set_preferred_cluster(
        &mut self,
        graph: GraphId,
        node: usize,
        preferred: Option<ClusterDim>,
    ) -> (r: Result<(), SimError>)
        ensures
            final(self)@ == old(self)@.graph_exec_kernel_node_set_preferred_cluster(
                graph,
                node,
                preferred,
            ).0,
            r == old(self)@.graph_exec_kernel_node_set_preferred_cluster(graph, node, preferred).1,
    {
        self.fail_if_capturing("cannot capture kernel node set attribute")?;
        let id = self.as_exec(graph)?;
        let step = self.kernel_exec_step(id, node)?;
        self.validate_cluster_attrs(
            step.device,
            step.attrs.cluster,
            preferred,
            step.attrs.portable_cluster,
        )?;
        let mut attrs: NodeAttrs = step.attrs;
        attrs.preferred_cluster = preferred;
        self.set_exec_attrs(id, node, attrs)
    }

    /// The shared-memory carveout of a kernel node of a definition.
    pub fn graph_kernel_node_get_carveout(
        &self,
        graph: GraphId,
        node: usize,
    ) -> (r: Result<SharedMemCarveout, SimError>)
        ensures
            r == self@.graph_kernel_node_get_carveout(graph, node),
    {
        let attrs = self.def_attrs(graph, node)?;
        Ok(attrs.carveout)
    }

    /// The shared-memory carveout of a kernel node of an executable.
    pub fn graph_exec_kernel_node_get_carveout(
        &self,
        graph: GraphId,
        node: usize,
    ) -> (r: Result<SharedMemCarveout, SimError>)
        ensures
            r == self@.graph_exec_kernel_node_get_carveout(graph, node),
    {
        let attrs = self.exec_attrs(graph, node)?;
        Ok(attrs.carveout)
    }

    /// Change the shared-memory carveout of a kernel node of a definition.
    pub fn graph_kernel_node_set_carveout(
        &mut self,
        graph: GraphId,
        node: usize,
        carveout: SharedMemCarveout,
    ) -> (r: Result<(), SimError>)
        ensures
            final(self)@ == old(self)@.graph_kernel_node_set_carveout(graph, node, carveout).0,
            r == old(self)@.graph_kernel_node_set_carveout(graph, node, carveout).1,
    {
        self.fail_if_capturing("cannot capture kernel node set attribute")?;
        let step = self.kernel_def_step(graph, node)?;
        let mut attrs: NodeAttrs = step.attrs;
        attrs.carveout = carveout;
        self.set_def_attrs(graph, node, attrs)
    }

    /// Change the shared-memory carveout of a kernel node of an executable.
    pub fn graph_exec_kernel_node_set_carveout(
        &mut self,
        graph: GraphId,
        node: usize,
        carveout: SharedMemCarveout,
    ) -> (r: Result<(), SimError>)
        ensures
            final(self)@ == old(self)@.graph_exec_kernel_node_set_carveout(graph, node, carveout).0,
            r == old(self)@.graph_exec_kernel_node_set_carveout(graph, node, carveout).1,
    {
        self.fail_if_capturing("cannot capture kernel node set attribute")?;
        let id = self.as_exec(graph)?;
        let step = self.kernel_exec_step(id, node)?;
        let mut attrs: NodeAttrs = step.attrs;
        attrs.carveout = carveout;
        self.set_exec_attrs(id, node, attrs)
    }

    /// The device-updatable mark of a kernel node of a definition.
    pub fn graph_kernel_node_get_device_updatable(
        &self,
        graph: GraphId,
        node: usize,
    ) -> (r: Result<bool, SimError>)
        ensures
            r == self@.graph_kernel_node_get_device_updatable(graph, node),
    {
        let attrs = self.def_attrs(graph, node)?;
        Ok(attrs.device_updatable)
    }

    /// The device-updatable mark of a kernel node of an executable.
    pub fn graph_exec_kernel_node_get_device_updatable(
        &self,
        graph: GraphId,
        node: usize,
    ) -> (r: Result<bool, SimError>)
        ensures
            r == self@.graph_exec_kernel_node_get_device_updatable(graph, node),
    {
        let attrs = self.exec_attrs(graph, node)?;
        Ok(attrs.device_updatable)
    }

    /// Change the device-updatable mark of a kernel node of a definition.
    pub fn graph_kernel_node_set_device_updatable(
        &mut self,
        graph: GraphId,
        node: usize,
        device_updatable: bool,
    ) -> (r: Result<(), SimError>)
        ensures
            final(self)@ == old(self)@.graph_kernel_node_set_device_updatable(
                graph,
                node,
                device_updatable,
            ).0,
            r == old(self)@.graph_kernel_node_set_device_updatable(graph, node, device_updatable).1,
    {
        self.fail_if_capturing("cannot capture kernel node set attribute")?;
        let step = self.kernel_def_step(graph, node)?;
        let mut attrs: NodeAttrs = step.attrs;
        attrs.device_updatable = device_updatable;
        self.set_def_attrs(graph, node, attrs)
    }

    /// Change the device-updatable mark of a kernel node of an executable.
    pub fn graph_exec_kernel_node_set_device_updatable(
        &mut self,
        graph: GraphId,
        node: usize,
        device_updatable: bool,
    ) -> (r: Result<(), SimError>)
        ensures
            final(self)@ == old(self)@.graph_exec_kernel_node_set_device_updatable(
                graph,
                node,
                device_updatable,
            ).0,
            r == old(self)@.graph_exec_kernel_node_set_device_updatable(
                graph,
                node,
                device_updatable,
            ).1,
    {
        self.fail_if_capturing("cannot capture kernel node set attribute")?;
        let id = self.as_exec(graph)?;
        let step = self.kernel_exec_step(id, node)?;
        let mut attrs: NodeAttrs = step.attrs;
        attrs.device_updatable = device_updatable;
        self.set_exec_attrs(id, node, attrs)
    }

    /// The shared-memory bank mode of a kernel node of a definition.
    pub fn graph_kernel_node_get_shared_mem(
        &self,
        graph: GraphId,
        node: usize,
    ) -> (r: Result<SharedMemoryMode, SimError>)
        ensures
            r == self@.graph_kernel_node_get_shared_mem(graph, node),
    {
        let attrs = self.def_attrs(graph, node)?;
        Ok(attrs.shared_mem)
    }

    /// The shared-memory bank mode of a kernel node of an executable.
    pub fn graph_exec_kernel_node_get_shared_mem(
        &self,
        graph: GraphId,
        node: usize,
    ) -> (r: Result<SharedMemoryMode, SimError>)
        ensures
            r == self@.graph_exec_kernel_node_get_shared_mem(graph, node),
    {
        let attrs = self.exec_attrs(graph, node)?;
        Ok(attrs.shared_mem)
    }

    /// Change the shared-memory bank mode of a kernel node of a definition.
    pub fn graph_kernel_node_set_shared_mem(
        &mut self,
        graph: GraphId,
        node: usize,
        shared_mem: SharedMemoryMode,
    ) -> (r: Result<(), SimError>)
        ensures
            final(self)@ == old(self)@.graph_kernel_node_set_shared_mem(graph, node, shared_mem).0,
            r == old(self)@.graph_kernel_node_set_shared_mem(graph, node, shared_mem).1,
    {
        self.fail_if_capturing("cannot capture kernel node set attribute")?;
        let step = self.kernel_def_step(graph, node)?;
        let mut attrs: NodeAttrs = step.attrs;
        attrs.shared_mem = shared_mem;
        self.set_def_attrs(graph, node, attrs)
    }

    /// Change the shared-memory bank mode of a kernel node of an executable.
    pub fn graph_exec_kernel_node_set_shared_mem(
        &mut self,
        graph: GraphId,
        node: usize,
        shared_mem: SharedMemoryMode,
    ) -> (r: Result<(), SimError>)
        ensures
            final(self)@ == old(self)@.graph_exec_kernel_node_set_shared_mem(
                graph,
                node,
                shared_mem,
            ).0,
            r == old(self)@.graph_exec_kernel_node_set_shared_mem(graph, node, shared_mem).1,
    {
        self.fail_if_capturing("cannot capture kernel node set attribute")?;
        let id = self.as_exec(graph)?;
        let step = self.kernel_exec_step(id, node)?;
        let mut attrs: NodeAttrs = step.attrs;
        attrs.shared_mem = shared_mem;
        self.set_exec_attrs(id, node, attrs)
    }

    /// The portable-cluster mode of a kernel node of a definition.
    pub fn graph_kernel_node_get_portable_cluster(
        &self,
        graph: GraphId,
        node: usize,
    ) -> (r: Result<PortableClusterMode, SimError>)
        ensures
            r == self@.graph_kernel_node_get_portable_cluster(graph, node),
    {
        let attrs = self.def_attrs(graph, node)?;
        Ok(attrs.portable_cluster)
    }

    /// The portable-cluster mode of a kernel node of an executable.
    pub fn graph_exec_kernel_node_get_portable_cluster(
        &self,
        graph: GraphId,
        node: usize,
    ) -> (r: Result<PortableClusterMode, SimError>)
        ensures
            r == self@.graph_exec_kernel_node_get_portable_cluster(graph, node),
    {
        let attrs = self.exec_attrs(graph, node)?;
        Ok(attrs.portable_cluster)
    }

    /// Change the portable-cluster mode of a kernel node of a definition.
    pub fn graph_kernel_node_set_portable_cluster(
        &mut self,
        graph: GraphId,
        node: usize,
        mode: PortableClusterMode,
    ) -> (r: Result<(), SimError>)
        ensures
            final(self)@ == old(self)@.graph_kernel_node_set_portable_cluster(graph, node, mode).0,
            r == old(self)@.graph_kernel_node_set_portable_cluster(graph, node, mode).1,
    {
        self.fail_if_capturing("cannot capture kernel node set attribute")?;
        let step = self.kernel_def_step(graph, node)?;
        self.validate_cluster_attrs(
            step.device,
            step.attrs.cluster,
            step.attrs.preferred_cluster,
            mode,
        )?;
        let mut attrs: NodeAttrs = step.attrs;
        attrs.portable_cluster = mode;
        self.set_def_attrs(graph, node, attrs)
    }

    /// Change the portable-cluster mode of a kernel node of an executable.
    pub fn graph_exec_kernel_node_set_portable_cluster(
        &mut self,
        graph: GraphId,
        node: usize,
        mode: PortableClusterMode,
    ) -> (r: Result<(), SimError>)
        ensures
            final(self)@ == old(self)@.graph_exec_kernel_node_set_portable_cluster(
                graph,
                node,
                mode,
            ).0,
            r == old(self)@.graph_exec_kernel_node_set_portable_cluster(graph, node, mode).1,
    {
        self.fail_if_capturing("cannot capture kernel node set attribute")?;
        let id = self.as_exec(graph)?;
        let step = self.kernel_exec_step(id, node)?;
        self.validate_cluster_attrs(
            step.device,
            step.attrs.cluster,
            step.attrs.preferred_cluster,
            mode,
        )?;
        let mut attrs: NodeAttrs = step.attrs;
        attrs.portable_cluster = mode;
        self.set_exec_attrs(id, node, attrs)
    }

    /// The portable-shared mode of a kernel node of a definition.
    pub fn graph_kernel_node_get_portable_shared(
        &self,
        graph: GraphId,
        node: usize,
    ) -> (r: Result<PortableSharedMode, SimError>)
        ensures
            r == self@.graph_kernel_node_get_portable_shared(graph, node),
    {
        let attrs = self.def_attrs(graph, node)?;
        Ok(attrs.portable_shared)
    }

    /// The portable-shared mode of a kernel node of an executable.
    pub fn graph_exec_kernel_node_get_portable_shared(
        &self,
        graph: GraphId,
        node: usize,
    ) -> (r: Result<PortableSharedMode, SimError>)
        ensures
            r == self@.graph_exec_kernel_node_get_portable_shared(graph, node),
    {
        let attrs = self.exec_attrs(graph, node)?;
        Ok(attrs.portable_shared)
    }

    /// Change the portable-shared mode of a kernel node of a definition.
    pub fn graph_kernel_node_set_portable_shared(
        &mut self,
        graph: GraphId,
        node: usize,
        mode: PortableSharedMode,
    ) -> (r: Result<(), SimError>)
        ensures
            final(self)@ == old(self)@.graph_kernel_node_set_portable_shared(graph, node, mode).0,
            r == old(self)@.graph_kernel_node_set_portable_shared(graph, node, mode).1,
    {
        self.fail_if_capturing("cannot capture kernel node set attribute")?;
        let step = self.kernel_def_step(graph, node)?;
        self.validate_dynamic_shared(step.device, step.attrs.dynamic_shared, mode)?;
        let mut attrs: NodeAttrs = step.attrs;
        attrs.portable_shared = mode;
        self.set_def_attrs(graph, node, attrs)
    }

    /// Change the portable-shared mode of a kernel node of an executable.
    pub fn graph_exec_kernel_node_set_portable_shared(
        &mut self,
        graph: GraphId,
        node: usize,
        mode: PortableSharedMode,
    ) -> (r: Result<(), SimError>)
        ensures
            final(self)@ == old(self)@.graph_exec_kernel_node_set_portable_shared(
                graph,
                node,
                mode,
            ).0,
            r == old(self)@.graph_exec_kernel_node_set_portable_shared(graph, node, mode).1,
    {
        self.fail_if_capturing("cannot capture kernel node set attribute")?;
        let id = self.as_exec(graph)?;
        let step = self.kernel_exec_step(id, node)?;
        self.validate_dynamic_shared(step.device, step.attrs.dynamic_shared, mode)?;
        let mut attrs: NodeAttrs = step.attrs;
        attrs.portable_shared = mode;
        self.set_exec_attrs(id, node, attrs)
    }

    /// The dynamic shared memory of a kernel node of a definition.
    pub fn graph_kernel_node_get_dynamic_shared(
        &self,
        graph: GraphId,
        node: usize,
    ) -> (r: Result<u32, SimError>)
        ensures
            r == self@.graph_kernel_node_get_dynamic_shared(graph, node),
    {
        let attrs = self.def_attrs(graph, node)?;
        Ok(attrs.dynamic_shared)
    }

    /// The dynamic shared memory of a kernel node of an executable.
    pub fn graph_exec_kernel_node_get_dynamic_shared(
        &self,
        graph: GraphId,
        node: usize,
    ) -> (r: Result<u32, SimError>)
        ensures
            r == self@.graph_exec_kernel_node_get_dynamic_shared(graph, node),
    {
        let attrs = self.exec_attrs(graph, node)?;
        Ok(attrs.dynamic_shared)
    }

    /// Change the dynamic shared memory of a kernel node of a definition.
    pub fn graph_kernel_node_set_dynamic_shared(
        &mut self,
        graph: GraphId,
        node: usize,
        bytes: u32,
    ) -> (r: Result<(), SimError>)
        ensures
            final(self)@ == old(self)@.graph_kernel_node_set_dynamic_shared(graph, node, bytes).0,
            r == old(self)@.graph_kernel_node_set_dynamic_shared(graph, node, bytes).1,
    {
        self.fail_if_capturing("cannot capture kernel node set attribute")?;
        let step = self.kernel_def_step(graph, node)?;
        self.validate_dynamic_shared(step.device, bytes, step.attrs.portable_shared)?;
        let mut attrs: NodeAttrs = step.attrs;
        attrs.dynamic_shared = bytes;
        self.set_def_attrs(graph, node, attrs)
    }

    /// Change the dynamic shared memory of a kernel node of an executable.
    pub fn graph_exec_kernel_node_set_dynamic_shared(
        &mut self,
        graph: GraphId,
        node: usize,
        bytes: u32,
    ) -> (r: Result<(), SimError>)
        ensures
            final(self)@ == old(self)@.graph_exec_kernel_node_set_dynamic_shared(
                graph,
                node,
                bytes,
            ).0,
            r == old(self)@.graph_exec_kernel_node_set_dynamic_shared(graph, node, bytes).1,
    {
        self.fail_if_capturing("cannot capture kernel node set attribute")?;
        let id = self.as_exec(graph)?;
        let step = self.kernel_exec_step(id, node)?;
        self.validate_dynamic_shared(step.device, bytes, step.attrs.portable_shared)?;
        let mut attrs: NodeAttrs = step.attrs;
        attrs.dynamic_shared = bytes;
        self.set_exec_attrs(id, node, attrs)
    }

    /// The NVLink-centric scheduling mark of a kernel node of a definition.
    pub fn graph_kernel_node_get_nvlink_util_centric(
        &self,
        graph: GraphId,
        node: usize,
    ) -> (r: Result<bool, SimError>)
        ensures
            r == self@.graph_kernel_node_get_nvlink_util_centric(graph, node),
    {
        let attrs = self.def_attrs(graph, node)?;
        Ok(attrs.nvlink_util_centric)
    }

    /// The NVLink-centric scheduling mark of a kernel node of an executable.
    pub fn graph_exec_kernel_node_get_nvlink_util_centric(
        &self,
        graph: GraphId,
        node: usize,
    ) -> (r: Result<bool, SimError>)
        ensures
            r == self@.graph_exec_kernel_node_get_nvlink_util_centric(graph, node),
    {
        let attrs = self.exec_attrs(graph, node)?;
        Ok(attrs.nvlink_util_centric)
    }

    /// Change the NVLink-centric scheduling mark of a kernel node of a definition.
    pub fn graph_kernel_node_set_nvlink_util_centric(
        &mut self,
        graph: GraphId,
        node: usize,
        enabled: bool,
    ) -> (r: Result<(), SimError>)
        ensures
            final(self)@ == old(self)@.graph_kernel_node_set_nvlink_util_centric(
                graph,
                node,
                enabled,
            ).0,
            r == old(self)@.graph_kernel_node_set_nvlink_util_centric(graph, node, enabled).1,
    {
        self.fail_if_capturing("cannot capture kernel node set attribute")?;
        let step = self.kernel_def_step(graph, node)?;
        let mut attrs: NodeAttrs = step.attrs;
        attrs.nvlink_util_centric = enabled;
        self.set_def_attrs(graph, node, attrs)
    }

    /// Change the NVLink-centric scheduling mark of a kernel node of an executable.
    pub fn graph_exec_kernel_node_set_nvlink_util_centric(
        &mut self,
        graph: GraphId,
        node: usize,
        enabled: bool,
    ) -> (r: Result<(), SimError>)
        ensures
            final(self)@ == old(self)@.graph_exec_kernel_node_set_nvlink_util_centric(
                graph,
                node,
                enabled,
            ).0,
            r == old(self)@.graph_exec_kernel_node_set_nvlink_util_centric(graph, node, enabled).1,
    {
        self.fail_if_capturing("cannot capture kernel node set attribute")?;
        let id = self.as_exec(graph)?;
        let step = self.kernel_exec_step(id, node)?;
        let mut attrs: NodeAttrs = step.attrs;
        attrs.nvlink_util_centric = enabled;
        self.set_exec_attrs(id, node, attrs)
    }

    /// Copy the priority, the launch events and the access window.
    pub(crate) fn copy_launch_attrs(
        &mut self,
        dst_graph: GraphId,
        dst: usize,
        src_graph: GraphId,
        src: usize,
    ) -> (r: Result<(), SimError>)
        ensures
            final(self)@ == old(self)@.copy_launch_attrs(dst_graph, dst, src_graph, src).0,
            r == old(self)@.copy_launch_attrs(dst_graph, dst, src_graph, src).1,
    {
        reveal(SimState::copy_launch_attrs);
        let priority = self.graph_kernel_node_get_priority(src_graph, src)?;
        let pdl = self.graph_kernel_node_get_pdl(src_graph, src)?;
        let programmatic_event = self.graph_kernel_node_get_programmatic_event(src_graph, src)?;
        let launch_completion = self.graph_kernel_node_get_launch_completion(src_graph, src)?;
        let access_policy = self.graph_kernel_node_get_access_policy(src_graph, src)?;
        self.graph_kernel_node_set_priority(dst_graph, dst, priority)?;
        self.graph_kernel_node_set_pdl(dst_graph, dst, pdl)?;
        self.graph_kernel_node_set_programmatic_event(dst_graph, dst, programmatic_event)?;
        self.graph_kernel_node_set_launch_completion(dst_graph, dst, launch_completion)?;
        self.graph_kernel_node_set_access_policy(dst_graph, dst, access_policy)?;
        Ok(())
    }

    /// Copy the memory-synchronization domain and map.
    pub(crate) fn copy_sync_attrs(
        &mut self,
        dst_graph: GraphId,
        dst: usize,
        src_graph: GraphId,
        src: usize,
    ) -> (r: Result<(), SimError>)
        ensures
            final(self)@ == old(self)@.copy_sync_attrs(dst_graph, dst, src_graph, src).0,
            r == old(self)@.copy_sync_attrs(dst_graph, dst, src_graph, src).1,
    {
        reveal(SimState::copy_sync_attrs);
        let mem_sync_domain = self.graph_kernel_node_get_mem_sync_domain(src_graph, src)?;
        let map = self.graph_kernel_node_get_mem_sync_domain_map(src_graph, src)?;
        self.graph_kernel_node_set_mem_sync_domain(dst_graph, dst, mem_sync_domain)?;
        self.graph_kernel_node_set_mem_sync_domain_map(dst_graph, dst, map)?;
        Ok(())
    }

    /// Copy the cluster attributes.
    pub(crate) fn copy_cluster_attrs(
        &mut self,
        dst_graph: GraphId,
        dst: usize,
        src_graph: GraphId,
        src: usize,
    ) -> (r: Result<(), SimError>)
        ensures
            final(self)@ == old(self)@.copy_cluster_attrs(dst_graph, dst, src_graph, src).0,
            r == old(self)@.copy_cluster_attrs(dst_graph, dst, src_graph, src).1,
    {
        reveal(SimState::copy_cluster_attrs);
        let portable_cluster = self.graph_kernel_node_get_portable_cluster(src_graph, src)?;
        self.graph_kernel_node_set_portable_cluster(dst_graph, dst, portable_cluster)?;
        let cluster = self.graph_kernel_node_get_cluster(src_graph, src)?;
        self.graph_kernel_node_set_cluster(dst_graph, dst, cluster)?;
        let cluster_policy = self.graph_kernel_node_get_cluster_policy(src_graph, src)?;
        self.graph_kernel_node_set_cluster_policy(dst_graph, dst, cluster_policy)?;
        let preferred_cluster = self.graph_kernel_node_get_preferred_cluster(src_graph, src)?;
        self.graph_kernel_node_set_preferred_cluster(dst_graph, dst, preferred_cluster)?;
        Ok(())
    }

    /// Copy the shared-memory attributes and the device-updatable mark.
    pub(crate) fn copy_shared_attrs(
        &mut self,
        dst_graph: GraphId,
        dst: usize,
        src_graph: GraphId,
        src: usize,
    ) -> (r: Result<(), SimError>)
        ensures
            final(self)@ == old(self)@.copy_shared_attrs(dst_graph, dst, src_graph, src).0,
            r == old(self)@.copy_shared_attrs(dst_graph, dst, src_graph, src).1,
    {
        reveal(SimState::copy_shared_attrs);
        let carveout = self.graph_kernel_node_get_carveout(src_graph, src)?;
        self.graph_kernel_node_set_carveout(dst_graph, dst, carveout)?;
        let device_updatable = self.graph_kernel_node_get_device_updatable(src_graph, src)?;
        self.graph_kernel_node_set_device_updatable(dst_graph, dst, device_updatable)?;
        let shared_mem = self.graph_kernel_node_get_shared_mem(src_graph, src)?;
        self.graph_kernel_node_set_shared_mem(dst_graph, dst, shared_mem)?;
        let portable_shared = self.graph_kernel_node_get_portable_shared(src_graph, src)?;
        self.graph_kernel_node_set_portable_shared(dst_graph, dst, portable_shared)?;
        Ok(())
    }

    /// Give a kernel node the launch attributes of another one, all but the dynamic shared memory.
    pub fn graph_kernel_node_copy_attributes(
        &mut self,
        dst_graph: GraphId,
        dst: usize,
        src_graph: GraphId,
        src: usize,
    ) -> (r: Result<(), SimError>)
        ensures
            final(self)@ == old(self)@.graph_kernel_node_copy_attributes(
                dst_graph,
                dst,
                src_graph,
                src,
            ).0,
            r == old(self)@.graph_kernel_node_copy_attributes(dst_graph, dst, src_graph, src).1,
    {
        self.fail_if_capturing("cannot capture kernel node copy attributes")?;
        self.copy_launch_attrs(dst_graph, dst, src_graph, src)?;
        self.copy_sync_attrs(dst_graph, dst, src_graph, src)?;
        self.copy_cluster_attrs(dst_graph, dst, src_graph, src)?;
        self.copy_shared_attrs(dst_graph, dst, src_graph, src)?;
        let enabled: bool = self.graph_kernel_node_get_nvlink_util_centric(src_graph, src)?;
        self.graph_kernel_node_set_nvlink_util_centric(dst_graph, dst, enabled)
    }

    /// The value of an attribute.
    pub(crate) fn attr_value(
        &self,
        attrs: NodeAttrs,
        attr: KernelNodeAttr,
    ) -> (r: KernelNodeAttrValue)
        ensures
            r == self@.attr_value(attrs, attr),
    {
        match attr {
            KernelNodeAttr::Priority => KernelNodeAttrValue::Priority(attrs.priority),
            KernelNodeAttr::Pdl => KernelNodeAttrValue::Pdl(attrs.pdl),
            KernelNodeAttr::ProgrammaticEvent => KernelNodeAttrValue::ProgrammaticEvent(
                attrs.programmatic_event,
            ),
            KernelNodeAttr::LaunchCompletion => KernelNodeAttrValue::LaunchCompletion(
                attrs.launch_completion,
            ),
            KernelNodeAttr::AccessPolicy => KernelNodeAttrValue::AccessPolicy(attrs.access_policy),
            KernelNodeAttr::MemSyncDomain => KernelNodeAttrValue::MemSyncDomain(
                attrs.mem_sync_domain,
            ),
            KernelNodeAttr::MemSyncDomainMap => KernelNodeAttrValue::MemSyncDomainMap(
                attrs.mem_sync_map,
            ),
            KernelNodeAttr::Cluster => KernelNodeAttrValue::Cluster(attrs.cluster),
            KernelNodeAttr::ClusterPolicy => KernelNodeAttrValue::ClusterPolicy(
                attrs.cluster_policy,
            ),
            KernelNodeAttr::PreferredCluster => KernelNodeAttrValue::PreferredCluster(
                attrs.preferred_cluster,
            ),
            KernelNodeAttr::Carveout => KernelNodeAttrValue::Carveout(attrs.carveout),
            KernelNodeAttr::DeviceUpdatable => KernelNodeAttrValue::DeviceUpdatable(
                attrs.device_updatable,
            ),
            KernelNodeAttr::SharedMem => KernelNodeAttrValue::SharedMem(attrs.shared_mem),
            KernelNodeAttr::PortableCluster => KernelNodeAttrValue::PortableCluster(
                attrs.portable_cluster,
            ),
            KernelNodeAttr::PortableShared => KernelNodeAttrValue::PortableShared(
                attrs.portable_shared,
            ),
            KernelNodeAttr::DynamicShared => KernelNodeAttrValue::DynamicShared(
                attrs.dynamic_shared,
            ),
            KernelNodeAttr::NvlinkUtilCentric => KernelNodeAttrValue::NvlinkUtilCentric(
                attrs.nvlink_util_centric,
            ),
        }
    }

    /// An attribute of a kernel node of a definition, by name.
    pub fn graph_kernel_node_get_attribute(
        &self,
        graph: GraphId,
        node: usize,
        attr: KernelNodeAttr,
    ) -> (r: Result<KernelNodeAttrValue, SimError>)
        ensures
            r == self@.graph_kernel_node_get_attribute(graph, node, attr),
    {
        let attrs = self.def_attrs(graph, node)?;
        Ok(self.attr_value(attrs, attr))
    }

    /// An attribute of a kernel node of an executable, by name.
    pub fn graph_exec_kernel_node_get_attribute(
        &self,
        graph: GraphId,
        node: usize,
        attr: KernelNodeAttr,
    ) -> (r: Result<KernelNodeAttrValue, SimError>)
        ensures
            r == self@.graph_exec_kernel_node_get_attribute(graph, node, attr),
    {
        let attrs = self.exec_attrs(graph, node)?;
        Ok(self.attr_value(attrs, attr))
    }

    /// Change an attribute of a kernel node of a definition, by name. The value is of the same attribute.
    pub fn graph_kernel_node_set_attribute(
        &mut self,
        graph: GraphId,
        node: usize,
        attr: KernelNodeAttr,
        value: KernelNodeAttrValue,
    ) -> (r: Result<(), SimError>)
        ensures
            final(self)@ == old(self)@.graph_kernel_node_set_attribute(graph, node, attr, value).0,
            r == old(self)@.graph_kernel_node_set_attribute(graph, node, attr, value).1,
    {
        match (attr, value) {
            (
                KernelNodeAttr::Priority,
                KernelNodeAttrValue::Priority(v),
            ) => self.graph_kernel_node_set_priority(graph, node, v),
            (
                KernelNodeAttr::Pdl,
                KernelNodeAttrValue::Pdl(v),
            ) => self.graph_kernel_node_set_pdl(graph, node, v),
            (
                KernelNodeAttr::ProgrammaticEvent,
                KernelNodeAttrValue::ProgrammaticEvent(v),
            ) => self.graph_kernel_node_set_programmatic_event(graph, node, v),
            (
                KernelNodeAttr::LaunchCompletion,
                KernelNodeAttrValue::LaunchCompletion(v),
            ) => self.graph_kernel_node_set_launch_completion(graph, node, v),
            (
                KernelNodeAttr::AccessPolicy,
                KernelNodeAttrValue::AccessPolicy(v),
            ) => self.graph_kernel_node_set_access_policy(graph, node, v),
            (
                KernelNodeAttr::MemSyncDomain,
                KernelNodeAttrValue::MemSyncDomain(v),
            ) => self.graph_kernel_node_set_mem_sync_domain(graph, node, v),
            (
                KernelNodeAttr::MemSyncDomainMap,
                KernelNodeAttrValue::MemSyncDomainMap(v),
            ) => self.graph_kernel_node_set_mem_sync_domain_map(graph, node, v),
            (
                KernelNodeAttr::Cluster,
                KernelNodeAttrValue::Cluster(v),
            ) => self.graph_kernel_node_set_cluster(graph, node, v),
            (
                KernelNodeAttr::ClusterPolicy,
                KernelNodeAttrValue::ClusterPolicy(v),
            ) => self.graph_kernel_node_set_cluster_policy(graph, node, v),
            (
                KernelNodeAttr::PreferredCluster,
                KernelNodeAttrValue::PreferredCluster(v),
            ) => self.graph_kernel_node_set_preferred_cluster(graph, node, v),
            (
                KernelNodeAttr::Carveout,
                KernelNodeAttrValue::Carveout(v),
            ) => self.graph_kernel_node_set_carveout(graph, node, v),
            (
                KernelNodeAttr::DeviceUpdatable,
                KernelNodeAttrValue::DeviceUpdatable(v),
            ) => self.graph_kernel_node_set_device_updatable(graph, node, v),
            (
                KernelNodeAttr::SharedMem,
                KernelNodeAttrValue::SharedMem(v),
            ) => self.graph_kernel_node_set_shared_mem(graph, node, v),
            (
                KernelNodeAttr::PortableCluster,
                KernelNodeAttrValue::PortableCluster(v),
            ) => self.graph_kernel_node_set_portable_cluster(graph, node, v),
            (
                KernelNodeAttr::PortableShared,
                KernelNodeAttrValue::PortableShared(v),
            ) => self.graph_kernel_node_set_portable_shared(graph, node, v),
            (
                KernelNodeAttr::DynamicShared,
                KernelNodeAttrValue::DynamicShared(v),
            ) => self.graph_kernel_node_set_dynamic_shared(graph, node, v),
            (
                KernelNodeAttr::NvlinkUtilCentric,
                KernelNodeAttrValue::NvlinkUtilCentric(v),
            ) => self.graph_kernel_node_set_nvlink_util_centric(graph, node, v),
            _ => Err(invalid("kernel node attr")),
        }
    }

    /// Change an attribute of a kernel node of an executable, by name. The value is of the same attribute.
    pub fn graph_exec_kernel_node_set_attribute(
        &mut self,
        graph: GraphId,
        node: usize,
        attr: KernelNodeAttr,
        value: KernelNodeAttrValue,
    ) -> (r: Result<(), SimError>)
        ensures
            final(self)@ == old(self)@.graph_exec_kernel_node_set_attribute(
                graph,
                node,
                attr,
                value,
            ).0,
            r == old(self)@.graph_exec_kernel_node_set_attribute(graph, node, attr, value).1,
    {
        match (attr, value) {
            (
                KernelNodeAttr::Priority,
                KernelNodeAttrValue::Priority(v),
            ) => self.graph_exec_kernel_node_set_priority(graph, node, v),
            (
                KernelNodeAttr::Pdl,
                KernelNodeAttrValue::Pdl(v),
            ) => self.graph_exec_kernel_node_set_pdl(graph, node, v),
            (
                KernelNodeAttr::ProgrammaticEvent,
                KernelNodeAttrValue::ProgrammaticEvent(v),
            ) => self.graph_exec_kernel_node_set_programmatic_event(graph, node, v),
            (
                KernelNodeAttr::LaunchCompletion,
                KernelNodeAttrValue::LaunchCompletion(v),
            ) => self.graph_exec_kernel_node_set_launch_completion(graph, node, v),
            (
                KernelNodeAttr::AccessPolicy,
                KernelNodeAttrValue::AccessPolicy(v),
            ) => self.graph_exec_kernel_node_set_access_policy(graph, node, v),
            (
                KernelNodeAttr::MemSyncDomain,
                KernelNodeAttrValue::MemSyncDomain(v),
            ) => self.graph_exec_kernel_node_set_mem_sync_domain(graph, node, v),
            (
                KernelNodeAttr::MemSyncDomainMap,
                KernelNodeAttrValue::MemSyncDomainMap(v),
            ) => self.graph_exec_kernel_node_set_mem_sync_domain_map(graph, node, v),
            (
                KernelNodeAttr::Cluster,
                KernelNodeAttrValue::Cluster(v),
            ) => self.graph_exec_kernel_node_set_cluster(graph, node, v),
            (
                KernelNodeAttr::ClusterPolicy,
                KernelNodeAttrValue::ClusterPolicy(v),
            ) => self.graph_exec_kernel_node_set_cluster_policy(graph, node, v),
            (
                KernelNodeAttr::PreferredCluster,
                KernelNodeAttrValue::PreferredCluster(v),
            ) => self.graph_exec_kernel_node_set_preferred_cluster(graph, node, v),
            (
                KernelNodeAttr::Carveout,
                KernelNodeAttrValue::Carveout(v),
            ) => self.graph_exec_kernel_node_set_carveout(graph, node, v),
            (
                KernelNodeAttr::DeviceUpdatable,
                KernelNodeAttrValue::DeviceUpdatable(v),
            ) => self.graph_exec_kernel_node_set_device_updatable(graph, node, v),
            (
                KernelNodeAttr::SharedMem,
                KernelNodeAttrValue::SharedMem(v),
            ) => self.graph_exec_kernel_node_set_shared_mem(graph, node, v),
            (
                KernelNodeAttr::PortableCluster,
                KernelNodeAttrValue::PortableCluster(v),
            ) => self.graph_exec_kernel_node_set_portable_cluster(graph, node, v),
            (
                KernelNodeAttr::PortableShared,
                KernelNodeAttrValue::PortableShared(v),
            ) => self.graph_exec_kernel_node_set_portable_shared(graph, node, v),
            (
                KernelNodeAttr::DynamicShared,
                KernelNodeAttrValue::DynamicShared(v),
            ) => self.graph_exec_kernel_node_set_dynamic_shared(graph, node, v),
            (
                KernelNodeAttr::NvlinkUtilCentric,
                KernelNodeAttrValue::NvlinkUtilCentric(v),
            ) => self.graph_exec_kernel_node_set_nvlink_util_centric(graph, node, v),
            _ => Err(invalid("kernel node attr")),
        }
    }

    /// The node of a clone that was copied from `node`.
    pub fn graph_node_find_in_clone(
        &self,
        original: GraphId,
        node: usize,
        cloned: GraphId,
    ) -> (r: Result<usize, SimError>)
        ensures
            r == self@.graph_node_find_in_clone(original, node, cloned),
    {
        if !self.graphs.contains_key(original) || !self.graphs.contains_key(cloned) {
            return Err(invalid("unknown graph"));
        }
        if original == cloned {
            return Err(invalid("not a clone"));
        }
        match self.clone_of.get(cloned) {
            None => return Err(invalid("not a clone")),
            Some(src) => {
                if *src != original {
                    return Err(invalid("not a clone"));
                }
            },
        }
        let _from = self.graph_def_step(original, node)?;
        let _to = self.graph_def_step(cloned, node)?;
        Ok(node)
    }
}

} // verus!
