//! Building graph definitions: nodes, conditionals and dependencies.
use vstd::prelude::*;
use crate::error::{invalid, SimError};
use crate::ids::{AllocId, CondId, DeviceId, EventId, GraphId, Lane, OpId, PoolId, StreamId};
use crate::kinds::{batch_node, kind_from_batch};
use crate::list::{
    ascending, copy_slice, copy_vec, drop_key, Dup, each_ok, extend_copy, has_key, joined_up,
    lemma_each_ok, ok_ref, ok_view, one, picked, push_all_new, Rows, sort, with_all_new, without,
};
use crate::ops::{
    BatchMemOp, GpuOp, GpuOpView, GraphAddNode, GraphNodeKind, GraphNodeParams, HostNodeParams,
    KernelBuf, KernelKind, KernelNodeParams, KernelParamsView, MemcpyOp, MemsetOp, NodeParamsView,
    Place, WaitValueCmp,
};
use crate::sim::{Sim, SimState};
use crate::spans::memcpy_2d_check;
use crate::state::{Alloc, AllocView, Cond, Graph, GraphStep, GraphView, NextIds, StepView};
use crate::topo::{graph_reaches, reaches};

verus! {

impl SimState {
    /// Value of [`Sim::graph_origin_for_add`].
    pub open spec fn graph_origin_for_add(self, graph: GraphId) -> Result<Lane, SimError> {
        match self.fail_if_capturing("cannot add graph node during capture") {
            Err(e) => Err(e),
            Ok(_v) => match self.graph_ref(graph) {
                Err(e) => Err(e),
                Ok(g) => if g.instantiated {
                    Err(invalid("graph instantiated"))
                } else {
                    Ok(g.origin)
                },
            },
        }
    }

    /// Effect of [`Sim::graph_push`].
    #[verifier::opaque]
    pub open spec fn graph_push(
        self,
        graph: GraphId,
        on: Lane,
        kind: GpuOpView,
    ) -> (SimState, Result<(), SimError>) {
        let s = self;
        let priority = s.snap_priority(on.0, on.1);
        match s.snap_mem_sync(on.0, on.1, kind) {
            Err(e) => (s, Err(e)),
            Ok((domain, map)) => {
                let attrs = s.node_attrs(priority, domain, map);
                let step = StepView {
                    device: on.0,
                    stream: on.1,
                    kind,
                    deps: Seq::empty(),
                    enabled: true,
                    destroyed: false,
                    attrs,
                };
                match s.graph_ref(graph) {
                    Err(e) => (s, Err(e)),
                    Ok(g) => {
                        let g = GraphView { steps: g.steps.push(step), ..g };
                        let s = SimState { graphs: s.graphs.insert(graph, g), ..s };
                        (s, Ok(()))
                    },
                }
            },
        }
    }

    /// Effect of [`Sim::graph_add_node`].
    pub open spec fn graph_add_node(
        self,
        graph: GraphId,
        deps: Seq<usize>,
        params: NodeParamsView,
    ) -> (SimState, Result<GraphAddNode, SimError>) {
        let s = self;
        match s.deps_in_range(graph, deps) {
            Err(e) => (s, Err(e)),
            Ok(_v) => match s.graph_add_node_kind(graph, params) {
                (s, Err(e)) => (s, Err(e)),
                (s, Ok(alloc)) => match s.graph_len(graph) {
                    Err(e) => (s, Err(e)),
                    Ok(len) => {
                        let node = len.saturating_sub(1);
                        match s.graph_bind_new_deps(graph, node, deps) {
                            (s, Err(e)) => (s, Err(e)),
                            (s, Ok(_v)) => (s, Ok(GraphAddNode { node, alloc })),
                        }
                    },
                },
            },
        }
    }

    /// Check of position `i` in [`Sim::deps_in_range`].
    pub open spec fn deps_in_range_at(
        self,
        deps: Seq<usize>,
        g: GraphView,
        i: int,
    ) -> Result<(), SimError> {
        if deps[i] >= g.steps.len() {
            Err(invalid("graph dependency"))
        } else {
            Ok(())
        }
    }

    /// Value of [`Sim::deps_in_range`].
    pub open spec fn deps_in_range(self, graph: GraphId, deps: Seq<usize>) -> Result<(), SimError> {
        match self.graph_ref(graph) {
            Err(e) => Err(e),
            Ok(g) => each_ok(deps.len(), |i: int| self.deps_in_range_at(deps, g, i)),
        }
    }

    /// Effect of [`Sim::graph_add_node_kind`].
    #[verifier::opaque]
    pub open spec fn graph_add_node_kind(
        self,
        graph: GraphId,
        params: NodeParamsView,
    ) -> (SimState, Result<Option<AllocId>, SimError>) {
        let s = self;
        match params {
            NodeParamsView::Kernel(p) => match s.graph_add_kernel_params(graph, p) {
                (s, Err(e)) => (s, Err(e)),
                (s, Ok(_v)) => (s, Ok(None)),
            },
            NodeParamsView::Memcpy(op) => match s.graph_add_memcpy(graph, op) {
                (s, Err(e)) => (s, Err(e)),
                (s, Ok(_v)) => (s, Ok(None)),
            },
            NodeParamsView::Memset(op) => match s.graph_add_memset_op(graph, op) {
                (s, Err(e)) => (s, Err(e)),
                (s, Ok(_v)) => (s, Ok(None)),
            },
            NodeParamsView::Host(p) => match s.graph_add_host_func_params(graph, p) {
                (s, Err(e)) => (s, Err(e)),
                (s, Ok(_v)) => (s, Ok(None)),
            },
            NodeParamsView::Empty => match s.graph_add_empty(graph) {
                (s, Err(e)) => (s, Err(e)),
                (s, Ok(_v)) => (s, Ok(None)),
            },
            NodeParamsView::EventRecord { event, external } => match s.graph_add_event_record(
                graph,
                event,
                external,
            ) {
                (s, Err(e)) => (s, Err(e)),
                (s, Ok(_v)) => (s, Ok(None)),
            },
            NodeParamsView::EventWait { event, external } => match s.graph_add_event_wait(
                graph,
                event,
                external,
            ) {
                (s, Err(e)) => (s, Err(e)),
                (s, Ok(_v)) => (s, Ok(None)),
            },
            NodeParamsView::ChildGraph(child) => match s.graph_add_child(graph, child) {
                (s, Err(e)) => (s, Err(e)),
                (s, Ok(_v)) => (s, Ok(None)),
            },
            NodeParamsView::Alloc { bytes } => match s.graph_add_alloc(graph, bytes) {
                (s, Err(e)) => (s, Err(e)),
                (s, Ok(id)) => (s, Ok(Some(id))),
            },
            NodeParamsView::Free(id) => match s.graph_add_free(graph, id) {
                (s, Err(e)) => (s, Err(e)),
                (s, Ok(_v)) => (s, Ok(None)),
            },
            NodeParamsView::BatchMemOp(ops) => match s.graph_add_batch_mem_op(graph, ops) {
                (s, Err(e)) => (s, Err(e)),
                (s, Ok(_v)) => (s, Ok(None)),
            },
        }
    }

    /// Check of position `i` in [`Sim::new_deps_ok`].
    pub open spec fn new_deps_ok_at(
        self,
        g: GraphView,
        node: usize,
        deps: Seq<usize>,
        i: int,
    ) -> Result<(), SimError> {
        if deps[i] == node || deps[i] >= g.steps.len() || g.steps[deps[i] as int].destroyed {
            Err(invalid("graph dependency"))
        } else {
            Ok(())
        }
    }

    /// Value of [`Sim::new_deps_ok`].
    pub open spec fn new_deps_ok(
        self,
        g: GraphView,
        node: usize,
        deps: Seq<usize>,
    ) -> Result<(), SimError> {
        each_ok(deps.len(), |i: int| self.new_deps_ok_at(g, node, deps, i))
    }

    /// Effect of [`Sim::graph_bind_new_deps`].
    #[verifier::opaque]
    pub open spec fn graph_bind_new_deps(
        self,
        graph: GraphId,
        node: usize,
        deps: Seq<usize>,
    ) -> (SimState, Result<(), SimError>) {
        let s = self;
        if deps.len() == 0 {
            (s, Ok(()))
        } else {
            match s.graph_ref(graph) {
                Err(e) => (s, Err(e)),
                Ok(g) => match s.new_deps_ok(g, node, deps) {
                    Err(e) => (s, Err(e)),
                    Ok(_v) => match g.def_node(node) {
                        Err(e) => (s, Err(e)),
                        Ok(v1) => {
                            let step = v1;
                            let more = deps;
                            let all = step.deps;
                            let all = with_all_new(all, more);
                            let all = ascending(all);
                            let step = StepView { deps: all, ..step };
                            let s = s.put_def_step(graph, node, step);
                            (s, Ok(()))
                        },
                    },
                },
            }
        }
    }

    /// Effect of [`Sim::graph_add_kernel_params`].
    pub open spec fn graph_add_kernel_params(
        self,
        graph: GraphId,
        params: KernelParamsView,
    ) -> (SimState, Result<(), SimError>) {
        let s = self;
        match s.graph_origin_for_add(graph) {
            Err(e) => (s, Err(e)),
            Ok(on) => if params.cooperative {
                match s.require_cooperative(on.0) {
                    Err(e) => (s, Err(e)),
                    Ok(_v) => match s.kernel_node(params) {
                        Err(e) => (s, Err(e)),
                        Ok(kind) => s.graph_push(graph, on, kind),
                    },
                }
            } else {
                match s.kernel_node(params) {
                    Err(e) => (s, Err(e)),
                    Ok(kind) => s.graph_push(graph, on, kind),
                }
            },
        }
    }

    /// Effect of [`Sim::graph_add_kernel`].
    pub open spec fn graph_add_kernel(
        self,
        graph: GraphId,
        kind: KernelKind,
        reads: Seq<AllocId>,
        writes: Seq<AllocId>,
    ) -> (SimState, Result<(), SimError>) {
        let s = self;
        s.graph_add_kernel_node(graph, kind, reads, writes, false)
    }

    /// Effect of [`Sim::graph_add_cooperative_kernel`].
    pub open spec fn graph_add_cooperative_kernel(
        self,
        graph: GraphId,
        kind: KernelKind,
        reads: Seq<AllocId>,
        writes: Seq<AllocId>,
    ) -> (SimState, Result<(), SimError>) {
        let s = self;
        s.graph_add_kernel_node(graph, kind, reads, writes, true)
    }

    /// Value of [`Sim::whole_bufs`].
    pub open spec fn whole_bufs(self, ids: Seq<AllocId>) -> Seq<KernelBuf> {
        Seq::new(ids.len(), |i: int| KernelBuf::whole(ids[i]))
    }

    /// Effect of [`Sim::graph_add_kernel_node`].
    pub open spec fn graph_add_kernel_node(
        self,
        graph: GraphId,
        kind: KernelKind,
        reads: Seq<AllocId>,
        writes: Seq<AllocId>,
        cooperative: bool,
    ) -> (SimState, Result<(), SimError>) {
        let s = self;
        let params = KernelParamsView {
            kind,
            reads: s.whole_bufs(reads),
            writes: s.whole_bufs(writes),
            cooperative,
        };
        s.graph_add_kernel_params(graph, params)
    }

    /// Effect of [`Sim::graph_add_memcpy`].
    pub open spec fn graph_add_memcpy(
        self,
        graph: GraphId,
        op: MemcpyOp,
    ) -> (SimState, Result<(), SimError>) {
        let s = self;
        match s.graph_origin_for_add(graph) {
            Err(e) => (s, Err(e)),
            Ok(on) => match s.alloc_ref(op.alloc) {
                Err(e) => (s, Err(e)),
                Ok(_a) => if op.src.is_pageable() || op.dst.is_pageable() {
                    (s, Err(invalid("cannot add pageable memcpy")))
                } else {
                    match memcpy_2d_check(op) {
                        Err(e) => (s, Err(e)),
                        Ok(_v) => s.graph_push(graph, on, GpuOpView::Memcpy(op)),
                    }
                },
            },
        }
    }

    /// Effect of [`Sim::graph_add_memset_op`].
    pub open spec fn graph_add_memset_op(
        self,
        graph: GraphId,
        op: MemsetOp,
    ) -> (SimState, Result<(), SimError>) {
        let s = self;
        match s.graph_origin_for_add(graph) {
            Err(e) => (s, Err(e)),
            Ok(on) => match s.resolve_memset_op(op) {
                Err(e) => (s, Err(e)),
                Ok(full) => s.graph_push(graph, on, GpuOpView::Memset(full)),
            },
        }
    }

    /// Effect of [`Sim::graph_add_host_func_params`].
    pub open spec fn graph_add_host_func_params(
        self,
        graph: GraphId,
        params: HostNodeParams,
    ) -> (SimState, Result<(), SimError>) {
        let s = self;
        match s.graph_origin_for_add(graph) {
            Err(e) => (s, Err(e)),
            Ok(on) => s.graph_push(
                graph,
                on,
                GpuOpView::HostFunc { fn_id: params.fn_id, user_data: params.user_data },
            ),
        }
    }

    /// Effect of [`Sim::graph_add_empty`].
    pub open spec fn graph_add_empty(self, graph: GraphId) -> (SimState, Result<(), SimError>) {
        let s = self;
        match s.graph_origin_for_add(graph) {
            Err(e) => (s, Err(e)),
            Ok(on) => s.graph_push(graph, on, GpuOpView::Empty),
        }
    }

    /// Effect of [`Sim::graph_add_event_record`].
    pub open spec fn graph_add_event_record(
        self,
        graph: GraphId,
        event: EventId,
        external: bool,
    ) -> (SimState, Result<(), SimError>) {
        let s = self;
        match s.graph_origin_for_add(graph) {
            Err(e) => (s, Err(e)),
            Ok(on) => if !s.events.contains_key(event) {
                (s, Err(SimError::UnknownEvent { event: event.0 }))
            } else {
                s.graph_push(graph, on, GpuOpView::EventRecord { event, external })
            },
        }
    }

    /// Effect of [`Sim::graph_add_event_wait`].
    pub open spec fn graph_add_event_wait(
        self,
        graph: GraphId,
        event: EventId,
        external: bool,
    ) -> (SimState, Result<(), SimError>) {
        let s = self;
        match s.graph_origin_for_add(graph) {
            Err(e) => (s, Err(e)),
            Ok(on) => if !s.events.contains_key(event) {
                (s, Err(SimError::UnknownEvent { event: event.0 }))
            } else {
                s.graph_push(graph, on, GpuOpView::EventWait { event, external })
            },
        }
    }

    /// Effect of [`Sim::graph_add_free`].
    pub open spec fn graph_add_free(
        self,
        graph: GraphId,
        id: AllocId,
    ) -> (SimState, Result<(), SimError>) {
        let s = self;
        match s.graph_origin_for_add(graph) {
            Err(e) => (s, Err(e)),
            Ok(on) => match s.alloc_ref(id) {
                Err(e) => (s, Err(e)),
                Ok(_a) => s.graph_push(graph, on, GpuOpView::Free { id }),
            },
        }
    }

    /// Effect of [`Sim::graph_add_child`].
    pub open spec fn graph_add_child(
        self,
        graph: GraphId,
        child: GraphId,
    ) -> (SimState, Result<(), SimError>) {
        let s = self;
        match s.graph_origin_for_add(graph) {
            Err(e) => (s, Err(e)),
            Ok(on) => if child == graph {
                (s, Err(invalid("graph child is self")))
            } else {
                match s.child_usable(child, on.0) {
                    Err(e) => (s, Err(e)),
                    Ok(_v) => s.graph_push(graph, on, GpuOpView::ChildGraph { graph: child }),
                }
            },
        }
    }

    /// Effect of [`Sim::graph_add_memcpy_1d`].
    pub open spec fn graph_add_memcpy_1d(
        self,
        graph: GraphId,
        src: Place,
        dst: Place,
        alloc: AllocId,
        bytes: u64,
    ) -> (SimState, Result<(), SimError>) {
        let s = self;
        s.graph_add_memcpy(graph, MemcpyOp::packed_1d(src, dst, alloc, bytes))
    }

    /// Effect of [`Sim::graph_add_memset`].
    pub open spec fn graph_add_memset(
        self,
        graph: GraphId,
        buf: KernelBuf,
    ) -> (SimState, Result<(), SimError>) {
        let s = self;
        s.graph_add_memset_op(graph, MemsetOp::from_buf(buf))
    }

    /// Effect of [`Sim::graph_add_host_func`].
    pub open spec fn graph_add_host_func(self, graph: GraphId) -> (SimState, Result<(), SimError>) {
        let s = self;
        s.graph_add_host_func_params(graph, HostNodeParams { fn_id: 0, user_data: 0 })
    }

    /// Effect of [`Sim::graph_add_alloc`].
    pub open spec fn graph_add_alloc(
        self,
        graph: GraphId,
        bytes: u64,
    ) -> (SimState, Result<AllocId, SimError>) {
        let s = self;
        match s.graph_origin_for_add(graph) {
            Err(e) => (s, Err(e)),
            Ok(on) => if bytes == 0 {
                (s, Err(invalid("zero-byte alloc")))
            } else {
                match s.graph_pool(on.0) {
                    Err(e) => (s, Err(e)),
                    Ok(pool) => {
                        let (s, id) = s.insert_pool_alloc(pool, bytes);
                        match s.graph_push(graph, on, GpuOpView::Alloc { id, bytes }) {
                            (s, Err(e)) => (s, Err(e)),
                            (s, Ok(_v)) => {
                                let owned = s.allocs_of(graph);
                                let owned = owned.push(id);
                                let s = SimState {
                                    graph_allocs: s.graph_allocs.insert(graph, owned),
                                    ..s
                                };
                                (s, Ok(id))
                            },
                        }
                    },
                }
            },
        }
    }

    /// Effect of [`Sim::insert_pool_alloc`].
    pub open spec fn insert_pool_alloc(self, pool: PoolId, bytes: u64) -> (SimState, AllocId) {
        let s = self;
        let a = AllocView::blank(bytes);
        let a = AllocView { pool: Some(pool), ..a };
        s.add_alloc(a)
    }

    /// Effect of [`Sim::graph_conditional_create`].
    pub open spec fn graph_conditional_create(
        self,
        graph: GraphId,
        default: u32,
    ) -> (SimState, Result<CondId, SimError>) {
        let s = self;
        match s.fail_if_capturing("cannot capture conditional create") {
            Err(e) => (s, Err(e)),
            Ok(_v) => match s.graph_ref(graph) {
                Err(e) => (s, Err(e)),
                Ok(g) => if g.instantiated {
                    (s, Err(invalid("graph instantiated")))
                } else {
                    match s.profile.gpu(g.origin.0) {
                        Err(e) => (s, Err(e)),
                        Ok(_gpu) => {
                            let id = CondId(s.next.cond);
                            let s = SimState {
                                next: NextIds { cond: s.next.cond.saturating_add(1), ..s.next },
                                ..s
                            };
                            let s = SimState {
                                conds: s.conds.insert(id, Cond { graph, default, value: default }),
                                ..s
                            };
                            let s = s.tick(1);
                            (s, Ok(id))
                        },
                    }
                },
            },
        }
    }

    /// Value of [`Sim::require_cond_on_graph`].
    pub open spec fn require_cond_on_graph(
        self,
        handle: CondId,
        graph: GraphId,
    ) -> Result<(), SimError> {
        match self.conds.get(handle) {
            None => Err(invalid("unknown conditional")),
            Some(c) => if c.graph != graph {
                Err(invalid("conditional graph mismatch"))
            } else {
                Ok(())
            },
        }
    }

    /// Effect of [`Sim::graph_add_if`].
    pub open spec fn graph_add_if(
        self,
        graph: GraphId,
        handle: CondId,
    ) -> (SimState, Result<GraphId, SimError>) {
        let s = self;
        match s.graph_origin_for_add(graph) {
            Err(e) => (s, Err(e)),
            Ok(on) => match s.require_cond_on_graph(handle, graph) {
                Err(e) => (s, Err(e)),
                Ok(_v) => {
                    let (s, body) = s.insert_graph(on.0, on.1);
                    match s.graph_push(graph, on, GpuOpView::If { handle, body }) {
                        (s, Err(e)) => (s, Err(e)),
                        (s, Ok(_v)) => (s, Ok(body)),
                    }
                },
            },
        }
    }

    /// Effect of [`Sim::graph_add_while`].
    pub open spec fn graph_add_while(
        self,
        graph: GraphId,
        handle: CondId,
    ) -> (SimState, Result<GraphId, SimError>) {
        let s = self;
        match s.graph_origin_for_add(graph) {
            Err(e) => (s, Err(e)),
            Ok(on) => match s.require_cond_on_graph(handle, graph) {
                Err(e) => (s, Err(e)),
                Ok(_v) => {
                    let (s, body) = s.insert_graph(on.0, on.1);
                    match s.graph_push(graph, on, GpuOpView::While { handle, body }) {
                        (s, Err(e)) => (s, Err(e)),
                        (s, Ok(_v)) => (s, Ok(body)),
                    }
                },
            },
        }
    }

    /// Effect of [`Sim::insert_graphs`].
    pub open spec fn insert_graphs(self, on: Lane, n: usize) -> (SimState, Seq<GraphId>) {
        let s = self;
        let out = Seq::empty();
        s.insert_graphs_from(on, n, out, 0)
    }

    /// [`Sim::insert_graphs`] from position `i` on.
    pub open spec fn insert_graphs_from(
        self,
        on: Lane,
        n: usize,
        out: Seq<GraphId>,
        i: int,
    ) -> (SimState, Seq<GraphId>)
        decreases n - i,
    {
        let s = self;
        if 0 <= i < n {
            let (s, id) = s.insert_graph(on.0, on.1);
            let out = out.push(id);
            s.insert_graphs_from(on, n, out, i + 1)
        } else {
            (s, out)
        }
    }

    /// Effect of [`Sim::graph_add_switch`].
    pub open spec fn graph_add_switch(
        self,
        graph: GraphId,
        handle: CondId,
        n: u32,
    ) -> (SimState, Result<Seq<GraphId>, SimError>) {
        let s = self;
        if n == 0 || n > 64 {
            (s, Err(invalid("switch branches")))
        } else {
            match s.graph_origin_for_add(graph) {
                Err(e) => (s, Err(e)),
                Ok(on) => match s.require_cond_on_graph(handle, graph) {
                    Err(e) => (s, Err(e)),
                    Ok(_v) => {
                        let (s, bodies) = s.insert_graphs(on, n as usize);
                        match s.graph_push(graph, on, GpuOpView::Switch { handle, bodies }) {
                            (s, Err(e)) => (s, Err(e)),
                            (s, Ok(_v)) => (s, Ok(bodies)),
                        }
                    },
                },
            }
        }
    }

    /// Effect of [`Sim::set_conditional`].
    pub open spec fn set_conditional(
        self,
        device: DeviceId,
        handle: CondId,
        value: u32,
        stream: StreamId,
    ) -> (SimState, Result<OpId, SimError>) {
        let s = self;
        if !s.conds.contains_key(handle) {
            (s, Err(invalid("unknown conditional")))
        } else {
            s.submit(device, stream, GpuOpView::SetConditional { handle, value })
        }
    }

    /// What position `i` adds to [`Sim::graph_if_nodes`].
    pub open spec fn graph_if_nodes_at(
        self,
        g: GraphView,
        i: int,
    ) -> Option<(usize, CondId, GraphId)> {
        let step = g.steps[i];
        if !step.destroyed {
            match step.kind {
                GpuOpView::If { handle, body } => Some(((i as usize), handle, body)),
                _ => None,
            }
        } else {
            None
        }
    }

    /// Value of [`Sim::graph_if_nodes`].
    pub open spec fn graph_if_nodes(
        self,
        graph: GraphId,
    ) -> Result<Seq<(usize, CondId, GraphId)>, SimError> {
        match self.graph_ref(graph) {
            Err(e) => Err(e),
            Ok(g) => Ok(picked(g.steps.len(), |i: int| self.graph_if_nodes_at(g, i))),
        }
    }

    /// What position `i` adds to [`Sim::graph_while_nodes`].
    pub open spec fn graph_while_nodes_at(
        self,
        g: GraphView,
        i: int,
    ) -> Option<(usize, CondId, GraphId)> {
        let step = g.steps[i];
        if !step.destroyed {
            match step.kind {
                GpuOpView::While { handle, body } => Some(((i as usize), handle, body)),
                _ => None,
            }
        } else {
            None
        }
    }

    /// Value of [`Sim::graph_while_nodes`].
    pub open spec fn graph_while_nodes(
        self,
        graph: GraphId,
    ) -> Result<Seq<(usize, CondId, GraphId)>, SimError> {
        match self.graph_ref(graph) {
            Err(e) => Err(e),
            Ok(g) => Ok(picked(g.steps.len(), |i: int| self.graph_while_nodes_at(g, i))),
        }
    }

    /// Effect of [`Sim::graph_add_write_value64`].
    pub open spec fn graph_add_write_value64(
        self,
        graph: GraphId,
        id: AllocId,
        offset: u64,
        value: u64,
    ) -> (SimState, Result<(), SimError>) {
        let s = self;
        s.graph_add_batch_item(graph, BatchMemOp::Write { id, offset, value, bits32: false })
    }

    /// Effect of [`Sim::graph_add_write_value32`].
    pub open spec fn graph_add_write_value32(
        self,
        graph: GraphId,
        id: AllocId,
        offset: u64,
        value: u64,
    ) -> (SimState, Result<(), SimError>) {
        let s = self;
        s.graph_add_batch_item(graph, BatchMemOp::Write { id, offset, value, bits32: true })
    }

    /// Effect of [`Sim::graph_add_wait_value64`].
    pub open spec fn graph_add_wait_value64(
        self,
        graph: GraphId,
        id: AllocId,
        offset: u64,
        value: u64,
        cmp: WaitValueCmp,
    ) -> (SimState, Result<(), SimError>) {
        let s = self;
        s.graph_add_batch_item(graph, BatchMemOp::Wait { id, offset, value, bits32: false, cmp })
    }

    /// Effect of [`Sim::graph_add_wait_value32`].
    pub open spec fn graph_add_wait_value32(
        self,
        graph: GraphId,
        id: AllocId,
        offset: u64,
        value: u64,
        cmp: WaitValueCmp,
    ) -> (SimState, Result<(), SimError>) {
        let s = self;
        s.graph_add_batch_item(graph, BatchMemOp::Wait { id, offset, value, bits32: true, cmp })
    }

    /// Effect of [`Sim::graph_add_batch_mem_op`].
    pub open spec fn graph_add_batch_mem_op(
        self,
        graph: GraphId,
        ops: Seq<BatchMemOp>,
    ) -> (SimState, Result<(), SimError>) {
        let s = self;
        match s.check_batch_mem_ops(ops) {
            Err(e) => (s, Err(e)),
            Ok(_v) => match s.graph_origin_for_add(graph) {
                Err(e) => (s, Err(e)),
                Ok(on) => s.graph_push(graph, on, GpuOpView::BatchMem { ops }),
            },
        }
    }

    /// Effect of [`Sim::graph_add_batch_item`].
    pub open spec fn graph_add_batch_item(
        self,
        graph: GraphId,
        op: BatchMemOp,
    ) -> (SimState, Result<(), SimError>) {
        let s = self;
        match s.graph_origin_for_add(graph) {
            Err(e) => (s, Err(e)),
            Ok(on) => match s.check_batch_mem(op) {
                Err(e) => (s, Err(e)),
                Ok(_v) => s.graph_push(graph, on, batch_node(op)),
            },
        }
    }

    /// Effect of [`Sim::graph_add_dependencies`].
    pub open spec fn graph_add_dependencies(
        self,
        graph: GraphId,
        from: usize,
        to: usize,
    ) -> (SimState, Result<(), SimError>) {
        let s = self;
        let edges = seq![(from, to)];
        s.graph_add_dependencies_n(graph, edges)
    }

    /// Value of [`Sim::edge_ok`].
    pub open spec fn edge_ok(
        self,
        steps: Seq<StepView>,
        from: usize,
        to: usize,
    ) -> Result<(), SimError> {
        if from == to || from >= steps.len() || to >= steps.len() {
            Err(invalid("graph dependency"))
        } else if steps[from as int].destroyed || steps[to as int].destroyed {
            Err(invalid("graph dependency"))
        } else {
            Ok(())
        }
    }

    /// Value of [`Sim::with_edge`].
    pub open spec fn with_edge(
        self,
        steps: Seq<StepView>,
        from: usize,
        to: usize,
    ) -> Result<Seq<StepView>, SimError> {
        match self.edge_ok(steps, from, to) {
            Err(e) => Err(e),
            Ok(_v) => if reaches(steps, to, from) {
                Err(invalid("cyclic graph dependencies"))
            } else if to >= steps.len() {
                Err(invalid("graph dependency"))
            } else {
                let out = steps;
                let step = steps[to as int];
                let (out, step) = if !step.deps.contains(from) {
                    let deps = step.deps;
                    let deps = deps.push(from);
                    let deps = ascending(deps);
                    let step = StepView { deps: deps, ..step };
                    let out = out.update(to as int, step);
                    (out, step)
                } else {
                    (out, step)
                };
                Ok(out)
            },
        }
    }

    /// Value of [`Sim::with_edges`].
    pub open spec fn with_edges(
        self,
        first: Seq<StepView>,
        edges: Seq<(usize, usize)>,
    ) -> Result<Seq<StepView>, SimError> {
        let steps = first;
        self.with_edges_from(edges, steps, 0)
    }

    /// [`Sim::with_edges`] from position `i` on.
    pub open spec fn with_edges_from(
        self,
        edges: Seq<(usize, usize)>,
        steps: Seq<StepView>,
        i: int,
    ) -> Result<Seq<StepView>, SimError>
        decreases edges.len() - i,
    {
        if 0 <= i < edges.len() {
            match self.with_edge(steps, edges[i].0, edges[i].1) {
                Err(e) => Err(e),
                Ok(v1) => {
                    let steps = v1;
                    self.with_edges_from(edges, steps, i + 1)
                },
            }
        } else {
            Ok(steps)
        }
    }

    /// Effect of [`Sim::graph_add_dependencies_n`].
    pub open spec fn graph_add_dependencies_n(
        self,
        graph: GraphId,
        edges: Seq<(usize, usize)>,
    ) -> (SimState, Result<(), SimError>) {
        let s = self;
        match s.graph_origin_for_add(graph) {
            Err(e) => (s, Err(e)),
            Ok(_origin) => match s.graph_ref(graph) {
                Err(e) => (s, Err(e)),
                Ok(g) => match s.with_edges(g.steps, edges) {
                    Err(e) => (s, Err(e)),
                    Ok(steps) => if edges.len() == 0 {
                        (s, Ok(()))
                    } else {
                        match s.graph_ref(graph) {
                            Err(e) => (s, Err(e)),
                            Ok(h) => {
                                let h = GraphView { steps: steps, ..h };
                                let s = SimState { graphs: s.graphs.insert(graph, h), ..s };
                                (s, Ok(()))
                            },
                        }
                    },
                },
            },
        }
    }

    /// Effect of [`Sim::graph_remove_dependencies`].
    pub open spec fn graph_remove_dependencies(
        self,
        graph: GraphId,
        from: usize,
        to: usize,
    ) -> (SimState, Result<(), SimError>) {
        let s = self;
        let edges = seq![(from, to)];
        s.graph_remove_dependencies_n(graph, edges)
    }

    /// Check of position `i` in [`Sim::edges_ok`].
    pub open spec fn edges_ok_at(
        self,
        steps: Seq<StepView>,
        edges: Seq<(usize, usize)>,
        i: int,
    ) -> Result<(), SimError> {
        match self.edge_ok(steps, edges[i].0, edges[i].1) {
            Err(e) => Err(e),
            Ok(_v) => Ok(()),
        }
    }

    /// Value of [`Sim::edges_ok`].
    pub open spec fn edges_ok(
        self,
        steps: Seq<StepView>,
        edges: Seq<(usize, usize)>,
    ) -> Result<(), SimError> {
        each_ok(edges.len(), |i: int| self.edges_ok_at(steps, edges, i))
    }

    /// Value of [`Sim::without_edges`].
    pub open spec fn without_edges(
        self,
        first: Seq<StepView>,
        edges: Seq<(usize, usize)>,
    ) -> Seq<StepView> {
        let steps = first;
        self.without_edges_from(edges, steps, 0)
    }

    /// [`Sim::without_edges`] from position `i` on.
    pub open spec fn without_edges_from(
        self,
        edges: Seq<(usize, usize)>,
        steps: Seq<StepView>,
        i: int,
    ) -> Seq<StepView>
        decreases edges.len() - i,
    {
        if 0 <= i < edges.len() {
            let (from, to) = edges[i];
            let steps = if to < steps.len() {
                let step = steps[to as int];
                let deps = step.deps;
                let deps = without(deps, from);
                let step = StepView { deps: deps, ..step };
                let steps = steps.update(to as int, step);
                steps
            } else {
                steps
            };
            self.without_edges_from(edges, steps, i + 1)
        } else {
            steps
        }
    }

    /// Effect of [`Sim::graph_remove_dependencies_n`].
    pub open spec fn graph_remove_dependencies_n(
        self,
        graph: GraphId,
        edges: Seq<(usize, usize)>,
    ) -> (SimState, Result<(), SimError>) {
        let s = self;
        match s.fail_if_capturing("cannot remove graph dependencies during capture") {
            Err(e) => (s, Err(e)),
            Ok(_v) => match s.graph_ref(graph) {
                Err(e) => (s, Err(e)),
                Ok(g) => if g.instantiated {
                    (s, Err(invalid("graph instantiated")))
                } else {
                    match s.edges_ok(g.steps, edges) {
                        Err(e) => (s, Err(e)),
                        Ok(_v) => if edges.len() == 0 {
                            (s, Ok(()))
                        } else {
                            let steps = s.without_edges(g.steps, edges);
                            match s.graph_ref(graph) {
                                Err(e) => (s, Err(e)),
                                Ok(h) => {
                                    let h = GraphView { steps: steps, ..h };
                                    let s = SimState { graphs: s.graphs.insert(graph, h), ..s };
                                    (s, Ok(()))
                                },
                            }
                        },
                    }
                },
            },
        }
    }

    /// Element `i` of [`Sim::without_node`].
    pub open spec fn without_node_at(self, first: Seq<StepView>, node: usize, i: int) -> StepView {
        let step = first[i];
        let step = if (i as usize) == node {
            let step = StepView { destroyed: true, ..step };
            StepView { deps: Seq::empty(), ..step }
        } else {
            let deps = step.deps;
            let deps = without(deps, node);
            StepView { deps: deps, ..step }
        };
        step
    }

    /// Value of [`Sim::without_node`].
    pub open spec fn without_node(self, first: Seq<StepView>, node: usize) -> Seq<StepView> {
        Seq::new(first.len(), |i: int| self.without_node_at(first, node, i))
    }

    /// Effect of [`Sim::graph_destroy_node`].
    pub open spec fn graph_destroy_node(
        self,
        graph: GraphId,
        node: usize,
    ) -> (SimState, Result<(), SimError>) {
        let s = self;
        match s.fail_if_capturing("cannot destroy graph node during capture") {
            Err(e) => (s, Err(e)),
            Ok(_v) => match s.graph_ref(graph) {
                Err(e) => (s, Err(e)),
                Ok(g) => if g.instantiated {
                    (s, Err(invalid("graph instantiated")))
                } else {
                    match g.def_node(node) {
                        Err(e) => (s, Err(e)),
                        Ok(step) => {
                            let alloc = (match step.kind {
                                GpuOpView::Alloc { id, bytes: _size } => Some(id),
                                _ => None,
                            });
                            let steps = s.without_node(g.steps, node);
                            match s.graph_ref(graph) {
                                Err(e) => (s, Err(e)),
                                Ok(h) => {
                                    let h = GraphView { steps: steps, ..h };
                                    let s = SimState { graphs: s.graphs.insert(graph, h), ..s };
                                    let s = s.disown(graph, alloc);
                                    (s, Ok(()))
                                },
                            }
                        },
                    }
                },
            },
        }
    }

    /// Effect of [`Sim::disown`].
    pub open spec fn disown(self, graph: GraphId, alloc: Option<AllocId>) -> SimState {
        let s = self;
        match alloc {
            Some(id) => if s.graph_allocs.contains_key(graph) {
                let owned = s.allocs_of(graph);
                let owned = without(owned, id);
                let s = SimState { graph_allocs: s.graph_allocs.insert(graph, owned), ..s };
                s
            } else {
                s
            },
            _ => s,
        }
    }

    /// Value of [`Sim::dependency_node`].
    pub open spec fn dependency_node(self, graph: GraphId, i: usize) -> Result<StepView, SimError> {
        match self.graph_ref(graph) {
            Err(e) => Err(e),
            Ok(g) => if i >= g.steps.len() {
                Err(invalid("graph dependency"))
            } else {
                g.def_node(i)
            },
        }
    }

    /// Value of [`Sim::graph_node_deps`].
    pub open spec fn graph_node_deps(
        self,
        graph: GraphId,
        i: usize,
    ) -> Result<Seq<usize>, SimError> {
        match self.dependency_node(graph, i) {
            Err(e) => Err(e),
            Ok(step) => Ok(step.deps),
        }
    }

    /// What position `i` adds to [`Sim::graph_root_nodes`].
    pub open spec fn graph_root_nodes_at(self, g: GraphView, i: int) -> Option<usize> {
        let step = g.steps[i];
        if !step.destroyed && step.deps.len() == 0 {
            Some((i as usize))
        } else {
            None
        }
    }

    /// Value of [`Sim::graph_root_nodes`].
    pub open spec fn graph_root_nodes(self, graph: GraphId) -> Result<Seq<usize>, SimError> {
        match self.graph_ref(graph) {
            Err(e) => Err(e),
            Ok(g) => Ok(picked(g.steps.len(), |i: int| self.graph_root_nodes_at(g, i))),
        }
    }

    /// Value of [`Sim::edges_into`].
    pub open spec fn edges_into(self, deps: Seq<usize>, to: usize) -> Seq<(usize, usize)> {
        Seq::new(deps.len(), |i: int| (deps[i], to))
    }

    /// What position `i` adds to [`Sim::graph_edges`].
    pub open spec fn graph_edges_at(self, g: GraphView, i: int) -> Seq<(usize, usize)> {
        let step = g.steps[i];
        if !step.destroyed {
            self.edges_into(step.deps, (i as usize))
        } else {
            Seq::empty()
        }
    }

    /// Value of [`Sim::graph_edges`].
    pub open spec fn graph_edges(self, graph: GraphId) -> Result<Seq<(usize, usize)>, SimError> {
        match self.graph_ref(graph) {
            Err(e) => Err(e),
            Ok(g) => Ok(joined_up(g.steps.len(), |i: int| self.graph_edges_at(g, i))),
        }
    }

    /// What position `j` adds to [`Sim::graph_node_dependents`].
    pub open spec fn graph_node_dependents_at(
        self,
        i: usize,
        g: GraphView,
        j: int,
    ) -> Option<usize> {
        let step = g.steps[j];
        if !step.destroyed && step.deps.contains(i) {
            Some((j as usize))
        } else {
            None
        }
    }

    /// Value of [`Sim::graph_node_dependents`].
    pub open spec fn graph_node_dependents(
        self,
        graph: GraphId,
        i: usize,
    ) -> Result<Seq<usize>, SimError> {
        match self.dependency_node(graph, i) {
            Err(e) => Err(e),
            Ok(_node) => match self.graph_ref(graph) {
                Err(e) => Err(e),
                Ok(g) => Ok(picked(g.steps.len(), |j: int| self.graph_node_dependents_at(i, g, j))),
            },
        }
    }

    /// Value of [`Sim::graph_node_kind`].
    pub open spec fn graph_node_kind(
        self,
        graph: GraphId,
        i: usize,
    ) -> Result<GraphNodeKind, SimError> {
        match self.dependency_node(graph, i) {
            Err(e) => Err(e),
            Ok(step) => Ok(step.kind.node_kind()),
        }
    }
}

impl Sim {
    /// Stream of a definition that may still get nodes.
    pub(crate) fn graph_origin_for_add(&self, graph: GraphId) -> (r: Result<Lane, SimError>)
        ensures
            r == self@.graph_origin_for_add(graph),
    {
        self.fail_if_capturing("cannot add graph node during capture")?;
        let g = self.graph_ref(graph)?;
        if g.instantiated {
            return Err(invalid("graph instantiated"));
        }
        Ok(g.origin)
    }

    /// Add a node without dependencies, with the launch attributes in force.
    pub(crate) fn graph_push(
        &mut self,
        graph: GraphId,
        on: Lane,
        kind: GpuOp,
    ) -> (r: Result<(), SimError>)
        ensures
            final(self)@ == old(self)@.graph_push(graph, on, kind@).0,
            r == old(self)@.graph_push(graph, on, kind@).1,
    {
        reveal(SimState::graph_push);
        let priority: i32 = self.snap_priority(on.0, on.1);
        let (domain, map) = self.snap_mem_sync(on.0, on.1, &kind)?;
        let attrs = self.node_attrs(priority, domain, map);
        let step = GraphStep {
            device: on.0,
            stream: on.1,
            kind,
            deps: Vec::new(),
            enabled: true,
            destroyed: false,
            attrs,
        };
        let g = self.graph_mut(graph)?;
        g.steps.push(step);
        Ok(())
    }

    /// Add a node by its parameters, behind the nodes `deps`.
    pub fn graph_add_node(
        &mut self,
        graph: GraphId,
        deps: &[usize],
        params: GraphNodeParams,
    ) -> (r: Result<GraphAddNode, SimError>)
        ensures
            final(self)@ == old(self)@.graph_add_node(graph, deps@, params@).0,
            r == old(self)@.graph_add_node(graph, deps@, params@).1,
    {
        self.deps_in_range(graph, deps)?;
        let alloc: Option<AllocId> = self.graph_add_node_kind(graph, params)?;
        let len: usize = self.graph_len(graph)?;
        let node: usize = len.saturating_sub(1);
        self.graph_bind_new_deps(graph, node, deps)?;
        Ok(GraphAddNode { node, alloc })
    }

    pub(crate) fn deps_in_range(&self, graph: GraphId, deps: &[usize]) -> (r: Result<(), SimError>)
        ensures
            r == self@.deps_in_range(graph, deps@),
    {
        let g: &Graph = self.graph_ref(graph)?;
        let mut i: usize = 0;
        while i < deps.len()
            invariant
                i <= deps@.len(),
                self@.deps_in_range(graph, deps@) == each_ok(
                    deps@.len(),
                    |j: int| self@.deps_in_range_at(deps@, g@, j),
                ),
                forall|j: int| 0 <= j < i ==> #[trigger] self@.deps_in_range_at(deps@, g@, j) is Ok,
            decreases deps@.len() - i,
        {
            proof {
                lemma_each_ok(deps@.len(), |j: int| self@.deps_in_range_at(deps@, g@, j), i as int);
            }
            if deps[i] >= g.steps.len() {
                return Err(invalid("graph dependency"));
            }
            i += 1;
        }
        proof {
            lemma_each_ok(deps@.len(), |j: int| self@.deps_in_range_at(deps@, g@, j), i as int);
        }
        Ok(())
    }

    #[verifier::rlimit(40)]
    pub(crate) fn graph_add_node_kind(
        &mut self,
        graph: GraphId,
        params: GraphNodeParams,
    ) -> (r: Result<Option<AllocId>, SimError>)
        ensures
            final(self)@ == old(self)@.graph_add_node_kind(graph, params@).0,
            r == old(self)@.graph_add_node_kind(graph, params@).1,
    {
        reveal(SimState::graph_add_node_kind);
        match params {
            GraphNodeParams::Kernel(p) => {
                self.graph_add_kernel_params(graph, &p)?;
                Ok(None)
            },
            GraphNodeParams::Memcpy(op) => {
                self.graph_add_memcpy(graph, op)?;
                Ok(None)
            },
            GraphNodeParams::Memset(op) => {
                self.graph_add_memset_op(graph, op)?;
                Ok(None)
            },
            GraphNodeParams::Host(p) => {
                self.graph_add_host_func_params(graph, p)?;
                Ok(None)
            },
            GraphNodeParams::Empty => {
                self.graph_add_empty(graph)?;
                Ok(None)
            },
            GraphNodeParams::EventRecord { event, external } => {
                self.graph_add_event_record(graph, event, external)?;
                Ok(None)
            },
            GraphNodeParams::EventWait { event, external } => {
                self.graph_add_event_wait(graph, event, external)?;
                Ok(None)
            },
            GraphNodeParams::ChildGraph(child) => {
                self.graph_add_child(graph, child)?;
                Ok(None)
            },
            GraphNodeParams::Alloc { bytes } => {
                let id = self.graph_add_alloc(graph, bytes)?;
                Ok(Some(id))
            },
            GraphNodeParams::Free(id) => {
                self.graph_add_free(graph, id)?;
                Ok(None)
            },
            GraphNodeParams::BatchMemOp(ops) => {
                self.graph_add_batch_mem_op(graph, ops.as_slice())?;
                Ok(None)
            },
        }
    }

    /// The nodes `deps` are live nodes other than `node`.
    pub(crate) fn new_deps_ok(
        &self,
        g: &Graph,
        node: usize,
        deps: &[usize],
    ) -> (r: Result<(), SimError>)
        ensures
            r == self@.new_deps_ok(g@, node, deps@),
    {
        let mut i: usize = 0;
        while i < deps.len()
            invariant
                i <= deps@.len(),
                self@.new_deps_ok(g@, node, deps@) == each_ok(
                    deps@.len(),
                    |j: int| self@.new_deps_ok_at(g@, node, deps@, j),
                ),
                forall|j: int| 0 <= j < i ==> #[trigger] self@.new_deps_ok_at(
                    g@,
                    node,
                    deps@,
                    j,
                ) is Ok,
            decreases deps@.len() - i,
        {
            proof {
                lemma_each_ok(
                    deps@.len(),
                    |j: int| self@.new_deps_ok_at(g@, node, deps@, j),
                    i as int,
                );
            }
            if deps[i] == node || deps[i] >= g.steps.len() || g.steps.at(deps[i]).destroyed {
                return Err(invalid("graph dependency"));
            }
            i += 1;
        }
        proof {
            lemma_each_ok(deps@.len(), |j: int| self@.new_deps_ok_at(g@, node, deps@, j), i as int);
        }
        Ok(())
    }

    /// Put a node behind others.
    pub(crate) fn graph_bind_new_deps(
        &mut self,
        graph: GraphId,
        node: usize,
        deps: &[usize],
    ) -> (r: Result<(), SimError>)
        ensures
            final(self)@ == old(self)@.graph_bind_new_deps(graph, node, deps@).0,
            r == old(self)@.graph_bind_new_deps(graph, node, deps@).1,
    {
        reveal(SimState::graph_bind_new_deps);
        if deps.len() == 0 {
            return Ok(());
        }
        let g = self.graph_ref(graph)?;
        self.new_deps_ok(g, node, deps)?;
        let mut step: GraphStep = g.def_node(node)?.dup();
        let more: Vec<usize> = copy_slice(deps);
        let mut all: Vec<usize> = copy_vec(&step.deps);
        push_all_new(&mut all, &more);
        sort(&mut all);
        step.deps = all;
        self.put_def_step(graph, node, step);
        Ok(())
    }

    /// Add a kernel node by its parameters.
    pub(crate) fn graph_add_kernel_params(
        &mut self,
        graph: GraphId,
        params: &KernelNodeParams,
    ) -> (r: Result<(), SimError>)
        ensures
            final(self)@ == old(self)@.graph_add_kernel_params(graph, params@).0,
            r == old(self)@.graph_add_kernel_params(graph, params@).1,
    {
        let on = self.graph_origin_for_add(graph)?;
        if params.cooperative {
            self.require_cooperative(on.0)?;
        }
        let kind = self.kernel_node(params)?;
        self.graph_push(graph, on, kind)
    }

    /// Add a kernel node over whole allocations.
    pub fn graph_add_kernel(
        &mut self,
        graph: GraphId,
        kind: KernelKind,
        reads: &[AllocId],
        writes: &[AllocId],
    ) -> (r: Result<(), SimError>)
        ensures
            final(self)@ == old(self)@.graph_add_kernel(graph, kind, reads@, writes@).0,
            r == old(self)@.graph_add_kernel(graph, kind, reads@, writes@).1,
    {
        self.graph_add_kernel_node(graph, kind, reads, writes, false)
    }

    /// Add a cooperative kernel node over whole allocations.
    pub fn graph_add_cooperative_kernel(
        &mut self,
        graph: GraphId,
        kind: KernelKind,
        reads: &[AllocId],
        writes: &[AllocId],
    ) -> (r: Result<(), SimError>)
        ensures
            final(self)@ == old(self)@.graph_add_cooperative_kernel(graph, kind, reads@, writes@).0,
            r == old(self)@.graph_add_cooperative_kernel(graph, kind, reads@, writes@).1,
    {
        self.graph_add_kernel_node(graph, kind, reads, writes, true)
    }

    /// Whole allocations as buffers.
    pub(crate) fn whole_bufs(&self, ids: &[AllocId]) -> (r: Vec<KernelBuf>)
        ensures
            r@ == self@.whole_bufs(ids@),
    {
        let mut out: Vec<KernelBuf> = Vec::new();
        let mut i: usize = 0;
        while i < ids.len()
            invariant
                i <= ids@.len(),
                out@.len() == i,
                forall|j: int| 0 <= j < i ==> #[trigger] out@[j] == self@.whole_bufs(ids@)[j],
            decreases ids@.len() - i,
        {
            out.push(KernelBuf::whole(ids[i]));
            i += 1;
        }
        assert(out@ =~= self@.whole_bufs(ids@));
        out
    }

    pub(crate) fn graph_add_kernel_node(
        &mut self,
        graph: GraphId,
        kind: KernelKind,
        reads: &[AllocId],
        writes: &[AllocId],
        cooperative: bool,
    ) -> (r: Result<(), SimError>)
        ensures
            final(self)@ == old(self)@.graph_add_kernel_node(
                graph,
                kind,
                reads@,
                writes@,
                cooperative,
            ).0,
            r == old(self)@.graph_add_kernel_node(graph, kind, reads@, writes@, cooperative).1,
    {
        let params: KernelNodeParams = KernelNodeParams {
            kind,
            reads: self.whole_bufs(reads),
            writes: self.whole_bufs(writes),
            cooperative,
        };
        self.graph_add_kernel_params(graph, &params)
    }

    /// Add a copy node.
    pub fn graph_add_memcpy(&mut self, graph: GraphId, op: MemcpyOp) -> (r: Result<(), SimError>)
        ensures
            final(self)@ == old(self)@.graph_add_memcpy(graph, op).0,
            r == old(self)@.graph_add_memcpy(graph, op).1,
    {
        let on = self.graph_origin_for_add(graph)?;
        let _a = self.alloc_ref(op.alloc)?;
        if op.src.is_pageable() || op.dst.is_pageable() {
            return Err(invalid("cannot add pageable memcpy"));
        }
        memcpy_2d_check(op)?;
        self.graph_push(graph, on, GpuOp::Memcpy(op))
    }

    /// Add a fill node.
    pub fn graph_add_memset_op(&mut self, graph: GraphId, op: MemsetOp) -> (r: Result<(), SimError>)
        ensures
            final(self)@ == old(self)@.graph_add_memset_op(graph, op).0,
            r == old(self)@.graph_add_memset_op(graph, op).1,
    {
        let on = self.graph_origin_for_add(graph)?;
        let full = self.resolve_memset_op(op)?;
        self.graph_push(graph, on, GpuOp::Memset(full))
    }

    /// Add a host node.
    pub fn graph_add_host_func_params(
        &mut self,
        graph: GraphId,
        params: HostNodeParams,
    ) -> (r: Result<(), SimError>)
        ensures
            final(self)@ == old(self)@.graph_add_host_func_params(graph, params).0,
            r == old(self)@.graph_add_host_func_params(graph, params).1,
    {
        let on = self.graph_origin_for_add(graph)?;
        self.graph_push(
            graph,
            on,
            GpuOp::HostFunc { fn_id: params.fn_id, user_data: params.user_data },
        )
    }

    /// Add a node without work.
    pub fn graph_add_empty(&mut self, graph: GraphId) -> (r: Result<(), SimError>)
        ensures
            final(self)@ == old(self)@.graph_add_empty(graph).0,
            r == old(self)@.graph_add_empty(graph).1,
    {
        let on = self.graph_origin_for_add(graph)?;
        self.graph_push(graph, on, GpuOp::Empty)
    }

    /// Add a node that records an event.
    pub fn graph_add_event_record(
        &mut self,
        graph: GraphId,
        event: EventId,
        external: bool,
    ) -> (r: Result<(), SimError>)
        ensures
            final(self)@ == old(self)@.graph_add_event_record(graph, event, external).0,
            r == old(self)@.graph_add_event_record(graph, event, external).1,
    {
        let on = self.graph_origin_for_add(graph)?;
        if !self.events.contains_key(event) {
            return Err(SimError::UnknownEvent { event: event.0 });
        }
        self.graph_push(graph, on, GpuOp::EventRecord { event, external })
    }

    /// Add a node that waits for an event.
    pub fn graph_add_event_wait(
        &mut self,
        graph: GraphId,
        event: EventId,
        external: bool,
    ) -> (r: Result<(), SimError>)
        ensures
            final(self)@ == old(self)@.graph_add_event_wait(graph, event, external).0,
            r == old(self)@.graph_add_event_wait(graph, event, external).1,
    {
        let on = self.graph_origin_for_add(graph)?;
        if !self.events.contains_key(event) {
            return Err(SimError::UnknownEvent { event: event.0 });
        }
        self.graph_push(graph, on, GpuOp::EventWait { event, external })
    }

    /// Add a node that frees an allocation.
    pub fn graph_add_free(&mut self, graph: GraphId, id: AllocId) -> (r: Result<(), SimError>)
        ensures
            final(self)@ == old(self)@.graph_add_free(graph, id).0,
            r == old(self)@.graph_add_free(graph, id).1,
    {
        let on = self.graph_origin_for_add(graph)?;
        let _a = self.alloc_ref(id)?;
        self.graph_push(graph, on, GpuOp::Free { id })
    }

    /// Add a node that nests a graph. That graph has an executable.
    pub fn graph_add_child(&mut self, graph: GraphId, child: GraphId) -> (r: Result<(), SimError>)
        ensures
            final(self)@ == old(self)@.graph_add_child(graph, child).0,
            r == old(self)@.graph_add_child(graph, child).1,
    {
        let on = self.graph_origin_for_add(graph)?;
        if child == graph {
            return Err(invalid("graph child is self"));
        }
        self.child_usable(child, on.0)?;
        self.graph_push(graph, on, GpuOp::ChildGraph { graph: child })
    }

    /// Add a packed copy node.
    pub fn graph_add_memcpy_1d(
        &mut self,
        graph: GraphId,
        src: Place,
        dst: Place,
        alloc: AllocId,
        bytes: u64,
    ) -> (r: Result<(), SimError>)
        ensures
            final(self)@ == old(self)@.graph_add_memcpy_1d(graph, src, dst, alloc, bytes).0,
            r == old(self)@.graph_add_memcpy_1d(graph, src, dst, alloc, bytes).1,
    {
        self.graph_add_memcpy(graph, MemcpyOp::packed_1d(src, dst, alloc, bytes))
    }

    /// Add a packed fill node.
    pub fn graph_add_memset(&mut self, graph: GraphId, buf: KernelBuf) -> (r: Result<(), SimError>)
        ensures
            final(self)@ == old(self)@.graph_add_memset(graph, buf).0,
            r == old(self)@.graph_add_memset(graph, buf).1,
    {
        self.graph_add_memset_op(graph, MemsetOp::from_buf(buf))
    }

    /// Add a host node of the unnamed callback.
    pub fn graph_add_host_func(&mut self, graph: GraphId) -> (r: Result<(), SimError>)
        ensures
            final(self)@ == old(self)@.graph_add_host_func(graph).0,
            r == old(self)@.graph_add_host_func(graph).1,
    {
        self.graph_add_host_func_params(graph, HostNodeParams { fn_id: 0, user_data: 0 })
    }

    /// Add an allocation node. The memory is resident from the launch on.
    pub fn graph_add_alloc(&mut self, graph: GraphId, bytes: u64) -> (r: Result<AllocId, SimError>)
        ensures
            final(self)@ == old(self)@.graph_add_alloc(graph, bytes).0,
            r == old(self)@.graph_add_alloc(graph, bytes).1,
    {
        let on = self.graph_origin_for_add(graph)?;
        if bytes == 0 {
            return Err(invalid("zero-byte alloc"));
        }
        let pool = self.graph_pool(on.0)?;
        let id = self.insert_pool_alloc(pool, bytes);
        self.graph_push(graph, on, GpuOp::Alloc { id, bytes })?;
        let mut owned: Vec<AllocId> = self.allocs_of(graph);
        owned.push(id);
        self.graph_allocs.insert(graph, owned);
        Ok(id)
    }

    /// Allocation of a pool that is not resident yet.
    pub(crate) fn insert_pool_alloc(&mut self, pool: PoolId, bytes: u64) -> (r: AllocId)
        ensures
            final(self)@ == old(self)@.insert_pool_alloc(pool, bytes).0,
            r == old(self)@.insert_pool_alloc(pool, bytes).1,
    {
        let mut a: Alloc = Alloc::blank(bytes);
        a.pool = Some(pool);
        self.add_alloc(a)
    }

    /// New conditional handle of a definition. Every launch sets it to `default`.
    pub fn graph_conditional_create(
        &mut self,
        graph: GraphId,
        default: u32,
    ) -> (r: Result<CondId, SimError>)
        ensures
            final(self)@ == old(self)@.graph_conditional_create(graph, default).0,
            r == old(self)@.graph_conditional_create(graph, default).1,
    {
        self.fail_if_capturing("cannot capture conditional create")?;
        let g = self.graph_ref(graph)?;
        if g.instantiated {
            return Err(invalid("graph instantiated"));
        }
        let _gpu = self.profile.gpu(g.origin.0)?;
        let id = CondId(self.next.cond);
        self.next.cond = self.next.cond.saturating_add(1);
        self.conds.insert(id, Cond { graph, default, value: default });
        self.tick(1);
        Ok(id)
    }

    /// The handle belongs to the definition.
    pub(crate) fn require_cond_on_graph(
        &self,
        handle: CondId,
        graph: GraphId,
    ) -> (r: Result<(), SimError>)
        ensures
            r == self@.require_cond_on_graph(handle, graph),
    {
        match self.conds.get(handle) {
            None => Err(invalid("unknown conditional")),
            Some(c) => {
                if c.graph != graph {
                    return Err(invalid("conditional graph mismatch"));
                }
                Ok(())
            },
        }
    }

    /// Add a node whose body runs while the handle is not zero at its start. Gives the body.
    pub fn graph_add_if(&mut self, graph: GraphId, handle: CondId) -> (r: Result<GraphId, SimError>)
        ensures
            final(self)@ == old(self)@.graph_add_if(graph, handle).0,
            r == old(self)@.graph_add_if(graph, handle).1,
    {
        let on = self.graph_origin_for_add(graph)?;
        self.require_cond_on_graph(handle, graph)?;
        let body = self.insert_graph(on.0, on.1);
        self.graph_push(graph, on, GpuOp::If { handle, body })?;
        Ok(body)
    }

    /// Add a node whose body repeats while the handle is not zero. Gives the body.
    pub fn graph_add_while(
        &mut self,
        graph: GraphId,
        handle: CondId,
    ) -> (r: Result<GraphId, SimError>)
        ensures
            final(self)@ == old(self)@.graph_add_while(graph, handle).0,
            r == old(self)@.graph_add_while(graph, handle).1,
    {
        let on = self.graph_origin_for_add(graph)?;
        self.require_cond_on_graph(handle, graph)?;
        let body = self.insert_graph(on.0, on.1);
        self.graph_push(graph, on, GpuOp::While { handle, body })?;
        Ok(body)
    }

    /// Empty graphs for the branches of a switch.
    pub(crate) fn insert_graphs(&mut self, on: Lane, n: usize) -> (r: Vec<GraphId>)
        ensures
            final(self)@ == old(self)@.insert_graphs(on, n).0,
            r@ == old(self)@.insert_graphs(on, n).1,
    {
        let mut out: Vec<GraphId> = Vec::new();
        let mut i: usize = 0;
        while i < n
            invariant
                i <= n,
                old(self)@.insert_graphs(on, n) == self@.insert_graphs_from(on, n, out@, i as int),
            decreases n - i,
        {
            let id = self.insert_graph(on.0, on.1);
            out.push(id);
            i += 1;
        }
        out
    }

    /// Add a node that runs the branch whose number the handle holds. Gives the branches.
    pub fn graph_add_switch(
        &mut self,
        graph: GraphId,
        handle: CondId,
        n: u32,
    ) -> (r: Result<Vec<GraphId>, SimError>)
        ensures
            final(self)@ == old(self)@.graph_add_switch(graph, handle, n).0,
            ok_view(r) == old(self)@.graph_add_switch(graph, handle, n).1,
    {
        if n == 0 || n > 64 {
            return Err(invalid("switch branches"));
        }
        let on = self.graph_origin_for_add(graph)?;
        self.require_cond_on_graph(handle, graph)?;
        let bodies: Vec<GraphId> = self.insert_graphs(on, n as usize);
        self.graph_push(graph, on, GpuOp::Switch { handle, bodies: copy_vec(&bodies) })?;
        Ok(bodies)
    }

    /// Submit a write of a conditional handle.
    pub fn set_conditional(
        &mut self,
        device: DeviceId,
        handle: CondId,
        value: u32,
        stream: StreamId,
    ) -> (r: Result<OpId, SimError>)
        ensures
            final(self)@ == old(self)@.set_conditional(device, handle, value, stream).0,
            r == old(self)@.set_conditional(device, handle, value, stream).1,
    {
        if !self.conds.contains_key(handle) {
            return Err(invalid("unknown conditional"));
        }
        self.submit(device, stream, GpuOp::SetConditional { handle, value })
    }

    /// Nodes with a body that runs at most once: index, handle and body.
    pub fn graph_if_nodes(
        &self,
        graph: GraphId,
    ) -> (r: Result<Vec<(usize, CondId, GraphId)>, SimError>)
        ensures
            ok_view(r) == self@.graph_if_nodes(graph),
    {
        let g: &Graph = self.graph_ref(graph)?;
        let mut out: Vec<(usize, CondId, GraphId)> = Vec::new();
        let mut i: usize = 0;
        while i < g.steps.len()
            invariant
                i <= g@.steps.len(),
                out@ == picked(i as nat, |j: int| self@.graph_if_nodes_at(g@, j)),
            decreases g@.steps.len() - i,
        {
            let step = g.steps.at(i);
            if !step.destroyed {
                if let GpuOp::If { handle, body } = &step.kind {
                    out.push((i, *handle, *body));
                }
            }
            i += 1;
        }
        Ok(out)
    }

    /// Nodes with a body that repeats: index, handle and body.
    pub fn graph_while_nodes(
        &self,
        graph: GraphId,
    ) -> (r: Result<Vec<(usize, CondId, GraphId)>, SimError>)
        ensures
            ok_view(r) == self@.graph_while_nodes(graph),
    {
        let g: &Graph = self.graph_ref(graph)?;
        let mut out: Vec<(usize, CondId, GraphId)> = Vec::new();
        let mut i: usize = 0;
        while i < g.steps.len()
            invariant
                i <= g@.steps.len(),
                out@ == picked(i as nat, |j: int| self@.graph_while_nodes_at(g@, j)),
            decreases g@.steps.len() - i,
        {
            let step = g.steps.at(i);
            if !step.destroyed {
                if let GpuOp::While { handle, body } = &step.kind {
                    out.push((i, *handle, *body));
                }
            }
            i += 1;
        }
        Ok(out)
    }

    /// Add a node that writes a 64-bit word.
    pub fn graph_add_write_value64(
        &mut self,
        graph: GraphId,
        id: AllocId,
        offset: u64,
        value: u64,
    ) -> (r: Result<(), SimError>)
        ensures
            final(self)@ == old(self)@.graph_add_write_value64(graph, id, offset, value).0,
            r == old(self)@.graph_add_write_value64(graph, id, offset, value).1,
    {
        self.graph_add_batch_item(graph, BatchMemOp::Write { id, offset, value, bits32: false })
    }

    /// Add a node that writes a 32-bit word.
    pub fn graph_add_write_value32(
        &mut self,
        graph: GraphId,
        id: AllocId,
        offset: u64,
        value: u64,
    ) -> (r: Result<(), SimError>)
        ensures
            final(self)@ == old(self)@.graph_add_write_value32(graph, id, offset, value).0,
            r == old(self)@.graph_add_write_value32(graph, id, offset, value).1,
    {
        self.graph_add_batch_item(graph, BatchMemOp::Write { id, offset, value, bits32: true })
    }

    /// Add a node that waits for a 64-bit word.
    pub fn graph_add_wait_value64(
        &mut self,
        graph: GraphId,
        id: AllocId,
        offset: u64,
        value: u64,
        cmp: WaitValueCmp,
    ) -> (r: Result<(), SimError>)
        ensures
            final(self)@ == old(self)@.graph_add_wait_value64(graph, id, offset, value, cmp).0,
            r == old(self)@.graph_add_wait_value64(graph, id, offset, value, cmp).1,
    {
        self.graph_add_batch_item(graph, BatchMemOp::Wait { id, offset, value, bits32: false, cmp })
    }

    /// Add a node that waits for a 32-bit word.
    pub fn graph_add_wait_value32(
        &mut self,
        graph: GraphId,
        id: AllocId,
        offset: u64,
        value: u64,
        cmp: WaitValueCmp,
    ) -> (r: Result<(), SimError>)
        ensures
            final(self)@ == old(self)@.graph_add_wait_value32(graph, id, offset, value, cmp).0,
            r == old(self)@.graph_add_wait_value32(graph, id, offset, value, cmp).1,
    {
        self.graph_add_batch_item(graph, BatchMemOp::Wait { id, offset, value, bits32: true, cmp })
    }

    /// Add a node that writes and waits for words, in order.
    pub fn graph_add_batch_mem_op(
        &mut self,
        graph: GraphId,
        ops: &[BatchMemOp],
    ) -> (r: Result<(), SimError>)
        ensures
            final(self)@ == old(self)@.graph_add_batch_mem_op(graph, ops@).0,
            r == old(self)@.graph_add_batch_mem_op(graph, ops@).1,
    {
        self.check_batch_mem_ops(ops)?;
        let on = self.graph_origin_for_add(graph)?;
        self.graph_push(graph, on, GpuOp::BatchMem { ops: copy_slice(ops) })
    }

    pub(crate) fn graph_add_batch_item(
        &mut self,
        graph: GraphId,
        op: BatchMemOp,
    ) -> (r: Result<(), SimError>)
        ensures
            final(self)@ == old(self)@.graph_add_batch_item(graph, op).0,
            r == old(self)@.graph_add_batch_item(graph, op).1,
    {
        let on = self.graph_origin_for_add(graph)?;
        self.check_batch_mem(op)?;
        self.graph_push(graph, on, kind_from_batch(op))
    }

    /// Put the node `to` behind `from`.
    pub fn graph_add_dependencies(
        &mut self,
        graph: GraphId,
        from: usize,
        to: usize,
    ) -> (r: Result<(), SimError>)
        ensures
            final(self)@ == old(self)@.graph_add_dependencies(graph, from, to).0,
            r == old(self)@.graph_add_dependencies(graph, from, to).1,
    {
        let edges: Vec<(usize, usize)> = one((from, to));
        self.graph_add_dependencies_n(graph, edges.as_slice())
    }

    /// Both ends of the edge are live nodes, and different ones.
    pub(crate) fn edge_ok(
        &self,
        steps: &Rows<GraphStep>,
        from: usize,
        to: usize,
    ) -> (r: Result<(), SimError>)
        ensures
            r == self@.edge_ok(steps@, from, to),
    {
        if from == to || from >= steps.len() || to >= steps.len() {
            return Err(invalid("graph dependency"));
        }
        if steps.at(from).destroyed || steps.at(to).destroyed {
            return Err(invalid("graph dependency"));
        }
        Ok(())
    }

    /// The nodes with `to` behind `from`, unless that closes a cycle.
    pub(crate) fn with_edge(
        &self,
        steps: &Rows<GraphStep>,
        from: usize,
        to: usize,
    ) -> (r: Result<Rows<GraphStep>, SimError>)
        ensures
            ok_view(r) == self@.with_edge(steps@, from, to),
    {
        self.edge_ok(steps, from, to)?;
        if graph_reaches(steps, to, from) {
            return Err(invalid("cyclic graph dependencies"));
        }
        if to >= steps.len() {
            return Err(invalid("graph dependency"));
        }
        let mut out: Rows<GraphStep> = steps.dup();
        let mut step: GraphStep = steps.at(to).dup();
        if !has_key(&step.deps, from) {
            let mut deps: Vec<usize> = copy_vec(&step.deps);
            deps.push(from);
            sort(&mut deps);
            step.deps = deps;
            out.set(to, step);
        }
        Ok(out)
    }

    /// The nodes with every edge, unless one is refused.
    pub(crate) fn with_edges(
        &self,
        first: &Rows<GraphStep>,
        edges: &[(usize, usize)],
    ) -> (r: Result<Rows<GraphStep>, SimError>)
        ensures
            ok_view(r) == self@.with_edges(first@, edges@),
    {
        let mut steps: Rows<GraphStep> = first.dup();
        let mut i: usize = 0;
        while i < edges.len()
            invariant
                i <= edges@.len(),
                self@.with_edges(first@, edges@) == self@.with_edges_from(edges@, steps@, i as int),
            decreases edges@.len() - i,
        {
            steps = self.with_edge(&steps, edges[i].0, edges[i].1)?;
            i += 1;
        }
        Ok(steps)
    }

    /// Add edges, all or none.
    pub fn graph_add_dependencies_n(
        &mut self,
        graph: GraphId,
        edges: &[(usize, usize)],
    ) -> (r: Result<(), SimError>)
        ensures
            final(self)@ == old(self)@.graph_add_dependencies_n(graph, edges@).0,
            r == old(self)@.graph_add_dependencies_n(graph, edges@).1,
    {
        let _origin = self.graph_origin_for_add(graph)?;
        let g = self.graph_ref(graph)?;
        let steps: Rows<GraphStep> = self.with_edges(&g.steps, edges)?;
        if edges.len() == 0 {
            return Ok(());
        }
        let h = self.graph_mut(graph)?;
        h.steps = steps;
        Ok(())
    }

    /// Drop the edge from `from` to `to`.
    pub fn graph_remove_dependencies(
        &mut self,
        graph: GraphId,
        from: usize,
        to: usize,
    ) -> (r: Result<(), SimError>)
        ensures
            final(self)@ == old(self)@.graph_remove_dependencies(graph, from, to).0,
            r == old(self)@.graph_remove_dependencies(graph, from, to).1,
    {
        let edges: Vec<(usize, usize)> = one((from, to));
        self.graph_remove_dependencies_n(graph, edges.as_slice())
    }

    pub(crate) fn edges_ok(
        &self,
        steps: &Rows<GraphStep>,
        edges: &[(usize, usize)],
    ) -> (r: Result<(), SimError>)
        ensures
            r == self@.edges_ok(steps@, edges@),
    {
        let mut i: usize = 0;
        while i < edges.len()
            invariant
                i <= edges@.len(),
                self@.edges_ok(steps@, edges@) == each_ok(
                    edges@.len(),
                    |j: int| self@.edges_ok_at(steps@, edges@, j),
                ),
                forall|j: int| 0 <= j < i ==> #[trigger] self@.edges_ok_at(steps@, edges@, j) is Ok,
            decreases edges@.len() - i,
        {
            proof {
                lemma_each_ok(
                    edges@.len(),
                    |j: int| self@.edges_ok_at(steps@, edges@, j),
                    i as int,
                );
            }
            self.edge_ok(steps, edges[i].0, edges[i].1)?;
            i += 1;
        }
        proof {
            lemma_each_ok(edges@.len(), |j: int| self@.edges_ok_at(steps@, edges@, j), i as int);
        }
        Ok(())
    }

    /// The nodes without the edges.
    pub(crate) fn without_edges(
        &self,
        first: &Rows<GraphStep>,
        edges: &[(usize, usize)],
    ) -> (r: Rows<GraphStep>)
        ensures
            r@ == self@.without_edges(first@, edges@),
    {
        let mut steps: Rows<GraphStep> = first.dup();
        let mut i: usize = 0;
        while i < edges.len()
            invariant
                i <= edges@.len(),
                self@.without_edges(first@, edges@) == self@.without_edges_from(
                    edges@,
                    steps@,
                    i as int,
                ),
            decreases edges@.len() - i,
        {
            let (from, to) = edges[i];
            if to < steps.len() {
                let mut step: GraphStep = steps.at(to).dup();
                let mut deps: Vec<usize> = copy_vec(&step.deps);
                drop_key(&mut deps, from);
                step.deps = deps;
                steps.set(to, step);
            }
            i += 1;
        }
        steps
    }

    /// Drop edges; edges that are not there do no harm.
    pub fn graph_remove_dependencies_n(
        &mut self,
        graph: GraphId,
        edges: &[(usize, usize)],
    ) -> (r: Result<(), SimError>)
        ensures
            final(self)@ == old(self)@.graph_remove_dependencies_n(graph, edges@).0,
            r == old(self)@.graph_remove_dependencies_n(graph, edges@).1,
    {
        self.fail_if_capturing("cannot remove graph dependencies during capture")?;
        let g = self.graph_ref(graph)?;
        if g.instantiated {
            return Err(invalid("graph instantiated"));
        }
        self.edges_ok(&g.steps, edges)?;
        if edges.len() == 0 {
            return Ok(());
        }
        let steps: Rows<GraphStep> = self.without_edges(&g.steps, edges);
        let h = self.graph_mut(graph)?;
        h.steps = steps;
        Ok(())
    }

    /// The nodes with `node` destroyed and no edge from or to it.
    pub(crate) fn without_node(&self, first: &Rows<GraphStep>, node: usize) -> (r: Rows<GraphStep>)
        ensures
            r@ == self@.without_node(first@, node),
    {
        let mut out: Rows<GraphStep> = Rows::new();
        let mut i: usize = 0;
        while i < first.len()
            invariant
                i <= first@.len(),
                out@.len() == i,
                forall|j: int| 0 <= j < i ==> #[trigger] out@[j] == self@.without_node_at(first@, node, j),
            decreases first@.len() - i,
        {
            let mut step: GraphStep = first.at(i).dup();
            if i == node {
                step.destroyed = true;
                step.deps = Vec::new();
            } else {
                let mut deps: Vec<usize> = copy_vec(&step.deps);
                drop_key(&mut deps, node);
                step.deps = deps;
            }
            out.push(step);
            i += 1;
        }
        assert(out@ =~= Seq::new(first@.len(), |j: int| self@.without_node_at(first@, node, j)));
        out
    }

    /// Destroy a node of a definition. The other indices stay as they are.
    pub fn graph_destroy_node(&mut self, graph: GraphId, node: usize) -> (r: Result<(), SimError>)
        ensures
            final(self)@ == old(self)@.graph_destroy_node(graph, node).0,
            r == old(self)@.graph_destroy_node(graph, node).1,
    {
        self.fail_if_capturing("cannot destroy graph node during capture")?;
        let g = self.graph_ref(graph)?;
        if g.instantiated {
            return Err(invalid("graph instantiated"));
        }
        let step = g.def_node(node)?;
        let alloc: Option<AllocId> = match &step.kind {
            GpuOp::Alloc { id, bytes: _size } => Some(*id),
            _ => None,
        };
        let steps: Rows<GraphStep> = self.without_node(&g.steps, node);
        let h = self.graph_mut(graph)?;
        h.steps = steps;
        self.disown(graph, alloc);
        Ok(())
    }

    /// The graph no longer owns the allocation.
    pub(crate) fn disown(&mut self, graph: GraphId, alloc: Option<AllocId>)
        ensures
            final(self)@ == old(self)@.disown(graph, alloc),
    {
        if let Some(id) = alloc {
            if self.graph_allocs.contains_key(graph) {
                let mut owned: Vec<AllocId> = self.allocs_of(graph);
                drop_key(&mut owned, id);
                self.graph_allocs.insert(graph, owned);
            }
        }
    }

    /// Node of a definition, where an index out of range is no dependency.
    pub(crate) fn dependency_node(
        &self,
        graph: GraphId,
        i: usize,
    ) -> (r: Result<&GraphStep, SimError>)
        ensures
            ok_ref(r) == self@.dependency_node(graph, i),
    {
        let g = self.graph_ref(graph)?;
        if i >= g.steps.len() {
            return Err(invalid("graph dependency"));
        }
        g.def_node(i)
    }

    /// Nodes that a node depends on.
    pub fn graph_node_deps(&self, graph: GraphId, i: usize) -> (r: Result<Vec<usize>, SimError>)
        ensures
            ok_view(r) == self@.graph_node_deps(graph, i),
    {
        let step = self.dependency_node(graph, i)?;
        Ok(copy_vec(&step.deps))
    }

    /// Live nodes without dependencies.
    pub fn graph_root_nodes(&self, graph: GraphId) -> (r: Result<Vec<usize>, SimError>)
        ensures
            ok_view(r) == self@.graph_root_nodes(graph),
    {
        let g: &Graph = self.graph_ref(graph)?;
        let mut out: Vec<usize> = Vec::new();
        let mut i: usize = 0;
        while i < g.steps.len()
            invariant
                i <= g@.steps.len(),
                out@ == picked(i as nat, |j: int| self@.graph_root_nodes_at(g@, j)),
            decreases g@.steps.len() - i,
        {
            let step = g.steps.at(i);
            if !step.destroyed && step.deps.len() == 0 {
                out.push(i);
            }
            i += 1;
        }
        Ok(out)
    }

    /// Edges into a node.
    pub(crate) fn edges_into(&self, deps: &Vec<usize>, to: usize) -> (r: Vec<(usize, usize)>)
        ensures
            r@ == self@.edges_into(deps@, to),
    {
        let mut out: Vec<(usize, usize)> = Vec::new();
        let mut i: usize = 0;
        while i < deps.len()
            invariant
                i <= deps@.len(),
                out@.len() == i,
                forall|j: int| 0 <= j < i ==> #[trigger] out@[j] == self@.edges_into(deps@, to)[j],
            decreases deps@.len() - i,
        {
            out.push((deps[i], to));
            i += 1;
        }
        assert(out@ =~= self@.edges_into(deps@, to));
        out
    }

    /// Edges of a definition, by the node they lead to.
    pub fn graph_edges(&self, graph: GraphId) -> (r: Result<Vec<(usize, usize)>, SimError>)
        ensures
            ok_view(r) == self@.graph_edges(graph),
    {
        let g: &Graph = self.graph_ref(graph)?;
        let mut out: Vec<(usize, usize)> = Vec::new();
        let mut i: usize = 0;
        while i < g.steps.len()
            invariant
                i <= g@.steps.len(),
                out@ == joined_up(i as nat, |j: int| self@.graph_edges_at(g@, j)),
            decreases g@.steps.len() - i,
        {
            let step = g.steps.at(i);
            if !step.destroyed {
                let more: Vec<(usize, usize)> = self.edges_into(&step.deps, i);
                extend_copy(&mut out, &more);
            }
            i += 1;
        }
        Ok(out)
    }

    /// Live nodes that depend on a node.
    pub fn graph_node_dependents(
        &self,
        graph: GraphId,
        i: usize,
    ) -> (r: Result<Vec<usize>, SimError>)
        ensures
            ok_view(r) == self@.graph_node_dependents(graph, i),
    {
        let _node = self.dependency_node(graph, i)?;
        let g: &Graph = self.graph_ref(graph)?;
        let mut out: Vec<usize> = Vec::new();
        let mut j: usize = 0;
        while j < g.steps.len()
            invariant
                j <= g@.steps.len(),
                out@ == picked(j as nat, |j: int| self@.graph_node_dependents_at(i, g@, j)),
            decreases g@.steps.len() - j,
        {
            let step = g.steps.at(j);
            if !step.destroyed && has_key(&step.deps, i) {
                out.push(j);
            }
            j += 1;
        }
        Ok(out)
    }

    /// Kind of a node.
    pub fn graph_node_kind(&self, graph: GraphId, i: usize) -> (r: Result<GraphNodeKind, SimError>)
        ensures
            r == self@.graph_node_kind(graph, i),
    {
        let step = self.dependency_node(graph, i)?;
        Ok(step.kind.node_kind())
    }
}

/// What the caller sees of a list of switch nodes.
pub open spec fn switch_list(
    v: Seq<(usize, CondId, Vec<GraphId>)>,
) -> Seq<(usize, CondId, Seq<GraphId>)> {
    v.map_values(|t: (usize, CondId, Vec<GraphId>)| (t.0, t.1, t.2@))
}

/// Switch nodes among the first `n` nodes: index, handle and branches.
pub open spec fn switches_before(steps: Seq<StepView>, n: int) -> Seq<(usize, CondId, Seq<GraphId>)>
    decreases n,
{
    if n <= 0 {
        Seq::empty()
    } else {
        let before = switches_before(steps, n - 1);
        let step = steps[n - 1];
        match step.kind {
            GpuOpView::Switch { handle, bodies } if !step.destroyed => before.push(
                ((n - 1) as usize, handle, bodies),
            ),
            _ => before,
        }
    }
}

impl SimState {
    /// Nodes with numbered branches: index, handle and branches.
    pub open spec fn graph_switch_nodes(self, graph: GraphId) -> Result<
        Seq<(usize, CondId, Seq<GraphId>)>,
        SimError,
    > {
        match self.graph_ref(graph) {
            Err(e) => Err(e),
            Ok(g) => Ok(switches_before(g.steps, g.steps.len() as int)),
        }
    }
}

impl Sim {
    /// Nodes with numbered branches: index, handle and branches.
    pub fn graph_switch_nodes(
        &self,
        graph: GraphId,
    ) -> (r: Result<Vec<(usize, CondId, Vec<GraphId>)>, SimError>)
        ensures
            match r {
                Ok(v) => Ok::<Seq<(usize, CondId, Seq<GraphId>)>, SimError>(switch_list(v@)),
                Err(e) => Err(e),
            } == self@.graph_switch_nodes(graph),
    {
        let g: &Graph = self.graph_ref(graph)?;
        let mut out: Vec<(usize, CondId, Vec<GraphId>)> = Vec::new();
        let mut i: usize = 0;
        assert(switch_list(out@) =~= switches_before(g@.steps, 0));
        while i < g.steps.len()
            invariant
                i <= g@.steps.len(),
                switch_list(out@) == switches_before(g@.steps, i as int),
            decreases g@.steps.len() - i,
        {
            let step = g.steps.at(i);
            if !step.destroyed {
                if let GpuOp::Switch { handle, bodies } = &step.kind {
                    let ghost was = out@;
                    let b = copy_vec(bodies);
                    out.push((i, *handle, b));
                    assert(switch_list(out@) =~= switch_list(was).push((i, *handle, b@)));
                }
            }
            i += 1;
        }
        Ok(out)
    }
}

} // verus!
