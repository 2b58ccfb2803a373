//! Parameters of graph nodes, in the definition and in the executable.
use vstd::prelude::*;
use crate::error::{invalid, SimError};
use crate::ids::{AllocId, DeviceId, EventId, GraphId};
use crate::list::{
    all_ok, Dup, each_ok, lemma_all_done, lemma_all_ok, lemma_each_ok, ok_ref, ok_view, one, picked,
    Rows, same_keys,
};
use crate::num::max_u64;
use crate::ops::{
    BatchMemOp, GpuOp, GpuOpView, GraphNodeParams, HostNodeParams, KernelBuf, KernelNodeParams,
    KernelParamsView, MemcpyOp, MemsetOp, NodeParamsView, Place,
};
use crate::sim::{Sim, SimState};
use crate::spans::{kernel_span, memset_2d_check, wait_value_span};
use crate::state::{Graph, GraphStep, GraphView, StepView};

verus! {

impl GraphView {
    /// Value of [`Graph::def_node`].
    pub open spec fn def_node(self, node: usize) -> Result<StepView, SimError> {
        if node >= self.steps.len() {
            Err(invalid("unknown graph node"))
        } else {
            let step = self.steps[node as int];
            if step.destroyed {
                Err(invalid("unknown graph node"))
            } else {
                Ok(step)
            }
        }
    }

    /// Value of [`Graph::current_node`].
    pub open spec fn current_node(self, node: usize) -> Result<StepView, SimError> {
        let steps = self.current();
        if node >= steps.len() {
            Err(invalid("unknown graph node"))
        } else {
            let step = steps[node as int];
            if step.destroyed {
                Err(invalid("unknown graph node"))
            } else {
                Ok(step)
            }
        }
    }
}

impl Graph {
    /// The live node at an index of the definition.
    pub fn def_node(&self, node: usize) -> (r: Result<&GraphStep, SimError>)
        ensures
            ok_ref(r) == self@.def_node(node),
    {
        if node >= self.steps.len() {
            return Err(invalid("unknown graph node"));
        }
        let step = self.steps.at(node);
        if step.destroyed {
            return Err(invalid("unknown graph node"));
        }
        Ok(step)
    }

    /// The live node at an index of the executable snapshot, else of the definition.
    pub fn current_node(&self, node: usize) -> (r: Result<&GraphStep, SimError>)
        ensures
            ok_ref(r) == self@.current_node(node),
    {
        let steps = self.current();
        if node >= steps.len() {
            return Err(invalid("unknown graph node"));
        }
        let step = steps.at(node);
        if step.destroyed {
            return Err(invalid("unknown graph node"));
        }
        Ok(step)
    }
}

impl SimState {
    /// Definition node replaced, where there is such a node.
    pub open spec fn put_def_step(self, graph: GraphId, node: usize, step: StepView) -> SimState {
        if self.graphs.contains_key(graph) && node < self.graphs[graph].steps.len() {
            let g = self.graphs[graph];
            let after = GraphView { steps: g.steps.update(node as int, step), ..g };
            SimState { graphs: self.graphs.insert(graph, after), ..self }
        } else {
            self
        }
    }

    /// Node of an executable replaced. The upload flag becomes `uploaded`.
    pub open spec fn put_exec_step(
        self,
        graph: GraphId,
        node: usize,
        step: StepView,
        uploaded: bool,
    ) -> (SimState, Result<(), SimError>) {
        match self.graphs.get(graph) {
            None => (self, Err(invalid("unknown graph"))),
            Some(g) => match g.snapshot {
                None => (self, Err(invalid("graph not instantiated"))),
                Some(steps) => if !g.instantiated {
                    (self, Err(invalid("graph not instantiated")))
                } else if node >= steps.len() {
                    (self, Err(invalid("unknown graph node")))
                } else {
                    let after = GraphView {
                        snapshot: Some(steps.update(node as int, step)),
                        uploaded,
                        ..g
                    };
                    (SimState { graphs: self.graphs.insert(graph, after), ..self }, Ok(()))
                },
            },
        }
    }
}

impl SimState {
    /// Value of [`Sim::graph_def_step`].
    pub open spec fn graph_def_step(
        self,
        graph: GraphId,
        node: usize,
    ) -> Result<StepView, SimError> {
        match self.graph_ref(graph) {
            Err(e) => Err(e),
            Ok(g) => g.def_node(node),
        }
    }

    /// Value of [`Sim::current_step`].
    pub open spec fn current_step(self, graph: GraphId, node: usize) -> Result<StepView, SimError> {
        match self.graph_ref(graph) {
            Err(e) => Err(e),
            Ok(g) => g.current_node(node),
        }
    }

    /// Value of [`Sim::graph_view_step`].
    pub open spec fn graph_view_step(
        self,
        graph: GraphId,
        node: usize,
    ) -> Result<StepView, SimError> {
        match self.resolved_graph(graph) {
            Err(e) => Err(e),
            Ok(id) => self.current_step(id, node),
        }
    }

    /// Value of [`Sim::graph_exec_step`].
    pub open spec fn graph_exec_step(
        self,
        graph: GraphId,
        node: usize,
    ) -> Result<StepView, SimError> {
        match self.as_exec(graph) {
            Err(e) => Err(e),
            Ok(id) => self.current_step(id, node),
        }
    }

    /// Effect of [`Sim::set_def_kind`].
    pub open spec fn set_def_kind(
        self,
        graph: GraphId,
        node: usize,
        kind: GpuOpView,
    ) -> (SimState, Result<(), SimError>) {
        let s = self;
        match s.graph_def_step(graph, node) {
            Err(e) => (s, Err(e)),
            Ok(v1) => {
                let step = v1;
                match s.profile.gpu(step.device) {
                    Err(e) => (s, Err(e)),
                    Ok(_gpu) => {
                        let s = s.tick(1);
                        let step = StepView { kind: kind, ..step };
                        let s = s.put_def_step(graph, node, step);
                        (s, Ok(()))
                    },
                }
            },
        }
    }

    /// Effect of [`Sim::pay_set_params`].
    pub open spec fn pay_set_params(self, device: DeviceId) -> (SimState, Result<(), SimError>) {
        let s = self;
        match s.profile.gpu(device) {
            Err(e) => (s, Err(e)),
            Ok(gpu) => {
                let ns = max_u64(gpu.graph_set_params_ns, 1);
                let s = SimState { clock: s.clock.saturating_add(ns), ..s };
                (s, Ok(()))
            },
        }
    }

    /// Effect of [`Sim::set_exec_kind`].
    pub open spec fn set_exec_kind(
        self,
        id: GraphId,
        node: usize,
        kind: GpuOpView,
    ) -> (SimState, Result<(), SimError>) {
        let s = self;
        match s.current_step(id, node) {
            Err(e) => (s, Err(e)),
            Ok(v1) => {
                let step = v1;
                match s.pay_set_params(step.device) {
                    (s, Err(e)) => (s, Err(e)),
                    (s, Ok(_v)) => {
                        let step = StepView { kind: kind, ..step };
                        s.put_exec_step(id, node, step, false)
                    },
                }
            },
        }
    }

    /// Element `i` of [`Sim::resolve_bufs`].
    pub open spec fn resolve_bufs_at(
        self,
        bufs: Seq<KernelBuf>,
        i: int,
    ) -> Result<KernelBuf, SimError> {
        match self.alloc_ref(bufs[i].id) {
            Err(e) => Err(e),
            Ok(a) => match kernel_span(a.bytes, bufs[i]) {
                Err(e) => Err(e),
                Ok((offset, bytes)) => Ok(KernelBuf { id: bufs[i].id, offset, bytes }),
            },
        }
    }

    /// Value of [`Sim::resolve_bufs`].
    pub open spec fn resolve_bufs(self, bufs: Seq<KernelBuf>) -> Result<Seq<KernelBuf>, SimError> {
        all_ok(bufs.len(), |i: int| self.resolve_bufs_at(bufs, i))
    }

    /// Value of [`Sim::resolve_memset_op`].
    pub open spec fn resolve_memset_op(self, op: MemsetOp) -> Result<MemsetOp, SimError> {
        match memset_2d_check(op) {
            Err(e) => Err(e),
            Ok(_v) => match self.alloc_ref(op.id) {
                Err(e) => Err(e),
                Ok(a) => if op.is_2d() || op.is_3d() {
                    let span = op.extent_bytes();
                    if span == 0 {
                        Err(invalid("zero-byte memset"))
                    } else if op.offset.saturating_add(span) > a.bytes {
                        Err(invalid("memset range past alloc"))
                    } else {
                        Ok(op)
                    }
                } else {
                    match kernel_span(
                        a.bytes,
                        KernelBuf { id: op.id, offset: op.offset, bytes: op.bytes },
                    ) {
                        Err(e) => Err(e),
                        Ok((offset, bytes)) => if bytes == 0 {
                            Err(invalid("zero-byte memset"))
                        } else {
                            Ok(MemsetOp::from_buf(KernelBuf { id: op.id, offset, bytes }))
                        },
                    }
                },
            },
        }
    }

    /// Value of [`Sim::check_batch_mem`].
    pub open spec fn check_batch_mem(self, op: BatchMemOp) -> Result<(), SimError> {
        let (id, offset, bits32) = (match op {
            BatchMemOp::Write { id, offset, bits32, .. } => (id, offset, bits32),
            BatchMemOp::Wait { id, offset, bits32, .. } => (id, offset, bits32),
        });
        match self.alloc_ref(id) {
            Err(e) => Err(e),
            Ok(a) => match wait_value_span(a.bytes, offset, bits32) {
                Err(e) => Err(e),
                Ok(_width) => Ok(()),
            },
        }
    }

    /// Check of position `i` in [`Sim::check_batch_mem_ops`].
    pub open spec fn check_batch_mem_ops_at(
        self,
        ops: Seq<BatchMemOp>,
        i: int,
    ) -> Result<(), SimError> {
        match self.check_batch_mem(ops[i]) {
            Err(e) => Err(e),
            Ok(_v) => Ok(()),
        }
    }

    /// Value of [`Sim::check_batch_mem_ops`].
    pub open spec fn check_batch_mem_ops(self, ops: Seq<BatchMemOp>) -> Result<(), SimError> {
        if ops.len() == 0 {
            Err(invalid("empty batch mem op"))
        } else {
            each_ok(ops.len(), |i: int| self.check_batch_mem_ops_at(ops, i))
        }
    }

    /// Value of [`Sim::kernel_params_ok`].
    pub open spec fn kernel_params_ok(
        self,
        kind: GpuOpView,
        params: KernelParamsView,
    ) -> Result<(), SimError> {
        match kind {
            GpuOpView::Kernel { cooperative, .. } => if cooperative != params.cooperative {
                Err(invalid("cooperative is topology"))
            } else {
                Ok(())
            },
            _ => Err(invalid("not a kernel node")),
        }
    }

    /// Value of [`Sim::kernel_node`].
    pub open spec fn kernel_node(self, params: KernelParamsView) -> Result<GpuOpView, SimError> {
        match self.resolve_bufs(params.reads) {
            Err(e) => Err(e),
            Ok(reads) => match self.resolve_bufs(params.writes) {
                Err(e) => Err(e),
                Ok(writes) => Ok(
                    GpuOpView::Kernel {
                        kind: params.kind,
                        reads,
                        writes,
                        cooperative: params.cooperative,
                    },
                ),
            },
        }
    }

    /// Effect of [`Sim::graph_exec_kernel_set_params`].
    pub open spec fn graph_exec_kernel_set_params(
        self,
        graph: GraphId,
        node: usize,
        params: KernelParamsView,
    ) -> (SimState, Result<(), SimError>) {
        let s = self;
        match s.fail_if_capturing("cannot capture kernel set params") {
            Err(e) => (s, Err(e)),
            Ok(_v) => match s.as_exec(graph) {
                Err(e) => (s, Err(e)),
                Ok(id) => match s.graph_ref(id) {
                    Err(e) => (s, Err(e)),
                    Ok(g) => match g.current_node(node) {
                        Err(e) => (s, Err(e)),
                        Ok(v1) => {
                            let step = v1;
                            match s.kernel_params_ok(step.kind, params) {
                                Err(e) => (s, Err(e)),
                                Ok(_v) => match s.kernel_node(params) {
                                    Err(e) => (s, Err(e)),
                                    Ok(kind) => {
                                        let uploaded = g.uploaded && step.attrs.device_updatable;
                                        match s.pay_set_params(step.device) {
                                            (s, Err(e)) => (s, Err(e)),
                                            (s, Ok(_v)) => {
                                                let step = StepView { kind: kind, ..step };
                                                s.put_exec_step(id, node, step, uploaded)
                                            },
                                        }
                                    },
                                },
                            }
                        },
                    },
                },
            },
        }
    }

    /// Effect of [`Sim::graph_kernel_set_params`].
    pub open spec fn graph_kernel_set_params(
        self,
        graph: GraphId,
        node: usize,
        params: KernelParamsView,
    ) -> (SimState, Result<(), SimError>) {
        let s = self;
        match s.fail_if_capturing("cannot capture kernel node set params") {
            Err(e) => (s, Err(e)),
            Ok(_v) => match s.graph_def_step(graph, node) {
                Err(e) => (s, Err(e)),
                Ok(step) => match s.kernel_params_ok(step.kind, params) {
                    Err(e) => (s, Err(e)),
                    Ok(_v) => match s.kernel_node(params) {
                        Err(e) => (s, Err(e)),
                        Ok(kind) => s.set_def_kind(graph, node, kind),
                    },
                },
            },
        }
    }

    /// Effect of [`Sim::graph_memcpy_set_params`].
    pub open spec fn graph_memcpy_set_params(
        self,
        graph: GraphId,
        node: usize,
        op: MemcpyOp,
    ) -> (SimState, Result<(), SimError>) {
        let s = self;
        match s.fail_if_capturing("cannot capture memcpy node set params") {
            Err(e) => (s, Err(e)),
            Ok(_v) => if op.src.is_pageable() || op.dst.is_pageable() {
                (s, Err(invalid("cannot add pageable memcpy")))
            } else {
                match s.graph_def_step(graph, node) {
                    Err(e) => (s, Err(e)),
                    Ok(step) => if !(match step.kind { GpuOpView::Memcpy(_) => true, _ => false }) {
                        (s, Err(invalid("not a memcpy node")))
                    } else {
                        match s.memcpy_precheck(op) {
                            Err(e) => (s, Err(e)),
                            Ok(_v) => s.set_def_kind(graph, node, GpuOpView::Memcpy(op)),
                        }
                    },
                }
            },
        }
    }

    /// Effect of [`Sim::graph_exec_memcpy_set_params`].
    pub open spec fn graph_exec_memcpy_set_params(
        self,
        graph: GraphId,
        node: usize,
        op: MemcpyOp,
    ) -> (SimState, Result<(), SimError>) {
        let s = self;
        match s.fail_if_capturing("cannot capture memcpy set params") {
            Err(e) => (s, Err(e)),
            Ok(_v) => if op.src.is_pageable() || op.dst.is_pageable() {
                (s, Err(invalid("cannot add pageable memcpy")))
            } else {
                match s.as_exec(graph) {
                    Err(e) => (s, Err(e)),
                    Ok(id) => match s.current_step(id, node) {
                        Err(e) => (s, Err(e)),
                        Ok(step) => if !(
                            match step.kind { GpuOpView::Memcpy(_) => true, _ => false }
                        ) {
                            (s, Err(invalid("not a memcpy node")))
                        } else {
                            match s.memcpy_precheck(op) {
                                Err(e) => (s, Err(e)),
                                Ok(_v) => s.set_exec_kind(id, node, GpuOpView::Memcpy(op)),
                            }
                        },
                    },
                }
            },
        }
    }

    /// Effect of [`Sim::graph_memcpy_set_params_1d`].
    pub open spec fn graph_memcpy_set_params_1d(
        self,
        graph: GraphId,
        node: usize,
        src: Place,
        dst: Place,
        alloc: AllocId,
        bytes: u64,
    ) -> (SimState, Result<(), SimError>) {
        let s = self;
        let op = MemcpyOp::packed_1d(src, dst, alloc, bytes);
        s.graph_memcpy_set_params(graph, node, op)
    }

    /// Effect of [`Sim::graph_exec_memcpy_set_params_1d`].
    pub open spec fn graph_exec_memcpy_set_params_1d(
        self,
        graph: GraphId,
        node: usize,
        src: Place,
        dst: Place,
        alloc: AllocId,
        bytes: u64,
    ) -> (SimState, Result<(), SimError>) {
        let s = self;
        let op = MemcpyOp::packed_1d(src, dst, alloc, bytes);
        s.graph_exec_memcpy_set_params(graph, node, op)
    }

    /// Effect of [`Sim::graph_memset_set_params`].
    pub open spec fn graph_memset_set_params(
        self,
        graph: GraphId,
        node: usize,
        op: MemsetOp,
    ) -> (SimState, Result<(), SimError>) {
        let s = self;
        match s.fail_if_capturing("cannot capture memset node set params") {
            Err(e) => (s, Err(e)),
            Ok(_v) => match s.graph_def_step(graph, node) {
                Err(e) => (s, Err(e)),
                Ok(step) => if !(match step.kind { GpuOpView::Memset(_) => true, _ => false }) {
                    (s, Err(invalid("not a memset node")))
                } else {
                    match s.resolve_memset_op(op) {
                        Err(e) => (s, Err(e)),
                        Ok(full) => s.set_def_kind(graph, node, GpuOpView::Memset(full)),
                    }
                },
            },
        }
    }

    /// Effect of [`Sim::graph_exec_memset_set_params`].
    pub open spec fn graph_exec_memset_set_params(
        self,
        graph: GraphId,
        node: usize,
        op: MemsetOp,
    ) -> (SimState, Result<(), SimError>) {
        let s = self;
        match s.fail_if_capturing("cannot capture memset set params") {
            Err(e) => (s, Err(e)),
            Ok(_v) => match s.as_exec(graph) {
                Err(e) => (s, Err(e)),
                Ok(id) => match s.current_step(id, node) {
                    Err(e) => (s, Err(e)),
                    Ok(step) => if !(match step.kind { GpuOpView::Memset(_) => true, _ => false }) {
                        (s, Err(invalid("not a memset node")))
                    } else {
                        match s.resolve_memset_op(op) {
                            Err(e) => (s, Err(e)),
                            Ok(full) => s.set_exec_kind(id, node, GpuOpView::Memset(full)),
                        }
                    },
                },
            },
        }
    }

    /// Effect of [`Sim::graph_host_set_params`].
    pub open spec fn graph_host_set_params(
        self,
        graph: GraphId,
        node: usize,
        params: HostNodeParams,
    ) -> (SimState, Result<(), SimError>) {
        let s = self;
        match s.fail_if_capturing("cannot capture host node set params") {
            Err(e) => (s, Err(e)),
            Ok(_v) => match s.graph_def_step(graph, node) {
                Err(e) => (s, Err(e)),
                Ok(step) => if !(
                    match step.kind { GpuOpView::HostFunc { .. } => true, _ => false }
                ) {
                    (s, Err(invalid("not a host node")))
                } else {
                    s.set_def_kind(
                        graph,
                        node,
                        GpuOpView::HostFunc { fn_id: params.fn_id, user_data: params.user_data },
                    )
                },
            },
        }
    }

    /// Effect of [`Sim::graph_exec_host_set_params`].
    pub open spec fn graph_exec_host_set_params(
        self,
        graph: GraphId,
        node: usize,
        params: HostNodeParams,
    ) -> (SimState, Result<(), SimError>) {
        let s = self;
        match s.fail_if_capturing("cannot capture host set params") {
            Err(e) => (s, Err(e)),
            Ok(_v) => match s.as_exec(graph) {
                Err(e) => (s, Err(e)),
                Ok(id) => match s.current_step(id, node) {
                    Err(e) => (s, Err(e)),
                    Ok(step) => if !(
                        match step.kind { GpuOpView::HostFunc { .. } => true, _ => false }
                    ) {
                        (s, Err(invalid("not a host node")))
                    } else {
                        s.set_exec_kind(
                            id,
                            node,
                            GpuOpView::HostFunc {
                                fn_id: params.fn_id,
                                user_data: params.user_data,
                            },
                        )
                    },
                },
            },
        }
    }

    /// Effect of [`Sim::graph_free_set_params`].
    pub open spec fn graph_free_set_params(
        self,
        graph: GraphId,
        node: usize,
        alloc: AllocId,
    ) -> (SimState, Result<(), SimError>) {
        let s = self;
        match s.fail_if_capturing("cannot capture mem free node set params") {
            Err(e) => (s, Err(e)),
            Ok(_v) => match s.alloc_ref(alloc) {
                Err(e) => (s, Err(e)),
                Ok(_a) => match s.graph_def_step(graph, node) {
                    Err(e) => (s, Err(e)),
                    Ok(step) => if !(
                        match step.kind { GpuOpView::Free { .. } => true, _ => false }
                    ) {
                        (s, Err(invalid("not a mem free node")))
                    } else {
                        s.set_def_kind(graph, node, GpuOpView::Free { id: alloc })
                    },
                },
            },
        }
    }

    /// Effect of [`Sim::graph_exec_free_set_params`].
    pub open spec fn graph_exec_free_set_params(
        self,
        graph: GraphId,
        node: usize,
        alloc: AllocId,
    ) -> (SimState, Result<(), SimError>) {
        let s = self;
        match s.fail_if_capturing("cannot capture mem free node set params") {
            Err(e) => (s, Err(e)),
            Ok(_v) => match s.alloc_ref(alloc) {
                Err(e) => (s, Err(e)),
                Ok(_a) => match s.as_exec(graph) {
                    Err(e) => (s, Err(e)),
                    Ok(id) => match s.current_step(id, node) {
                        Err(e) => (s, Err(e)),
                        Ok(step) => if !(
                            match step.kind { GpuOpView::Free { .. } => true, _ => false }
                        ) {
                            (s, Err(invalid("not a mem free node")))
                        } else {
                            s.set_exec_kind(id, node, GpuOpView::Free { id: alloc })
                        },
                    },
                },
            },
        }
    }

    /// Value of [`Sim::event_node`].
    pub open spec fn event_node(
        self,
        kind: GpuOpView,
        event: EventId,
        record: bool,
    ) -> Result<GpuOpView, SimError> {
        match kind {
            GpuOpView::EventRecord { event: _was, external } => if record {
                Ok(GpuOpView::EventRecord { event, external })
            } else {
                Err(invalid("not an event wait node"))
            },
            GpuOpView::EventWait { event: _was, external } => if record {
                Err(invalid("not an event record node"))
            } else {
                Ok(GpuOpView::EventWait { event, external })
            },
            _ => if record {
                Err(invalid("not an event record node"))
            } else {
                Err(invalid("not an event wait node"))
            },
        }
    }

    /// Value of [`Sim::event_set_ok`].
    pub open spec fn event_set_ok(self, event: EventId, record: bool) -> Result<(), SimError> {
        if record {
            match self.fail_if_capturing("cannot capture event record set event") {
                Err(e) => Err(e),
                Ok(_v) => if !self.events.contains_key(event) {
                    Err(SimError::UnknownEvent { event: event.0 })
                } else {
                    Ok(())
                },
            }
        } else {
            match self.fail_if_capturing("cannot capture event wait set event") {
                Err(e) => Err(e),
                Ok(_v) => if !self.events.contains_key(event) {
                    Err(SimError::UnknownEvent { event: event.0 })
                } else {
                    Ok(())
                },
            }
        }
    }

    /// Effect of [`Sim::graph_def_event_set`].
    pub open spec fn graph_def_event_set(
        self,
        graph: GraphId,
        node: usize,
        event: EventId,
        record: bool,
    ) -> (SimState, Result<(), SimError>) {
        let s = self;
        match s.event_set_ok(event, record) {
            Err(e) => (s, Err(e)),
            Ok(_v) => match s.graph_def_step(graph, node) {
                Err(e) => (s, Err(e)),
                Ok(step) => match s.event_node(step.kind, event, record) {
                    Err(e) => (s, Err(e)),
                    Ok(kind) => s.set_def_kind(graph, node, kind),
                },
            },
        }
    }

    /// Effect of [`Sim::graph_exec_event_set`].
    pub open spec fn graph_exec_event_set(
        self,
        graph: GraphId,
        node: usize,
        event: EventId,
        record: bool,
    ) -> (SimState, Result<(), SimError>) {
        let s = self;
        match s.event_set_ok(event, record) {
            Err(e) => (s, Err(e)),
            Ok(_v) => match s.as_exec(graph) {
                Err(e) => (s, Err(e)),
                Ok(id) => match s.current_step(id, node) {
                    Err(e) => (s, Err(e)),
                    Ok(step) => match s.event_node(step.kind, event, record) {
                        Err(e) => (s, Err(e)),
                        Ok(kind) => s.set_exec_kind(id, node, kind),
                    },
                },
            },
        }
    }

    /// Effect of [`Sim::graph_event_record_set_event`].
    pub open spec fn graph_event_record_set_event(
        self,
        graph: GraphId,
        node: usize,
        event: EventId,
    ) -> (SimState, Result<(), SimError>) {
        let s = self;
        s.graph_def_event_set(graph, node, event, true)
    }

    /// Effect of [`Sim::graph_event_wait_set_event`].
    pub open spec fn graph_event_wait_set_event(
        self,
        graph: GraphId,
        node: usize,
        event: EventId,
    ) -> (SimState, Result<(), SimError>) {
        let s = self;
        s.graph_def_event_set(graph, node, event, false)
    }

    /// Effect of [`Sim::graph_exec_event_record_set_event`].
    pub open spec fn graph_exec_event_record_set_event(
        self,
        graph: GraphId,
        node: usize,
        event: EventId,
    ) -> (SimState, Result<(), SimError>) {
        let s = self;
        s.graph_exec_event_set(graph, node, event, true)
    }

    /// Effect of [`Sim::graph_exec_event_wait_set_event`].
    pub open spec fn graph_exec_event_wait_set_event(
        self,
        graph: GraphId,
        node: usize,
        event: EventId,
    ) -> (SimState, Result<(), SimError>) {
        let s = self;
        s.graph_exec_event_set(graph, node, event, false)
    }

    /// Effect of [`Sim::graph_child_set_params`].
    pub open spec fn graph_child_set_params(
        self,
        graph: GraphId,
        node: usize,
        child: GraphId,
    ) -> (SimState, Result<(), SimError>) {
        let s = self;
        match s.fail_if_capturing("cannot capture child graph node set params") {
            Err(e) => (s, Err(e)),
            Ok(_v) => if child == graph {
                (s, Err(invalid("graph child is self")))
            } else {
                match s.graph_def_step(graph, node) {
                    Err(e) => (s, Err(e)),
                    Ok(step) => if !(
                        match step.kind { GpuOpView::ChildGraph { .. } => true, _ => false }
                    ) {
                        (s, Err(invalid("not a child graph node")))
                    } else {
                        match s.child_usable(child, step.device) {
                            Err(e) => (s, Err(e)),
                            Ok(_v) => match s.graph_tree_contains(child, graph) {
                                Err(e) => (s, Err(e)),
                                Ok(v1) => if v1 {
                                    (s, Err(invalid("cyclic child graph")))
                                } else {
                                    s.set_def_kind(
                                        graph,
                                        node,
                                        GpuOpView::ChildGraph { graph: child },
                                    )
                                },
                            },
                        }
                    },
                }
            },
        }
    }

    /// Value of [`Sim::child_usable`].
    pub open spec fn child_usable(self, child: GraphId, device: DeviceId) -> Result<(), SimError> {
        match self.graph_ref(child) {
            Err(e) => Err(e),
            Ok(c) => if !c.ready() {
                Err(invalid("child graph not instantiated"))
            } else if c.origin.0 != device {
                Err(invalid("graph child gpu mismatch"))
            } else {
                Ok(())
            },
        }
    }

    /// Position `i` of [`Sim::child_param_topology_eq`].
    pub open spec fn child_param_topology_eq_at(
        self,
        a: Seq<StepView>,
        b: Seq<StepView>,
        i: int,
    ) -> bool {
        if (i as usize) >= b.len() {
            false
        } else {
            let x = a[i];
            let y = b[i];
            if x.destroyed != y.destroyed {
                false
            } else if !x.destroyed && (x.device != y.device || x.stream != y.stream || !x.kind.child_param_op_eq(y.kind) || !(x.deps == y.deps)) {
                false
            } else {
                true
            }
        }
    }

    /// Value of [`Sim::child_param_topology_eq`].
    pub open spec fn child_param_topology_eq(self, a: Seq<StepView>, b: Seq<StepView>) -> bool {
        if a.len() != b.len() {
            false
        } else {
            forall|i: int| 0 <= i < a.len() ==> #[trigger] self.child_param_topology_eq_at(a, b, i)
        }
    }

    /// Value of [`Sim::child_exec_for`].
    pub open spec fn child_exec_for(
        self,
        exec_id: GraphId,
        before: GraphId,
        child: GraphId,
        device: DeviceId,
    ) -> Result<GraphId, SimError> {
        match self.child_usable(child, device) {
            Err(e) => Err(e),
            Ok(_v) => match self.graph_ref(before) {
                Err(e) => Err(e),
                Ok(old_graph) => match self.graph_ref(child) {
                    Err(e) => Err(e),
                    Ok(new_graph) => if !self.child_param_topology_eq(
                        old_graph.steps,
                        new_graph.steps,
                    ) {
                        Err(invalid("child graph topology"))
                    } else {
                        match self.graph_tree_contains(child, exec_id) {
                            Err(e) => Err(e),
                            Ok(v1) => if v1 {
                                Err(invalid("cyclic child graph"))
                            } else {
                                match self.as_exec(child) {
                                    Err(e) => Err(e),
                                    Ok(id) => if id == exec_id {
                                        Err(invalid("graph child is self"))
                                    } else {
                                        Ok(id)
                                    },
                                }
                            },
                        }
                    },
                },
            },
        }
    }

    /// Effect of [`Sim::graph_exec_child_set_params`].
    pub open spec fn graph_exec_child_set_params(
        self,
        graph: GraphId,
        node: usize,
        child: GraphId,
    ) -> (SimState, Result<(), SimError>) {
        let s = self;
        match s.fail_if_capturing("cannot capture child set params") {
            Err(e) => (s, Err(e)),
            Ok(_v) => if child == graph {
                (s, Err(invalid("graph child is self")))
            } else {
                match s.as_exec(graph) {
                    Err(e) => (s, Err(e)),
                    Ok(id) => if child == id {
                        (s, Err(invalid("graph child is self")))
                    } else {
                        match s.current_step(id, node) {
                            Err(e) => (s, Err(e)),
                            Ok(step) => match step.kind {
                                GpuOpView::ChildGraph { graph: before } => match s.child_exec_for(
                                    id,
                                    before,
                                    child,
                                    step.device,
                                ) {
                                    Err(e) => (s, Err(e)),
                                    Ok(child_id) => s.set_exec_kind(
                                        id,
                                        node,
                                        GpuOpView::ChildGraph { graph: child_id },
                                    ),
                                },
                                _ => (s, Err(invalid("not a child graph node"))),
                            },
                        }
                    },
                }
            },
        }
    }

    /// Effect of [`Sim::set_batch_mem_ops`].
    pub open spec fn set_batch_mem_ops(
        self,
        graph: GraphId,
        node: usize,
        ops: Seq<BatchMemOp>,
    ) -> (SimState, Result<(), SimError>) {
        let s = self;
        match s.fail_if_capturing("cannot capture batch mem op node set params") {
            Err(e) => (s, Err(e)),
            Ok(_v) => match s.check_batch_mem_ops(ops) {
                Err(e) => (s, Err(e)),
                Ok(_v) => match s.graph_def_step(graph, node) {
                    Err(e) => (s, Err(e)),
                    Ok(step) => match step.kind.batch_ops_set_params_kind(ops) {
                        Err(e) => (s, Err(e)),
                        Ok(kind) => s.set_def_kind(graph, node, kind),
                    },
                },
            },
        }
    }

    /// Effect of [`Sim::set_exec_batch_mem_ops`].
    #[verifier::opaque]
    pub open spec fn set_exec_batch_mem_ops(
        self,
        graph: GraphId,
        node: usize,
        ops: Seq<BatchMemOp>,
    ) -> (SimState, Result<(), SimError>) {
        let s = self;
        match s.fail_if_capturing("cannot capture batch mem op set params") {
            Err(e) => (s, Err(e)),
            Ok(_v) => match s.check_batch_mem_ops(ops) {
                Err(e) => (s, Err(e)),
                Ok(_v) => match s.as_exec(graph) {
                    Err(e) => (s, Err(e)),
                    Ok(id) => match s.current_step(id, node) {
                        Err(e) => (s, Err(e)),
                        Ok(step) => match step.kind.batch_ops_set_params_kind(ops) {
                            Err(e) => (s, Err(e)),
                            Ok(kind) => s.set_exec_kind(id, node, kind),
                        },
                    },
                },
            },
        }
    }

    /// Effect of [`Sim::graph_batch_mem_op_set_params`].
    pub open spec fn graph_batch_mem_op_set_params(
        self,
        graph: GraphId,
        node: usize,
        op: BatchMemOp,
    ) -> (SimState, Result<(), SimError>) {
        let s = self;
        let ops = seq![op];
        s.set_batch_mem_ops(graph, node, ops)
    }

    /// Effect of [`Sim::graph_batch_mem_ops_set_params`].
    pub open spec fn graph_batch_mem_ops_set_params(
        self,
        graph: GraphId,
        node: usize,
        ops: Seq<BatchMemOp>,
    ) -> (SimState, Result<(), SimError>) {
        let s = self;
        s.set_batch_mem_ops(graph, node, ops)
    }

    /// Effect of [`Sim::graph_exec_batch_mem_op_set_params`].
    pub open spec fn graph_exec_batch_mem_op_set_params(
        self,
        graph: GraphId,
        node: usize,
        op: BatchMemOp,
    ) -> (SimState, Result<(), SimError>) {
        let s = self;
        let ops = seq![op];
        s.set_exec_batch_mem_ops(graph, node, ops)
    }

    /// Effect of [`Sim::graph_exec_batch_mem_ops_set_params`].
    pub open spec fn graph_exec_batch_mem_ops_set_params(
        self,
        graph: GraphId,
        node: usize,
        ops: Seq<BatchMemOp>,
    ) -> (SimState, Result<(), SimError>) {
        let s = self;
        s.set_exec_batch_mem_ops(graph, node, ops)
    }

    /// Effect of [`Sim::graph_node_set_params`].
    pub open spec fn graph_node_set_params(
        self,
        graph: GraphId,
        node: usize,
        params: NodeParamsView,
    ) -> (SimState, Result<(), SimError>) {
        let s = self;
        match params {
            NodeParamsView::Kernel(p) => s.graph_kernel_set_params(graph, node, p),
            NodeParamsView::Memcpy(op) => s.graph_memcpy_set_params(graph, node, op),
            NodeParamsView::Memset(op) => s.graph_memset_set_params(graph, node, op),
            NodeParamsView::Host(p) => s.graph_host_set_params(graph, node, p),
            NodeParamsView::Empty => (s, Err(invalid("empty node has no params"))),
            NodeParamsView::EventRecord {
                event,
                external: _flag,
            } => s.graph_event_record_set_event(graph, node, event),
            NodeParamsView::EventWait {
                event,
                external: _flag,
            } => s.graph_event_wait_set_event(graph, node, event),
            NodeParamsView::ChildGraph(child) => s.graph_child_set_params(graph, node, child),
            NodeParamsView::Alloc { bytes: _size } => (
                s,
                Err(invalid("cannot set mem alloc node params")),
            ),
            NodeParamsView::Free(id) => s.graph_free_set_params(graph, node, id),
            NodeParamsView::BatchMemOp(ops) => s.graph_batch_mem_ops_set_params(graph, node, ops),
        }
    }

    /// Effect of [`Sim::graph_exec_node_set_params`].
    pub open spec fn graph_exec_node_set_params(
        self,
        graph: GraphId,
        node: usize,
        params: NodeParamsView,
    ) -> (SimState, Result<(), SimError>) {
        let s = self;
        match params {
            NodeParamsView::Kernel(p) => s.graph_exec_kernel_set_params(graph, node, p),
            NodeParamsView::Memcpy(op) => s.graph_exec_memcpy_set_params(graph, node, op),
            NodeParamsView::Memset(op) => s.graph_exec_memset_set_params(graph, node, op),
            NodeParamsView::Host(p) => s.graph_exec_host_set_params(graph, node, p),
            NodeParamsView::Empty => (s, Err(invalid("empty node has no params"))),
            NodeParamsView::EventRecord {
                event,
                external: _flag,
            } => s.graph_exec_event_record_set_event(graph, node, event),
            NodeParamsView::EventWait {
                event,
                external: _flag,
            } => s.graph_exec_event_wait_set_event(graph, node, event),
            NodeParamsView::ChildGraph(child) => s.graph_exec_child_set_params(graph, node, child),
            NodeParamsView::Alloc { bytes: _size } => (
                s,
                Err(invalid("cannot set mem alloc node params")),
            ),
            NodeParamsView::Free(id) => s.graph_exec_free_set_params(graph, node, id),
            NodeParamsView::BatchMemOp(ops) => s.graph_exec_batch_mem_ops_set_params(
                graph,
                node,
                ops,
            ),
        }
    }

    /// Value of [`Sim::graph_node_get_params`].
    pub open spec fn graph_node_get_params(
        self,
        graph: GraphId,
        node: usize,
    ) -> Result<NodeParamsView, SimError> {
        match self.graph_def_step(graph, node) {
            Err(e) => Err(e),
            Ok(step) => step.kind.node_params_of(),
        }
    }

    /// Value of [`Sim::graph_kernel_get_params`].
    pub open spec fn graph_kernel_get_params(
        self,
        graph: GraphId,
        node: usize,
    ) -> Result<KernelParamsView, SimError> {
        match self.graph_def_step(graph, node) {
            Err(e) => Err(e),
            Ok(step) => step.kind.kernel_params_of(),
        }
    }

    /// Value of [`Sim::graph_memcpy_get_params`].
    pub open spec fn graph_memcpy_get_params(
        self,
        graph: GraphId,
        node: usize,
    ) -> Result<MemcpyOp, SimError> {
        match self.graph_def_step(graph, node) {
            Err(e) => Err(e),
            Ok(step) => step.kind.memcpy_params_of(),
        }
    }

    /// Value of [`Sim::graph_memset_get_params`].
    pub open spec fn graph_memset_get_params(
        self,
        graph: GraphId,
        node: usize,
    ) -> Result<MemsetOp, SimError> {
        match self.graph_def_step(graph, node) {
            Err(e) => Err(e),
            Ok(step) => step.kind.memset_params_of(),
        }
    }

    /// Value of [`Sim::graph_host_get_params`].
    pub open spec fn graph_host_get_params(
        self,
        graph: GraphId,
        node: usize,
    ) -> Result<HostNodeParams, SimError> {
        match self.graph_def_step(graph, node) {
            Err(e) => Err(e),
            Ok(step) => step.kind.host_params_of(),
        }
    }

    /// Value of [`Sim::graph_batch_mem_ops_get_params`].
    pub open spec fn graph_batch_mem_ops_get_params(
        self,
        graph: GraphId,
        node: usize,
    ) -> Result<Seq<BatchMemOp>, SimError> {
        match self.graph_def_step(graph, node) {
            Err(e) => Err(e),
            Ok(step) => match step.kind.batch_items() {
                Some(v) => Ok(v),
                None => Err(invalid("not a batch mem op node")),
            },
        }
    }

    /// Value of [`Sim::graph_exec_node_get_params`].
    pub open spec fn graph_exec_node_get_params(
        self,
        graph: GraphId,
        node: usize,
    ) -> Result<NodeParamsView, SimError> {
        match self.graph_exec_step(graph, node) {
            Err(e) => Err(e),
            Ok(step) => step.kind.node_params_of(),
        }
    }

    /// Value of [`Sim::graph_exec_kernel_get_params`].
    pub open spec fn graph_exec_kernel_get_params(
        self,
        graph: GraphId,
        node: usize,
    ) -> Result<KernelParamsView, SimError> {
        match self.graph_exec_step(graph, node) {
            Err(e) => Err(e),
            Ok(step) => step.kind.kernel_params_of(),
        }
    }

    /// Value of [`Sim::graph_exec_memcpy_get_params`].
    pub open spec fn graph_exec_memcpy_get_params(
        self,
        graph: GraphId,
        node: usize,
    ) -> Result<MemcpyOp, SimError> {
        match self.graph_exec_step(graph, node) {
            Err(e) => Err(e),
            Ok(step) => step.kind.memcpy_params_of(),
        }
    }

    /// Value of [`Sim::graph_exec_memset_get_params`].
    pub open spec fn graph_exec_memset_get_params(
        self,
        graph: GraphId,
        node: usize,
    ) -> Result<MemsetOp, SimError> {
        match self.graph_exec_step(graph, node) {
            Err(e) => Err(e),
            Ok(step) => step.kind.memset_params_of(),
        }
    }

    /// Value of [`Sim::graph_exec_host_get_params`].
    pub open spec fn graph_exec_host_get_params(
        self,
        graph: GraphId,
        node: usize,
    ) -> Result<HostNodeParams, SimError> {
        match self.graph_exec_step(graph, node) {
            Err(e) => Err(e),
            Ok(step) => step.kind.host_params_of(),
        }
    }

    /// Value of [`Sim::graph_exec_batch_mem_ops_get_params`].
    pub open spec fn graph_exec_batch_mem_ops_get_params(
        self,
        graph: GraphId,
        node: usize,
    ) -> Result<Seq<BatchMemOp>, SimError> {
        match self.graph_exec_step(graph, node) {
            Err(e) => Err(e),
            Ok(step) => match step.kind.batch_items() {
                Some(v) => Ok(v),
                None => Err(invalid("not a batch mem op node")),
            },
        }
    }

    /// Value of [`Sim::graph_batch_mem_ops`].
    pub open spec fn graph_batch_mem_ops(
        self,
        graph: GraphId,
        node: usize,
    ) -> Result<Seq<BatchMemOp>, SimError> {
        match self.graph_view_step(graph, node) {
            Err(e) => Err(e),
            Ok(step) => match step.kind.batch_items() {
                Some(v) => Ok(v),
                None => Err(invalid("not a batch mem op node")),
            },
        }
    }

    /// What position `i` adds to [`Sim::graph_child_nodes`].
    pub open spec fn graph_child_nodes_at(
        self,
        steps: Seq<StepView>,
        i: int,
    ) -> Option<(usize, GraphId)> {
        let step = steps[i];
        if !step.destroyed {
            match step.kind.pick_child() {
                Some(child) => Some(((i as usize), child)),
                _ => None,
            }
        } else {
            None
        }
    }

    /// Value of [`Sim::graph_child_nodes`].
    pub open spec fn graph_child_nodes(
        self,
        graph: GraphId,
    ) -> Result<Seq<(usize, GraphId)>, SimError> {
        match self.resolved_graph(graph) {
            Err(e) => Err(e),
            Ok(id) => match self.graph_ref(id) {
                Err(e) => Err(e),
                Ok(g) => {
                    let steps = g.current();
                    Ok(picked(steps.len(), |i: int| self.graph_child_nodes_at(steps, i)))
                },
            },
        }
    }

    /// Value of [`Sim::graph_child_get_graph`].
    pub open spec fn graph_child_get_graph(
        self,
        graph: GraphId,
        node: usize,
    ) -> Result<GraphId, SimError> {
        match self.graph_view_step(graph, node) {
            Err(e) => Err(e),
            Ok(step) => match step.kind.pick_child() {
                Some(v) => Ok(v),
                None => Err(invalid("not a child graph node")),
            },
        }
    }

    /// Value of [`Sim::graph_event_record_get_event`].
    pub open spec fn graph_event_record_get_event(
        self,
        graph: GraphId,
        node: usize,
    ) -> Result<EventId, SimError> {
        match self.graph_view_step(graph, node) {
            Err(e) => Err(e),
            Ok(step) => match step.kind.pick_event_record() {
                Some(v) => Ok(v),
                None => Err(invalid("not an event record node")),
            },
        }
    }

    /// Value of [`Sim::graph_event_wait_get_event`].
    pub open spec fn graph_event_wait_get_event(
        self,
        graph: GraphId,
        node: usize,
    ) -> Result<EventId, SimError> {
        match self.graph_view_step(graph, node) {
            Err(e) => Err(e),
            Ok(step) => match step.kind.pick_event_wait() {
                Some(v) => Ok(v),
                None => Err(invalid("not an event wait node")),
            },
        }
    }

    /// Value of [`Sim::graph_alloc_get_params`].
    pub open spec fn graph_alloc_get_params(
        self,
        graph: GraphId,
        node: usize,
    ) -> Result<(AllocId, u64), SimError> {
        match self.graph_view_step(graph, node) {
            Err(e) => Err(e),
            Ok(step) => match step.kind {
                GpuOpView::Alloc { id, bytes } => Ok((id, bytes)),
                _ => Err(invalid("not a mem alloc node")),
            },
        }
    }

    /// Value of [`Sim::graph_free_get_params`].
    pub open spec fn graph_free_get_params(
        self,
        graph: GraphId,
        node: usize,
    ) -> Result<AllocId, SimError> {
        match self.graph_view_step(graph, node) {
            Err(e) => Err(e),
            Ok(step) => match step.kind {
                GpuOpView::Free { id } => Ok(id),
                _ => Err(invalid("not a mem free node")),
            },
        }
    }

    /// Value of [`Sim::graph_unique_kernel`].
    pub open spec fn graph_unique_kernel(
        self,
        graph: GraphId,
    ) -> Result<(usize, KernelParamsView), SimError> {
        match self.resolved_graph(graph) {
            Err(e) => Err(e),
            Ok(id) => match self.graph_ref(id) {
                Err(e) => Err(e),
                Ok(g) => {
                    let steps = g.current();
                    let found = None;
                    self.graph_unique_kernel_from(id, steps, found, 0)
                },
            },
        }
    }

    /// [`Sim::graph_unique_kernel`] from position `i` on.
    pub open spec fn graph_unique_kernel_from(
        self,
        id: GraphId,
        steps: Seq<StepView>,
        found: Option<usize>,
        i: int,
    ) -> Result<(usize, KernelParamsView), SimError>
        decreases steps.len() - i,
    {
        if 0 <= i < steps.len() {
            let step = steps[i];
            if !step.destroyed
                && (match step.kind { GpuOpView::Kernel { .. } => true, _ => false }) {
                if found.is_some() {
                    Err(invalid("not unique kernel node"))
                } else {
                    let found = Some((i as usize));
                    self.graph_unique_kernel_from(id, steps, found, i + 1)
                }
            } else {
                self.graph_unique_kernel_from(id, steps, found, i + 1)
            }
        } else {
            match found {
                None => Err(invalid("not a kernel node")),
                Some(node) => match self.current_step(id, node) {
                    Err(e) => Err(e),
                    Ok(step) => match step.kind.kernel_params_of() {
                        Err(e) => Err(e),
                        Ok(params) => Ok((node, params)),
                    },
                },
            }
        }
    }

    /// Value of [`Sim::graph_unique_memcpy`].
    pub open spec fn graph_unique_memcpy(
        self,
        graph: GraphId,
    ) -> Result<(usize, MemcpyOp), SimError> {
        match self.graph_try_unique_memcpy(graph) {
            Err(e) => Err(e),
            Ok(found) => match found {
                Some(v) => Ok(v),
                None => Err(invalid("not a memcpy node")),
            },
        }
    }

    /// Value of [`Sim::graph_try_unique_memcpy`].
    pub open spec fn graph_try_unique_memcpy(
        self,
        graph: GraphId,
    ) -> Result<Option<(usize, MemcpyOp)>, SimError> {
        match self.resolved_graph(graph) {
            Err(e) => Err(e),
            Ok(id) => match self.graph_ref(id) {
                Err(e) => Err(e),
                Ok(g) => {
                    let steps = g.current();
                    let found = None;
                    self.graph_try_unique_memcpy_from(steps, found, 0)
                },
            },
        }
    }

    /// [`Sim::graph_try_unique_memcpy`] from position `i` on.
    pub open spec fn graph_try_unique_memcpy_from(
        self,
        steps: Seq<StepView>,
        found: Option<(usize, MemcpyOp)>,
        i: int,
    ) -> Result<Option<(usize, MemcpyOp)>, SimError>
        decreases steps.len() - i,
    {
        if 0 <= i < steps.len() {
            let step = steps[i];
            if !step.destroyed {
                match step.kind.pick_memcpy() {
                    Some(v) => if found.is_some() {
                        Err(invalid("not unique memcpy node"))
                    } else {
                        let found = Some(((i as usize), v));
                        self.graph_try_unique_memcpy_from(steps, found, i + 1)
                    },
                    _ => self.graph_try_unique_memcpy_from(steps, found, i + 1),
                }
            } else {
                self.graph_try_unique_memcpy_from(steps, found, i + 1)
            }
        } else {
            Ok(found)
        }
    }

    /// Value of [`Sim::graph_unique_memset`].
    pub open spec fn graph_unique_memset(
        self,
        graph: GraphId,
    ) -> Result<(usize, MemsetOp), SimError> {
        match self.graph_try_unique_memset(graph) {
            Err(e) => Err(e),
            Ok(found) => match found {
                Some(v) => Ok(v),
                None => Err(invalid("not a memset node")),
            },
        }
    }

    /// Value of [`Sim::graph_try_unique_memset`].
    pub open spec fn graph_try_unique_memset(
        self,
        graph: GraphId,
    ) -> Result<Option<(usize, MemsetOp)>, SimError> {
        match self.resolved_graph(graph) {
            Err(e) => Err(e),
            Ok(id) => match self.graph_ref(id) {
                Err(e) => Err(e),
                Ok(g) => {
                    let steps = g.current();
                    let found = None;
                    self.graph_try_unique_memset_from(steps, found, 0)
                },
            },
        }
    }

    /// [`Sim::graph_try_unique_memset`] from position `i` on.
    pub open spec fn graph_try_unique_memset_from(
        self,
        steps: Seq<StepView>,
        found: Option<(usize, MemsetOp)>,
        i: int,
    ) -> Result<Option<(usize, MemsetOp)>, SimError>
        decreases steps.len() - i,
    {
        if 0 <= i < steps.len() {
            let step = steps[i];
            if !step.destroyed {
                match step.kind.pick_memset() {
                    Some(v) => if found.is_some() {
                        Err(invalid("not unique memset node"))
                    } else {
                        let found = Some(((i as usize), v));
                        self.graph_try_unique_memset_from(steps, found, i + 1)
                    },
                    _ => self.graph_try_unique_memset_from(steps, found, i + 1),
                }
            } else {
                self.graph_try_unique_memset_from(steps, found, i + 1)
            }
        } else {
            Ok(found)
        }
    }

    /// Value of [`Sim::graph_unique_host`].
    pub open spec fn graph_unique_host(
        self,
        graph: GraphId,
    ) -> Result<(usize, HostNodeParams), SimError> {
        match self.graph_try_unique_host(graph) {
            Err(e) => Err(e),
            Ok(found) => match found {
                Some(v) => Ok(v),
                None => Err(invalid("not a host node")),
            },
        }
    }

    /// Value of [`Sim::graph_try_unique_host`].
    pub open spec fn graph_try_unique_host(
        self,
        graph: GraphId,
    ) -> Result<Option<(usize, HostNodeParams)>, SimError> {
        match self.resolved_graph(graph) {
            Err(e) => Err(e),
            Ok(id) => match self.graph_ref(id) {
                Err(e) => Err(e),
                Ok(g) => {
                    let steps = g.current();
                    let found = None;
                    self.graph_try_unique_host_from(steps, found, 0)
                },
            },
        }
    }

    /// [`Sim::graph_try_unique_host`] from position `i` on.
    pub open spec fn graph_try_unique_host_from(
        self,
        steps: Seq<StepView>,
        found: Option<(usize, HostNodeParams)>,
        i: int,
    ) -> Result<Option<(usize, HostNodeParams)>, SimError>
        decreases steps.len() - i,
    {
        if 0 <= i < steps.len() {
            let step = steps[i];
            if !step.destroyed {
                match step.kind.pick_host() {
                    Some(v) => if found.is_some() {
                        Err(invalid("not unique host node"))
                    } else {
                        let found = Some(((i as usize), v));
                        self.graph_try_unique_host_from(steps, found, i + 1)
                    },
                    _ => self.graph_try_unique_host_from(steps, found, i + 1),
                }
            } else {
                self.graph_try_unique_host_from(steps, found, i + 1)
            }
        } else {
            Ok(found)
        }
    }

    /// Value of [`Sim::graph_unique_child`].
    pub open spec fn graph_unique_child(
        self,
        graph: GraphId,
    ) -> Result<(usize, GraphId), SimError> {
        match self.graph_try_unique_child(graph) {
            Err(e) => Err(e),
            Ok(found) => match found {
                Some(v) => Ok(v),
                None => Err(invalid("not a child graph node")),
            },
        }
    }

    /// Value of [`Sim::graph_try_unique_child`].
    pub open spec fn graph_try_unique_child(
        self,
        graph: GraphId,
    ) -> Result<Option<(usize, GraphId)>, SimError> {
        match self.resolved_graph(graph) {
            Err(e) => Err(e),
            Ok(id) => match self.graph_ref(id) {
                Err(e) => Err(e),
                Ok(g) => {
                    let steps = g.current();
                    let found = None;
                    self.graph_try_unique_child_from(steps, found, 0)
                },
            },
        }
    }

    /// [`Sim::graph_try_unique_child`] from position `i` on.
    pub open spec fn graph_try_unique_child_from(
        self,
        steps: Seq<StepView>,
        found: Option<(usize, GraphId)>,
        i: int,
    ) -> Result<Option<(usize, GraphId)>, SimError>
        decreases steps.len() - i,
    {
        if 0 <= i < steps.len() {
            let step = steps[i];
            if !step.destroyed {
                match step.kind.pick_child() {
                    Some(v) => if found.is_some() {
                        Err(invalid("not unique child graph node"))
                    } else {
                        let found = Some(((i as usize), v));
                        self.graph_try_unique_child_from(steps, found, i + 1)
                    },
                    _ => self.graph_try_unique_child_from(steps, found, i + 1),
                }
            } else {
                self.graph_try_unique_child_from(steps, found, i + 1)
            }
        } else {
            Ok(found)
        }
    }

    /// Value of [`Sim::graph_unique_event_record`].
    pub open spec fn graph_unique_event_record(
        self,
        graph: GraphId,
    ) -> Result<(usize, EventId), SimError> {
        match self.graph_try_unique_event_record(graph) {
            Err(e) => Err(e),
            Ok(found) => match found {
                Some(v) => Ok(v),
                None => Err(invalid("not an event record node")),
            },
        }
    }

    /// Value of [`Sim::graph_try_unique_event_record`].
    pub open spec fn graph_try_unique_event_record(
        self,
        graph: GraphId,
    ) -> Result<Option<(usize, EventId)>, SimError> {
        match self.resolved_graph(graph) {
            Err(e) => Err(e),
            Ok(id) => match self.graph_ref(id) {
                Err(e) => Err(e),
                Ok(g) => {
                    let steps = g.current();
                    let found = None;
                    self.graph_try_unique_event_record_from(steps, found, 0)
                },
            },
        }
    }

    /// [`Sim::graph_try_unique_event_record`] from position `i` on.
    pub open spec fn graph_try_unique_event_record_from(
        self,
        steps: Seq<StepView>,
        found: Option<(usize, EventId)>,
        i: int,
    ) -> Result<Option<(usize, EventId)>, SimError>
        decreases steps.len() - i,
    {
        if 0 <= i < steps.len() {
            let step = steps[i];
            if !step.destroyed {
                match step.kind.pick_event_record() {
                    Some(v) => if found.is_some() {
                        Err(invalid("not unique event record node"))
                    } else {
                        let found = Some(((i as usize), v));
                        self.graph_try_unique_event_record_from(steps, found, i + 1)
                    },
                    _ => self.graph_try_unique_event_record_from(steps, found, i + 1),
                }
            } else {
                self.graph_try_unique_event_record_from(steps, found, i + 1)
            }
        } else {
            Ok(found)
        }
    }

    /// Value of [`Sim::graph_unique_event_wait`].
    pub open spec fn graph_unique_event_wait(
        self,
        graph: GraphId,
    ) -> Result<(usize, EventId), SimError> {
        match self.graph_try_unique_event_wait(graph) {
            Err(e) => Err(e),
            Ok(found) => match found {
                Some(v) => Ok(v),
                None => Err(invalid("not an event wait node")),
            },
        }
    }

    /// Value of [`Sim::graph_try_unique_event_wait`].
    pub open spec fn graph_try_unique_event_wait(
        self,
        graph: GraphId,
    ) -> Result<Option<(usize, EventId)>, SimError> {
        match self.resolved_graph(graph) {
            Err(e) => Err(e),
            Ok(id) => match self.graph_ref(id) {
                Err(e) => Err(e),
                Ok(g) => {
                    let steps = g.current();
                    let found = None;
                    self.graph_try_unique_event_wait_from(steps, found, 0)
                },
            },
        }
    }

    /// [`Sim::graph_try_unique_event_wait`] from position `i` on.
    pub open spec fn graph_try_unique_event_wait_from(
        self,
        steps: Seq<StepView>,
        found: Option<(usize, EventId)>,
        i: int,
    ) -> Result<Option<(usize, EventId)>, SimError>
        decreases steps.len() - i,
    {
        if 0 <= i < steps.len() {
            let step = steps[i];
            if !step.destroyed {
                match step.kind.pick_event_wait() {
                    Some(v) => if found.is_some() {
                        Err(invalid("not unique event wait node"))
                    } else {
                        let found = Some(((i as usize), v));
                        self.graph_try_unique_event_wait_from(steps, found, i + 1)
                    },
                    _ => self.graph_try_unique_event_wait_from(steps, found, i + 1),
                }
            } else {
                self.graph_try_unique_event_wait_from(steps, found, i + 1)
            }
        } else {
            Ok(found)
        }
    }

    /// Value of [`Sim::graph_unique_write_value`].
    pub open spec fn graph_unique_write_value(
        self,
        graph: GraphId,
    ) -> Result<(usize, BatchMemOp), SimError> {
        match self.graph_try_unique_write_value(graph) {
            Err(e) => Err(e),
            Ok(found) => match found {
                Some(v) => Ok(v),
                None => Err(invalid("not a write-value node")),
            },
        }
    }

    /// Value of [`Sim::graph_try_unique_write_value`].
    pub open spec fn graph_try_unique_write_value(
        self,
        graph: GraphId,
    ) -> Result<Option<(usize, BatchMemOp)>, SimError> {
        match self.resolved_graph(graph) {
            Err(e) => Err(e),
            Ok(id) => match self.graph_ref(id) {
                Err(e) => Err(e),
                Ok(g) => {
                    let steps = g.current();
                    let found = None;
                    self.graph_try_unique_write_value_from(steps, found, 0)
                },
            },
        }
    }

    /// [`Sim::graph_try_unique_write_value`] from position `i` on.
    pub open spec fn graph_try_unique_write_value_from(
        self,
        steps: Seq<StepView>,
        found: Option<(usize, BatchMemOp)>,
        i: int,
    ) -> Result<Option<(usize, BatchMemOp)>, SimError>
        decreases steps.len() - i,
    {
        if 0 <= i < steps.len() {
            let step = steps[i];
            if !step.destroyed {
                match step.kind.pick_write_value() {
                    Some(v) => if found.is_some() {
                        Err(invalid("not unique write-value node"))
                    } else {
                        let found = Some(((i as usize), v));
                        self.graph_try_unique_write_value_from(steps, found, i + 1)
                    },
                    _ => self.graph_try_unique_write_value_from(steps, found, i + 1),
                }
            } else {
                self.graph_try_unique_write_value_from(steps, found, i + 1)
            }
        } else {
            Ok(found)
        }
    }

    /// Value of [`Sim::graph_unique_wait_value`].
    pub open spec fn graph_unique_wait_value(
        self,
        graph: GraphId,
    ) -> Result<(usize, BatchMemOp), SimError> {
        match self.graph_try_unique_wait_value(graph) {
            Err(e) => Err(e),
            Ok(found) => match found {
                Some(v) => Ok(v),
                None => Err(invalid("not a wait-value node")),
            },
        }
    }

    /// Value of [`Sim::graph_try_unique_wait_value`].
    pub open spec fn graph_try_unique_wait_value(
        self,
        graph: GraphId,
    ) -> Result<Option<(usize, BatchMemOp)>, SimError> {
        match self.resolved_graph(graph) {
            Err(e) => Err(e),
            Ok(id) => match self.graph_ref(id) {
                Err(e) => Err(e),
                Ok(g) => {
                    let steps = g.current();
                    let found = None;
                    self.graph_try_unique_wait_value_from(steps, found, 0)
                },
            },
        }
    }

    /// [`Sim::graph_try_unique_wait_value`] from position `i` on.
    pub open spec fn graph_try_unique_wait_value_from(
        self,
        steps: Seq<StepView>,
        found: Option<(usize, BatchMemOp)>,
        i: int,
    ) -> Result<Option<(usize, BatchMemOp)>, SimError>
        decreases steps.len() - i,
    {
        if 0 <= i < steps.len() {
            let step = steps[i];
            if !step.destroyed {
                match step.kind.pick_wait_value() {
                    Some(v) => if found.is_some() {
                        Err(invalid("not unique wait-value node"))
                    } else {
                        let found = Some(((i as usize), v));
                        self.graph_try_unique_wait_value_from(steps, found, i + 1)
                    },
                    _ => self.graph_try_unique_wait_value_from(steps, found, i + 1),
                }
            } else {
                self.graph_try_unique_wait_value_from(steps, found, i + 1)
            }
        } else {
            Ok(found)
        }
    }

    /// Effect of [`Sim::graph_node_set_enabled`].
    pub open spec fn graph_node_set_enabled(
        self,
        graph: GraphId,
        node: usize,
        enabled: bool,
    ) -> (SimState, Result<(), SimError>) {
        let s = self;
        match s.fail_if_capturing("cannot capture node set enabled") {
            Err(e) => (s, Err(e)),
            Ok(_v) => match s.as_exec(graph) {
                Err(e) => (s, Err(e)),
                Ok(id) => match s.graph_ref(id) {
                    Err(e) => (s, Err(e)),
                    Ok(g) => {
                        let uploaded = g.uploaded;
                        match g.current_node(node) {
                            Err(e) => (s, Err(e)),
                            Ok(v1) => {
                                let step = v1;
                                if step.kind.is_mem_node() {
                                    (s, Err(invalid("cannot disable mem node")))
                                } else {
                                    match s.pay_set_params(step.device) {
                                        (s, Err(e)) => (s, Err(e)),
                                        (s, Ok(_v)) => {
                                            let step = StepView { enabled: enabled, ..step };
                                            s.put_exec_step(id, node, step, uploaded)
                                        },
                                    }
                                }
                            },
                        }
                    },
                },
            },
        }
    }

    /// Value of [`Sim::graph_node_get_enabled`].
    pub open spec fn graph_node_get_enabled(
        self,
        graph: GraphId,
        node: usize,
    ) -> Result<bool, SimError> {
        match self.graph_exec_step(graph, node) {
            Err(e) => Err(e),
            Ok(step) => Ok(step.enabled),
        }
    }
}

impl Sim {
    /// Replace a node of a definition.
    pub(crate) fn put_def_step(&mut self, graph: GraphId, node: usize, step: GraphStep)
        ensures
            final(self)@ == old(self)@.put_def_step(graph, node, step@),
    {
        let ok: bool = match self.graphs.get(graph) {
            Some(g) => node < g.steps.len(),
            None => false,
        };
        if !ok {
            return;
        }
        if let Some(g) = self.graphs.get_mut(graph) {
            *g.steps.at_mut(node) = step;
        }
    }

    /// Replace a node of an executable.
    pub(crate) fn put_exec_step(
        &mut self,
        graph: GraphId,
        node: usize,
        step: GraphStep,
        uploaded: bool,
    ) -> (r: Result<(), SimError>)
        ensures
            final(self)@ == old(self)@.put_exec_step(graph, node, step@, uploaded).0,
            r == old(self)@.put_exec_step(graph, node, step@, uploaded).1,
    {
        match self.graphs.get(graph) {
            None => return Err(invalid("unknown graph")),
            Some(g) => match &g.snapshot {
                None => return Err(invalid("graph not instantiated")),
                Some(steps) => {
                    if !g.instantiated {
                        return Err(invalid("graph not instantiated"));
                    }
                    if node >= steps.len() {
                        return Err(invalid("unknown graph node"));
                    }
                },
            },
        }
        if let Some(g) = self.graphs.get_mut(graph) {
            if let Some(steps) = &mut g.snapshot {
                *steps.at_mut(node) = step;
            }
            g.uploaded = uploaded;
        }
        Ok(())
    }

    /// Live node of a definition.
    pub(crate) fn graph_def_step(
        &self,
        graph: GraphId,
        node: usize,
    ) -> (r: Result<&GraphStep, SimError>)
        ensures
            ok_ref(r) == self@.graph_def_step(graph, node),
    {
        let g = self.graph_ref(graph)?;
        g.def_node(node)
    }

    /// Live node of the executable snapshot, else of the definition, of this very graph.
    pub(crate) fn current_step(
        &self,
        graph: GraphId,
        node: usize,
    ) -> (r: Result<&GraphStep, SimError>)
        ensures
            ok_ref(r) == self@.current_step(graph, node),
    {
        let g = self.graph_ref(graph)?;
        g.current_node(node)
    }

    /// Live node of the executable of a graph, or of a definition that has none.
    pub(crate) fn graph_view_step(
        &self,
        graph: GraphId,
        node: usize,
    ) -> (r: Result<&GraphStep, SimError>)
        ensures
            ok_ref(r) == self@.graph_view_step(graph, node),
    {
        let id: GraphId = self.resolved_graph(graph)?;
        self.current_step(id, node)
    }

    /// Live node of the executable of a graph.
    pub(crate) fn graph_exec_step(
        &self,
        graph: GraphId,
        node: usize,
    ) -> (r: Result<&GraphStep, SimError>)
        ensures
            ok_ref(r) == self@.graph_exec_step(graph, node),
    {
        let id = self.as_exec(graph)?;
        self.current_step(id, node)
    }

    /// Change what a definition node does. Takes one nanosecond.
    pub(crate) fn set_def_kind(
        &mut self,
        graph: GraphId,
        node: usize,
        kind: GpuOp,
    ) -> (r: Result<(), SimError>)
        ensures
            final(self)@ == old(self)@.set_def_kind(graph, node, kind@).0,
            r == old(self)@.set_def_kind(graph, node, kind@).1,
    {
        let mut step: GraphStep = self.graph_def_step(graph, node)?.dup();
        let _gpu = self.profile.gpu(step.device)?;
        self.tick(1);
        step.kind = kind;
        self.put_def_step(graph, node, step);
        Ok(())
    }

    /// Take the time of an executable-node change on the device.
    pub(crate) fn pay_set_params(&mut self, device: DeviceId) -> (r: Result<(), SimError>)
        ensures
            final(self)@ == old(self)@.pay_set_params(device).0,
            r == old(self)@.pay_set_params(device).1,
    {
        let gpu = self.profile.gpu(device)?;
        let ns: u64 = max_u64(gpu.graph_set_params_ns, 1);
        self.clock = self.clock.saturating_add(ns);
        Ok(())
    }

    /// Change what an executable node does. The executable needs a new upload.
    pub(crate) fn set_exec_kind(
        &mut self,
        id: GraphId,
        node: usize,
        kind: GpuOp,
    ) -> (r: Result<(), SimError>)
        ensures
            final(self)@ == old(self)@.set_exec_kind(id, node, kind@).0,
            r == old(self)@.set_exec_kind(id, node, kind@).1,
    {
        let mut step: GraphStep = self.current_step(id, node)?.dup();
        self.pay_set_params(step.device)?;
        step.kind = kind;
        self.put_exec_step(id, node, step, false)
    }

    /// Buffers with their lengths filled in.
    pub(crate) fn resolve_bufs(&self, bufs: &[KernelBuf]) -> (r: Result<Vec<KernelBuf>, SimError>)
        ensures
            ok_view(r) == self@.resolve_bufs(bufs@),
    {
        let mut out: Vec<KernelBuf> = Vec::new();
        let mut i: usize = 0;
        while i < bufs.len()
            invariant
                i <= bufs@.len(),
                self@.resolve_bufs(bufs@) == all_ok(
                    bufs@.len(),
                    |j: int| self@.resolve_bufs_at(bufs@, j),
                ),
                out@.len() == i,
                forall|j: int| 0 <= j < i ==> #[trigger] self@.resolve_bufs_at(bufs@, j) is Ok && self@.resolve_bufs_at(bufs@, j)->Ok_0 == out@[j],
            decreases bufs@.len() - i,
        {
            proof {
                lemma_all_ok(bufs@.len(), |j: int| self@.resolve_bufs_at(bufs@, j), i as int);
            }
            let a = self.alloc_ref(bufs[i].id)?;
            let (offset, bytes) = kernel_span(a.bytes, bufs[i])?;
            out.push(KernelBuf { id: bufs[i].id, offset, bytes });
            i += 1;
        }
        proof {
            lemma_all_done(bufs@.len(), |j: int| self@.resolve_bufs_at(bufs@, j), out@);
        }
        Ok(out)
    }

    /// The fill with its length filled in.
    pub(crate) fn resolve_memset_op(&self, op: MemsetOp) -> (r: Result<MemsetOp, SimError>)
        ensures
            r == self@.resolve_memset_op(op),
    {
        memset_2d_check(op)?;
        let a = self.alloc_ref(op.id)?;
        if op.is_2d() || op.is_3d() {
            let span: u64 = op.extent_bytes();
            if span == 0 {
                return Err(invalid("zero-byte memset"));
            }
            if op.offset.saturating_add(span) > a.bytes {
                return Err(invalid("memset range past alloc"));
            }
            return Ok(op);
        }
        let (offset, bytes) = kernel_span(
            a.bytes,
            KernelBuf { id: op.id, offset: op.offset, bytes: op.bytes },
        )?;
        if bytes == 0 {
            return Err(invalid("zero-byte memset"));
        }
        Ok(MemsetOp::from_buf(KernelBuf { id: op.id, offset, bytes }))
    }

    /// The word of a stream memory operation lies inside its allocation.
    pub(crate) fn check_batch_mem(&self, op: BatchMemOp) -> (r: Result<(), SimError>)
        ensures
            r == self@.check_batch_mem(op),
    {
        let (id, offset, bits32): (AllocId, u64, bool) = match op {
            BatchMemOp::Write { id, offset, bits32, .. } => (id, offset, bits32),
            BatchMemOp::Wait { id, offset, bits32, .. } => (id, offset, bits32),
        };
        let a = self.alloc_ref(id)?;
        let _width = wait_value_span(a.bytes, offset, bits32)?;
        Ok(())
    }

    pub(crate) fn check_batch_mem_ops(&self, ops: &[BatchMemOp]) -> (r: Result<(), SimError>)
        ensures
            r == self@.check_batch_mem_ops(ops@),
    {
        if ops.len() == 0 {
            return Err(invalid("empty batch mem op"));
        }
        let mut i: usize = 0;
        while i < ops.len()
            invariant
                i <= ops@.len(),
                self@.check_batch_mem_ops(ops@) == each_ok(
                    ops@.len(),
                    |j: int| self@.check_batch_mem_ops_at(ops@, j),
                ),
                forall|j: int| 0 <= j < i ==> #[trigger] self@.check_batch_mem_ops_at(ops@, j) is Ok,
            decreases ops@.len() - i,
        {
            proof {
                lemma_each_ok(ops@.len(), |j: int| self@.check_batch_mem_ops_at(ops@, j), i as int);
            }
            self.check_batch_mem(ops[i])?;
            i += 1;
        }
        proof {
            lemma_each_ok(ops@.len(), |j: int| self@.check_batch_mem_ops_at(ops@, j), i as int);
        }
        Ok(())
    }

    /// Cooperative launch is fixed when the node is added.
    pub(crate) fn kernel_params_ok(
        &self,
        kind: &GpuOp,
        params: &KernelNodeParams,
    ) -> (r: Result<(), SimError>)
        ensures
            r == self@.kernel_params_ok(kind@, params@),
    {
        match kind {
            GpuOp::Kernel { cooperative, .. } => {
                if *cooperative != params.cooperative {
                    return Err(invalid("cooperative is topology"));
                }
                Ok(())
            },
            _ => Err(invalid("not a kernel node")),
        }
    }

    /// A kernel node of the parameters, with the buffers filled in.
    pub(crate) fn kernel_node(&self, params: &KernelNodeParams) -> (r: Result<GpuOp, SimError>)
        ensures
            ok_view(r) == self@.kernel_node(params@),
    {
        let reads: Vec<KernelBuf> = self.resolve_bufs(params.reads.as_slice())?;
        let writes: Vec<KernelBuf> = self.resolve_bufs(params.writes.as_slice())?;
        Ok(GpuOp::Kernel { kind: params.kind, reads, writes, cooperative: params.cooperative })
    }

    /// Change a kernel node of an executable. The upload stays valid if the node is
    /// device-updatable.
    pub fn graph_exec_kernel_set_params(
        &mut self,
        graph: GraphId,
        node: usize,
        params: &KernelNodeParams,
    ) -> (r: Result<(), SimError>)
        ensures
            final(self)@ == old(self)@.graph_exec_kernel_set_params(graph, node, params@).0,
            r == old(self)@.graph_exec_kernel_set_params(graph, node, params@).1,
    {
        self.fail_if_capturing("cannot capture kernel set params")?;
        let id = self.as_exec(graph)?;
        let g = self.graph_ref(id)?;
        let mut step: GraphStep = g.current_node(node)?.dup();
        self.kernel_params_ok(&step.kind, params)?;
        let kind = self.kernel_node(params)?;
        let uploaded: bool = g.uploaded && step.attrs.device_updatable;
        self.pay_set_params(step.device)?;
        step.kind = kind;
        self.put_exec_step(id, node, step, uploaded)
    }

    /// Change a kernel node of a definition.
    pub fn graph_kernel_set_params(
        &mut self,
        graph: GraphId,
        node: usize,
        params: &KernelNodeParams,
    ) -> (r: Result<(), SimError>)
        ensures
            final(self)@ == old(self)@.graph_kernel_set_params(graph, node, params@).0,
            r == old(self)@.graph_kernel_set_params(graph, node, params@).1,
    {
        self.fail_if_capturing("cannot capture kernel node set params")?;
        let step = self.graph_def_step(graph, node)?;
        self.kernel_params_ok(&step.kind, params)?;
        let kind = self.kernel_node(params)?;
        self.set_def_kind(graph, node, kind)
    }

    /// Change a copy node of a definition.
    pub fn graph_memcpy_set_params(
        &mut self,
        graph: GraphId,
        node: usize,
        op: &MemcpyOp,
    ) -> (r: Result<(), SimError>)
        ensures
            final(self)@ == old(self)@.graph_memcpy_set_params(graph, node, *op).0,
            r == old(self)@.graph_memcpy_set_params(graph, node, *op).1,
    {
        self.fail_if_capturing("cannot capture memcpy node set params")?;
        if op.src.is_pageable() || op.dst.is_pageable() {
            return Err(invalid("cannot add pageable memcpy"));
        }
        let step = self.graph_def_step(graph, node)?;
        if !matches!(step.kind, GpuOp::Memcpy(_)) {
            return Err(invalid("not a memcpy node"));
        }
        self.memcpy_precheck(*op)?;
        self.set_def_kind(graph, node, GpuOp::Memcpy(*op))
    }

    /// Change a copy node of an executable.
    pub fn graph_exec_memcpy_set_params(
        &mut self,
        graph: GraphId,
        node: usize,
        op: &MemcpyOp,
    ) -> (r: Result<(), SimError>)
        ensures
            final(self)@ == old(self)@.graph_exec_memcpy_set_params(graph, node, *op).0,
            r == old(self)@.graph_exec_memcpy_set_params(graph, node, *op).1,
    {
        self.fail_if_capturing("cannot capture memcpy set params")?;
        if op.src.is_pageable() || op.dst.is_pageable() {
            return Err(invalid("cannot add pageable memcpy"));
        }
        let id = self.as_exec(graph)?;
        let step = self.current_step(id, node)?;
        if !matches!(step.kind, GpuOp::Memcpy(_)) {
            return Err(invalid("not a memcpy node"));
        }
        self.memcpy_precheck(*op)?;
        self.set_exec_kind(id, node, GpuOp::Memcpy(*op))
    }

    /// Make a copy node of a definition a packed one.
    pub fn graph_memcpy_set_params_1d(
        &mut self,
        graph: GraphId,
        node: usize,
        src: Place,
        dst: Place,
        alloc: AllocId,
        bytes: u64,
    ) -> (r: Result<(), SimError>)
        ensures
            final(self)@ == old(self)@.graph_memcpy_set_params_1d(
                graph,
                node,
                src,
                dst,
                alloc,
                bytes,
            ).0,
            r == old(self)@.graph_memcpy_set_params_1d(graph, node, src, dst, alloc, bytes).1,
    {
        let op: MemcpyOp = MemcpyOp::packed_1d(src, dst, alloc, bytes);
        self.graph_memcpy_set_params(graph, node, &op)
    }

    /// Make a copy node of an executable a packed one.
    pub fn graph_exec_memcpy_set_params_1d(
        &mut self,
        graph: GraphId,
        node: usize,
        src: Place,
        dst: Place,
        alloc: AllocId,
        bytes: u64,
    ) -> (r: Result<(), SimError>)
        ensures
            final(self)@ == old(self)@.graph_exec_memcpy_set_params_1d(
                graph,
                node,
                src,
                dst,
                alloc,
                bytes,
            ).0,
            r == old(self)@.graph_exec_memcpy_set_params_1d(graph, node, src, dst, alloc, bytes).1,
    {
        let op: MemcpyOp = MemcpyOp::packed_1d(src, dst, alloc, bytes);
        self.graph_exec_memcpy_set_params(graph, node, &op)
    }

    /// Change a fill node of a definition.
    pub fn graph_memset_set_params(
        &mut self,
        graph: GraphId,
        node: usize,
        op: MemsetOp,
    ) -> (r: Result<(), SimError>)
        ensures
            final(self)@ == old(self)@.graph_memset_set_params(graph, node, op).0,
            r == old(self)@.graph_memset_set_params(graph, node, op).1,
    {
        self.fail_if_capturing("cannot capture memset node set params")?;
        let step = self.graph_def_step(graph, node)?;
        if !matches!(step.kind, GpuOp::Memset(_)) {
            return Err(invalid("not a memset node"));
        }
        let full = self.resolve_memset_op(op)?;
        self.set_def_kind(graph, node, GpuOp::Memset(full))
    }

    /// Change a fill node of an executable.
    pub fn graph_exec_memset_set_params(
        &mut self,
        graph: GraphId,
        node: usize,
        op: MemsetOp,
    ) -> (r: Result<(), SimError>)
        ensures
            final(self)@ == old(self)@.graph_exec_memset_set_params(graph, node, op).0,
            r == old(self)@.graph_exec_memset_set_params(graph, node, op).1,
    {
        self.fail_if_capturing("cannot capture memset set params")?;
        let id = self.as_exec(graph)?;
        let step = self.current_step(id, node)?;
        if !matches!(step.kind, GpuOp::Memset(_)) {
            return Err(invalid("not a memset node"));
        }
        let full = self.resolve_memset_op(op)?;
        self.set_exec_kind(id, node, GpuOp::Memset(full))
    }

    /// Change a host node of a definition.
    pub fn graph_host_set_params(
        &mut self,
        graph: GraphId,
        node: usize,
        params: HostNodeParams,
    ) -> (r: Result<(), SimError>)
        ensures
            final(self)@ == old(self)@.graph_host_set_params(graph, node, params).0,
            r == old(self)@.graph_host_set_params(graph, node, params).1,
    {
        self.fail_if_capturing("cannot capture host node set params")?;
        let step = self.graph_def_step(graph, node)?;
        if !matches!(step.kind, GpuOp::HostFunc { .. }) {
            return Err(invalid("not a host node"));
        }
        self.set_def_kind(
            graph,
            node,
            GpuOp::HostFunc { fn_id: params.fn_id, user_data: params.user_data },
        )
    }

    /// Change a host node of an executable.
    pub fn graph_exec_host_set_params(
        &mut self,
        graph: GraphId,
        node: usize,
        params: HostNodeParams,
    ) -> (r: Result<(), SimError>)
        ensures
            final(self)@ == old(self)@.graph_exec_host_set_params(graph, node, params).0,
            r == old(self)@.graph_exec_host_set_params(graph, node, params).1,
    {
        self.fail_if_capturing("cannot capture host set params")?;
        let id = self.as_exec(graph)?;
        let step = self.current_step(id, node)?;
        if !matches!(step.kind, GpuOp::HostFunc { .. }) {
            return Err(invalid("not a host node"));
        }
        self.set_exec_kind(
            id,
            node,
            GpuOp::HostFunc { fn_id: params.fn_id, user_data: params.user_data },
        )
    }

    /// Change what a free node of a definition frees.
    pub fn graph_free_set_params(
        &mut self,
        graph: GraphId,
        node: usize,
        alloc: AllocId,
    ) -> (r: Result<(), SimError>)
        ensures
            final(self)@ == old(self)@.graph_free_set_params(graph, node, alloc).0,
            r == old(self)@.graph_free_set_params(graph, node, alloc).1,
    {
        self.fail_if_capturing("cannot capture mem free node set params")?;
        let _a = self.alloc_ref(alloc)?;
        let step = self.graph_def_step(graph, node)?;
        if !matches!(step.kind, GpuOp::Free { .. }) {
            return Err(invalid("not a mem free node"));
        }
        self.set_def_kind(graph, node, GpuOp::Free { id: alloc })
    }

    /// Change what a free node of an executable frees.
    pub fn graph_exec_free_set_params(
        &mut self,
        graph: GraphId,
        node: usize,
        alloc: AllocId,
    ) -> (r: Result<(), SimError>)
        ensures
            final(self)@ == old(self)@.graph_exec_free_set_params(graph, node, alloc).0,
            r == old(self)@.graph_exec_free_set_params(graph, node, alloc).1,
    {
        self.fail_if_capturing("cannot capture mem free node set params")?;
        let _a = self.alloc_ref(alloc)?;
        let id = self.as_exec(graph)?;
        let step = self.current_step(id, node)?;
        if !matches!(step.kind, GpuOp::Free { .. }) {
            return Err(invalid("not a mem free node"));
        }
        self.set_exec_kind(id, node, GpuOp::Free { id: alloc })
    }

    /// The event node with another event.
    pub(crate) fn event_node(
        &self,
        kind: &GpuOp,
        event: EventId,
        record: bool,
    ) -> (r: Result<GpuOp, SimError>)
        ensures
            ok_view(r) == self@.event_node(kind@, event, record),
    {
        match kind {
            GpuOp::EventRecord { event: _was, external } => if record {
                Ok(GpuOp::EventRecord { event, external: *external })
            } else {
                Err(invalid("not an event wait node"))
            },
            GpuOp::EventWait { event: _was, external } => if record {
                Err(invalid("not an event record node"))
            } else {
                Ok(GpuOp::EventWait { event, external: *external })
            },
            _ => if record {
                Err(invalid("not an event record node"))
            } else {
                Err(invalid("not an event wait node"))
            },
        }
    }

    /// Events may be set outside a capture, and only known ones.
    pub(crate) fn event_set_ok(&self, event: EventId, record: bool) -> (r: Result<(), SimError>)
        ensures
            r == self@.event_set_ok(event, record),
    {
        if record {
            self.fail_if_capturing("cannot capture event record set event")?;
        } else {
            self.fail_if_capturing("cannot capture event wait set event")?;
        }
        if !self.events.contains_key(event) {
            return Err(SimError::UnknownEvent { event: event.0 });
        }
        Ok(())
    }

    pub(crate) fn graph_def_event_set(
        &mut self,
        graph: GraphId,
        node: usize,
        event: EventId,
        record: bool,
    ) -> (r: Result<(), SimError>)
        ensures
            final(self)@ == old(self)@.graph_def_event_set(graph, node, event, record).0,
            r == old(self)@.graph_def_event_set(graph, node, event, record).1,
    {
        self.event_set_ok(event, record)?;
        let step = self.graph_def_step(graph, node)?;
        let kind = self.event_node(&step.kind, event, record)?;
        self.set_def_kind(graph, node, kind)
    }

    pub(crate) fn graph_exec_event_set(
        &mut self,
        graph: GraphId,
        node: usize,
        event: EventId,
        record: bool,
    ) -> (r: Result<(), SimError>)
        ensures
            final(self)@ == old(self)@.graph_exec_event_set(graph, node, event, record).0,
            r == old(self)@.graph_exec_event_set(graph, node, event, record).1,
    {
        self.event_set_ok(event, record)?;
        let id = self.as_exec(graph)?;
        let step = self.current_step(id, node)?;
        let kind = self.event_node(&step.kind, event, record)?;
        self.set_exec_kind(id, node, kind)
    }

    /// Change the event of a record node of a definition.
    pub fn graph_event_record_set_event(
        &mut self,
        graph: GraphId,
        node: usize,
        event: EventId,
    ) -> (r: Result<(), SimError>)
        ensures
            final(self)@ == old(self)@.graph_event_record_set_event(graph, node, event).0,
            r == old(self)@.graph_event_record_set_event(graph, node, event).1,
    {
        self.graph_def_event_set(graph, node, event, true)
    }

    /// Change the event of a wait node of a definition.
    pub fn graph_event_wait_set_event(
        &mut self,
        graph: GraphId,
        node: usize,
        event: EventId,
    ) -> (r: Result<(), SimError>)
        ensures
            final(self)@ == old(self)@.graph_event_wait_set_event(graph, node, event).0,
            r == old(self)@.graph_event_wait_set_event(graph, node, event).1,
    {
        self.graph_def_event_set(graph, node, event, false)
    }

    /// Change the event of a record node of an executable.
    pub fn graph_exec_event_record_set_event(
        &mut self,
        graph: GraphId,
        node: usize,
        event: EventId,
    ) -> (r: Result<(), SimError>)
        ensures
            final(self)@ == old(self)@.graph_exec_event_record_set_event(graph, node, event).0,
            r == old(self)@.graph_exec_event_record_set_event(graph, node, event).1,
    {
        self.graph_exec_event_set(graph, node, event, true)
    }

    /// Change the event of a wait node of an executable.
    pub fn graph_exec_event_wait_set_event(
        &mut self,
        graph: GraphId,
        node: usize,
        event: EventId,
    ) -> (r: Result<(), SimError>)
        ensures
            final(self)@ == old(self)@.graph_exec_event_wait_set_event(graph, node, event).0,
            r == old(self)@.graph_exec_event_wait_set_event(graph, node, event).1,
    {
        self.graph_exec_event_set(graph, node, event, false)
    }

    /// Change the nested graph of a definition node.
    pub fn graph_child_set_params(
        &mut self,
        graph: GraphId,
        node: usize,
        child: GraphId,
    ) -> (r: Result<(), SimError>)
        ensures
            final(self)@ == old(self)@.graph_child_set_params(graph, node, child).0,
            r == old(self)@.graph_child_set_params(graph, node, child).1,
    {
        self.fail_if_capturing("cannot capture child graph node set params")?;
        if child == graph {
            return Err(invalid("graph child is self"));
        }
        let step = self.graph_def_step(graph, node)?;
        if !matches!(step.kind, GpuOp::ChildGraph { .. }) {
            return Err(invalid("not a child graph node"));
        }
        self.child_usable(child, step.device)?;
        if self.graph_tree_contains(child, graph)? {
            return Err(invalid("cyclic child graph"));
        }
        self.set_def_kind(graph, node, GpuOp::ChildGraph { graph: child })
    }

    /// The nested graph has an executable on the device.
    pub(crate) fn child_usable(&self, child: GraphId, device: DeviceId) -> (r: Result<(), SimError>)
        ensures
            r == self@.child_usable(child, device),
    {
        let c = self.graph_ref(child)?;
        if !c.ready() {
            return Err(invalid("child graph not instantiated"));
        }
        if c.origin.0 != device {
            return Err(invalid("graph child gpu mismatch"));
        }
        Ok(())
    }

    /// Whether two definitions agree in devices, streams, operation kinds and dependencies.
    pub(crate) fn child_param_topology_eq(
        &self,
        a: &Rows<GraphStep>,
        b: &Rows<GraphStep>,
    ) -> (r: bool)
        ensures
            r == self@.child_param_topology_eq(a@, b@),
    {
        if a.len() != b.len() {
            return false;
        }
        let mut i: usize = 0;
        while i < a.len()
            invariant
                i <= a@.len(),
                forall|j: int| 0 <= j < i ==> #[trigger] self@.child_param_topology_eq_at(a@, b@, j),
            decreases a@.len() - i,
        {
            let ghost _here = self@.child_param_topology_eq_at(a@, b@, i as int);
            if i >= b.len() {
                return false;
            }
            let x = a.at(i);
            let y = b.at(i);
            if x.destroyed != y.destroyed {
                return false;
            }
            if !x.destroyed && (
                x.device != y.device || x.stream != y.stream || !x.kind.child_param_op_eq(&y.kind) || !same_keys(
                    &x.deps,
                    &y.deps,
                )
            ) {
                return false;
            }
            i += 1;
        }
        true
    }

    /// `child` may take the place of the nested graph `before`; gives its executable.
    pub(crate) fn child_exec_for(
        &self,
        exec_id: GraphId,
        before: GraphId,
        child: GraphId,
        device: DeviceId,
    ) -> (r: Result<GraphId, SimError>)
        ensures
            r == self@.child_exec_for(exec_id, before, child, device),
    {
        self.child_usable(child, device)?;
        let old_graph = self.graph_ref(before)?;
        let new_graph = self.graph_ref(child)?;
        if !self.child_param_topology_eq(&old_graph.steps, &new_graph.steps) {
            return Err(invalid("child graph topology"));
        }
        if self.graph_tree_contains(child, exec_id)? {
            return Err(invalid("cyclic child graph"));
        }
        let id = self.as_exec(child)?;
        if id == exec_id {
            return Err(invalid("graph child is self"));
        }
        Ok(id)
    }

    /// Change the nested graph of an executable node for one of the same shape.
    pub fn graph_exec_child_set_params(
        &mut self,
        graph: GraphId,
        node: usize,
        child: GraphId,
    ) -> (r: Result<(), SimError>)
        ensures
            final(self)@ == old(self)@.graph_exec_child_set_params(graph, node, child).0,
            r == old(self)@.graph_exec_child_set_params(graph, node, child).1,
    {
        self.fail_if_capturing("cannot capture child set params")?;
        if child == graph {
            return Err(invalid("graph child is self"));
        }
        let id = self.as_exec(graph)?;
        if child == id {
            return Err(invalid("graph child is self"));
        }
        let step = self.current_step(id, node)?;
        let GpuOp::ChildGraph { graph: before } = &step.kind else {
            return Err(invalid("not a child graph node"));
        };
        let child_id = self.child_exec_for(id, *before, child, step.device)?;
        self.set_exec_kind(id, node, GpuOp::ChildGraph { graph: child_id })
    }

    pub(crate) fn set_batch_mem_ops(
        &mut self,
        graph: GraphId,
        node: usize,
        ops: &[BatchMemOp],
    ) -> (r: Result<(), SimError>)
        ensures
            final(self)@ == old(self)@.set_batch_mem_ops(graph, node, ops@).0,
            r == old(self)@.set_batch_mem_ops(graph, node, ops@).1,
    {
        self.fail_if_capturing("cannot capture batch mem op node set params")?;
        self.check_batch_mem_ops(ops)?;
        let step = self.graph_def_step(graph, node)?;
        let kind = step.kind.batch_ops_set_params_kind(ops)?;
        self.set_def_kind(graph, node, kind)
    }

    pub(crate) fn set_exec_batch_mem_ops(
        &mut self,
        graph: GraphId,
        node: usize,
        ops: &[BatchMemOp],
    ) -> (r: Result<(), SimError>)
        ensures
            final(self)@ == old(self)@.set_exec_batch_mem_ops(graph, node, ops@).0,
            r == old(self)@.set_exec_batch_mem_ops(graph, node, ops@).1,
    {
        reveal(SimState::set_exec_batch_mem_ops);
        self.fail_if_capturing("cannot capture batch mem op set params")?;
        self.check_batch_mem_ops(ops)?;
        let id = self.as_exec(graph)?;
        let step = self.current_step(id, node)?;
        let kind = step.kind.batch_ops_set_params_kind(ops)?;
        self.set_exec_kind(id, node, kind)
    }

    /// Change the only item of a batch node of a definition, or the word of a wait or write node.
    pub fn graph_batch_mem_op_set_params(
        &mut self,
        graph: GraphId,
        node: usize,
        op: BatchMemOp,
    ) -> (r: Result<(), SimError>)
        ensures
            final(self)@ == old(self)@.graph_batch_mem_op_set_params(graph, node, op).0,
            r == old(self)@.graph_batch_mem_op_set_params(graph, node, op).1,
    {
        let ops: Vec<BatchMemOp> = one(op);
        self.set_batch_mem_ops(graph, node, ops.as_slice())
    }

    /// Change the items of a batch node of a definition.
    pub fn graph_batch_mem_ops_set_params(
        &mut self,
        graph: GraphId,
        node: usize,
        ops: &[BatchMemOp],
    ) -> (r: Result<(), SimError>)
        ensures
            final(self)@ == old(self)@.graph_batch_mem_ops_set_params(graph, node, ops@).0,
            r == old(self)@.graph_batch_mem_ops_set_params(graph, node, ops@).1,
    {
        self.set_batch_mem_ops(graph, node, ops)
    }

    /// Change the only item of a batch node of an executable, or the word of a wait or write node.
    pub fn graph_exec_batch_mem_op_set_params(
        &mut self,
        graph: GraphId,
        node: usize,
        op: BatchMemOp,
    ) -> (r: Result<(), SimError>)
        ensures
            final(self)@ == old(self)@.graph_exec_batch_mem_op_set_params(graph, node, op).0,
            r == old(self)@.graph_exec_batch_mem_op_set_params(graph, node, op).1,
    {
        let ops: Vec<BatchMemOp> = one(op);
        self.set_exec_batch_mem_ops(graph, node, ops.as_slice())
    }

    /// Change the items of a batch node of an executable.
    pub fn graph_exec_batch_mem_ops_set_params(
        &mut self,
        graph: GraphId,
        node: usize,
        ops: &[BatchMemOp],
    ) -> (r: Result<(), SimError>)
        ensures
            final(self)@ == old(self)@.graph_exec_batch_mem_ops_set_params(graph, node, ops@).0,
            r == old(self)@.graph_exec_batch_mem_ops_set_params(graph, node, ops@).1,
    {
        self.set_exec_batch_mem_ops(graph, node, ops)
    }

    /// Change a node of a definition, by the kind of the parameters.
    pub fn graph_node_set_params(
        &mut self,
        graph: GraphId,
        node: usize,
        params: GraphNodeParams,
    ) -> (r: Result<(), SimError>)
        ensures
            final(self)@ == old(self)@.graph_node_set_params(graph, node, params@).0,
            r == old(self)@.graph_node_set_params(graph, node, params@).1,
    {
        match params {
            GraphNodeParams::Kernel(p) => self.graph_kernel_set_params(graph, node, &p),
            GraphNodeParams::Memcpy(op) => self.graph_memcpy_set_params(graph, node, &op),
            GraphNodeParams::Memset(op) => self.graph_memset_set_params(graph, node, op),
            GraphNodeParams::Host(p) => self.graph_host_set_params(graph, node, p),
            GraphNodeParams::Empty => Err(invalid("empty node has no params")),
            GraphNodeParams::EventRecord {
                event,
                external: _flag,
            } => self.graph_event_record_set_event(graph, node, event),
            GraphNodeParams::EventWait {
                event,
                external: _flag,
            } => self.graph_event_wait_set_event(graph, node, event),
            GraphNodeParams::ChildGraph(child) => self.graph_child_set_params(graph, node, child),
            GraphNodeParams::Alloc { bytes: _size } => Err(
                invalid("cannot set mem alloc node params"),
            ),
            GraphNodeParams::Free(id) => self.graph_free_set_params(graph, node, id),
            GraphNodeParams::BatchMemOp(ops) => self.graph_batch_mem_ops_set_params(
                graph,
                node,
                ops.as_slice(),
            ),
        }
    }

    /// Change a node of an executable, by the kind of the parameters.
    pub fn graph_exec_node_set_params(
        &mut self,
        graph: GraphId,
        node: usize,
        params: GraphNodeParams,
    ) -> (r: Result<(), SimError>)
        ensures
            final(self)@ == old(self)@.graph_exec_node_set_params(graph, node, params@).0,
            r == old(self)@.graph_exec_node_set_params(graph, node, params@).1,
    {
        match params {
            GraphNodeParams::Kernel(p) => self.graph_exec_kernel_set_params(graph, node, &p),
            GraphNodeParams::Memcpy(op) => self.graph_exec_memcpy_set_params(graph, node, &op),
            GraphNodeParams::Memset(op) => self.graph_exec_memset_set_params(graph, node, op),
            GraphNodeParams::Host(p) => self.graph_exec_host_set_params(graph, node, p),
            GraphNodeParams::Empty => Err(invalid("empty node has no params")),
            GraphNodeParams::EventRecord {
                event,
                external: _flag,
            } => self.graph_exec_event_record_set_event(graph, node, event),
            GraphNodeParams::EventWait {
                event,
                external: _flag,
            } => self.graph_exec_event_wait_set_event(graph, node, event),
            GraphNodeParams::ChildGraph(child) => self.graph_exec_child_set_params(
                graph,
                node,
                child,
            ),
            GraphNodeParams::Alloc { bytes: _size } => Err(
                invalid("cannot set mem alloc node params"),
            ),
            GraphNodeParams::Free(id) => self.graph_exec_free_set_params(graph, node, id),
            GraphNodeParams::BatchMemOp(ops) => self.graph_exec_batch_mem_ops_set_params(
                graph,
                node,
                ops.as_slice(),
            ),
        }
    }

    /// Parameters of a node of a definition.
    pub fn graph_node_get_params(
        &self,
        graph: GraphId,
        node: usize,
    ) -> (r: Result<GraphNodeParams, SimError>)
        ensures
            ok_view(r) == self@.graph_node_get_params(graph, node),
    {
        let step = self.graph_def_step(graph, node)?;
        step.kind.node_params_of()
    }

    /// Parameters of a kernel node of a definition.
    pub fn graph_kernel_get_params(
        &self,
        graph: GraphId,
        node: usize,
    ) -> (r: Result<KernelNodeParams, SimError>)
        ensures
            ok_view(r) == self@.graph_kernel_get_params(graph, node),
    {
        let step = self.graph_def_step(graph, node)?;
        step.kind.kernel_params_of()
    }

    /// Parameters of a copy node of a definition.
    pub fn graph_memcpy_get_params(
        &self,
        graph: GraphId,
        node: usize,
    ) -> (r: Result<MemcpyOp, SimError>)
        ensures
            r == self@.graph_memcpy_get_params(graph, node),
    {
        let step = self.graph_def_step(graph, node)?;
        step.kind.memcpy_params_of()
    }

    /// Parameters of a fill node of a definition.
    pub fn graph_memset_get_params(
        &self,
        graph: GraphId,
        node: usize,
    ) -> (r: Result<MemsetOp, SimError>)
        ensures
            r == self@.graph_memset_get_params(graph, node),
    {
        let step = self.graph_def_step(graph, node)?;
        step.kind.memset_params_of()
    }

    /// Parameters of a host node of a definition.
    pub fn graph_host_get_params(
        &self,
        graph: GraphId,
        node: usize,
    ) -> (r: Result<HostNodeParams, SimError>)
        ensures
            r == self@.graph_host_get_params(graph, node),
    {
        let step = self.graph_def_step(graph, node)?;
        step.kind.host_params_of()
    }

    /// Items of a batch node of a definition; a wait or write node is one item.
    pub fn graph_batch_mem_ops_get_params(
        &self,
        graph: GraphId,
        node: usize,
    ) -> (r: Result<Vec<BatchMemOp>, SimError>)
        ensures
            ok_view(r) == self@.graph_batch_mem_ops_get_params(graph, node),
    {
        let step = self.graph_def_step(graph, node)?;
        match step.kind.batch_items() {
            Some(v) => Ok(v),
            None => Err(invalid("not a batch mem op node")),
        }
    }

    /// Parameters of a node of an executable.
    pub fn graph_exec_node_get_params(
        &self,
        graph: GraphId,
        node: usize,
    ) -> (r: Result<GraphNodeParams, SimError>)
        ensures
            ok_view(r) == self@.graph_exec_node_get_params(graph, node),
    {
        let step = self.graph_exec_step(graph, node)?;
        step.kind.node_params_of()
    }

    /// Parameters of a kernel node of an executable.
    pub fn graph_exec_kernel_get_params(
        &self,
        graph: GraphId,
        node: usize,
    ) -> (r: Result<KernelNodeParams, SimError>)
        ensures
            ok_view(r) == self@.graph_exec_kernel_get_params(graph, node),
    {
        let step = self.graph_exec_step(graph, node)?;
        step.kind.kernel_params_of()
    }

    /// Parameters of a copy node of an executable.
    pub fn graph_exec_memcpy_get_params(
        &self,
        graph: GraphId,
        node: usize,
    ) -> (r: Result<MemcpyOp, SimError>)
        ensures
            r == self@.graph_exec_memcpy_get_params(graph, node),
    {
        let step = self.graph_exec_step(graph, node)?;
        step.kind.memcpy_params_of()
    }

    /// Parameters of a fill node of an executable.
    pub fn graph_exec_memset_get_params(
        &self,
        graph: GraphId,
        node: usize,
    ) -> (r: Result<MemsetOp, SimError>)
        ensures
            r == self@.graph_exec_memset_get_params(graph, node),
    {
        let step = self.graph_exec_step(graph, node)?;
        step.kind.memset_params_of()
    }

    /// Parameters of a host node of an executable.
    pub fn graph_exec_host_get_params(
        &self,
        graph: GraphId,
        node: usize,
    ) -> (r: Result<HostNodeParams, SimError>)
        ensures
            r == self@.graph_exec_host_get_params(graph, node),
    {
        let step = self.graph_exec_step(graph, node)?;
        step.kind.host_params_of()
    }

    /// Items of a batch node of an executable; a wait or write node is one item.
    pub fn graph_exec_batch_mem_ops_get_params(
        &self,
        graph: GraphId,
        node: usize,
    ) -> (r: Result<Vec<BatchMemOp>, SimError>)
        ensures
            ok_view(r) == self@.graph_exec_batch_mem_ops_get_params(graph, node),
    {
        let step = self.graph_exec_step(graph, node)?;
        match step.kind.batch_items() {
            Some(v) => Ok(v),
            None => Err(invalid("not a batch mem op node")),
        }
    }

    /// Items of a batch node of the executable of a graph, or of a definition that has none.
    pub fn graph_batch_mem_ops(
        &self,
        graph: GraphId,
        node: usize,
    ) -> (r: Result<Vec<BatchMemOp>, SimError>)
        ensures
            ok_view(r) == self@.graph_batch_mem_ops(graph, node),
    {
        let step = self.graph_view_step(graph, node)?;
        match step.kind.batch_items() {
            Some(v) => Ok(v),
            None => Err(invalid("not a batch mem op node")),
        }
    }

    /// Nodes that nest a graph, with it.
    pub fn graph_child_nodes(&self, graph: GraphId) -> (r: Result<Vec<(usize, GraphId)>, SimError>)
        ensures
            ok_view(r) == self@.graph_child_nodes(graph),
    {
        let id: GraphId = self.resolved_graph(graph)?;
        let g = self.graph_ref(id)?;
        let steps: &Rows<GraphStep> = g.current();
        let mut out: Vec<(usize, GraphId)> = Vec::new();
        let mut i: usize = 0;
        while i < steps.len()
            invariant
                i <= steps@.len(),
                out@ == picked(i as nat, |j: int| self@.graph_child_nodes_at(steps@, j)),
            decreases steps@.len() - i,
        {
            let step = steps.at(i);
            if !step.destroyed {
                if let Some(child) = step.kind.pick_child() {
                    out.push((i, child));
                }
            }
            i += 1;
        }
        Ok(out)
    }

    /// Nested graph of a node.
    pub fn graph_child_get_graph(
        &self,
        graph: GraphId,
        node: usize,
    ) -> (r: Result<GraphId, SimError>)
        ensures
            r == self@.graph_child_get_graph(graph, node),
    {
        let step = self.graph_view_step(graph, node)?;
        match step.kind.pick_child() {
            Some(v) => Ok(v),
            None => Err(invalid("not a child graph node")),
        }
    }

    /// Event of a record node.
    pub fn graph_event_record_get_event(
        &self,
        graph: GraphId,
        node: usize,
    ) -> (r: Result<EventId, SimError>)
        ensures
            r == self@.graph_event_record_get_event(graph, node),
    {
        let step = self.graph_view_step(graph, node)?;
        match step.kind.pick_event_record() {
            Some(v) => Ok(v),
            None => Err(invalid("not an event record node")),
        }
    }

    /// Event of a wait node.
    pub fn graph_event_wait_get_event(
        &self,
        graph: GraphId,
        node: usize,
    ) -> (r: Result<EventId, SimError>)
        ensures
            r == self@.graph_event_wait_get_event(graph, node),
    {
        let step = self.graph_view_step(graph, node)?;
        match step.kind.pick_event_wait() {
            Some(v) => Ok(v),
            None => Err(invalid("not an event wait node")),
        }
    }

    /// Allocation of an allocation node and its length.
    pub fn graph_alloc_get_params(
        &self,
        graph: GraphId,
        node: usize,
    ) -> (r: Result<(AllocId, u64), SimError>)
        ensures
            r == self@.graph_alloc_get_params(graph, node),
    {
        let step = self.graph_view_step(graph, node)?;
        match &step.kind {
            GpuOp::Alloc { id, bytes } => Ok((*id, *bytes)),
            _ => Err(invalid("not a mem alloc node")),
        }
    }

    /// Allocation that a free node frees.
    pub fn graph_free_get_params(
        &self,
        graph: GraphId,
        node: usize,
    ) -> (r: Result<AllocId, SimError>)
        ensures
            r == self@.graph_free_get_params(graph, node),
    {
        let step = self.graph_view_step(graph, node)?;
        match &step.kind {
            GpuOp::Free { id } => Ok(*id),
            _ => Err(invalid("not a mem free node")),
        }
    }

    /// The only kernel node and its parameters.
    pub fn graph_unique_kernel(
        &self,
        graph: GraphId,
    ) -> (r: Result<(usize, KernelNodeParams), SimError>)
        ensures
            ok_view(r) == self@.graph_unique_kernel(graph),
    {
        let id: GraphId = self.resolved_graph(graph)?;
        let g = self.graph_ref(id)?;
        let steps: &Rows<GraphStep> = g.current();
        let mut found: Option<usize> = None;
        let mut i: usize = 0;
        while i < steps.len()
            invariant
                i <= steps@.len(),
                self@.graph_unique_kernel(graph) == self@.graph_unique_kernel_from(
                    id,
                    steps@,
                    found,
                    i as int,
                ),
            decreases steps@.len() - i,
        {
            let step = steps.at(i);
            if !step.destroyed && matches!(step.kind, GpuOp::Kernel { .. }) {
                if found.is_some() {
                    return Err(invalid("not unique kernel node"));
                }
                found = Some(i);
            }
            i += 1;
        }
        match found {
            None => Err(invalid("not a kernel node")),
            Some(node) => {
                let step = self.current_step(id, node)?;
                let params = step.kind.kernel_params_of()?;
                Ok((node, params))
            },
        }
    }

    /// The only copy node and what it holds.
    pub fn graph_unique_memcpy(&self, graph: GraphId) -> (r: Result<(usize, MemcpyOp), SimError>)
        ensures
            r == self@.graph_unique_memcpy(graph),
    {
        let found = self.graph_try_unique_memcpy(graph)?;
        match found {
            Some(v) => Ok(v),
            None => Err(invalid("not a memcpy node")),
        }
    }

    /// The only copy node and what it holds, if there is one.
    pub fn graph_try_unique_memcpy(
        &self,
        graph: GraphId,
    ) -> (r: Result<Option<(usize, MemcpyOp)>, SimError>)
        ensures
            r == self@.graph_try_unique_memcpy(graph),
    {
        let id: GraphId = self.resolved_graph(graph)?;
        let g = self.graph_ref(id)?;
        let steps: &Rows<GraphStep> = g.current();
        let mut found: Option<(usize, MemcpyOp)> = None;
        let mut i: usize = 0;
        while i < steps.len()
            invariant
                i <= steps@.len(),
                self@.graph_try_unique_memcpy(graph) == self@.graph_try_unique_memcpy_from(
                    steps@,
                    found,
                    i as int,
                ),
            decreases steps@.len() - i,
        {
            let step = steps.at(i);
            if !step.destroyed {
                if let Some(v) = step.kind.pick_memcpy() {
                    if found.is_some() {
                        return Err(invalid("not unique memcpy node"));
                    }
                    found = Some((i, v));
                }
            }
            i += 1;
        }
        Ok(found)
    }

    /// The only fill node and what it holds.
    pub fn graph_unique_memset(&self, graph: GraphId) -> (r: Result<(usize, MemsetOp), SimError>)
        ensures
            r == self@.graph_unique_memset(graph),
    {
        let found = self.graph_try_unique_memset(graph)?;
        match found {
            Some(v) => Ok(v),
            None => Err(invalid("not a memset node")),
        }
    }

    /// The only fill node and what it holds, if there is one.
    pub fn graph_try_unique_memset(
        &self,
        graph: GraphId,
    ) -> (r: Result<Option<(usize, MemsetOp)>, SimError>)
        ensures
            r == self@.graph_try_unique_memset(graph),
    {
        let id: GraphId = self.resolved_graph(graph)?;
        let g = self.graph_ref(id)?;
        let steps: &Rows<GraphStep> = g.current();
        let mut found: Option<(usize, MemsetOp)> = None;
        let mut i: usize = 0;
        while i < steps.len()
            invariant
                i <= steps@.len(),
                self@.graph_try_unique_memset(graph) == self@.graph_try_unique_memset_from(
                    steps@,
                    found,
                    i as int,
                ),
            decreases steps@.len() - i,
        {
            let step = steps.at(i);
            if !step.destroyed {
                if let Some(v) = step.kind.pick_memset() {
                    if found.is_some() {
                        return Err(invalid("not unique memset node"));
                    }
                    found = Some((i, v));
                }
            }
            i += 1;
        }
        Ok(found)
    }

    /// The only host node and what it holds.
    pub fn graph_unique_host(
        &self,
        graph: GraphId,
    ) -> (r: Result<(usize, HostNodeParams), SimError>)
        ensures
            r == self@.graph_unique_host(graph),
    {
        let found = self.graph_try_unique_host(graph)?;
        match found {
            Some(v) => Ok(v),
            None => Err(invalid("not a host node")),
        }
    }

    /// The only host node and what it holds, if there is one.
    pub fn graph_try_unique_host(
        &self,
        graph: GraphId,
    ) -> (r: Result<Option<(usize, HostNodeParams)>, SimError>)
        ensures
            r == self@.graph_try_unique_host(graph),
    {
        let id: GraphId = self.resolved_graph(graph)?;
        let g = self.graph_ref(id)?;
        let steps: &Rows<GraphStep> = g.current();
        let mut found: Option<(usize, HostNodeParams)> = None;
        let mut i: usize = 0;
        while i < steps.len()
            invariant
                i <= steps@.len(),
                self@.graph_try_unique_host(graph) == self@.graph_try_unique_host_from(
                    steps@,
                    found,
                    i as int,
                ),
            decreases steps@.len() - i,
        {
            let step = steps.at(i);
            if !step.destroyed {
                if let Some(v) = step.kind.pick_host() {
                    if found.is_some() {
                        return Err(invalid("not unique host node"));
                    }
                    found = Some((i, v));
                }
            }
            i += 1;
        }
        Ok(found)
    }

    /// The only nested graph node and what it holds.
    pub fn graph_unique_child(&self, graph: GraphId) -> (r: Result<(usize, GraphId), SimError>)
        ensures
            r == self@.graph_unique_child(graph),
    {
        let found = self.graph_try_unique_child(graph)?;
        match found {
            Some(v) => Ok(v),
            None => Err(invalid("not a child graph node")),
        }
    }

    /// The only nested graph node and what it holds, if there is one.
    pub fn graph_try_unique_child(
        &self,
        graph: GraphId,
    ) -> (r: Result<Option<(usize, GraphId)>, SimError>)
        ensures
            r == self@.graph_try_unique_child(graph),
    {
        let id: GraphId = self.resolved_graph(graph)?;
        let g = self.graph_ref(id)?;
        let steps: &Rows<GraphStep> = g.current();
        let mut found: Option<(usize, GraphId)> = None;
        let mut i: usize = 0;
        while i < steps.len()
            invariant
                i <= steps@.len(),
                self@.graph_try_unique_child(graph) == self@.graph_try_unique_child_from(
                    steps@,
                    found,
                    i as int,
                ),
            decreases steps@.len() - i,
        {
            let step = steps.at(i);
            if !step.destroyed {
                if let Some(v) = step.kind.pick_child() {
                    if found.is_some() {
                        return Err(invalid("not unique child graph node"));
                    }
                    found = Some((i, v));
                }
            }
            i += 1;
        }
        Ok(found)
    }

    /// The only event record node and what it holds.
    pub fn graph_unique_event_record(
        &self,
        graph: GraphId,
    ) -> (r: Result<(usize, EventId), SimError>)
        ensures
            r == self@.graph_unique_event_record(graph),
    {
        let found = self.graph_try_unique_event_record(graph)?;
        match found {
            Some(v) => Ok(v),
            None => Err(invalid("not an event record node")),
        }
    }

    /// The only event record node and what it holds, if there is one.
    pub fn graph_try_unique_event_record(
        &self,
        graph: GraphId,
    ) -> (r: Result<Option<(usize, EventId)>, SimError>)
        ensures
            r == self@.graph_try_unique_event_record(graph),
    {
        let id: GraphId = self.resolved_graph(graph)?;
        let g = self.graph_ref(id)?;
        let steps: &Rows<GraphStep> = g.current();
        let mut found: Option<(usize, EventId)> = None;
        let mut i: usize = 0;
        while i < steps.len()
            invariant
                i <= steps@.len(),
                self@.graph_try_unique_event_record(graph) == self@.graph_try_unique_event_record_from(
                    steps@,
                    found,
                    i as int,
                ),
            decreases steps@.len() - i,
        {
            let step = steps.at(i);
            if !step.destroyed {
                if let Some(v) = step.kind.pick_event_record() {
                    if found.is_some() {
                        return Err(invalid("not unique event record node"));
                    }
                    found = Some((i, v));
                }
            }
            i += 1;
        }
        Ok(found)
    }

    /// The only event wait node and what it holds.
    pub fn graph_unique_event_wait(&self, graph: GraphId) -> (r: Result<(usize, EventId), SimError>)
        ensures
            r == self@.graph_unique_event_wait(graph),
    {
        let found = self.graph_try_unique_event_wait(graph)?;
        match found {
            Some(v) => Ok(v),
            None => Err(invalid("not an event wait node")),
        }
    }

    /// The only event wait node and what it holds, if there is one.
    pub fn graph_try_unique_event_wait(
        &self,
        graph: GraphId,
    ) -> (r: Result<Option<(usize, EventId)>, SimError>)
        ensures
            r == self@.graph_try_unique_event_wait(graph),
    {
        let id: GraphId = self.resolved_graph(graph)?;
        let g = self.graph_ref(id)?;
        let steps: &Rows<GraphStep> = g.current();
        let mut found: Option<(usize, EventId)> = None;
        let mut i: usize = 0;
        while i < steps.len()
            invariant
                i <= steps@.len(),
                self@.graph_try_unique_event_wait(graph) == self@.graph_try_unique_event_wait_from(
                    steps@,
                    found,
                    i as int,
                ),
            decreases steps@.len() - i,
        {
            let step = steps.at(i);
            if !step.destroyed {
                if let Some(v) = step.kind.pick_event_wait() {
                    if found.is_some() {
                        return Err(invalid("not unique event wait node"));
                    }
                    found = Some((i, v));
                }
            }
            i += 1;
        }
        Ok(found)
    }

    /// The only write node and what it holds.
    pub fn graph_unique_write_value(
        &self,
        graph: GraphId,
    ) -> (r: Result<(usize, BatchMemOp), SimError>)
        ensures
            r == self@.graph_unique_write_value(graph),
    {
        let found = self.graph_try_unique_write_value(graph)?;
        match found {
            Some(v) => Ok(v),
            None => Err(invalid("not a write-value node")),
        }
    }

    /// The only write node and what it holds, if there is one.
    pub fn graph_try_unique_write_value(
        &self,
        graph: GraphId,
    ) -> (r: Result<Option<(usize, BatchMemOp)>, SimError>)
        ensures
            r == self@.graph_try_unique_write_value(graph),
    {
        let id: GraphId = self.resolved_graph(graph)?;
        let g = self.graph_ref(id)?;
        let steps: &Rows<GraphStep> = g.current();
        let mut found: Option<(usize, BatchMemOp)> = None;
        let mut i: usize = 0;
        while i < steps.len()
            invariant
                i <= steps@.len(),
                self@.graph_try_unique_write_value(graph) == self@.graph_try_unique_write_value_from(
                    steps@,
                    found,
                    i as int,
                ),
            decreases steps@.len() - i,
        {
            let step = steps.at(i);
            if !step.destroyed {
                if let Some(v) = step.kind.pick_write_value() {
                    if found.is_some() {
                        return Err(invalid("not unique write-value node"));
                    }
                    found = Some((i, v));
                }
            }
            i += 1;
        }
        Ok(found)
    }

    /// The only wait node and what it holds.
    pub fn graph_unique_wait_value(
        &self,
        graph: GraphId,
    ) -> (r: Result<(usize, BatchMemOp), SimError>)
        ensures
            r == self@.graph_unique_wait_value(graph),
    {
        let found = self.graph_try_unique_wait_value(graph)?;
        match found {
            Some(v) => Ok(v),
            None => Err(invalid("not a wait-value node")),
        }
    }

    /// The only wait node and what it holds, if there is one.
    pub fn graph_try_unique_wait_value(
        &self,
        graph: GraphId,
    ) -> (r: Result<Option<(usize, BatchMemOp)>, SimError>)
        ensures
            r == self@.graph_try_unique_wait_value(graph),
    {
        let id: GraphId = self.resolved_graph(graph)?;
        let g = self.graph_ref(id)?;
        let steps: &Rows<GraphStep> = g.current();
        let mut found: Option<(usize, BatchMemOp)> = None;
        let mut i: usize = 0;
        while i < steps.len()
            invariant
                i <= steps@.len(),
                self@.graph_try_unique_wait_value(graph) == self@.graph_try_unique_wait_value_from(
                    steps@,
                    found,
                    i as int,
                ),
            decreases steps@.len() - i,
        {
            let step = steps.at(i);
            if !step.destroyed {
                if let Some(v) = step.kind.pick_wait_value() {
                    if found.is_some() {
                        return Err(invalid("not unique wait-value node"));
                    }
                    found = Some((i, v));
                }
            }
            i += 1;
        }
        Ok(found)
    }

    /// Switch a node of an executable on or off. Memory nodes stay on.
    pub fn graph_node_set_enabled(
        &mut self,
        graph: GraphId,
        node: usize,
        enabled: bool,
    ) -> (r: Result<(), SimError>)
        ensures
            final(self)@ == old(self)@.graph_node_set_enabled(graph, node, enabled).0,
            r == old(self)@.graph_node_set_enabled(graph, node, enabled).1,
    {
        self.fail_if_capturing("cannot capture node set enabled")?;
        let id = self.as_exec(graph)?;
        let g = self.graph_ref(id)?;
        let uploaded: bool = g.uploaded;
        let mut step: GraphStep = g.current_node(node)?.dup();
        if step.kind.is_mem_node() {
            return Err(invalid("cannot disable mem node"));
        }
        self.pay_set_params(step.device)?;
        step.enabled = enabled;
        self.put_exec_step(id, node, step, uploaded)
    }

    /// Whether a node of an executable is on.
    pub fn graph_node_get_enabled(&self, graph: GraphId, node: usize) -> (r: Result<bool, SimError>)
        ensures
            r == self@.graph_node_get_enabled(graph, node),
    {
        let step = self.graph_exec_step(graph, node)?;
        Ok(step.enabled)
    }
}

} // verus!
