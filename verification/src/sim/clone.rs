//! Creation, cloning and destruction of graphs.
use vstd::prelude::*;
use crate::error::{invalid, SimError};
use crate::ids::{AllocId, CondId, DeviceId, GraphId, Lane, PoolId, StreamId};
use crate::kinds::{all_nested, nested_of};
use crate::list::{
    all_ok, copy_vec, Dup, first_where, has_key, lemma_all_done, lemma_all_ok, lemma_first_at,
    ok_view, picked, Rows,
};
use crate::num::max_u64;
use crate::ops::{BatchMemOp, GpuOp, GpuOpView, KernelBuf, MemcpyOp, MemsetOp};
use crate::sim::{Sim, SimState};
use crate::state::{Alloc, AllocView, Cond, Graph, GraphStep, GraphView, NextIds, StepView};
use crate::table::{order_of, Table, vacant};

verus! {

impl SimState {
    /// Value of [`Sim::graph_mem_allocs`].
    pub open spec fn graph_mem_allocs(self, graph: GraphId) -> Result<Seq<AllocId>, SimError> {
        if !self.graphs.contains_key(graph) {
            Err(invalid("unknown graph"))
        } else {
            Ok(self.graph_mem_ids(graph))
        }
    }

    /// Value of [`Sim::collect_clone_tree`].
    pub open spec fn collect_clone_tree(
        self,
        graph: GraphId,
        stack: Seq<GraphId>,
        order: Seq<GraphId>,
        fuel: usize,
    ) -> Result<Seq<GraphId>, SimError>
        decreases fuel, 2int, 0int,
    {
        if order.contains(graph) {
            Ok(order)
        } else if stack.contains(graph) || fuel == 0 {
            Err(invalid("cyclic child graph"))
        } else {
            match self.graph_ref(graph) {
                Err(e) => Err(e),
                Ok(g) => {
                    let nested = nested_of(g.steps);
                    let inner = stack;
                    let inner = inner.push(graph);
                    match self.collect_nested(nested, inner, order, fuel.saturating_sub(1)) {
                        Err(e) => Err(e),
                        Ok(out) => {
                            let out = out.push(graph);
                            Ok(out)
                        },
                    }
                },
            }
        }
    }

    /// Value of [`Sim::collect_nested`].
    pub open spec fn collect_nested(
        self,
        nested: Seq<GraphId>,
        stack: Seq<GraphId>,
        order: Seq<GraphId>,
        fuel: usize,
    ) -> Result<Seq<GraphId>, SimError>
        decreases fuel, 5int, 0int,
    {
        let out = order;
        self.collect_nested_from(nested, stack, fuel, out, 0)
    }

    /// [`Sim::collect_nested`] from position `i` on.
    pub open spec fn collect_nested_from(
        self,
        nested: Seq<GraphId>,
        stack: Seq<GraphId>,
        fuel: usize,
        out: Seq<GraphId>,
        i: int,
    ) -> Result<Seq<GraphId>, SimError>
        decreases fuel, 4int, nested.len() - i,
    {
        if 0 <= i < nested.len() {
            match self.collect_clone_tree(nested[i], stack, out, fuel) {
                Err(e) => Err(e),
                Ok(v1) => {
                    let out = v1;
                    self.collect_nested_from(nested, stack, fuel, out, i + 1)
                },
            }
        } else {
            Ok(out)
        }
    }

    /// Effect of [`Sim::clone_graph`].
    pub open spec fn clone_graph(self, graph: GraphId) -> (SimState, Result<GraphId, SimError>) {
        let s = self;
        match s.fail_if_capturing("cannot capture graph clone") {
            Err(e) => (s, Err(e)),
            Ok(_v) => {
                let none = Seq::empty();
                match s.collect_clone_tree(graph, none, none, s.tree_fuel()) {
                    Err(e) => (s, Err(e)),
                    Ok(order) => {
                        let (s, remap) = s.number_clones(order);
                        let origins = s.origins_of(order);
                        match s.build_clones(order, remap) {
                            (s, Err(e)) => (s, Err(e)),
                            (s, Ok(built)) => match s.insert_clones(order, remap, origins, built) {
                                (s, Err(e)) => (s, Err(e)),
                                (s, Ok(_v)) => {
                                    let s = s.note_clones(remap);
                                    match s.clone_conditionals(remap) {
                                        (s, Err(e)) => (s, Err(e)),
                                        (s, Ok(_v)) => (s, s.clone_id(remap, graph)),
                                    }
                                },
                            },
                        }
                    },
                }
            },
        }
    }

    /// Effect of [`Sim::number_clones`].
    pub open spec fn number_clones(self, order: Seq<GraphId>) -> (SimState, Map<GraphId, GraphId>) {
        let s = self;
        let remap = Map::empty();
        s.number_clones_from(order, remap, 0)
    }

    /// [`Sim::number_clones`] from position `i` on.
    pub open spec fn number_clones_from(
        self,
        order: Seq<GraphId>,
        remap: Map<GraphId, GraphId>,
        i: int,
    ) -> (SimState, Map<GraphId, GraphId>)
        decreases order.len() - i,
    {
        let s = self;
        if 0 <= i < order.len() {
            let id = GraphId(s.next.graph);
            let s = SimState {
                next: NextIds { graph: s.next.graph.saturating_add(1), ..s.next },
                ..s
            };
            let remap = remap.insert(order[i], id);
            s.number_clones_from(order, remap, i + 1)
        } else {
            (s, remap)
        }
    }

    /// Element `i` of [`Sim::origins_of`].
    pub open spec fn origins_of_at(self, order: Seq<GraphId>, i: int) -> Lane {
        let at = (match self.graphs.get(order[i]) {
            Some(g) => g.origin,
            None => Lane(DeviceId(0), StreamId(0)),
        });
        at
    }

    /// Value of [`Sim::origins_of`].
    pub open spec fn origins_of(self, order: Seq<GraphId>) -> Seq<Lane> {
        Seq::new(order.len(), |i: int| self.origins_of_at(order, i))
    }

    /// Value of [`Sim::clone_id`].
    pub open spec fn clone_id(
        self,
        remap: Map<GraphId, GraphId>,
        graph: GraphId,
    ) -> Result<GraphId, SimError> {
        match remap.get(graph) {
            Some(id) => Ok(id),
            None => Err(invalid("unknown graph")),
        }
    }

    /// Element `i` of [`Sim::clone_ids`].
    pub open spec fn clone_ids_at(
        self,
        remap: Map<GraphId, GraphId>,
        graphs: Seq<GraphId>,
        i: int,
    ) -> Result<GraphId, SimError> {
        match self.clone_id(remap, graphs[i]) {
            Err(e) => Err(e),
            Ok(id) => Ok(id),
        }
    }

    /// Value of [`Sim::clone_ids`].
    pub open spec fn clone_ids(
        self,
        remap: Map<GraphId, GraphId>,
        graphs: Seq<GraphId>,
    ) -> Result<Seq<GraphId>, SimError> {
        all_ok(graphs.len(), |i: int| self.clone_ids_at(remap, graphs, i))
    }

    /// Value of [`Sim::remap_nested_graph`].
    pub open spec fn remap_nested_graph(
        self,
        kind: GpuOpView,
        remap: Map<GraphId, GraphId>,
    ) -> Result<GpuOpView, SimError> {
        match kind {
            GpuOpView::ChildGraph { graph } => match self.clone_id(remap, graph) {
                Err(e) => Err(e),
                Ok(id) => Ok(GpuOpView::ChildGraph { graph: id }),
            },
            GpuOpView::If { handle, body } => match self.clone_id(remap, body) {
                Err(e) => Err(e),
                Ok(id) => Ok(GpuOpView::If { handle, body: id }),
            },
            GpuOpView::While { handle, body } => match self.clone_id(remap, body) {
                Err(e) => Err(e),
                Ok(id) => Ok(GpuOpView::While { handle, body: id }),
            },
            GpuOpView::Switch { handle, bodies } => match self.clone_ids(remap, bodies) {
                Err(e) => Err(e),
                Ok(ids) => Ok(GpuOpView::Switch { handle, bodies: ids }),
            },
            _ => Ok(kind),
        }
    }

    /// Value of [`Sim::cloned_kind`].
    pub open spec fn cloned_kind(
        self,
        step: StepView,
        remap: Map<GraphId, GraphId>,
    ) -> Result<GpuOpView, SimError> {
        if step.destroyed {
            Ok(step.kind)
        } else {
            self.remap_nested_graph(step.kind, remap)
        }
    }

    /// Element `i` of [`Sim::remap_nested_graphs`].
    pub open spec fn remap_nested_graphs_at(
        self,
        steps: Seq<StepView>,
        remap: Map<GraphId, GraphId>,
        i: int,
    ) -> Result<StepView, SimError> {
        let step = steps[i];
        match self.cloned_kind(step, remap) {
            Err(e) => Err(e),
            Ok(v1) => {
                let step = StepView { kind: v1, ..step };
                Ok(step)
            },
        }
    }

    /// Value of [`Sim::remap_nested_graphs`].
    pub open spec fn remap_nested_graphs(
        self,
        steps: Seq<StepView>,
        remap: Map<GraphId, GraphId>,
    ) -> Result<Seq<StepView>, SimError> {
        all_ok(steps.len(), |i: int| self.remap_nested_graphs_at(steps, remap, i))
    }

    /// Effect of [`Sim::build_clones`].
    pub open spec fn build_clones(
        self,
        order: Seq<GraphId>,
        remap: Map<GraphId, GraphId>,
    ) -> (SimState, Result<Seq<Seq<StepView>>, SimError>) {
        let s = self;
        let built = Seq::empty();
        s.build_clones_from(order, remap, built, 0)
    }

    /// [`Sim::build_clones`] from position `i` on.
    pub open spec fn build_clones_from(
        self,
        order: Seq<GraphId>,
        remap: Map<GraphId, GraphId>,
        built: Seq<Seq<StepView>>,
        i: int,
    ) -> (SimState, Result<Seq<Seq<StepView>>, SimError>)
        decreases order.len() - i,
    {
        let s = self;
        if 0 <= i < order.len() {
            match s.graph_ref(order[i]) {
                Err(e) => (s, Err(e)),
                Ok(g) => match s.remap_nested_graphs(g.steps, remap) {
                    Err(e) => (s, Err(e)),
                    Ok(raw) => match s.clone_id(remap, order[i]) {
                        Err(e) => (s, Err(e)),
                        Ok(id) => match s.clone_mem_alloc_nodes(order[i], id, raw) {
                            (s, Err(e)) => (s, Err(e)),
                            (s, Ok(steps)) => {
                                let built = built.push(steps);
                                s.build_clones_from(order, remap, built, i + 1)
                            },
                        },
                    },
                },
            }
        } else {
            (s, Ok(built))
        }
    }

    /// Effect of [`Sim::insert_clones`].
    pub open spec fn insert_clones(
        self,
        order: Seq<GraphId>,
        remap: Map<GraphId, GraphId>,
        origins: Seq<Lane>,
        built: Seq<Seq<StepView>>,
    ) -> (SimState, Result<(), SimError>) {
        let s = self;
        s.insert_clones_from(order, remap, origins, built, 0)
    }

    /// [`Sim::insert_clones`] from position `i` on.
    pub open spec fn insert_clones_from(
        self,
        order: Seq<GraphId>,
        remap: Map<GraphId, GraphId>,
        origins: Seq<Lane>,
        built: Seq<Seq<StepView>>,
        i: int,
    ) -> (SimState, Result<(), SimError>)
        decreases order.len() - i,
    {
        let s = self;
        if 0 <= i < order.len() {
            if (i as usize) >= origins.len() || (i as usize) >= built.len() {
                (s, Err(invalid("unknown graph")))
            } else {
                match s.profile.gpu(origins[i].0) {
                    Err(e) => (s, Err(e)),
                    Ok(gpu) => {
                        let ns = max_u64(gpu.graph_clone_ns, 1);
                        match s.clone_id(remap, order[i]) {
                            Err(e) => (s, Err(e)),
                            Ok(id) => {
                                let s = s.tick(ns);
                                let g = GraphView {
                                    steps: built[i],
                                    snapshot: None,
                                    origin: origins[i],
                                    instantiated: false,
                                    uploaded: false,
                                    auto_free_on_launch: false,
                                    instantiate_flags: 0,
                                    device_launch_tail: None,
                                    primary_exec: None,
                                    src: None,
                                };
                                let s = SimState { graphs: s.graphs.insert(id, g), ..s };
                                s.insert_clones_from(order, remap, origins, built, i + 1)
                            },
                        }
                    },
                }
            }
        } else {
            (s, Ok(()))
        }
    }

    /// Effect of [`Sim::note_clones`].
    pub open spec fn note_clones(self, remap: Map<GraphId, GraphId>) -> SimState {
        let s = self;
        s.note_clones_from(remap, 0)
    }

    /// [`Sim::note_clones`] from position `i` on.
    pub open spec fn note_clones_from(self, remap: Map<GraphId, GraphId>, i: int) -> SimState
        decreases order_of(remap.dom()).len() - i,
    {
        let s = self;
        if 0 <= i < order_of(remap.dom()).len() {
            let src = order_of(remap.dom())[i];
            let id = remap[order_of(remap.dom())[i]];
            let s = SimState { clone_of: s.clone_of.insert(id, src), ..s };
            s.note_clones_from(remap, i + 1)
        } else {
            s
        }
    }

    /// What position `i` adds to [`Sim::conds_to_clone`].
    pub open spec fn conds_to_clone_at(
        self,
        remap: Map<GraphId, GraphId>,
        i: int,
    ) -> Option<(CondId, Cond)> {
        let c = self.conds[order_of(self.conds.dom())[i]];
        if remap.contains_key(c.graph) {
            Some(
                (
                    order_of(self.conds.dom())[i],
                    Cond { graph: c.graph, default: c.default, value: c.default },
                ),
            )
        } else {
            None
        }
    }

    /// Value of [`Sim::conds_to_clone`].
    pub open spec fn conds_to_clone(self, remap: Map<GraphId, GraphId>) -> Seq<(CondId, Cond)> {
        picked(order_of(self.conds.dom()).len(), |i: int| self.conds_to_clone_at(remap, i))
    }

    /// Effect of [`Sim::number_conds`].
    pub open spec fn number_conds(
        self,
        conds: Seq<(CondId, Cond)>,
        remap: Map<GraphId, GraphId>,
    ) -> (SimState, Result<Map<CondId, CondId>, SimError>) {
        let s = self;
        let renamed = Map::empty();
        s.number_conds_from(conds, remap, renamed, 0)
    }

    /// [`Sim::number_conds`] from position `i` on.
    pub open spec fn number_conds_from(
        self,
        conds: Seq<(CondId, Cond)>,
        remap: Map<GraphId, GraphId>,
        renamed: Map<CondId, CondId>,
        i: int,
    ) -> (SimState, Result<Map<CondId, CondId>, SimError>)
        decreases conds.len() - i,
    {
        let s = self;
        if 0 <= i < conds.len() {
            let c = conds[i].1;
            match s.clone_id(remap, c.graph) {
                Err(e) => (s, Err(e)),
                Ok(graph) => {
                    let id = CondId(s.next.cond);
                    let s = SimState {
                        next: NextIds { cond: s.next.cond.saturating_add(1), ..s.next },
                        ..s
                    };
                    let renamed = renamed.insert(conds[i].0, id);
                    let s = SimState {
                        conds: s.conds.insert(
                            id,
                            Cond { graph, default: c.default, value: c.value },
                        ),
                        ..s
                    };
                    s.number_conds_from(conds, remap, renamed, i + 1)
                },
            }
        } else {
            (s, Ok(renamed))
        }
    }

    /// Value of [`Sim::renamed_cond`].
    pub open spec fn renamed_cond(self, renamed: Map<CondId, CondId>, handle: CondId) -> CondId {
        match renamed.get(handle) {
            Some(h) => h,
            None => handle,
        }
    }

    /// Value of [`Sim::rename_conds`].
    pub open spec fn rename_conds(
        self,
        kind: GpuOpView,
        renamed: Map<CondId, CondId>,
    ) -> GpuOpView {
        match kind {
            GpuOpView::If { handle, body } => GpuOpView::If {
                handle: self.renamed_cond(renamed, handle),
                body,
            },
            GpuOpView::While { handle, body } => GpuOpView::While {
                handle: self.renamed_cond(renamed, handle),
                body,
            },
            GpuOpView::Switch { handle, bodies } => GpuOpView::Switch {
                handle: self.renamed_cond(renamed, handle),
                bodies,
            },
            GpuOpView::SetConditional { handle, value } => GpuOpView::SetConditional {
                handle: self.renamed_cond(renamed, handle),
                value,
            },
            GpuOpView::WhileTick { handle, body, iter } => GpuOpView::WhileTick {
                handle: self.renamed_cond(renamed, handle),
                body,
                iter,
            },
            _ => kind,
        }
    }

    /// Value of [`Sim::rename_step_conds`].
    pub open spec fn rename_step_conds(
        self,
        steps: Seq<StepView>,
        renamed: Map<CondId, CondId>,
    ) -> Seq<StepView> {
        Seq::new(steps.len(), |i: int| {
            let step = steps[i];
            let step = StepView { kind: self.rename_conds(step.kind, renamed), ..step };
            step
        })
    }

    /// Effect of [`Sim::clone_conditionals`].
    pub open spec fn clone_conditionals(
        self,
        remap: Map<GraphId, GraphId>,
    ) -> (SimState, Result<(), SimError>) {
        let s = self;
        let conds = s.conds_to_clone(remap);
        match s.number_conds(conds, remap) {
            (s, Err(e)) => (s, Err(e)),
            (s, Ok(renamed)) => if vacant(renamed.dom()) {
                (s, Ok(()))
            } else {
                s.clone_conditionals_from(remap, renamed, 0)
            },
        }
    }

    /// [`Sim::clone_conditionals`] from position `i` on.
    pub open spec fn clone_conditionals_from(
        self,
        remap: Map<GraphId, GraphId>,
        renamed: Map<CondId, CondId>,
        i: int,
    ) -> (SimState, Result<(), SimError>)
        decreases order_of(remap.dom()).len() - i,
    {
        let s = self;
        if 0 <= i < order_of(remap.dom()).len() {
            let id = remap[order_of(remap.dom())[i]];
            match s.graph_ref(id) {
                Err(e) => (s, Err(e)),
                Ok(g) => {
                    let steps = s.rename_step_conds(g.steps, renamed);
                    match s.graph_ref(id) {
                        Err(e) => (s, Err(e)),
                        Ok(h) => {
                            let h = GraphView { steps: steps, ..h };
                            let s = SimState { graphs: s.graphs.insert(id, h), ..s };
                            s.clone_conditionals_from(remap, renamed, i + 1)
                        },
                    }
                },
            }
        } else {
            (s, Ok(()))
        }
    }

    /// Effect of [`Sim::fork_alloc`].
    pub open spec fn fork_alloc(self, src: AllocId) -> (SimState, Result<AllocId, SimError>) {
        let s = self;
        match s.alloc_ref(src) {
            Err(e) => (s, Err(e)),
            Ok(a) => {
                let bytes = a.bytes;
                let pool = a.pool;
                let b = AllocView::blank(bytes);
                let b = AllocView { pool: pool, ..b };
                let (s, id) = s.add_alloc(b);
                (s, Ok(id))
            },
        }
    }

    /// Effect of [`Sim::fork_allocs`].
    pub open spec fn fork_allocs(
        self,
        ids: Seq<AllocId>,
    ) -> (SimState, Result<Seq<AllocId>, SimError>) {
        let s = self;
        let out = Seq::empty();
        s.fork_allocs_from(ids, out, 0)
    }

    /// [`Sim::fork_allocs`] from position `i` on.
    pub open spec fn fork_allocs_from(
        self,
        ids: Seq<AllocId>,
        out: Seq<AllocId>,
        i: int,
    ) -> (SimState, Result<Seq<AllocId>, SimError>)
        decreases ids.len() - i,
    {
        let s = self;
        if 0 <= i < ids.len() {
            match s.fork_alloc(ids[i]) {
                (s, Err(e)) => (s, Err(e)),
                (s, Ok(id)) => {
                    let out = out.push(id);
                    s.fork_allocs_from(ids, out, i + 1)
                },
            }
        } else {
            (s, Ok(out))
        }
    }

    /// Effect of [`Sim::clone_mem_alloc_nodes`].
    pub open spec fn clone_mem_alloc_nodes(
        self,
        src: GraphId,
        dst: GraphId,
        steps: Seq<StepView>,
    ) -> (SimState, Result<Seq<StepView>, SimError>) {
        let s = self;
        let before = s.allocs_of(src);
        if before.len() == 0 {
            (s, Ok(steps))
        } else {
            match s.fork_allocs(before) {
                (s, Err(e)) => (s, Err(e)),
                (s, Ok(after)) => {
                    let s = SimState { graph_allocs: s.graph_allocs.insert(dst, after), ..s };
                    (s, Ok(s.remap_alloc_steps(steps, before, after)))
                },
            }
        }
    }

    /// Value of [`Sim::remap_alloc_id`].
    pub open spec fn remap_alloc_id(
        self,
        id: AllocId,
        before: Seq<AllocId>,
        after: Seq<AllocId>,
    ) -> AllocId {
        let out = id;
        self.remap_alloc_id_from(id, before, after, out, 0)
    }

    /// [`Sim::remap_alloc_id`] from position `i` on.
    pub open spec fn remap_alloc_id_from(
        self,
        id: AllocId,
        before: Seq<AllocId>,
        after: Seq<AllocId>,
        out: AllocId,
        i: int,
    ) -> AllocId
        decreases before.len() - i,
    {
        if 0 <= i < before.len() {
            let out = if before[i] == id && (i as usize) < after.len() {
                let out = after[i];
                out
            } else {
                out
            };
            self.remap_alloc_id_from(id, before, after, out, i + 1)
        } else {
            out
        }
    }

    /// Value of [`Sim::remap_bufs`].
    pub open spec fn remap_bufs(
        self,
        bufs: Seq<KernelBuf>,
        before: Seq<AllocId>,
        after: Seq<AllocId>,
    ) -> Seq<KernelBuf> {
        Seq::new(bufs.len(), |i: int| {
            let b = bufs[i];
            KernelBuf {
                id: self.remap_alloc_id(b.id, before, after),
                offset: b.offset,
                bytes: b.bytes,
            }
        })
    }

    /// Value of [`Sim::remap_batch_op`].
    pub open spec fn remap_batch_op(
        self,
        op: BatchMemOp,
        before: Seq<AllocId>,
        after: Seq<AllocId>,
    ) -> BatchMemOp {
        match op {
            BatchMemOp::Write { id, offset, value, bits32 } => BatchMemOp::Write {
                id: self.remap_alloc_id(id, before, after),
                offset,
                value,
                bits32,
            },
            BatchMemOp::Wait { id, offset, value, bits32, cmp } => BatchMemOp::Wait {
                id: self.remap_alloc_id(id, before, after),
                offset,
                value,
                bits32,
                cmp,
            },
        }
    }

    /// Value of [`Sim::remap_batch_ops`].
    pub open spec fn remap_batch_ops(
        self,
        ops: Seq<BatchMemOp>,
        before: Seq<AllocId>,
        after: Seq<AllocId>,
    ) -> Seq<BatchMemOp> {
        Seq::new(ops.len(), |i: int| self.remap_batch_op(ops[i], before, after))
    }

    /// Value of [`Sim::remap_parts`].
    pub open spec fn remap_parts(
        self,
        parts: Seq<(DeviceId, AllocId)>,
        before: Seq<AllocId>,
        after: Seq<AllocId>,
    ) -> Seq<(DeviceId, AllocId)> {
        Seq::new(parts.len(), |i: int| (parts[i].0, self.remap_alloc_id(parts[i].1, before, after)))
    }

    /// Value of [`Sim::remap_alloc_kind`].
    pub open spec fn remap_alloc_kind(
        self,
        kind: GpuOpView,
        before: Seq<AllocId>,
        after: Seq<AllocId>,
    ) -> GpuOpView {
        match kind {
            GpuOpView::Alloc { id, bytes } => GpuOpView::Alloc {
                id: self.remap_alloc_id(id, before, after),
                bytes,
            },
            GpuOpView::Free { id } => GpuOpView::Free {
                id: self.remap_alloc_id(id, before, after),
            },
            GpuOpView::Memcpy(op) => GpuOpView::Memcpy(
                MemcpyOp { alloc: self.remap_alloc_id(op.alloc, before, after), ..op },
            ),
            GpuOpView::Kernel { kind, reads, writes, cooperative } => GpuOpView::Kernel {
                kind,
                reads: self.remap_bufs(reads, before, after),
                writes: self.remap_bufs(writes, before, after),
                cooperative,
            },
            GpuOpView::Memset(op) => GpuOpView::Memset(
                MemsetOp { id: self.remap_alloc_id(op.id, before, after), ..op },
            ),
            GpuOpView::Attach { id, flags } => GpuOpView::Attach {
                id: self.remap_alloc_id(id, before, after),
                flags,
            },
            GpuOpView::WriteValue { id, offset, value, bits32 } => GpuOpView::WriteValue {
                id: self.remap_alloc_id(id, before, after),
                offset,
                value,
                bits32,
            },
            GpuOpView::WaitValue { id, offset, value, bits32, cmp } => GpuOpView::WaitValue {
                id: self.remap_alloc_id(id, before, after),
                offset,
                value,
                bits32,
                cmp,
            },
            GpuOpView::BatchMem { ops } => GpuOpView::BatchMem {
                ops: self.remap_batch_ops(ops, before, after),
            },
            GpuOpView::AllReduce { parts, bytes } => GpuOpView::AllReduce {
                parts: self.remap_parts(parts, before, after),
                bytes,
            },
            _ => kind,
        }
    }

    /// Value of [`Sim::remap_alloc_steps`].
    pub open spec fn remap_alloc_steps(
        self,
        steps: Seq<StepView>,
        before: Seq<AllocId>,
        after: Seq<AllocId>,
    ) -> Seq<StepView> {
        Seq::new(steps.len(), |i: int| {
            let step = steps[i];
            let step = StepView { kind: self.remap_alloc_kind(step.kind, before, after), ..step };
            step
        })
    }

    /// Effect of [`Sim::refund_devices`].
    pub open spec fn refund_devices(
        self,
        devices: Seq<DeviceId>,
        id: AllocId,
        bytes: u64,
    ) -> (SimState, Result<(), SimError>) {
        let s = self;
        s.refund_devices_from(devices, id, bytes, 0)
    }

    /// [`Sim::refund_devices`] from position `i` on.
    pub open spec fn refund_devices_from(
        self,
        devices: Seq<DeviceId>,
        id: AllocId,
        bytes: u64,
        i: int,
    ) -> (SimState, Result<(), SimError>)
        decreases devices.len() - i,
    {
        let s = self;
        if 0 <= i < devices.len() {
            match s.refund_device(devices[i], id, bytes) {
                (s, Err(e)) => (s, Err(e)),
                (s, Ok(_v)) => s.refund_devices_from(devices, id, bytes, i + 1),
            }
        } else {
            (s, Ok(()))
        }
    }

    /// Effect of [`Sim::release_graph_alloc`].
    #[verifier::opaque]
    pub open spec fn release_graph_alloc(self, id: AllocId) -> (SimState, Result<(), SimError>) {
        let s = self;
        match s.allocs.get(id) {
            None => (s, Ok(())),
            Some(a) => if !a.live {
                (s, Ok(()))
            } else {
                let bytes = a.bytes;
                let devices = a.devices;
                match s.refund_devices(devices, id, bytes) {
                    (s, Err(e)) => (s, Err(e)),
                    (s, Ok(_v)) => match s.alloc_ref(id) {
                        Err(e) => (s, Err(e)),
                        Ok(b) => {
                            let b = AllocView { devices: Seq::empty(), live: false, ..b };
                            let s = SimState { allocs: s.allocs.insert(id, b), ..s };
                            let s = s.clear_mailbox(id);
                            (s, Ok(()))
                        },
                    },
                }
            },
        }
    }

    /// Effect of [`Sim::release_graph_allocs`].
    pub open spec fn release_graph_allocs(
        self,
        graph: GraphId,
    ) -> (SimState, Result<(), SimError>) {
        let s = self;
        let ids = s.allocs_of(graph);
        let s = SimState { graph_allocs: s.graph_allocs.remove(graph), ..s };
        s.release_graph_allocs_from(ids, 0)
    }

    /// [`Sim::release_graph_allocs`] from position `i` on.
    pub open spec fn release_graph_allocs_from(
        self,
        ids: Seq<AllocId>,
        i: int,
    ) -> (SimState, Result<(), SimError>)
        decreases ids.len() - i,
    {
        let s = self;
        if 0 <= i < ids.len() {
            match s.release_graph_alloc(ids[i]) {
                (s, Err(e)) => (s, Err(e)),
                (s, Ok(_v)) => s.release_graph_allocs_from(ids, i + 1),
            }
        } else {
            (s, Ok(()))
        }
    }

    /// Whether [`Sim::first_exec_of`] finds something at position `i`.
    pub open spec fn first_exec_of_at(self, def: GraphId, i: int) -> bool {
        let g = self.graphs[order_of(self.graphs.dom())[i]];
        g.src == Some(def)
    }

    /// Value of [`Sim::first_exec_of`].
    pub open spec fn first_exec_of(self, def: GraphId) -> Option<GraphId> {
        match first_where(
            order_of(self.graphs.dom()).len(),
            |i: int| self.first_exec_of_at(def, i),
        ) {
            Some(i) => {
                let id = order_of(self.graphs.dom())[i];
                Some(id)
            },
            None => None,
        }
    }

    /// Effect of [`Sim::next_primary`].
    pub open spec fn next_primary(self, def: GraphId, gone: GraphId) -> SimState {
        let s = self;
        let next = s.first_exec_of(def);
        let hit = (match s.graphs.get(def) {
            Some(d) => d.primary_exec == Some(gone),
            None => false,
        });
        if hit {
            match s.graphs.get(def) {
                Some(d) => {
                    let d = GraphView { primary_exec: next, ..d };
                    let s = SimState { graphs: s.graphs.insert(def, d), ..s };
                    s
                },
                _ => s,
            }
        } else {
            s
        }
    }

    /// Effect of [`Sim::unlink_graph`].
    pub open spec fn unlink_graph(
        self,
        graph: GraphId,
        instantiated: bool,
        src: Option<GraphId>,
    ) -> (SimState, Result<(), SimError>) {
        let s = self;
        if instantiated {
            let s = match src {
                Some(def) => {
                    let s = s.next_primary(def, graph);
                    s
                },
                _ => s,
            };
            (s, Ok(()))
        } else {
            s.release_graph_allocs(graph)
        }
    }

    /// Effect of [`Sim::destroy_graph`].
    pub open spec fn destroy_graph(self, graph: GraphId) -> (SimState, Result<(), SimError>) {
        let s = self;
        match s.fail_if_capturing("cannot capture graph destroy") {
            Err(e) => (s, Err(e)),
            Ok(_v) => match s.graph_ref(graph) {
                Err(e) => (s, Err(e)),
                Ok(g) => {
                    let device = g.origin.0;
                    let instantiated = g.instantiated;
                    let src = g.src;
                    let s = SimState { graphs: s.graphs.remove(graph), ..s };
                    match s.profile.gpu(device) {
                        Err(e) => (s, Err(e)),
                        Ok(_gpu) => match s.unlink_graph(graph, instantiated, src) {
                            (s, Err(e)) => (s, Err(e)),
                            (s, Ok(_v)) => {
                                let s = s.release_user_objects_for_graph(graph);
                                let s = SimState { clone_of: s.clone_of.remove(graph), ..s };
                                let s = s.tick(1);
                                (s, Ok(()))
                            },
                        },
                    }
                },
            },
        }
    }

    /// Effect of [`Sim::create_graph`].
    pub open spec fn create_graph(
        self,
        device: DeviceId,
        stream: StreamId,
    ) -> (SimState, Result<GraphId, SimError>) {
        let s = self;
        match s.fail_if_capturing("cannot create graph during capture") {
            Err(e) => (s, Err(e)),
            Ok(_v) => match s.profile.gpu(device) {
                Err(e) => (s, Err(e)),
                Ok(_gpu) => {
                    let (s, id) = s.insert_graph(device, stream);
                    let s = s.tick(1);
                    (s, Ok(id))
                },
            },
        }
    }
}

impl Sim {
    /// Allocations of the nodes of a graph.
    pub fn graph_mem_allocs(&self, graph: GraphId) -> (r: Result<Vec<AllocId>, SimError>)
        ensures
            ok_view(r) == self@.graph_mem_allocs(graph),
    {
        if !self.graphs.contains_key(graph) {
            return Err(invalid("unknown graph"));
        }
        Ok(self.graph_mem_ids(graph))
    }

    /// `order` with the graphs that `graph` nests and `graph` itself at the end, each once and
    /// after what it nests. `stack` holds the graphs being expanded.
    pub(crate) fn collect_clone_tree(
        &self,
        graph: GraphId,
        stack: &Vec<GraphId>,
        order: &Vec<GraphId>,
        fuel: usize,
    ) -> (r: Result<Vec<GraphId>, SimError>)
        ensures
            ok_view(r) == self@.collect_clone_tree(graph, stack@, order@, fuel),
        decreases fuel, 2int, 0int,
    {
        if has_key(order, graph) {
            return Ok(copy_vec(order));
        }
        if has_key(stack, graph) || fuel == 0 {
            return Err(invalid("cyclic child graph"));
        }
        let g = self.graph_ref(graph)?;
        let nested: Vec<GraphId> = all_nested(&g.steps);
        let mut inner: Vec<GraphId> = copy_vec(stack);
        inner.push(graph);
        let mut out: Vec<GraphId> = self.collect_nested(
            &nested,
            &inner,
            order,
            fuel.saturating_sub(1),
        )?;
        out.push(graph);
        Ok(out)
    }

    /// `order` with several graphs and what they nest.
    pub(crate) fn collect_nested(
        &self,
        nested: &Vec<GraphId>,
        stack: &Vec<GraphId>,
        order: &Vec<GraphId>,
        fuel: usize,
    ) -> (r: Result<Vec<GraphId>, SimError>)
        ensures
            ok_view(r) == self@.collect_nested(nested@, stack@, order@, fuel),
        decreases fuel, 5int, 0int,
    {
        let mut out: Vec<GraphId> = copy_vec(order);
        let mut i: usize = 0;
        while i < nested.len()
            invariant
                i <= nested@.len(),
                self@.collect_nested(nested@, stack@, order@, fuel) == self@.collect_nested_from(
                    nested@,
                    stack@,
                    fuel,
                    out@,
                    i as int,
                ),
            decreases nested@.len() - i,
        {
            out = self.collect_clone_tree(nested[i], stack, &out, fuel)?;
            i += 1;
        }
        Ok(out)
    }

    /// Copy of a graph and of everything it nests, with allocations and handles of its own.
    pub fn clone_graph(&mut self, graph: GraphId) -> (r: Result<GraphId, SimError>)
        ensures
            final(self)@ == old(self)@.clone_graph(graph).0,
            r == old(self)@.clone_graph(graph).1,
    {
        self.fail_if_capturing("cannot capture graph clone")?;
        let none: Vec<GraphId> = Vec::new();
        let order: Vec<GraphId> = self.collect_clone_tree(graph, &none, &none, self.tree_fuel())?;
        let remap: Table<GraphId, GraphId> = self.number_clones(&order);
        let origins: Vec<Lane> = self.origins_of(&order);
        let built: Rows<Rows<GraphStep>> = self.build_clones(&order, &remap)?;
        self.insert_clones(&order, &remap, &origins, &built)?;
        self.note_clones(&remap);
        self.clone_conditionals(&remap)?;
        self.clone_id(&remap, graph)
    }

    /// A new id for each graph.
    pub(crate) fn number_clones(&mut self, order: &Vec<GraphId>) -> (r: Table<GraphId, GraphId>)
        ensures
            final(self)@ == old(self)@.number_clones(order@).0,
            r@ == old(self)@.number_clones(order@).1,
    {
        let mut remap: Table<GraphId, GraphId> = Table::new();
        let mut i: usize = 0;
        while i < order.len()
            invariant
                i <= order@.len(),
                old(self)@.number_clones(order@) == self@.number_clones_from(
                    order@,
                    remap@,
                    i as int,
                ),
            decreases order@.len() - i,
        {
            let id = GraphId(self.next.graph);
            self.next.graph = self.next.graph.saturating_add(1);
            remap.insert(order[i], id);
            i += 1;
        }
        remap
    }

    /// Stream of each graph.
    pub(crate) fn origins_of(&self, order: &Vec<GraphId>) -> (r: Vec<Lane>)
        ensures
            r@ == self@.origins_of(order@),
    {
        let mut out: Vec<Lane> = Vec::new();
        let mut i: usize = 0;
        while i < order.len()
            invariant
                i <= order@.len(),
                out@.len() == i,
                forall|j: int| 0 <= j < i ==> #[trigger] out@[j] == self@.origins_of_at(order@, j),
            decreases order@.len() - i,
        {
            let at: Lane = match self.graphs.get(order[i]) {
                Some(g) => g.origin,
                None => Lane(DeviceId(0), StreamId(0)),
            };
            out.push(at);
            i += 1;
        }
        assert(out@ =~= Seq::new(order@.len(), |j: int| self@.origins_of_at(order@, j)));
        out
    }

    /// The copy of a graph.
    pub(crate) fn clone_id(
        &self,
        remap: &Table<GraphId, GraphId>,
        graph: GraphId,
    ) -> (r: Result<GraphId, SimError>)
        ensures
            r == self@.clone_id(remap@, graph),
    {
        match remap.get(graph) {
            Some(id) => Ok(*id),
            None => Err(invalid("unknown graph")),
        }
    }

    /// Copies of several graphs.
    pub(crate) fn clone_ids(
        &self,
        remap: &Table<GraphId, GraphId>,
        graphs: &Vec<GraphId>,
    ) -> (r: Result<Vec<GraphId>, SimError>)
        ensures
            ok_view(r) == self@.clone_ids(remap@, graphs@),
    {
        let mut out: Vec<GraphId> = Vec::new();
        let mut i: usize = 0;
        while i < graphs.len()
            invariant
                i <= graphs@.len(),
                self@.clone_ids(remap@, graphs@) == all_ok(
                    graphs@.len(),
                    |j: int| self@.clone_ids_at(remap@, graphs@, j),
                ),
                out@.len() == i,
                forall|j: int| 0 <= j < i ==> #[trigger] self@.clone_ids_at(remap@, graphs@, j) is Ok && self@.clone_ids_at(
                    remap@,
                    graphs@,
                    j,
                )->Ok_0 == out@[j],
            decreases graphs@.len() - i,
        {
            proof {
                lemma_all_ok(
                    graphs@.len(),
                    |j: int| self@.clone_ids_at(remap@, graphs@, j),
                    i as int,
                );
            }
            let id = self.clone_id(remap, graphs[i])?;
            out.push(id);
            i += 1;
        }
        proof {
            lemma_all_done(graphs@.len(), |j: int| self@.clone_ids_at(remap@, graphs@, j), out@);
        }
        Ok(out)
    }

    /// The node with nested graphs replaced by their copies.
    pub(crate) fn remap_nested_graph(
        &self,
        kind: &GpuOp,
        remap: &Table<GraphId, GraphId>,
    ) -> (r: Result<GpuOp, SimError>)
        ensures
            ok_view(r) == self@.remap_nested_graph(kind@, remap@),
    {
        match kind {
            GpuOp::ChildGraph { graph } => {
                let id = self.clone_id(remap, *graph)?;
                Ok(GpuOp::ChildGraph { graph: id })
            },
            GpuOp::If { handle, body } => {
                let id = self.clone_id(remap, *body)?;
                Ok(GpuOp::If { handle: *handle, body: id })
            },
            GpuOp::While { handle, body } => {
                let id = self.clone_id(remap, *body)?;
                Ok(GpuOp::While { handle: *handle, body: id })
            },
            GpuOp::Switch { handle, bodies } => {
                let ids: Vec<GraphId> = self.clone_ids(remap, bodies)?;
                Ok(GpuOp::Switch { handle: *handle, bodies: ids })
            },
            _ => Ok(kind.dup()),
        }
    }

    /// What a node does in a copy.
    pub(crate) fn cloned_kind(
        &self,
        step: &GraphStep,
        remap: &Table<GraphId, GraphId>,
    ) -> (r: Result<GpuOp, SimError>)
        ensures
            ok_view(r) == self@.cloned_kind(step@, remap@),
    {
        if step.destroyed {
            return Ok(step.kind.dup());
        }
        self.remap_nested_graph(&step.kind, remap)
    }

    /// Nodes with nested graphs replaced by their copies. Destroyed nodes stay as they are.
    pub(crate) fn remap_nested_graphs(
        &self,
        steps: &Rows<GraphStep>,
        remap: &Table<GraphId, GraphId>,
    ) -> (r: Result<Rows<GraphStep>, SimError>)
        ensures
            ok_view(r) == self@.remap_nested_graphs(steps@, remap@),
    {
        let mut out: Rows<GraphStep> = Rows::new();
        let mut i: usize = 0;
        while i < steps.len()
            invariant
                i <= steps@.len(),
                self@.remap_nested_graphs(steps@, remap@) == all_ok(
                    steps@.len(),
                    |j: int| self@.remap_nested_graphs_at(steps@, remap@, j),
                ),
                out@.len() == i,
                forall|j: int| 0 <= j < i ==> #[trigger] self@.remap_nested_graphs_at(steps@, remap@, j) is Ok && self@.remap_nested_graphs_at(
                    steps@,
                    remap@,
                    j,
                )->Ok_0 == out@[j],
            decreases steps@.len() - i,
        {
            proof {
                lemma_all_ok(
                    steps@.len(),
                    |j: int| self@.remap_nested_graphs_at(steps@, remap@, j),
                    i as int,
                );
            }
            let mut step: GraphStep = steps.at(i).dup();
            step.kind = self.cloned_kind(&step, remap)?;
            out.push(step);
            i += 1;
        }
        proof {
            lemma_all_done(
                steps@.len(),
                |j: int| self@.remap_nested_graphs_at(steps@, remap@, j),
                out@,
            );
        }
        Ok(out)
    }

    /// Nodes of every copy.
    pub(crate) fn build_clones(
        &mut self,
        order: &Vec<GraphId>,
        remap: &Table<GraphId, GraphId>,
    ) -> (r: Result<Rows<Rows<GraphStep>>, SimError>)
        ensures
            final(self)@ == old(self)@.build_clones(order@, remap@).0,
            ok_view(r) == old(self)@.build_clones(order@, remap@).1,
    {
        let mut built: Rows<Rows<GraphStep>> = Rows::new();
        let mut i: usize = 0;
        while i < order.len()
            invariant
                i <= order@.len(),
                old(self)@.build_clones(order@, remap@) == self@.build_clones_from(
                    order@,
                    remap@,
                    built@,
                    i as int,
                ),
            decreases order@.len() - i,
        {
            let g = self.graph_ref(order[i])?;
            let raw: Rows<GraphStep> = self.remap_nested_graphs(&g.steps, remap)?;
            let id = self.clone_id(remap, order[i])?;
            let steps: Rows<GraphStep> = self.clone_mem_alloc_nodes(order[i], id, &raw)?;
            built.push(steps);
            i += 1;
        }
        Ok(built)
    }

    /// Add the copies as definitions.
    pub(crate) fn insert_clones(
        &mut self,
        order: &Vec<GraphId>,
        remap: &Table<GraphId, GraphId>,
        origins: &Vec<Lane>,
        built: &Rows<Rows<GraphStep>>,
    ) -> (r: Result<(), SimError>)
        ensures
            final(self)@ == old(self)@.insert_clones(order@, remap@, origins@, built@).0,
            r == old(self)@.insert_clones(order@, remap@, origins@, built@).1,
    {
        let mut i: usize = 0;
        while i < order.len()
            invariant
                i <= order@.len(),
                old(self)@.insert_clones(order@, remap@, origins@, built@) == self@.insert_clones_from(
                    order@,
                    remap@,
                    origins@,
                    built@,
                    i as int,
                ),
            decreases order@.len() - i,
        {
            if i >= origins.len() || i >= built.len() {
                return Err(invalid("unknown graph"));
            }
            let gpu = self.profile.gpu(origins[i].0)?;
            let ns: u64 = max_u64(gpu.graph_clone_ns, 1);
            let id = self.clone_id(remap, order[i])?;
            self.tick(ns);
            let g = Graph {
                steps: built.at(i).dup(),
                snapshot: None,
                origin: origins[i],
                instantiated: false,
                uploaded: false,
                auto_free_on_launch: false,
                instantiate_flags: 0,
                device_launch_tail: None,
                primary_exec: None,
                src: None,
            };
            self.graphs.insert(id, g);
            i += 1;
        }
        Ok(())
    }

    /// Remember what each copy was made from.
    pub(crate) fn note_clones(&mut self, remap: &Table<GraphId, GraphId>)
        ensures
            final(self)@ == old(self)@.note_clones(remap@),
    {
        let mut i: usize = 0;
        while i < remap.len()
            invariant
                i <= order_of(remap@.dom()).len(),
                old(self)@.note_clones(remap@) == self@.note_clones_from(remap@, i as int),
            decreases order_of(remap@.dom()).len() - i,
        {
            let src = remap.key_at(i);
            let id = *remap.val_at(i);
            self.clone_of.insert(id, src);
            i += 1;
        }
    }

    /// Handles of the cloned graphs, with their values back at the defaults.
    pub(crate) fn conds_to_clone(&self, remap: &Table<GraphId, GraphId>) -> (r: Vec<(CondId, Cond)>)
        ensures
            r@ == self@.conds_to_clone(remap@),
    {
        let mut out: Vec<(CondId, Cond)> = Vec::new();
        let mut i: usize = 0;
        while i < self.conds.len()
            invariant
                i <= order_of(self@.conds.dom()).len(),
                out@ == picked(i as nat, |j: int| self@.conds_to_clone_at(remap@, j)),
            decreases order_of(self@.conds.dom()).len() - i,
        {
            let c: Cond = *self.conds.val_at(i);
            if remap.contains_key(c.graph) {
                out.push(
                    (
                        self.conds.key_at(i),
                        Cond { graph: c.graph, default: c.default, value: c.default },
                    ),
                );
            }
            i += 1;
        }
        out
    }

    /// A new handle for each.
    pub(crate) fn number_conds(
        &mut self,
        conds: &Vec<(CondId, Cond)>,
        remap: &Table<GraphId, GraphId>,
    ) -> (r: Result<Table<CondId, CondId>, SimError>)
        ensures
            final(self)@ == old(self)@.number_conds(conds@, remap@).0,
            ok_view(r) == old(self)@.number_conds(conds@, remap@).1,
    {
        let mut renamed: Table<CondId, CondId> = Table::new();
        let mut i: usize = 0;
        while i < conds.len()
            invariant
                i <= conds@.len(),
                old(self)@.number_conds(conds@, remap@) == self@.number_conds_from(
                    conds@,
                    remap@,
                    renamed@,
                    i as int,
                ),
            decreases conds@.len() - i,
        {
            let c: Cond = conds[i].1;
            let graph = self.clone_id(remap, c.graph)?;
            let id = CondId(self.next.cond);
            self.next.cond = self.next.cond.saturating_add(1);
            renamed.insert(conds[i].0, id);
            self.conds.insert(id, Cond { graph, default: c.default, value: c.value });
            i += 1;
        }
        Ok(renamed)
    }

    /// The new handle, or the old one if it has none.
    pub(crate) fn renamed_cond(
        &self,
        renamed: &Table<CondId, CondId>,
        handle: CondId,
    ) -> (r: CondId)
        ensures
            r == self@.renamed_cond(renamed@, handle),
    {
        match renamed.get(handle) {
            Some(h) => *h,
            None => handle,
        }
    }

    /// The node with handles replaced.
    pub(crate) fn rename_conds(&self, kind: &GpuOp, renamed: &Table<CondId, CondId>) -> (r: GpuOp)
        ensures
            r@ == self@.rename_conds(kind@, renamed@),
    {
        match kind {
            GpuOp::If { handle, body } => GpuOp::If {
                handle: self.renamed_cond(renamed, *handle),
                body: *body,
            },
            GpuOp::While { handle, body } => GpuOp::While {
                handle: self.renamed_cond(renamed, *handle),
                body: *body,
            },
            GpuOp::Switch { handle, bodies } => GpuOp::Switch {
                handle: self.renamed_cond(renamed, *handle),
                bodies: copy_vec(bodies),
            },
            GpuOp::SetConditional { handle, value } => GpuOp::SetConditional {
                handle: self.renamed_cond(renamed, *handle),
                value: *value,
            },
            GpuOp::WhileTick { handle, body, iter } => GpuOp::WhileTick {
                handle: self.renamed_cond(renamed, *handle),
                body: *body,
                iter: *iter,
            },
            _ => kind.dup(),
        }
    }

    /// Nodes with handles replaced.
    pub(crate) fn rename_step_conds(
        &self,
        steps: &Rows<GraphStep>,
        renamed: &Table<CondId, CondId>,
    ) -> (r: Rows<GraphStep>)
        ensures
            r@ == self@.rename_step_conds(steps@, renamed@),
    {
        let mut out: Rows<GraphStep> = Rows::new();
        let mut i: usize = 0;
        while i < steps.len()
            invariant
                i <= steps@.len(),
                out@.len() == i,
                forall|j: int| 0 <= j < i ==> #[trigger] out@[j] == self@.rename_step_conds(
                    steps@,
                    renamed@,
                )[j],
            decreases steps@.len() - i,
        {
            let mut step: GraphStep = steps.at(i).dup();
            step.kind = self.rename_conds(&step.kind, renamed);
            out.push(step);
            i += 1;
        }
        assert(out@ =~= self@.rename_step_conds(steps@, renamed@));
        out
    }

    /// Give the copies handles of their own.
    pub(crate) fn clone_conditionals(
        &mut self,
        remap: &Table<GraphId, GraphId>,
    ) -> (r: Result<(), SimError>)
        ensures
            final(self)@ == old(self)@.clone_conditionals(remap@).0,
            r == old(self)@.clone_conditionals(remap@).1,
    {
        let conds: Vec<(CondId, Cond)> = self.conds_to_clone(remap);
        let renamed: Table<CondId, CondId> = self.number_conds(&conds, remap)?;
        if renamed.is_vacant() {
            return Ok(());
        }
        let mut i: usize = 0;
        while i < remap.len()
            invariant
                i <= order_of(remap@.dom()).len(),
                old(self)@.clone_conditionals(remap@) == self@.clone_conditionals_from(
                    remap@,
                    renamed@,
                    i as int,
                ),
            decreases order_of(remap@.dom()).len() - i,
        {
            let id: GraphId = *remap.val_at(i);
            let g = self.graph_ref(id)?;
            let steps: Rows<GraphStep> = self.rename_step_conds(&g.steps, &renamed);
            let h = self.graph_mut(id)?;
            h.steps = steps;
            i += 1;
        }
        Ok(())
    }

    /// Fresh allocation of the size and pool of `src`.
    pub(crate) fn fork_alloc(&mut self, src: AllocId) -> (r: Result<AllocId, SimError>)
        ensures
            final(self)@ == old(self)@.fork_alloc(src).0,
            r == old(self)@.fork_alloc(src).1,
    {
        let a = self.alloc_ref(src)?;
        let bytes: u64 = a.bytes;
        let pool: Option<PoolId> = a.pool;
        let mut b: Alloc = Alloc::blank(bytes);
        b.pool = pool;
        let id = self.add_alloc(b);
        Ok(id)
    }

    /// A fresh allocation for each.
    pub(crate) fn fork_allocs(&mut self, ids: &Vec<AllocId>) -> (r: Result<Vec<AllocId>, SimError>)
        ensures
            final(self)@ == old(self)@.fork_allocs(ids@).0,
            ok_view(r) == old(self)@.fork_allocs(ids@).1,
    {
        let mut out: Vec<AllocId> = Vec::new();
        let mut i: usize = 0;
        while i < ids.len()
            invariant
                i <= ids@.len(),
                old(self)@.fork_allocs(ids@) == self@.fork_allocs_from(ids@, out@, i as int),
            decreases ids@.len() - i,
        {
            let id = self.fork_alloc(ids[i])?;
            out.push(id);
            i += 1;
        }
        Ok(out)
    }

    /// Give a copy allocations of its own.
    pub(crate) fn clone_mem_alloc_nodes(
        &mut self,
        src: GraphId,
        dst: GraphId,
        steps: &Rows<GraphStep>,
    ) -> (r: Result<Rows<GraphStep>, SimError>)
        ensures
            final(self)@ == old(self)@.clone_mem_alloc_nodes(src, dst, steps@).0,
            ok_view(r) == old(self)@.clone_mem_alloc_nodes(src, dst, steps@).1,
    {
        let before: Vec<AllocId> = self.allocs_of(src);
        if before.len() == 0 {
            return Ok(steps.dup());
        }
        let after: Vec<AllocId> = self.fork_allocs(&before)?;
        self.graph_allocs.insert(dst, copy_vec(&after));
        Ok(self.remap_alloc_steps(steps, &before, &after))
    }

    /// The replacement of an allocation: the entry of `after` at its last position in `before`, or
    /// the allocation itself.
    pub(crate) fn remap_alloc_id(
        &self,
        id: AllocId,
        before: &Vec<AllocId>,
        after: &Vec<AllocId>,
    ) -> (r: AllocId)
        ensures
            r == self@.remap_alloc_id(id, before@, after@),
    {
        let mut out: AllocId = id;
        let mut i: usize = 0;
        while i < before.len()
            invariant
                i <= before@.len(),
                self@.remap_alloc_id(id, before@, after@) == self@.remap_alloc_id_from(
                    id,
                    before@,
                    after@,
                    out,
                    i as int,
                ),
            decreases before@.len() - i,
        {
            if before[i] == id && i < after.len() {
                out = after[i];
            }
            i += 1;
        }
        out
    }

    /// Buffers with allocations replaced.
    pub(crate) fn remap_bufs(
        &self,
        bufs: &Vec<KernelBuf>,
        before: &Vec<AllocId>,
        after: &Vec<AllocId>,
    ) -> (r: Vec<KernelBuf>)
        ensures
            r@ == self@.remap_bufs(bufs@, before@, after@),
    {
        let mut out: Vec<KernelBuf> = Vec::new();
        let mut i: usize = 0;
        while i < bufs.len()
            invariant
                i <= bufs@.len(),
                out@.len() == i,
                forall|j: int| 0 <= j < i ==> #[trigger] out@[j] == self@.remap_bufs(
                    bufs@,
                    before@,
                    after@,
                )[j],
            decreases bufs@.len() - i,
        {
            let b: KernelBuf = bufs[i];
            out.push(
                KernelBuf {
                    id: self.remap_alloc_id(b.id, before, after),
                    offset: b.offset,
                    bytes: b.bytes,
                },
            );
            i += 1;
        }
        assert(out@ =~= self@.remap_bufs(bufs@, before@, after@));
        out
    }

    /// Stream memory operation with its allocation replaced.
    pub(crate) fn remap_batch_op(
        &self,
        op: BatchMemOp,
        before: &Vec<AllocId>,
        after: &Vec<AllocId>,
    ) -> (r: BatchMemOp)
        ensures
            r == self@.remap_batch_op(op, before@, after@),
    {
        match op {
            BatchMemOp::Write { id, offset, value, bits32 } => BatchMemOp::Write {
                id: self.remap_alloc_id(id, before, after),
                offset,
                value,
                bits32,
            },
            BatchMemOp::Wait { id, offset, value, bits32, cmp } => BatchMemOp::Wait {
                id: self.remap_alloc_id(id, before, after),
                offset,
                value,
                bits32,
                cmp,
            },
        }
    }

    /// Stream memory operations with allocations replaced.
    pub(crate) fn remap_batch_ops(
        &self,
        ops: &Vec<BatchMemOp>,
        before: &Vec<AllocId>,
        after: &Vec<AllocId>,
    ) -> (r: Vec<BatchMemOp>)
        ensures
            r@ == self@.remap_batch_ops(ops@, before@, after@),
    {
        let mut out: Vec<BatchMemOp> = Vec::new();
        let mut i: usize = 0;
        while i < ops.len()
            invariant
                i <= ops@.len(),
                out@.len() == i,
                forall|j: int| 0 <= j < i ==> #[trigger] out@[j] == self@.remap_batch_ops(
                    ops@,
                    before@,
                    after@,
                )[j],
            decreases ops@.len() - i,
        {
            out.push(self.remap_batch_op(ops[i], before, after));
            i += 1;
        }
        assert(out@ =~= self@.remap_batch_ops(ops@, before@, after@));
        out
    }

    /// Ranks of a reduction with allocations replaced.
    pub(crate) fn remap_parts(
        &self,
        parts: &Vec<(DeviceId, AllocId)>,
        before: &Vec<AllocId>,
        after: &Vec<AllocId>,
    ) -> (r: Vec<(DeviceId, AllocId)>)
        ensures
            r@ == self@.remap_parts(parts@, before@, after@),
    {
        let mut out: Vec<(DeviceId, AllocId)> = Vec::new();
        let mut i: usize = 0;
        while i < parts.len()
            invariant
                i <= parts@.len(),
                out@.len() == i,
                forall|j: int| 0 <= j < i ==> #[trigger] out@[j] == self@.remap_parts(
                    parts@,
                    before@,
                    after@,
                )[j],
            decreases parts@.len() - i,
        {
            out.push((parts[i].0, self.remap_alloc_id(parts[i].1, before, after)));
            i += 1;
        }
        assert(out@ =~= self@.remap_parts(parts@, before@, after@));
        out
    }

    /// The node with allocations replaced.
    pub(crate) fn remap_alloc_kind(
        &self,
        kind: &GpuOp,
        before: &Vec<AllocId>,
        after: &Vec<AllocId>,
    ) -> (r: GpuOp)
        ensures
            r@ == self@.remap_alloc_kind(kind@, before@, after@),
    {
        match kind {
            GpuOp::Alloc { id, bytes } => GpuOp::Alloc {
                id: self.remap_alloc_id(*id, before, after),
                bytes: *bytes,
            },
            GpuOp::Free { id } => GpuOp::Free { id: self.remap_alloc_id(*id, before, after) },
            GpuOp::Memcpy(op) => GpuOp::Memcpy(
                MemcpyOp { alloc: self.remap_alloc_id(op.alloc, before, after), ..*op },
            ),
            GpuOp::Kernel { kind, reads, writes, cooperative } => GpuOp::Kernel {
                kind: *kind,
                reads: self.remap_bufs(reads, before, after),
                writes: self.remap_bufs(writes, before, after),
                cooperative: *cooperative,
            },
            GpuOp::Memset(op) => GpuOp::Memset(
                MemsetOp { id: self.remap_alloc_id(op.id, before, after), ..*op },
            ),
            GpuOp::Attach { id, flags } => GpuOp::Attach {
                id: self.remap_alloc_id(*id, before, after),
                flags: *flags,
            },
            GpuOp::WriteValue { id, offset, value, bits32 } => GpuOp::WriteValue {
                id: self.remap_alloc_id(*id, before, after),
                offset: *offset,
                value: *value,
                bits32: *bits32,
            },
            GpuOp::WaitValue { id, offset, value, bits32, cmp } => GpuOp::WaitValue {
                id: self.remap_alloc_id(*id, before, after),
                offset: *offset,
                value: *value,
                bits32: *bits32,
                cmp: *cmp,
            },
            GpuOp::BatchMem { ops } => GpuOp::BatchMem {
                ops: self.remap_batch_ops(ops, before, after),
            },
            GpuOp::AllReduce { parts, bytes } => GpuOp::AllReduce {
                parts: self.remap_parts(parts, before, after),
                bytes: *bytes,
            },
            _ => kind.dup(),
        }
    }

    /// Nodes with allocations replaced.
    pub(crate) fn remap_alloc_steps(
        &self,
        steps: &Rows<GraphStep>,
        before: &Vec<AllocId>,
        after: &Vec<AllocId>,
    ) -> (r: Rows<GraphStep>)
        ensures
            r@ == self@.remap_alloc_steps(steps@, before@, after@),
    {
        let mut out: Rows<GraphStep> = Rows::new();
        let mut i: usize = 0;
        while i < steps.len()
            invariant
                i <= steps@.len(),
                out@.len() == i,
                forall|j: int| 0 <= j < i ==> #[trigger] out@[j] == self@.remap_alloc_steps(
                    steps@,
                    before@,
                    after@,
                )[j],
            decreases steps@.len() - i,
        {
            let mut step: GraphStep = steps.at(i).dup();
            step.kind = self.remap_alloc_kind(&step.kind, before, after);
            out.push(step);
            i += 1;
        }
        assert(out@ =~= self@.remap_alloc_steps(steps@, before@, after@));
        out
    }

    /// Refund a live allocation on each of the devices.
    pub(crate) fn refund_devices(
        &mut self,
        devices: &Vec<DeviceId>,
        id: AllocId,
        bytes: u64,
    ) -> (r: Result<(), SimError>)
        ensures
            final(self)@ == old(self)@.refund_devices(devices@, id, bytes).0,
            r == old(self)@.refund_devices(devices@, id, bytes).1,
    {
        let mut i: usize = 0;
        while i < devices.len()
            invariant
                i <= devices@.len(),
                old(self)@.refund_devices(devices@, id, bytes) == self@.refund_devices_from(
                    devices@,
                    id,
                    bytes,
                    i as int,
                ),
            decreases devices@.len() - i,
        {
            self.refund_device(devices[i], id, bytes)?;
            i += 1;
        }
        Ok(())
    }

    /// Free an allocation of a graph that goes, if it is live.
    pub(crate) fn release_graph_alloc(&mut self, id: AllocId) -> (r: Result<(), SimError>)
        ensures
            final(self)@ == old(self)@.release_graph_alloc(id).0,
            r == old(self)@.release_graph_alloc(id).1,
    {
        reveal(SimState::release_graph_alloc);
        match self.allocs.get(id) {
            None => Ok(()),
            Some(a) => {
                if !a.live {
                    return Ok(());
                }
                let bytes: u64 = a.bytes;
                let devices: Vec<DeviceId> = copy_vec(&a.devices);
                self.refund_devices(&devices, id, bytes)?;
                let b = self.alloc_mut(id)?;
                b.devices = Vec::new();
                b.live = false;
                self.clear_mailbox(id);
                Ok(())
            },
        }
    }

    /// Free the allocations of a graph that goes.
    pub(crate) fn release_graph_allocs(&mut self, graph: GraphId) -> (r: Result<(), SimError>)
        ensures
            final(self)@ == old(self)@.release_graph_allocs(graph).0,
            r == old(self)@.release_graph_allocs(graph).1,
    {
        let ids: Vec<AllocId> = self.allocs_of(graph);
        let _gone = self.graph_allocs.remove(graph);
        let mut i: usize = 0;
        while i < ids.len()
            invariant
                i <= ids@.len(),
                old(self)@.release_graph_allocs(graph) == self@.release_graph_allocs_from(ids@, i as int),
            decreases ids@.len() - i,
        {
            self.release_graph_alloc(ids[i])?;
            i += 1;
        }
        Ok(())
    }

    /// First executable of a definition.
    pub(crate) fn first_exec_of(&self, def: GraphId) -> (r: Option<GraphId>)
        ensures
            r == self@.first_exec_of(def),
    {
        let mut i: usize = 0;
        while i < self.graphs.len()
            invariant
                i <= order_of(self@.graphs.dom()).len(),
                forall|j: int| 0 <= j < i ==> !#[trigger] self@.first_exec_of_at(def, j),
            decreases order_of(self@.graphs.dom()).len() - i,
        {
            let id = self.graphs.key_at(i);
            let g = self.graphs.val_at(i);
            if g.src == Some(def) {
                proof {
                    lemma_first_at(
                        order_of(self@.graphs.dom()).len(),
                        |j: int| self@.first_exec_of_at(def, j),
                        i as int,
                    );
                }
                return Some(id);
            }
            i += 1;
        }
        None
    }

    /// A definition whose primary executable has gone takes the next one.
    pub(crate) fn next_primary(&mut self, def: GraphId, gone: GraphId)
        ensures
            final(self)@ == old(self)@.next_primary(def, gone),
    {
        let next: Option<GraphId> = self.first_exec_of(def);
        let hit: bool = match self.graphs.get(def) {
            Some(d) => d.primary_exec == Some(gone),
            None => false,
        };
        if hit {
            if let Some(d) = self.graphs.get_mut(def) {
                d.primary_exec = next;
            }
        }
    }

    /// What the end of a graph gives back: the place of a primary executable, or the allocations
    /// of a definition.
    pub(crate) fn unlink_graph(
        &mut self,
        graph: GraphId,
        instantiated: bool,
        src: Option<GraphId>,
    ) -> (r: Result<(), SimError>)
        ensures
            final(self)@ == old(self)@.unlink_graph(graph, instantiated, src).0,
            r == old(self)@.unlink_graph(graph, instantiated, src).1,
    {
        if instantiated {
            if let Some(def) = src {
                self.next_primary(def, graph);
            }
            return Ok(());
        }
        self.release_graph_allocs(graph)
    }

    /// Destroy a definition or an executable. The allocations of a definition go back to the
    /// graph-memory pool.
    pub fn destroy_graph(&mut self, graph: GraphId) -> (r: Result<(), SimError>)
        ensures
            final(self)@ == old(self)@.destroy_graph(graph).0,
            r == old(self)@.destroy_graph(graph).1,
    {
        self.fail_if_capturing("cannot capture graph destroy")?;
        let g = self.graph_ref(graph)?;
        let device = g.origin.0;
        let instantiated: bool = g.instantiated;
        let src: Option<GraphId> = g.src;
        let _gone = self.graphs.remove(graph);
        let _gpu = self.profile.gpu(device)?;
        self.unlink_graph(graph, instantiated, src)?;
        self.release_user_objects_for_graph(graph);
        let _from = self.clone_of.remove(graph);
        self.tick(1);
        Ok(())
    }

    /// New empty definition.
    pub fn create_graph(
        &mut self,
        device: DeviceId,
        stream: StreamId,
    ) -> (r: Result<GraphId, SimError>)
        ensures
            final(self)@ == old(self)@.create_graph(device, stream).0,
            r == old(self)@.create_graph(device, stream).1,
    {
        self.fail_if_capturing("cannot create graph during capture")?;
        let _gpu = self.profile.gpu(device)?;
        let id = self.insert_graph(device, stream);
        self.tick(1);
        Ok(id)
    }
}

} // verus!
