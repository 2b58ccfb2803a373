//! Whole-graph update of an executable.
use vstd::prelude::*;
use crate::error::{invalid, SimError};
use crate::ids::{DeviceId, GraphId};
use crate::list::{Dup, first_where, lemma_first_at, Rows, same_keys};
use crate::num::max_u64;
use crate::ops::{
    GpuOp, GpuOpView, GraphExecUpdateResult, GraphExecUpdateResultInfo, GraphInstantiateFlags,
};
use crate::sim::{Sim, SimState};
use crate::state::{Graph, GraphStep, GraphView, StepView};

verus! {

impl GraphExecUpdateResultInfo {
    /// An outcome with the nodes at fault.
    #[verifier::allow_in_spec]
    pub fn of(
        result: GraphExecUpdateResult,
        error_node: Option<usize>,
        error_from_node: Option<usize>,
    ) -> GraphExecUpdateResultInfo
        returns
            (GraphExecUpdateResultInfo { result, error_node, error_from_node }),
    {
        GraphExecUpdateResultInfo { result, error_node, error_from_node }
    }
}

impl GraphView {
    /// Whether [`Graph::current_mem`] finds something at position `i`.
    pub open spec fn current_mem_at(self, i: int) -> bool {
        !self.current()[i].destroyed && self.current()[i].kind.is_mem_node()
    }

    /// Value of [`Graph::current_mem`].
    pub open spec fn current_mem(self) -> Option<usize> {
        match first_where(self.current().len(), |i: int| self.current_mem_at(i)) {
            Some(i) => Some(i as usize),
            None => None,
        }
    }
}

impl Graph {
    /// First allocation or free node of the snapshot, else of the definition. Destroyed nodes do not
    /// count.
    pub fn current_mem(&self) -> (r: Option<usize>)
        ensures
            r == self@.current_mem(),
    {
        let mut i: usize = 0;
        while i < self.current().len()
            invariant
                i <= self@.current().len(),
                forall|j: int| 0 <= j < i ==> !#[trigger] self@.current_mem_at(j),
            decreases self@.current().len() - i,
        {
            if !self.current().at(i).destroyed && self.current().at(i).kind.is_mem_node() {
                proof {
                    lemma_first_at(
                        self@.current().len(),
                        |j: int| self@.current_mem_at(j),
                        i as int,
                    );
                }
                return Some(i);
            }
            i += 1;
        }
        None
    }
}

impl SimState {
    /// Value of [`Sim::def_ids`].
    pub open spec fn def_ids(self, graphs: Seq<GraphId>) -> Seq<GraphId> {
        Seq::new(graphs.len(), |i: int| self.def_id(graphs[i]))
    }

    /// Value of [`Sim::kind_def_ids`].
    pub open spec fn kind_def_ids(self, kind: GpuOpView) -> GpuOpView {
        match kind {
            GpuOpView::ChildGraph { graph } => GpuOpView::ChildGraph { graph: self.def_id(graph) },
            GpuOpView::If { handle, body } => GpuOpView::If { handle, body: self.def_id(body) },
            GpuOpView::While { handle, body } => GpuOpView::While {
                handle,
                body: self.def_id(body),
            },
            GpuOpView::Switch { handle, bodies } => GpuOpView::Switch {
                handle,
                bodies: self.def_ids(bodies),
            },
            _ => kind,
        }
    }

    /// Value of [`Sim::steps_def_ids`].
    pub open spec fn steps_def_ids(self, steps: Seq<StepView>) -> Seq<StepView> {
        Seq::new(steps.len(), |i: int| {
            let step = steps[i];
            let step = StepView { kind: self.kind_def_ids(step.kind), ..step };
            step
        })
    }

    /// Value of [`Sim::dep_at`].
    pub open spec fn dep_at(self, deps: Seq<usize>, k: usize) -> Option<usize> {
        if k < deps.len() {
            Some(deps[k as int])
        } else {
            None
        }
    }

    /// Value of [`Sim::dep_mismatch`].
    pub open spec fn dep_mismatch(
        self,
        before: Seq<usize>,
        after: Seq<usize>,
        to: usize,
    ) -> GraphExecUpdateResultInfo {
        let n = if before.len() > after.len() {
            (before.len() as usize)
        } else {
            (after.len() as usize)
        };
        self.dep_mismatch_from(before, after, to, n, 0)
    }

    /// [`Sim::dep_mismatch`] from position `k` on.
    pub open spec fn dep_mismatch_from(
        self,
        before: Seq<usize>,
        after: Seq<usize>,
        to: usize,
        n: usize,
        k: int,
    ) -> GraphExecUpdateResultInfo
        decreases n - k,
    {
        if 0 <= k < n {
            let b = self.dep_at(before, (k as usize));
            let a = self.dep_at(after, (k as usize));
            if a != b {
                let from = if a.is_some() {
                    a
                } else {
                    b
                };
                GraphExecUpdateResultInfo::of(
                    GraphExecUpdateResult::DependenciesChanged,
                    Some(to),
                    from,
                )
            } else {
                self.dep_mismatch_from(before, after, to, n, k + 1)
            }
        } else {
            GraphExecUpdateResultInfo::of(
                GraphExecUpdateResult::DependenciesChanged,
                Some(to),
                None,
            )
        }
    }

    /// Value of [`Sim::node_diff`].
    pub open spec fn node_diff(
        self,
        x: StepView,
        y: StepView,
        i: usize,
    ) -> Option<GraphExecUpdateResultInfo> {
        if x.destroyed != y.destroyed {
            Some(
                GraphExecUpdateResultInfo::of(
                    GraphExecUpdateResult::TopologyChanged,
                    Some(i),
                    Some(i),
                ),
            )
        } else if x.destroyed {
            None
        } else if x.kind.node_kind() != y.kind.node_kind() {
            Some(
                GraphExecUpdateResultInfo::of(
                    GraphExecUpdateResult::NodeTypeChanged,
                    Some(i),
                    Some(i),
                ),
            )
        } else if x.device != y.device || x.stream != y.stream {
            Some(
                GraphExecUpdateResultInfo::of(
                    GraphExecUpdateResult::TopologyChanged,
                    Some(i),
                    Some(i),
                ),
            )
        } else if !(x.deps == y.deps) {
            Some(self.dep_mismatch(x.deps, y.deps, i))
        } else if !x.kind.op_eq(y.kind) {
            Some(GraphExecUpdateResultInfo::of(x.kind.op_mismatch(), Some(i), Some(i)))
        } else {
            None
        }
    }

    /// Value of [`Sim::graph_topology_diff`].
    pub open spec fn graph_topology_diff(
        self,
        before: Seq<StepView>,
        after: Seq<StepView>,
    ) -> Option<GraphExecUpdateResultInfo> {
        if before.len() < after.len() {
            Some(
                GraphExecUpdateResultInfo::of(
                    GraphExecUpdateResult::TopologyChanged,
                    Some((before.len() as usize)),
                    None,
                ),
            )
        } else if before.len() > after.len() {
            Some(
                GraphExecUpdateResultInfo::of(
                    GraphExecUpdateResult::TopologyChanged,
                    None,
                    Some((after.len() as usize)),
                ),
            )
        } else {
            self.graph_topology_diff_from(before, after, 0)
        }
    }

    /// [`Sim::graph_topology_diff`] from position `i` on.
    pub open spec fn graph_topology_diff_from(
        self,
        before: Seq<StepView>,
        after: Seq<StepView>,
        i: int,
    ) -> Option<GraphExecUpdateResultInfo>
        decreases before.len() - i,
    {
        if 0 <= i < before.len() {
            if (i as usize) >= after.len() {
                None
            } else {
                let diff = self.node_diff(before[i], after[i], (i as usize));
                if diff.is_some() {
                    diff
                } else {
                    self.graph_topology_diff_from(before, after, i + 1)
                }
            }
        } else {
            None
        }
    }

    /// Value of [`Sim::graph_has_mem_nodes`].
    pub open spec fn graph_has_mem_nodes(self, graph: GraphId) -> bool {
        if self.allocs_of(graph).len() > 0 {
            true
        } else {
            match self.graphs.get(graph) {
                Some(g) => g.current_mem().is_some(),
                None => false,
            }
        }
    }

    /// Value of [`Sim::update_refused`].
    pub open spec fn update_refused(
        self,
        id: GraphId,
        src: GraphId,
        g: GraphView,
        h: GraphView,
    ) -> Option<(GraphExecUpdateResultInfo, SimError)> {
        if g.instantiate_flags & GraphInstantiateFlags::DEVICE_LAUNCH != 0 {
            Some(
                (
                    GraphExecUpdateResultInfo::of(GraphExecUpdateResult::NotSupported, None, None),
                    invalid("device launch graph update"),
                ),
            )
        } else {
            let before = self.steps_def_ids(g.current());
            let after = self.steps_def_ids(h.steps);
            match self.graph_topology_diff(before, after) {
                Some(diff) => Some((diff, invalid("graph update topology"))),
                _ => if self.graph_has_mem_nodes(id) || self.graph_has_mem_nodes(src) {
                    let node = if h.first_mem().is_some() {
                        h.first_mem()
                    } else {
                        g.current_mem()
                    };
                    Some(
                        (
                            GraphExecUpdateResultInfo::of(
                                GraphExecUpdateResult::NotSupported,
                                node,
                                None,
                            ),
                            invalid("cannot update graph mem nodes"),
                        ),
                    )
                } else {
                    None
                },
            }
        }
    }

    /// Value of [`Sim::update_graph_pair`].
    pub open spec fn update_graph_pair(
        self,
        graph: GraphId,
        src: GraphId,
    ) -> Result<GraphId, SimError> {
        match self.fail_if_capturing("cannot capture graph update") {
            Err(e) => Err(e),
            Ok(_v) => if graph == src {
                Err(invalid("graph update same id"))
            } else {
                match self.as_exec(graph) {
                    Err(e) => Err(e),
                    Ok(id) => if id == src {
                        Err(invalid("graph update same id"))
                    } else {
                        match self.graph_ref(id) {
                            Err(e) => Err(e),
                            Ok(_g) => match self.graph_ref(src) {
                                Err(e) => Err(e),
                                Ok(_h) => Ok(id),
                            },
                        }
                    },
                }
            },
        }
    }

    /// Effect of [`Sim::update_and_report`].
    #[verifier::opaque]
    pub open spec fn update_and_report(
        self,
        graph: GraphId,
        src: GraphId,
    ) -> (SimState, (GraphExecUpdateResultInfo, Result<(), SimError>)) {
        let s = self;
        match s.update_graph_pair(graph, src) {
            Err(e) => (
                s,
                (GraphExecUpdateResultInfo::of(GraphExecUpdateResult::Error, None, None), Err(e)),
            ),
            Ok(id) => match s.update_checked(id, src) {
                Err(e) => (
                    s,
                    (
                        GraphExecUpdateResultInfo::of(GraphExecUpdateResult::Error, None, None),
                        Err(e),
                    ),
                ),
                Ok(None) => {
                    let (s, v1) = s.replace_steps(id, src);
                    match v1 {
                        Err(e) => (
                            s,
                            (
                                GraphExecUpdateResultInfo::of(
                                    GraphExecUpdateResult::Error,
                                    None,
                                    None,
                                ),
                                Err(e),
                            ),
                        ),
                        Ok(_done) => (
                            s,
                            (
                                GraphExecUpdateResultInfo::of(
                                    GraphExecUpdateResult::Success,
                                    None,
                                    None,
                                ),
                                Ok(()),
                            ),
                        ),
                    }
                },
                Ok(Some(why)) => (s, (why.0, Err(why.1))),
            },
        }
    }

    /// Value of [`Sim::update_checked`].
    pub open spec fn update_checked(
        self,
        id: GraphId,
        src: GraphId,
    ) -> Result<Option<(GraphExecUpdateResultInfo, SimError)>, SimError> {
        match self.graph_ref(id) {
            Err(e) => Err(e),
            Ok(g) => match self.graph_ref(src) {
                Err(e) => Err(e),
                Ok(h) => Ok(self.update_refused(id, src, g, h)),
            },
        }
    }

    /// Effect of [`Sim::replace_steps`].
    #[verifier::opaque]
    pub open spec fn replace_steps(
        self,
        id: GraphId,
        src: GraphId,
    ) -> (SimState, Result<(), SimError>) {
        let s = self;
        match s.graph_ref(id) {
            Err(e) => (s, Err(e)),
            Ok(g) => match s.graph_ref(src) {
                Err(e) => (s, Err(e)),
                Ok(h) => {
                    let steps = h.steps;
                    match s.profile.gpu(g.head_device(DeviceId(0))) {
                        Err(e) => (s, Err(e)),
                        Ok(gpu) => {
                            let ns = max_u64(gpu.graph_update_ns, 1);
                            let s = s.tick(ns);
                            match s.graph_ref(id) {
                                Err(e) => (s, Err(e)),
                                Ok(t) => {
                                    let t = GraphView {
                                        snapshot: Some(steps),
                                        uploaded: false,
                                        ..t
                                    };
                                    let s = SimState { graphs: s.graphs.insert(id, t), ..s };
                                    (s, Ok(()))
                                },
                            }
                        },
                    }
                },
            },
        }
    }

    /// Effect of [`Sim::update_graph`].
    pub open spec fn update_graph(
        self,
        graph: GraphId,
        src: GraphId,
    ) -> (SimState, Result<(), SimError>) {
        let s = self;
        let (s, out) = s.update_and_report(graph, src);
        (s, out.1)
    }
}

impl Sim {
    /// Definitions of several graphs.
    pub(crate) fn def_ids(&self, graphs: &Vec<GraphId>) -> (r: Vec<GraphId>)
        ensures
            r@ == self@.def_ids(graphs@),
    {
        let mut out: Vec<GraphId> = Vec::new();
        let mut i: usize = 0;
        while i < graphs.len()
            invariant
                i <= graphs@.len(),
                out@.len() == i,
                forall|j: int| 0 <= j < i ==> #[trigger] out@[j] == self@.def_ids(graphs@)[j],
            decreases graphs@.len() - i,
        {
            out.push(self.def_id(graphs[i]));
            i += 1;
        }
        assert(out@ =~= self@.def_ids(graphs@));
        out
    }

    /// The node with nested executables replaced by their definitions.
    pub(crate) fn kind_def_ids(&self, kind: &GpuOp) -> (r: GpuOp)
        ensures
            r@ == self@.kind_def_ids(kind@),
    {
        match kind {
            GpuOp::ChildGraph { graph } => GpuOp::ChildGraph { graph: self.def_id(*graph) },
            GpuOp::If { handle, body } => GpuOp::If { handle: *handle, body: self.def_id(*body) },
            GpuOp::While { handle, body } => GpuOp::While {
                handle: *handle,
                body: self.def_id(*body),
            },
            GpuOp::Switch { handle, bodies } => GpuOp::Switch {
                handle: *handle,
                bodies: self.def_ids(bodies),
            },
            _ => kind.dup(),
        }
    }

    /// Nodes with nested executables replaced by their definitions.
    pub(crate) fn steps_def_ids(&self, steps: &Rows<GraphStep>) -> (r: Rows<GraphStep>)
        ensures
            r@ == self@.steps_def_ids(steps@),
    {
        let mut out: Rows<GraphStep> = Rows::new();
        let mut i: usize = 0;
        while i < steps.len()
            invariant
                i <= steps@.len(),
                out@.len() == i,
                forall|j: int| 0 <= j < i ==> #[trigger] out@[j] == self@.steps_def_ids(steps@)[j],
            decreases steps@.len() - i,
        {
            let mut step: GraphStep = steps.at(i).dup();
            step.kind = self.kind_def_ids(&step.kind);
            out.push(step);
            i += 1;
        }
        assert(out@ =~= self@.steps_def_ids(steps@));
        out
    }

    /// The dependency at a position, if the list is that long.
    pub(crate) fn dep_at(&self, deps: &Vec<usize>, k: usize) -> (r: Option<usize>)
        ensures
            r == self@.dep_at(deps@, k),
    {
        if k < deps.len() {
            Some(deps[k])
        } else {
            None
        }
    }

    /// First difference of two dependency lists of the node `to`.
    pub(crate) fn dep_mismatch(
        &self,
        before: &Vec<usize>,
        after: &Vec<usize>,
        to: usize,
    ) -> (r: GraphExecUpdateResultInfo)
        ensures
            r == self@.dep_mismatch(before@, after@, to),
    {
        let n: usize = if before.len() > after.len() {
            before.len()
        } else {
            after.len()
        };
        let mut k: usize = 0;
        while k < n
            invariant
                k <= n,
                self@.dep_mismatch(before@, after@, to) == self@.dep_mismatch_from(
                    before@,
                    after@,
                    to,
                    n,
                    k as int,
                ),
            decreases n - k,
        {
            let b: Option<usize> = self.dep_at(before, k);
            let a: Option<usize> = self.dep_at(after, k);
            if a != b {
                let from: Option<usize> = if a.is_some() {
                    a
                } else {
                    b
                };
                return GraphExecUpdateResultInfo::of(
                    GraphExecUpdateResult::DependenciesChanged,
                    Some(to),
                    from,
                );
            }
            k += 1;
        }
        GraphExecUpdateResultInfo::of(GraphExecUpdateResult::DependenciesChanged, Some(to), None)
    }

    /// What an update may not change between two nodes at the index `i`.
    pub(crate) fn node_diff(
        &self,
        x: &GraphStep,
        y: &GraphStep,
        i: usize,
    ) -> (r: Option<GraphExecUpdateResultInfo>)
        ensures
            r == self@.node_diff(x@, y@, i),
    {
        if x.destroyed != y.destroyed {
            return Some(
                GraphExecUpdateResultInfo::of(
                    GraphExecUpdateResult::TopologyChanged,
                    Some(i),
                    Some(i),
                ),
            );
        }
        if x.destroyed {
            return None;
        }
        if x.kind.node_kind() != y.kind.node_kind() {
            return Some(
                GraphExecUpdateResultInfo::of(
                    GraphExecUpdateResult::NodeTypeChanged,
                    Some(i),
                    Some(i),
                ),
            );
        }
        if x.device != y.device || x.stream != y.stream {
            return Some(
                GraphExecUpdateResultInfo::of(
                    GraphExecUpdateResult::TopologyChanged,
                    Some(i),
                    Some(i),
                ),
            );
        }
        if !same_keys(&x.deps, &y.deps) {
            return Some(self.dep_mismatch(&x.deps, &y.deps, i));
        }
        if !x.kind.op_eq(&y.kind) {
            return Some(GraphExecUpdateResultInfo::of(x.kind.op_mismatch(), Some(i), Some(i)));
        }
        None
    }

    /// First difference that an update may not make.
    pub(crate) fn graph_topology_diff(
        &self,
        before: &Rows<GraphStep>,
        after: &Rows<GraphStep>,
    ) -> (r: Option<GraphExecUpdateResultInfo>)
        ensures
            r == self@.graph_topology_diff(before@, after@),
    {
        if before.len() < after.len() {
            return Some(
                GraphExecUpdateResultInfo::of(
                    GraphExecUpdateResult::TopologyChanged,
                    Some(before.len()),
                    None,
                ),
            );
        }
        if before.len() > after.len() {
            return Some(
                GraphExecUpdateResultInfo::of(
                    GraphExecUpdateResult::TopologyChanged,
                    None,
                    Some(after.len()),
                ),
            );
        }
        let mut i: usize = 0;
        while i < before.len()
            invariant
                i <= before@.len(),
                self@.graph_topology_diff(before@, after@) == self@.graph_topology_diff_from(
                    before@,
                    after@,
                    i as int,
                ),
            decreases before@.len() - i,
        {
            if i >= after.len() {
                return None;
            }
            let diff: Option<GraphExecUpdateResultInfo> = self.node_diff(
                before.at(i),
                after.at(i),
                i,
            );
            if diff.is_some() {
                return diff;
            }
            i += 1;
        }
        None
    }

    /// Whether a graph holds graph allocations.
    pub(crate) fn graph_has_mem_nodes(&self, graph: GraphId) -> (r: bool)
        ensures
            r == self@.graph_has_mem_nodes(graph),
    {
        if self.allocs_of(graph).len() > 0 {
            return true;
        }
        match self.graphs.get(graph) {
            Some(g) => g.current_mem().is_some(),
            None => false,
        }
    }

    /// Why `src` may not replace the nodes of the executable `id`, with the report.
    pub(crate) fn update_refused(
        &self,
        id: GraphId,
        src: GraphId,
        g: &Graph,
        h: &Graph,
    ) -> (r: Option<(GraphExecUpdateResultInfo, SimError)>)
        ensures
            r == self@.update_refused(id, src, g@, h@),
    {
        if g.instantiate_flags & GraphInstantiateFlags::DEVICE_LAUNCH != 0 {
            return Some(
                (
                    GraphExecUpdateResultInfo::of(GraphExecUpdateResult::NotSupported, None, None),
                    invalid("device launch graph update"),
                ),
            );
        }
        let before: Rows<GraphStep> = self.steps_def_ids(g.current());
        let after: Rows<GraphStep> = self.steps_def_ids(&h.steps);
        if let Some(diff) = self.graph_topology_diff(&before, &after) {
            return Some((diff, invalid("graph update topology")));
        }
        if self.graph_has_mem_nodes(id) || self.graph_has_mem_nodes(src) {
            let node: Option<usize> = if h.first_mem().is_some() {
                h.first_mem()
            } else {
                g.current_mem()
            };
            return Some(
                (
                    GraphExecUpdateResultInfo::of(GraphExecUpdateResult::NotSupported, node, None),
                    invalid("cannot update graph mem nodes"),
                ),
            );
        }
        None
    }

    /// The executable to update, when it and `src` are two known graphs.
    pub(crate) fn update_graph_pair(
        &self,
        graph: GraphId,
        src: GraphId,
    ) -> (r: Result<GraphId, SimError>)
        ensures
            r == self@.update_graph_pair(graph, src),
    {
        self.fail_if_capturing("cannot capture graph update")?;
        if graph == src {
            return Err(invalid("graph update same id"));
        }
        let id = self.as_exec(graph)?;
        if id == src {
            return Err(invalid("graph update same id"));
        }
        let _g = self.graph_ref(id)?;
        let _h = self.graph_ref(src)?;
        Ok(id)
    }

    /// The report and the outcome of an update.
    pub(crate) fn update_and_report(
        &mut self,
        graph: GraphId,
        src: GraphId,
    ) -> (r: (GraphExecUpdateResultInfo, Result<(), SimError>))
        ensures
            final(self)@ == old(self)@.update_and_report(graph, src).0,
            r == old(self)@.update_and_report(graph, src).1,
    {
        reveal(SimState::update_and_report);
        match self.update_graph_pair(graph, src) {
            Err(e) => (
                GraphExecUpdateResultInfo::of(GraphExecUpdateResult::Error, None, None),
                Err(e),
            ),
            Ok(id) => match self.update_checked(id, src) {
                Err(e) => (
                    GraphExecUpdateResultInfo::of(GraphExecUpdateResult::Error, None, None),
                    Err(e),
                ),
                Ok(None) => match self.replace_steps(id, src) {
                    Err(e) => (
                        GraphExecUpdateResultInfo::of(GraphExecUpdateResult::Error, None, None),
                        Err(e),
                    ),
                    Ok(_done) => (
                        GraphExecUpdateResultInfo::of(GraphExecUpdateResult::Success, None, None),
                        Ok(()),
                    ),
                },
                Ok(Some(why)) => (why.0, Err(why.1)),
            },
        }
    }

    /// Why `src` may not replace the nodes of the executable `id`.
    pub(crate) fn update_checked(
        &self,
        id: GraphId,
        src: GraphId,
    ) -> (r: Result<Option<(GraphExecUpdateResultInfo, SimError)>, SimError>)
        ensures
            r == self@.update_checked(id, src),
    {
        let g = self.graph_ref(id)?;
        let h = self.graph_ref(src)?;
        Ok(self.update_refused(id, src, g, h))
    }

    /// Give the executable the nodes of a definition. It needs a new upload.
    pub(crate) fn replace_steps(&mut self, id: GraphId, src: GraphId) -> (r: Result<(), SimError>)
        ensures
            final(self)@ == old(self)@.replace_steps(id, src).0,
            r == old(self)@.replace_steps(id, src).1,
    {
        reveal(SimState::replace_steps);
        let g = self.graph_ref(id)?;
        let h = self.graph_ref(src)?;
        let steps: Rows<GraphStep> = h.steps.dup();
        let gpu = self.profile.gpu(g.head_device(DeviceId(0)))?;
        let ns: u64 = max_u64(gpu.graph_update_ns, 1);
        self.tick(ns);
        let t = self.graph_mut(id)?;
        t.snapshot = Some(steps);
        t.uploaded = false;
        Ok(())
    }

    /// Give an executable the nodes of a definition of the same shape.
    pub fn update_graph(&mut self, graph: GraphId, src: GraphId) -> (r: Result<(), SimError>)
        ensures
            final(self)@ == old(self)@.update_graph(graph, src).0,
            r == old(self)@.update_graph(graph, src).1,
    {
        let out = self.update_and_report(graph, src);
        out.1
    }

    /// [`Sim::update_graph`] with the outcome and the nodes at fault in `info`.
    pub fn update_graph_with_info(
        &mut self,
        graph: GraphId,
        src: GraphId,
        info: &mut GraphExecUpdateResultInfo,
    ) -> (r: Result<(), SimError>)
        ensures
            final(self)@ == old(self)@.update_and_report(graph, src).0,
            *final(info) == old(self)@.update_and_report(graph, src).1.0,
            r == old(self)@.update_and_report(graph, src).1.1,
    {
        let out = self.update_and_report(graph, src);
        *info = out.0;
        out.1
    }
}

} // verus!
