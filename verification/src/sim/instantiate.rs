//! Executable graphs: instantiation, upload and launch.
use vstd::prelude::*;
use crate::error::{invalid, SimError};
use crate::ids::{DeviceId, GraphId, Lane, OpId, StreamId};
use crate::kinds::{all_bodies, bodies_of};
use crate::list::{
    all_ok, Dup, first_where, lemma_all_done, lemma_all_ok, lemma_first_at, ok_view, picked, Rows,
};
use crate::num::max_u64;
use crate::ops::{
    GpuOp, GpuOpView, GraphInstantiateFlags, GraphInstantiateParams, GraphInstantiateResult,
};
use crate::sim::{Sim, SimState};
use crate::state::{Graph, GraphStep, GraphView, NextIds, StepView};

verus! {

impl GraphView {
    /// Value of [`Graph::head_device`].
    pub open spec fn head_device(self, or: DeviceId) -> DeviceId {
        if self.steps.len() == 0 {
            or
        } else {
            self.steps[0].device
        }
    }

    /// Whether [`Graph::first_free`] finds something at position `i`.
    pub open spec fn first_free_at(self, i: int) -> bool {
        !self.steps[i].destroyed && (
            match self.steps[i].kind { GpuOpView::Free { .. } => true, _ => false }
        )
    }

    /// Value of [`Graph::first_free`].
    pub open spec fn first_free(self) -> Option<usize> {
        match first_where(self.steps.len(), |i: int| self.first_free_at(i)) {
            Some(i) => Some(i as usize),
            None => None,
        }
    }

    /// Whether [`Graph::first_mem`] finds something at position `i`.
    pub open spec fn first_mem_at(self, i: int) -> bool {
        !self.steps[i].destroyed && self.steps[i].kind.is_mem_node()
    }

    /// Value of [`Graph::first_mem`].
    pub open spec fn first_mem(self) -> Option<usize> {
        match first_where(self.steps.len(), |i: int| self.first_mem_at(i)) {
            Some(i) => Some(i as usize),
            None => None,
        }
    }

    /// Whether [`Graph::first_refused`] finds something at position `i`.
    pub open spec fn first_refused_at(self, i: int) -> bool {
        let step = self.steps[i];
        !step.destroyed && (
            step.kind.device_launch_refused() || step.attrs.programmatic_event.is_some() || step.attrs.launch_completion.is_some()
        )
    }

    /// Value of [`Graph::first_refused`].
    pub open spec fn first_refused(self) -> Option<usize> {
        match first_where(self.steps.len(), |i: int| self.first_refused_at(i)) {
            Some(i) => Some(i as usize),
            None => None,
        }
    }

    /// Whether [`Graph::first_foreign`] finds something at position `i`.
    pub open spec fn first_foreign_at(self, i: int) -> bool {
        !self.steps[i].destroyed && self.steps[i].device != self.origin.0
    }

    /// Value of [`Graph::first_foreign`].
    pub open spec fn first_foreign(self) -> Option<usize> {
        match first_where(self.steps.len(), |i: int| self.first_foreign_at(i)) {
            Some(i) => Some(i as usize),
            None => None,
        }
    }
}

impl Graph {
    /// Device of the first node, or `or` of an empty graph.
    pub fn head_device(&self, or: DeviceId) -> (r: DeviceId)
        ensures
            r == self@.head_device(or),
    {
        if self.steps.len() == 0 {
            return or;
        }
        self.steps.at(0).device
    }

    /// First free node that is not destroyed.
    pub fn first_free(&self) -> (r: Option<usize>)
        ensures
            r == self@.first_free(),
    {
        let mut i: usize = 0;
        while i < self.steps.len()
            invariant
                i <= self@.steps.len(),
                forall|j: int| 0 <= j < i ==> !#[trigger] self@.first_free_at(j),
            decreases self@.steps.len() - i,
        {
            if !self.steps.at(i).destroyed && matches!(self.steps.at(i).kind, GpuOp::Free { .. }) {
                proof {
                    lemma_first_at(self@.steps.len(), |j: int| self@.first_free_at(j), i as int);
                }
                return Some(i);
            }
            i += 1;
        }
        None
    }

    /// First allocation or free node that is not destroyed.
    pub fn first_mem(&self) -> (r: Option<usize>)
        ensures
            r == self@.first_mem(),
    {
        let mut i: usize = 0;
        while i < self.steps.len()
            invariant
                i <= self@.steps.len(),
                forall|j: int| 0 <= j < i ==> !#[trigger] self@.first_mem_at(j),
            decreases self@.steps.len() - i,
        {
            if !self.steps.at(i).destroyed && self.steps.at(i).kind.is_mem_node() {
                proof {
                    lemma_first_at(self@.steps.len(), |j: int| self@.first_mem_at(j), i as int);
                }
                return Some(i);
            }
            i += 1;
        }
        None
    }

    /// First node that a device launch may not hold. Destroyed nodes do not count.
    pub fn first_refused(&self) -> (r: Option<usize>)
        ensures
            r == self@.first_refused(),
    {
        let mut i: usize = 0;
        while i < self.steps.len()
            invariant
                i <= self@.steps.len(),
                forall|j: int| 0 <= j < i ==> !#[trigger] self@.first_refused_at(j),
            decreases self@.steps.len() - i,
        {
            let step = self.steps.at(i);
            if !step.destroyed && (
                step.kind.device_launch_refused() || step.attrs.programmatic_event.is_some() || step.attrs.launch_completion.is_some()
            ) {
                proof {
                    lemma_first_at(self@.steps.len(), |j: int| self@.first_refused_at(j), i as int);
                }
                return Some(i);
            }
            i += 1;
        }
        None
    }

    /// First node of another device than the graph's own. Destroyed nodes do not count.
    pub fn first_foreign(&self) -> (r: Option<usize>)
        ensures
            r == self@.first_foreign(),
    {
        let mut i: usize = 0;
        while i < self.steps.len()
            invariant
                i <= self@.steps.len(),
                forall|j: int| 0 <= j < i ==> !#[trigger] self@.first_foreign_at(j),
            decreases self@.steps.len() - i,
        {
            if !self.steps.at(i).destroyed && self.steps.at(i).device != self.origin.0 {
                proof {
                    lemma_first_at(self@.steps.len(), |j: int| self@.first_foreign_at(j), i as int);
                }
                return Some(i);
            }
            i += 1;
        }
        None
    }
}

impl SimState {
    /// Value of [`Sim::graph_len`].
    pub open spec fn graph_len(self, graph: GraphId) -> Result<usize, SimError> {
        match self.graph_ref(graph) {
            Err(e) => Err(e),
            Ok(g) => Ok((g.steps.len() as usize)),
        }
    }

    /// What position `i` adds to [`Sim::graph_nodes`].
    pub open spec fn graph_nodes_at(self, g: GraphView, i: int) -> Option<usize> {
        if !g.steps[i].destroyed {
            Some((i as usize))
        } else {
            None
        }
    }

    /// Value of [`Sim::graph_nodes`].
    pub open spec fn graph_nodes(self, graph: GraphId) -> Result<Seq<usize>, SimError> {
        match self.graph_ref(graph) {
            Err(e) => Err(e),
            Ok(g) => Ok(picked(g.steps.len(), |i: int| self.graph_nodes_at(g, i))),
        }
    }

    /// Value of [`Sim::graph_instantiated`].
    pub open spec fn graph_instantiated(self, graph: GraphId) -> Result<bool, SimError> {
        match self.graph_ref(graph) {
            Err(e) => Err(e),
            Ok(g) => Ok(g.ready()),
        }
    }

    /// Value of [`Sim::graph_uploaded`].
    pub open spec fn graph_uploaded(self, graph: GraphId) -> Result<bool, SimError> {
        match self.as_exec(graph) {
            Err(e) => Err(e),
            Ok(id) => match self.graph_ref(id) {
                Err(e) => Err(e),
                Ok(g) => Ok(g.uploaded),
            },
        }
    }

    /// Value of [`Sim::graph_auto_free_on_launch`].
    pub open spec fn graph_auto_free_on_launch(self, graph: GraphId) -> Result<bool, SimError> {
        match self.as_exec(graph) {
            Err(e) => Err(e),
            Ok(id) => match self.graph_ref(id) {
                Err(e) => Err(e),
                Ok(g) => Ok(g.auto_free_on_launch),
            },
        }
    }

    /// Effect of [`Sim::instantiate_graph`].
    pub open spec fn instantiate_graph(
        self,
        graph: GraphId,
    ) -> (SimState, Result<GraphId, SimError>) {
        let s = self;
        s.instantiate_graph_with_flags(graph, 0)
    }

    /// Effect of [`Sim::instantiate_graph_auto_free`].
    pub open spec fn instantiate_graph_auto_free(
        self,
        graph: GraphId,
    ) -> (SimState, Result<GraphId, SimError>) {
        let s = self;
        s.instantiate_graph_with_flags(graph, GraphInstantiateFlags::AUTO_FREE_ON_LAUNCH)
    }

    /// Effect of [`Sim::instantiate_graph_with_flags`].
    pub open spec fn instantiate_graph_with_flags(
        self,
        graph: GraphId,
        flags: u32,
    ) -> (SimState, Result<GraphId, SimError>) {
        let s = self;
        let (s, out) = s.instantiate_and_upload(graph, flags);
        (s, out.1)
    }

    /// Effect of [`Sim::instantiate_and_upload`].
    pub open spec fn instantiate_and_upload(
        self,
        graph: GraphId,
        flags: u32,
    ) -> (SimState, ((GraphInstantiateResult, Option<usize>), Result<GraphId, SimError>)) {
        let s = self;
        let (s, out) = s.instantiate_graph_inner(graph, flags, s.tree_fuel());
        match out.1 {
            Err(e) => (s, (out.0, Err(e))),
            Ok(id) => if flags & GraphInstantiateFlags::UPLOAD != 0 {
                let (s, v1) = s.upload_graph(id);
                match v1 {
                    Err(e) => (s, ((GraphInstantiateResult::Error, None), Err(e))),
                    Ok(_done) => (s, (out.0, Ok(id))),
                }
            } else {
                (s, (out.0, Ok(id)))
            },
        }
    }

    /// Value of [`Sim::graph_exec_get_flags`].
    pub open spec fn graph_exec_get_flags(self, graph: GraphId) -> Result<u32, SimError> {
        match self.as_exec(graph) {
            Err(e) => Err(e),
            Ok(id) => match self.graph_ref(id) {
                Err(e) => Err(e),
                Ok(g) => Ok(g.instantiate_flags),
            },
        }
    }

    /// Value of [`Sim::check_instantiate_flags`].
    pub open spec fn check_instantiate_flags(self, flags: u32) -> Result<(), SimError> {
        let known = GraphInstantiateFlags::AUTO_FREE_ON_LAUNCH | GraphInstantiateFlags::UPLOAD | GraphInstantiateFlags::DEVICE_LAUNCH | GraphInstantiateFlags::USE_NODE_PRIORITY;
        if flags & !known != 0 {
            Err(invalid("instantiate flags"))
        } else {
            Ok(())
        }
    }

    /// Value of [`Sim::refusal`].
    pub open spec fn refusal(
        self,
        result: GraphInstantiateResult,
        node: Option<usize>,
        why: &'static str,
    ) -> Option<(GraphInstantiateResult, Option<usize>, Result<GraphId, SimError>)> {
        Some((result, node, Err(invalid(why))))
    }

    /// Value of [`Sim::has_graph_memory`].
    pub open spec fn has_graph_memory(self, graph: GraphId, g: GraphView) -> bool {
        g.first_mem().is_some() || self.allocs_of(graph).len() > 0
    }

    /// Value of [`Sim::instantiate_refused`].
    pub open spec fn instantiate_refused(
        self,
        graph: GraphId,
        g: GraphView,
        flags: u32,
    ) -> Option<(GraphInstantiateResult, Option<usize>, Result<GraphId, SimError>)> {
        if g.instantiated {
            if flags & !g.instantiate_flags != 0 {
                self.refusal(GraphInstantiateResult::Error, None, "graph instantiate flags")
            } else {
                Some((GraphInstantiateResult::Success, None, Ok(graph)))
            }
        } else if flags & GraphInstantiateFlags::AUTO_FREE_ON_LAUNCH != 0 && g.first_free().is_some() {
            self.refusal(
                GraphInstantiateResult::InvalidStructure,
                g.first_free(),
                "auto free with mem free nodes",
            )
        } else if flags & GraphInstantiateFlags::DEVICE_LAUNCH != 0 && g.first_refused().is_some() {
            self.refusal(
                GraphInstantiateResult::NodeOperationNotSupported,
                g.first_refused(),
                "device launch instantiate flag",
            )
        } else if g.primary_exec.is_some() && self.has_graph_memory(graph, g) {
            self.refusal(GraphInstantiateResult::InvalidStructure, g.first_mem(), "graph mem exec")
        } else if g.first_foreign().is_some() {
            self.refusal(
                GraphInstantiateResult::MultipleDevicesNotSupported,
                g.first_foreign(),
                "graph multiple devices",
            )
        } else {
            match self.profile.gpu(g.head_device(g.origin.0)) {
                Err(e) => Some((GraphInstantiateResult::Error, None, Err(e))),
                Ok(_gpu) => None,
            }
        }
    }

    /// Value of [`Sim::instantiate_settled`].
    pub open spec fn instantiate_settled(
        self,
        graph: GraphId,
        flags: u32,
    ) -> Option<(GraphInstantiateResult, Option<usize>, Result<GraphId, SimError>)> {
        match self.fail_if_capturing("cannot capture graph instantiate") {
            Err(e) => Some((GraphInstantiateResult::Error, None, Err(e))),
            Ok(_ok) => match self.check_instantiate_flags(flags) {
                Err(e) => Some((GraphInstantiateResult::Error, None, Err(e))),
                Ok(_ok) => match self.graph_ref(graph) {
                    Err(e) => Some((GraphInstantiateResult::Error, None, Err(e))),
                    Ok(g) => self.instantiate_refused(graph, g, flags),
                },
            },
        }
    }

    /// Effect of [`Sim::instantiate_graph_inner`].
    pub open spec fn instantiate_graph_inner(
        self,
        graph: GraphId,
        flags: u32,
        fuel: usize,
    ) -> (SimState, ((GraphInstantiateResult, Option<usize>), Result<GraphId, SimError>))
        decreases fuel, 3int, 0int,
    {
        let s = self;
        let settled = s.instantiate_settled(graph, flags);
        match settled {
            Some(t) => (s, ((t.0, t.1), t.2)),
            None => {
                let (s, v1) = s.instantiate_steps(graph, flags, fuel);
                match v1 {
                    Err(e) => (s, ((GraphInstantiateResult::Error, None), Err(e))),
                    Ok(id) => (s, ((GraphInstantiateResult::Success, None), Ok(id))),
                }
            },
        }
    }

    /// Effect of [`Sim::instantiate_bodies`].
    pub open spec fn instantiate_bodies(
        self,
        bodies: Seq<GraphId>,
        fuel: usize,
    ) -> (SimState, Result<(), SimError>)
        decreases fuel, 5int, 0int,
    {
        let s = self;
        s.instantiate_bodies_from(bodies, fuel, 0)
    }

    /// [`Sim::instantiate_bodies`] from position `i` on.
    pub open spec fn instantiate_bodies_from(
        self,
        bodies: Seq<GraphId>,
        fuel: usize,
        i: int,
    ) -> (SimState, Result<(), SimError>)
        decreases fuel, 4int, bodies.len() - i,
    {
        let s = self;
        if 0 <= i < bodies.len() {
            let (s, out) = s.instantiate_graph_inner(bodies[i], 0, fuel);
            match out.1 {
                Err(e) => (s, Err(e)),
                Ok(_id) => s.instantiate_bodies_from(bodies, fuel, i + 1),
            }
        } else {
            (s, Ok(()))
        }
    }

    /// Effect of [`Sim::instantiate_steps`].
    pub open spec fn instantiate_steps(
        self,
        graph: GraphId,
        flags: u32,
        fuel: usize,
    ) -> (SimState, Result<GraphId, SimError>)
        decreases fuel, 2int, 0int,
    {
        let s = self;
        if fuel == 0 {
            (s, Err(invalid("cyclic child graph")))
        } else {
            match s.graph_ref(graph) {
                Err(e) => (s, Err(e)),
                Ok(g) => {
                    let origin = g.origin;
                    let bodies = bodies_of(g.steps);
                    let steps = g.steps;
                    match s.profile.gpu(g.head_device(g.origin.0)) {
                        Err(e) => (s, Err(e)),
                        Ok(gpu) => {
                            let ns = max_u64(gpu.graph_instantiate_ns, 1);
                            let s = SimState { clock: s.clock.saturating_add(ns), ..s };
                            match s.instantiate_bodies(bodies, fuel.saturating_sub(1)) {
                                (s, Err(e)) => (s, Err(e)),
                                (s, Ok(_v)) => s.add_exec(graph, flags, origin, steps),
                            }
                        },
                    }
                },
            }
        }
    }

    /// Effect of [`Sim::add_exec`].
    #[verifier::opaque]
    pub open spec fn add_exec(
        self,
        graph: GraphId,
        flags: u32,
        origin: Lane,
        steps: Seq<StepView>,
    ) -> (SimState, Result<GraphId, SimError>) {
        let s = self;
        let id = GraphId(s.next.graph);
        let s = SimState { next: NextIds { graph: s.next.graph.saturating_add(1), ..s.next }, ..s };
        match s.exec_steps(steps) {
            Err(e) => (s, Err(e)),
            Ok(snap) => {
                let made = GraphView {
                    steps: snap,
                    snapshot: Some(snap),
                    origin,
                    instantiated: true,
                    uploaded: false,
                    auto_free_on_launch: flags & GraphInstantiateFlags::AUTO_FREE_ON_LAUNCH != 0,
                    instantiate_flags: flags,
                    device_launch_tail: None,
                    primary_exec: None,
                    src: Some(graph),
                };
                let s = SimState { graphs: s.graphs.insert(id, made), ..s };
                match s.graph_ref(graph) {
                    Err(e) => (s, Err(e)),
                    Ok(def) => if def.primary_exec.is_none() {
                        match s.graph_ref(graph) {
                            Err(e) => (s, Err(e)),
                            Ok(d) => {
                                let d = GraphView { primary_exec: Some(id), ..d };
                                let s = SimState { graphs: s.graphs.insert(graph, d), ..s };
                                (s, Ok(id))
                            },
                        }
                    } else {
                        (s, Ok(id))
                    },
                }
            },
        }
    }

    /// Element `i` of [`Sim::exec_steps`].
    pub open spec fn exec_steps_at(
        self,
        steps: Seq<StepView>,
        i: int,
    ) -> Result<StepView, SimError> {
        let step = steps[i];
        match self.exec_kind(step) {
            Err(e) => Err(e),
            Ok(v1) => {
                let step = StepView { kind: v1, ..step };
                Ok(step)
            },
        }
    }

    /// Value of [`Sim::exec_steps`].
    pub open spec fn exec_steps(self, steps: Seq<StepView>) -> Result<Seq<StepView>, SimError> {
        all_ok(steps.len(), |i: int| self.exec_steps_at(steps, i))
    }

    /// Value of [`Sim::exec_kind`].
    pub open spec fn exec_kind(self, step: StepView) -> Result<GpuOpView, SimError> {
        if step.destroyed {
            Ok(step.kind)
        } else {
            self.remap_kind_to_exec(step.kind)
        }
    }

    /// Element `i` of [`Sim::resolved_graphs`].
    pub open spec fn resolved_graphs_at(
        self,
        graphs: Seq<GraphId>,
        i: int,
    ) -> Result<GraphId, SimError> {
        match self.resolved_graph(graphs[i]) {
            Err(e) => Err(e),
            Ok(id) => Ok(id),
        }
    }

    /// Value of [`Sim::resolved_graphs`].
    pub open spec fn resolved_graphs(self, graphs: Seq<GraphId>) -> Result<Seq<GraphId>, SimError> {
        all_ok(graphs.len(), |i: int| self.resolved_graphs_at(graphs, i))
    }

    /// Value of [`Sim::remap_kind_to_exec`].
    pub open spec fn remap_kind_to_exec(self, kind: GpuOpView) -> Result<GpuOpView, SimError> {
        match kind {
            GpuOpView::ChildGraph { graph } => match self.resolved_graph(graph) {
                Err(e) => Err(e),
                Ok(id) => Ok(GpuOpView::ChildGraph { graph: id }),
            },
            GpuOpView::If { handle, body } => match self.resolved_graph(body) {
                Err(e) => Err(e),
                Ok(id) => Ok(GpuOpView::If { handle, body: id }),
            },
            GpuOpView::While { handle, body } => match self.resolved_graph(body) {
                Err(e) => Err(e),
                Ok(id) => Ok(GpuOpView::While { handle, body: id }),
            },
            GpuOpView::Switch { handle, bodies } => match self.resolved_graphs(bodies) {
                Err(e) => Err(e),
                Ok(ids) => Ok(GpuOpView::Switch { handle, bodies: ids }),
            },
            _ => Ok(kind),
        }
    }

    /// Effect of [`Sim::ensure_exec`].
    pub open spec fn ensure_exec(self, graph: GraphId) -> (SimState, Result<GraphId, SimError>) {
        let s = self;
        match s.graph_ref(graph) {
            Err(e) => (s, Err(e)),
            Ok(g) => if g.instantiated {
                (s, Ok(graph))
            } else {
                match g.primary_exec {
                    Some(p) => (s, Ok(p)),
                    _ => s.instantiate_graph(graph),
                }
            },
        }
    }

    /// Effect of [`Sim::upload_graph`].
    pub open spec fn upload_graph(self, graph: GraphId) -> (SimState, Result<(), SimError>) {
        let s = self;
        match s.fail_if_capturing("cannot capture graph upload") {
            Err(e) => (s, Err(e)),
            Ok(_v) => match s.as_exec(graph) {
                Err(e) => (s, Err(e)),
                Ok(id) => match s.graph_ref(id) {
                    Err(e) => (s, Err(e)),
                    Ok(g) => if g.uploaded {
                        (s, Ok(()))
                    } else {
                        match s.profile.gpu(g.head_device(DeviceId(0))) {
                            Err(e) => (s, Err(e)),
                            Ok(gpu) => {
                                let ns = max_u64(gpu.graph_upload_ns, 1);
                                let s = SimState { clock: s.clock.saturating_add(ns), ..s };
                                match s.graph_ref(id) {
                                    Err(e) => (s, Err(e)),
                                    Ok(g) => {
                                        let s = SimState {
                                            graphs: s.graphs.insert(
                                                id,
                                                GraphView { uploaded: true, ..g },
                                            ),
                                            ..s
                                        };
                                        (s, Ok(()))
                                    },
                                }
                            },
                        }
                    },
                },
            },
        }
    }

    /// Effect of [`Sim::launch_graph`].
    pub open spec fn launch_graph(
        self,
        graph: GraphId,
        stream: StreamId,
    ) -> (SimState, Result<u32, SimError>) {
        let s = self;
        match s.graph_ref(graph) {
            Err(e) => (s, Err(e)),
            Ok(g) => {
                let origin = g.origin;
                let ready = g.ready();
                if s.in_capture(origin.0, stream) {
                    s.capture_child_graph(graph, origin.0, stream, ready)
                } else {
                    match s.ensure_exec(graph) {
                        (s, Err(e)) => (s, Err(e)),
                        (s, Ok(id)) => match s.upload_for_launch(id) {
                            (s, Err(e)) => (s, Err(e)),
                            (s, Ok(_v)) => {
                                let s = s.reset_graph_tree_conds(id);
                                let none = Seq::empty();
                                s.enqueue_root(id, stream, true, none)
                            },
                        },
                    }
                }
            },
        }
    }

    /// Effect of [`Sim::upload_for_launch`].
    pub open spec fn upload_for_launch(self, id: GraphId) -> (SimState, Result<(), SimError>) {
        let s = self;
        match s.graph_ref(id) {
            Err(e) => (s, Err(e)),
            Ok(g) => if !g.uploaded && s.capturing.is_none() {
                s.upload_graph(id)
            } else {
                (s, Ok(()))
            },
        }
    }

    /// Effect of [`Sim::device_launch_graph`].
    pub open spec fn device_launch_graph(
        self,
        graph: GraphId,
        stream: StreamId,
    ) -> (SimState, Result<OpId, SimError>) {
        let s = self;
        match s.fail_if_capturing("cannot capture device launch") {
            Err(e) => (s, Err(e)),
            Ok(_v) => match s.as_exec(graph) {
                Err(e) => (s, Err(e)),
                Ok(id) => match s.graph_ref(id) {
                    Err(e) => (s, Err(e)),
                    Ok(g) => {
                        let device = g.origin.0;
                        if g.instantiate_flags & GraphInstantiateFlags::DEVICE_LAUNCH == 0 {
                            (s, Err(invalid("graph not device launch")))
                        } else if !g.uploaded {
                            (s, Err(invalid("graph not uploaded")))
                        } else {
                            match g.device_launch_tail {
                                Some(tail) => if !s.op_done(tail) {
                                    (s, Err(invalid("device launch in flight")))
                                } else {
                                    match s.submit(
                                        device,
                                        stream,
                                        GpuOpView::DeviceLaunch { graph: id },
                                    ) {
                                        (s, Err(e)) => (s, Err(e)),
                                        (s, Ok(op)) => match s.graph_ref(id) {
                                            Err(e) => (s, Err(e)),
                                            Ok(g) => {
                                                let s = SimState {
                                                    graphs: s.graphs.insert(
                                                        id,
                                                        GraphView {
                                                            device_launch_tail: Some(op),
                                                            ..g
                                                        },
                                                    ),
                                                    ..s
                                                };
                                                (s, Ok(op))
                                            },
                                        },
                                    }
                                },
                                _ => match s.submit(
                                    device,
                                    stream,
                                    GpuOpView::DeviceLaunch { graph: id },
                                ) {
                                    (s, Err(e)) => (s, Err(e)),
                                    (s, Ok(op)) => match s.graph_ref(id) {
                                        Err(e) => (s, Err(e)),
                                        Ok(g) => {
                                            let s = SimState {
                                                graphs: s.graphs.insert(
                                                    id,
                                                    GraphView { device_launch_tail: Some(op), ..g },
                                                ),
                                                ..s
                                            };
                                            (s, Ok(op))
                                        },
                                    },
                                },
                            }
                        }
                    },
                },
            },
        }
    }

    /// Effect of [`Sim::capture_child_graph`].
    pub open spec fn capture_child_graph(
        self,
        graph: GraphId,
        device: DeviceId,
        stream: StreamId,
        instantiated: bool,
    ) -> (SimState, Result<u32, SimError>) {
        let s = self;
        if !instantiated {
            (s, Err(invalid("child graph not instantiated")))
        } else {
            match s.submit_captured(device, stream, GpuOpView::ChildGraph { graph }) {
                (s, Err(e)) => (s, Err(e)),
                (s, Ok(_id)) => (s, Ok(1)),
            }
        }
    }
}

impl Sim {
    /// Number of nodes ever added, destroyed ones included.
    pub fn graph_len(&self, graph: GraphId) -> (r: Result<usize, SimError>)
        ensures
            r == self@.graph_len(graph),
    {
        let g = self.graph_ref(graph)?;
        Ok(g.steps.len())
    }

    /// Live nodes, in the order in which they were added.
    pub fn graph_nodes(&self, graph: GraphId) -> (r: Result<Vec<usize>, SimError>)
        ensures
            ok_view(r) == self@.graph_nodes(graph),
    {
        let g: &Graph = self.graph_ref(graph)?;
        let mut out: Vec<usize> = Vec::new();
        let mut i: usize = 0;
        while i < g.steps.len()
            invariant
                i <= g@.steps.len(),
                out@ == picked(i as nat, |j: int| self@.graph_nodes_at(g@, j)),
            decreases g@.steps.len() - i,
        {
            if !g.steps.at(i).destroyed {
                out.push(i);
            }
            i += 1;
        }
        Ok(out)
    }

    /// An executable, or a definition that has one.
    pub fn graph_instantiated(&self, graph: GraphId) -> (r: Result<bool, SimError>)
        ensures
            r == self@.graph_instantiated(graph),
    {
        let g = self.graph_ref(graph)?;
        Ok(g.ready())
    }

    /// Whether the executable is on the device.
    pub fn graph_uploaded(&self, graph: GraphId) -> (r: Result<bool, SimError>)
        ensures
            r == self@.graph_uploaded(graph),
    {
        let id = self.as_exec(graph)?;
        let g = self.graph_ref(id)?;
        Ok(g.uploaded)
    }

    /// Whether a relaunch frees graph allocations first.
    pub fn graph_auto_free_on_launch(&self, graph: GraphId) -> (r: Result<bool, SimError>)
        ensures
            r == self@.graph_auto_free_on_launch(graph),
    {
        let id = self.as_exec(graph)?;
        let g = self.graph_ref(id)?;
        Ok(g.auto_free_on_launch)
    }

    /// Make an executable of a definition. An executable is its own.
    pub fn instantiate_graph(&mut self, graph: GraphId) -> (r: Result<GraphId, SimError>)
        ensures
            final(self)@ == old(self)@.instantiate_graph(graph).0,
            r == old(self)@.instantiate_graph(graph).1,
    {
        self.instantiate_graph_with_flags(graph, 0)
    }

    /// Instantiate with graph allocations freed before a relaunch.
    pub fn instantiate_graph_auto_free(&mut self, graph: GraphId) -> (r: Result<GraphId, SimError>)
        ensures
            final(self)@ == old(self)@.instantiate_graph_auto_free(graph).0,
            r == old(self)@.instantiate_graph_auto_free(graph).1,
    {
        self.instantiate_graph_with_flags(graph, GraphInstantiateFlags::AUTO_FREE_ON_LAUNCH)
    }

    /// Instantiate with the bits of [`GraphInstantiateFlags`].
    pub fn instantiate_graph_with_flags(
        &mut self,
        graph: GraphId,
        flags: u32,
    ) -> (r: Result<GraphId, SimError>)
        ensures
            final(self)@ == old(self)@.instantiate_graph_with_flags(graph, flags).0,
            r == old(self)@.instantiate_graph_with_flags(graph, flags).1,
    {
        let out = self.instantiate_and_upload(graph, flags);
        out.1
    }

    /// The report and the outcome of an instantiation with its upload.
    pub(crate) fn instantiate_and_upload(
        &mut self,
        graph: GraphId,
        flags: u32,
    ) -> (r: ((GraphInstantiateResult, Option<usize>), Result<GraphId, SimError>))
        ensures
            final(self)@ == old(self)@.instantiate_and_upload(graph, flags).0,
            r == old(self)@.instantiate_and_upload(graph, flags).1,
    {
        let out = self.instantiate_graph_inner(graph, flags, self.tree_fuel());
        match out.1 {
            Err(e) => (out.0, Err(e)),
            Ok(id) => if flags & GraphInstantiateFlags::UPLOAD != 0 {
                match self.upload_graph(id) {
                    Err(e) => ((GraphInstantiateResult::Error, None), Err(e)),
                    Ok(_done) => (out.0, Ok(id)),
                }
            } else {
                (out.0, Ok(id))
            },
        }
    }

    /// Instantiate with `params.flags`, and fill in the outcome and the node at fault.
    pub fn instantiate_graph_with_params(
        &mut self,
        graph: GraphId,
        params: &mut GraphInstantiateParams,
    ) -> (r: Result<GraphId, SimError>)
        ensures
            final(self)@ == old(self)@.instantiate_and_upload(graph, old(params).flags).0,
            r == old(self)@.instantiate_and_upload(graph, old(params).flags).1.1,
            *final(params) == (GraphInstantiateParams {
                flags: old(params).flags,
                result: old(self)@.instantiate_and_upload(graph, old(params).flags).1.0.0,
                err_node: old(self)@.instantiate_and_upload(graph, old(params).flags).1.0.1,
            }),
    {
        let out = self.instantiate_and_upload(graph, params.flags);
        params.result = out.0.0;
        params.err_node = out.0.1;
        out.1
    }

    /// Bits that the executable was made with.
    pub fn graph_exec_get_flags(&self, graph: GraphId) -> (r: Result<u32, SimError>)
        ensures
            r == self@.graph_exec_get_flags(graph),
    {
        let id = self.as_exec(graph)?;
        let g = self.graph_ref(id)?;
        Ok(g.instantiate_flags)
    }

    /// Only known bits.
    pub(crate) fn check_instantiate_flags(&self, flags: u32) -> (r: Result<(), SimError>)
        ensures
            r == self@.check_instantiate_flags(flags),
    {
        let known: u32 = GraphInstantiateFlags::AUTO_FREE_ON_LAUNCH | GraphInstantiateFlags::UPLOAD | GraphInstantiateFlags::DEVICE_LAUNCH | GraphInstantiateFlags::USE_NODE_PRIORITY;
        if flags & !known != 0 {
            return Err(invalid("instantiate flags"));
        }
        Ok(())
    }

    /// The refusal of an instantiation with its report.
    pub(crate) fn refusal(
        &self,
        result: GraphInstantiateResult,
        node: Option<usize>,
        why: &'static str,
    ) -> (r: Option<(GraphInstantiateResult, Option<usize>, Result<GraphId, SimError>)>)
        ensures
            r == self@.refusal(result, node, why),
    {
        Some((result, node, Err(invalid(why))))
    }

    /// Whether the definition holds graph allocations.
    pub(crate) fn has_graph_memory(&self, graph: GraphId, g: &Graph) -> (r: bool)
        ensures
            r == self@.has_graph_memory(graph, g@),
    {
        g.first_mem().is_some() || self.allocs_of(graph).len() > 0
    }

    /// The outcome of an instantiation that makes no executable, with its report.
    pub(crate) fn instantiate_refused(
        &self,
        graph: GraphId,
        g: &Graph,
        flags: u32,
    ) -> (r: Option<(GraphInstantiateResult, Option<usize>, Result<GraphId, SimError>)>)
        ensures
            r == self@.instantiate_refused(graph, g@, flags),
    {
        if g.instantiated {
            if flags & !g.instantiate_flags != 0 {
                return self.refusal(GraphInstantiateResult::Error, None, "graph instantiate flags");
            }
            return Some((GraphInstantiateResult::Success, None, Ok(graph)));
        }
        if flags & GraphInstantiateFlags::AUTO_FREE_ON_LAUNCH != 0 && g.first_free().is_some() {
            return self.refusal(
                GraphInstantiateResult::InvalidStructure,
                g.first_free(),
                "auto free with mem free nodes",
            );
        }
        if flags & GraphInstantiateFlags::DEVICE_LAUNCH != 0 && g.first_refused().is_some() {
            return self.refusal(
                GraphInstantiateResult::NodeOperationNotSupported,
                g.first_refused(),
                "device launch instantiate flag",
            );
        }
        if g.primary_exec.is_some() && self.has_graph_memory(graph, g) {
            return self.refusal(
                GraphInstantiateResult::InvalidStructure,
                g.first_mem(),
                "graph mem exec",
            );
        }
        if g.first_foreign().is_some() {
            return self.refusal(
                GraphInstantiateResult::MultipleDevicesNotSupported,
                g.first_foreign(),
                "graph multiple devices",
            );
        }
        match self.profile.gpu(g.head_device(g.origin.0)) {
            Err(e) => Some((GraphInstantiateResult::Error, None, Err(e))),
            Ok(_gpu) => None,
        }
    }

    /// The outcome of a request that makes no executable, with its report.
    pub(crate) fn instantiate_settled(
        &self,
        graph: GraphId,
        flags: u32,
    ) -> (r: Option<(GraphInstantiateResult, Option<usize>, Result<GraphId, SimError>)>)
        ensures
            r == self@.instantiate_settled(graph, flags),
    {
        match self.fail_if_capturing("cannot capture graph instantiate") {
            Err(e) => return Some((GraphInstantiateResult::Error, None, Err(e))),
            Ok(_ok) => {},
        }
        match self.check_instantiate_flags(flags) {
            Err(e) => return Some((GraphInstantiateResult::Error, None, Err(e))),
            Ok(_ok) => {},
        }
        match self.graph_ref(graph) {
            Err(e) => Some((GraphInstantiateResult::Error, None, Err(e))),
            Ok(g) => self.instantiate_refused(graph, g, flags),
        }
    }

    /// Make an executable, and report. A refused body of a conditional node is a plain error.
    pub(crate) fn instantiate_graph_inner(
        &mut self,
        graph: GraphId,
        flags: u32,
        fuel: usize,
    ) -> (r: ((GraphInstantiateResult, Option<usize>), Result<GraphId, SimError>))
        ensures
            final(self)@ == old(self)@.instantiate_graph_inner(graph, flags, fuel).0,
            r == old(self)@.instantiate_graph_inner(graph, flags, fuel).1,
        decreases fuel, 3int, 0int,
    {
        let settled = self.instantiate_settled(graph, flags);
        match settled {
            Some(t) => ((t.0, t.1), t.2),
            None => match self.instantiate_steps(graph, flags, fuel) {
                Err(e) => ((GraphInstantiateResult::Error, None), Err(e)),
                Ok(id) => ((GraphInstantiateResult::Success, None), Ok(id)),
            },
        }
    }

    /// Executable of a conditional body.
    pub(crate) fn instantiate_bodies(
        &mut self,
        bodies: &Vec<GraphId>,
        fuel: usize,
    ) -> (r: Result<(), SimError>)
        ensures
            final(self)@ == old(self)@.instantiate_bodies(bodies@, fuel).0,
            r == old(self)@.instantiate_bodies(bodies@, fuel).1,
        decreases fuel, 5int, 0int,
    {
        let mut i: usize = 0;
        while i < bodies.len()
            invariant
                i <= bodies@.len(),
                old(self)@.instantiate_bodies(bodies@, fuel) == self@.instantiate_bodies_from(
                    bodies@,
                    fuel,
                    i as int,
                ),
            decreases bodies@.len() - i,
        {
            let out = self.instantiate_graph_inner(bodies[i], 0, fuel);
            match out.1 {
                Err(e) => return Err(e),
                Ok(_id) => {},
            }
            i += 1;
        }
        Ok(())
    }

    pub(crate) fn instantiate_steps(
        &mut self,
        graph: GraphId,
        flags: u32,
        fuel: usize,
    ) -> (r: Result<GraphId, SimError>)
        ensures
            final(self)@ == old(self)@.instantiate_steps(graph, flags, fuel).0,
            r == old(self)@.instantiate_steps(graph, flags, fuel).1,
        decreases fuel, 2int, 0int,
    {
        if fuel == 0 {
            return Err(invalid("cyclic child graph"));
        }
        let g = self.graph_ref(graph)?;
        let origin = g.origin;
        let bodies: Vec<GraphId> = all_bodies(&g.steps);
        let steps: Rows<GraphStep> = g.steps.dup();
        let gpu = self.profile.gpu(g.head_device(g.origin.0))?;
        let ns: u64 = max_u64(gpu.graph_instantiate_ns, 1);
        self.clock = self.clock.saturating_add(ns);
        self.instantiate_bodies(&bodies, fuel.saturating_sub(1))?;
        self.add_exec(graph, flags, origin, &steps)
    }

    /// New executable of `steps`, the primary one of `graph` if that has none.
    pub(crate) fn add_exec(
        &mut self,
        graph: GraphId,
        flags: u32,
        origin: Lane,
        steps: &Rows<GraphStep>,
    ) -> (r: Result<GraphId, SimError>)
        ensures
            final(self)@ == old(self)@.add_exec(graph, flags, origin, steps@).0,
            r == old(self)@.add_exec(graph, flags, origin, steps@).1,
    {
        reveal(SimState::add_exec);
        let id = GraphId(self.next.graph);
        self.next.graph = self.next.graph.saturating_add(1);
        let snap: Rows<GraphStep> = self.exec_steps(steps)?;
        let made = Graph {
            steps: snap.dup(),
            snapshot: Some(snap),
            origin,
            instantiated: true,
            uploaded: false,
            auto_free_on_launch: flags & GraphInstantiateFlags::AUTO_FREE_ON_LAUNCH != 0,
            instantiate_flags: flags,
            device_launch_tail: None,
            primary_exec: None,
            src: Some(graph),
        };
        self.graphs.insert(id, made);
        let def = self.graph_ref(graph)?;
        if def.primary_exec.is_none() {
            let d = self.graph_mut(graph)?;
            d.primary_exec = Some(id);
        }
        Ok(id)
    }

    /// Nodes with nested graphs replaced by their executables. Destroyed nodes stay as they are.
    pub(crate) fn exec_steps(
        &self,
        steps: &Rows<GraphStep>,
    ) -> (r: Result<Rows<GraphStep>, SimError>)
        ensures
            ok_view(r) == self@.exec_steps(steps@),
    {
        let mut out: Rows<GraphStep> = Rows::new();
        let mut i: usize = 0;
        while i < steps.len()
            invariant
                i <= steps@.len(),
                self@.exec_steps(steps@) == all_ok(
                    steps@.len(),
                    |j: int| self@.exec_steps_at(steps@, j),
                ),
                out@.len() == i,
                forall|j: int| 0 <= j < i ==> #[trigger] self@.exec_steps_at(steps@, j) is Ok && self@.exec_steps_at(steps@, j)->Ok_0 == out@[j],
            decreases steps@.len() - i,
        {
            proof {
                lemma_all_ok(steps@.len(), |j: int| self@.exec_steps_at(steps@, j), i as int);
            }
            let mut step: GraphStep = steps.at(i).dup();
            step.kind = self.exec_kind(&step)?;
            out.push(step);
            i += 1;
        }
        proof {
            lemma_all_done(steps@.len(), |j: int| self@.exec_steps_at(steps@, j), out@);
        }
        Ok(out)
    }

    /// What a node does in an executable.
    pub(crate) fn exec_kind(&self, step: &GraphStep) -> (r: Result<GpuOp, SimError>)
        ensures
            ok_view(r) == self@.exec_kind(step@),
    {
        if step.destroyed {
            return Ok(step.kind.dup());
        }
        self.remap_kind_to_exec(&step.kind)
    }

    /// Executables of several graphs.
    pub(crate) fn resolved_graphs(
        &self,
        graphs: &Vec<GraphId>,
    ) -> (r: Result<Vec<GraphId>, SimError>)
        ensures
            ok_view(r) == self@.resolved_graphs(graphs@),
    {
        let mut out: Vec<GraphId> = Vec::new();
        let mut i: usize = 0;
        while i < graphs.len()
            invariant
                i <= graphs@.len(),
                self@.resolved_graphs(graphs@) == all_ok(
                    graphs@.len(),
                    |j: int| self@.resolved_graphs_at(graphs@, j),
                ),
                out@.len() == i,
                forall|j: int| 0 <= j < i ==> #[trigger] self@.resolved_graphs_at(graphs@, j) is Ok && self@.resolved_graphs_at(graphs@, j)->Ok_0 == out@[j],
            decreases graphs@.len() - i,
        {
            proof {
                lemma_all_ok(
                    graphs@.len(),
                    |j: int| self@.resolved_graphs_at(graphs@, j),
                    i as int,
                );
            }
            let id = self.resolved_graph(graphs[i])?;
            out.push(id);
            i += 1;
        }
        proof {
            lemma_all_done(graphs@.len(), |j: int| self@.resolved_graphs_at(graphs@, j), out@);
        }
        Ok(out)
    }

    /// The node with nested graphs replaced by their executables.
    pub(crate) fn remap_kind_to_exec(&self, kind: &GpuOp) -> (r: Result<GpuOp, SimError>)
        ensures
            ok_view(r) == self@.remap_kind_to_exec(kind@),
    {
        match kind {
            GpuOp::ChildGraph { graph } => {
                let id = self.resolved_graph(*graph)?;
                Ok(GpuOp::ChildGraph { graph: id })
            },
            GpuOp::If { handle, body } => {
                let id = self.resolved_graph(*body)?;
                Ok(GpuOp::If { handle: *handle, body: id })
            },
            GpuOp::While { handle, body } => {
                let id = self.resolved_graph(*body)?;
                Ok(GpuOp::While { handle: *handle, body: id })
            },
            GpuOp::Switch { handle, bodies } => {
                let ids: Vec<GraphId> = self.resolved_graphs(bodies)?;
                Ok(GpuOp::Switch { handle: *handle, bodies: ids })
            },
            _ => Ok(kind.dup()),
        }
    }

    /// Executable of a graph, made if there is none.
    pub(crate) fn ensure_exec(&mut self, graph: GraphId) -> (r: Result<GraphId, SimError>)
        ensures
            final(self)@ == old(self)@.ensure_exec(graph).0,
            r == old(self)@.ensure_exec(graph).1,
    {
        let g = self.graph_ref(graph)?;
        if g.instantiated {
            return Ok(graph);
        }
        if let Some(p) = g.primary_exec {
            return Ok(p);
        }
        self.instantiate_graph(graph)
    }

    /// Put the executable on the device. Once is enough until it changes.
    pub fn upload_graph(&mut self, graph: GraphId) -> (r: Result<(), SimError>)
        ensures
            final(self)@ == old(self)@.upload_graph(graph).0,
            r == old(self)@.upload_graph(graph).1,
    {
        self.fail_if_capturing("cannot capture graph upload")?;
        let id = self.as_exec(graph)?;
        let g = self.graph_ref(id)?;
        if g.uploaded {
            return Ok(());
        }
        let gpu = self.profile.gpu(g.head_device(DeviceId(0)))?;
        let ns: u64 = max_u64(gpu.graph_upload_ns, 1);
        self.clock = self.clock.saturating_add(ns);
        self.graph_mut(id)?.uploaded = true;
        Ok(())
    }

    /// Submit every node of the graph; gives their number. The first launch instantiates and
    /// uploads. On a capturing stream it is recorded as one node.
    pub fn launch_graph(&mut self, graph: GraphId, stream: StreamId) -> (r: Result<u32, SimError>)
        ensures
            final(self)@ == old(self)@.launch_graph(graph, stream).0,
            r == old(self)@.launch_graph(graph, stream).1,
    {
        let g = self.graph_ref(graph)?;
        let origin = g.origin;
        let ready: bool = g.ready();
        if self.in_capture(origin.0, stream) {
            return self.capture_child_graph(graph, origin.0, stream, ready);
        }
        let id = self.ensure_exec(graph)?;
        self.upload_for_launch(id)?;
        self.reset_graph_tree_conds(id);
        let none: Vec<OpId> = Vec::new();
        self.enqueue_root(id, stream, true, &none)
    }

    /// Upload before a launch, unless something is being captured.
    pub(crate) fn upload_for_launch(&mut self, id: GraphId) -> (r: Result<(), SimError>)
        ensures
            final(self)@ == old(self)@.upload_for_launch(id).0,
            r == old(self)@.upload_for_launch(id).1,
    {
        let g = self.graph_ref(id)?;
        if !g.uploaded && self.capturing.is_none() {
            return self.upload_graph(id);
        }
        Ok(())
    }

    /// Launch an uploaded executable from the device. One launch of it may be in flight.
    pub fn device_launch_graph(
        &mut self,
        graph: GraphId,
        stream: StreamId,
    ) -> (r: Result<OpId, SimError>)
        ensures
            final(self)@ == old(self)@.device_launch_graph(graph, stream).0,
            r == old(self)@.device_launch_graph(graph, stream).1,
    {
        self.fail_if_capturing("cannot capture device launch")?;
        let id = self.as_exec(graph)?;
        let g = self.graph_ref(id)?;
        let device = g.origin.0;
        if g.instantiate_flags & GraphInstantiateFlags::DEVICE_LAUNCH == 0 {
            return Err(invalid("graph not device launch"));
        }
        if !g.uploaded {
            return Err(invalid("graph not uploaded"));
        }
        if let Some(tail) = g.device_launch_tail {
            if !self.op_done(tail) {
                return Err(invalid("device launch in flight"));
            }
        }
        let op = self.submit(device, stream, GpuOp::DeviceLaunch { graph: id })?;
        self.graph_mut(id)?.device_launch_tail = Some(op);
        Ok(op)
    }

    pub(crate) fn capture_child_graph(
        &mut self,
        graph: GraphId,
        device: DeviceId,
        stream: StreamId,
        instantiated: bool,
    ) -> (r: Result<u32, SimError>)
        ensures
            final(self)@ == old(self)@.capture_child_graph(graph, device, stream, instantiated).0,
            r == old(self)@.capture_child_graph(graph, device, stream, instantiated).1,
    {
        if !instantiated {
            return Err(invalid("child graph not instantiated"));
        }
        let _id = self.submit_captured(device, stream, GpuOp::ChildGraph { graph })?;
        Ok(1)
    }
}

} // verus!
