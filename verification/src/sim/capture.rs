//! Stream capture.
use vstd::prelude::*;
use crate::error::{invalid, SimError};
use crate::ids::{AllocId, DeviceId, GraphId, Lane, StreamId};
use crate::kinds::{all_nested, nested_of};
use crate::list::{
    ascending, copy_vec, distinct_ascending, Dup, each_ok, extend_copy, joined, lemma_each_ok,
    ok_view, opt_view, push_all_new, Rows, sort, sorted_distinct, with_all_new,
};
use crate::ops::{CaptureDepOp, CaptureInfoView, StreamCaptureInfo, StreamCaptureMode};
use crate::sim::{Sim, SimState};
use crate::state::{Capture, CaptureView, Graph, GraphStep, GraphView, NextIds, StepView};
use crate::table::{KeySet, Table};

verus! {

impl SimState {
    /// Effect of [`Sim::insert_graph`].
    #[verifier::opaque]
    pub open spec fn insert_graph(self, device: DeviceId, stream: StreamId) -> (SimState, GraphId) {
        let s = self;
        let id = GraphId(s.next.graph);
        let s = SimState { next: NextIds { graph: s.next.graph.saturating_add(1), ..s.next }, ..s };
        let g = GraphView {
            steps: Seq::empty(),
            snapshot: None,
            origin: Lane(device, stream),
            instantiated: false,
            uploaded: false,
            auto_free_on_launch: false,
            instantiate_flags: 0,
            device_launch_tail: None,
            primary_exec: None,
            src: None,
        };
        let s = SimState { graphs: s.graphs.insert(id, g), ..s };
        let s = SimState { graph_allocs: s.graph_allocs.insert(id, Seq::empty()), ..s };
        (s, id)
    }

    /// Value of [`Sim::capture_start_ok`].
    pub open spec fn capture_start_ok(
        self,
        device: DeviceId,
        stream: StreamId,
    ) -> Result<(), SimError> {
        if self.capturing.is_some() {
            Err(invalid("nested graph capture"))
        } else {
            match self.profile.gpu(device) {
                Err(e) => Err(e),
                Ok(_gpu) => if !self.stream_idle(device, stream) {
                    Err(invalid("capture requires idle stream"))
                } else {
                    Ok(())
                },
            }
        }
    }

    /// Effect of [`Sim::begin_capture`].
    pub open spec fn begin_capture(
        self,
        device: DeviceId,
        stream: StreamId,
    ) -> (SimState, Result<(), SimError>) {
        let s = self;
        match s.capture_start_ok(device, stream) {
            Err(e) => (s, Err(e)),
            Ok(_v) => {
                let (s, graph) = s.insert_graph(device, stream);
                let none = Seq::empty();
                s.begin_capture_inner(device, stream, graph, none, s.capture_mode)
            },
        }
    }

    /// Effect of [`Sim::begin_capture_with_mode`].
    pub open spec fn begin_capture_with_mode(
        self,
        device: DeviceId,
        stream: StreamId,
        mode: StreamCaptureMode,
    ) -> (SimState, Result<(), SimError>) {
        let s = self;
        match s.capture_start_ok(device, stream) {
            Err(e) => (s, Err(e)),
            Ok(_v) => {
                let (s, graph) = s.insert_graph(device, stream);
                let none = Seq::empty();
                s.begin_capture_inner(device, stream, graph, none, mode)
            },
        }
    }

    /// Effect of [`Sim::begin_capture_to_graph`].
    pub open spec fn begin_capture_to_graph(
        self,
        device: DeviceId,
        stream: StreamId,
        graph: GraphId,
        deps: Seq<usize>,
    ) -> (SimState, Result<(), SimError>) {
        let s = self;
        s.begin_capture_inner(device, stream, graph, deps, s.capture_mode)
    }

    /// Effect of [`Sim::begin_capture_to_graph_with_mode`].
    pub open spec fn begin_capture_to_graph_with_mode(
        self,
        device: DeviceId,
        stream: StreamId,
        graph: GraphId,
        deps: Seq<usize>,
        mode: StreamCaptureMode,
    ) -> (SimState, Result<(), SimError>) {
        let s = self;
        s.begin_capture_inner(device, stream, graph, deps, mode)
    }

    /// Effect of [`Sim::begin_capture_inner`].
    #[verifier::opaque]
    pub open spec fn begin_capture_inner(
        self,
        device: DeviceId,
        stream: StreamId,
        graph: GraphId,
        deps: Seq<usize>,
        mode: StreamCaptureMode,
    ) -> (SimState, Result<(), SimError>) {
        let s = self;
        match s.profile.gpu(device) {
            Err(e) => (s, Err(e)),
            Ok(_gpu) => if s.capturing.is_some() {
                (s, Err(invalid("nested graph capture")))
            } else if !s.stream_idle(device, stream) {
                (s, Err(invalid("capture requires idle stream")))
            } else {
                match s.capture_into(device, graph, deps) {
                    Err(e) => (s, Err(e)),
                    Ok(roots) => {
                        let streams = Set::empty();
                        let streams = streams.insert(Lane(device, stream));
                        let id = s.next.capture;
                        let s = SimState {
                            next: NextIds { capture: s.next.capture.saturating_add(1), ..s.next },
                            ..s
                        };
                        let s = SimState {
                            capturing: Some(
                                CaptureView {
                                    origin: Lane(device, stream),
                                    streams,
                                    events: Set::empty(),
                                    mem_allocs: Seq::empty(),
                                    graph,
                                    deps: roots,
                                    pending: Map::empty(),
                                    extra_abs: Map::empty(),
                                    mode,
                                    id,
                                },
                            ),
                            capture_buf: Seq::empty(),
                            ..s
                        };
                        (s, Ok(()))
                    },
                }
            },
        }
    }

    /// Check of position `i` in [`Sim::capture_into`].
    pub open spec fn capture_into_at(
        self,
        deps: Seq<usize>,
        g: GraphView,
        i: int,
    ) -> Result<(), SimError> {
        if deps[i] >= g.steps.len() {
            Err(invalid("graph dependency"))
        } else {
            Ok(())
        }
    }

    /// Value of [`Sim::capture_into`].
    pub open spec fn capture_into(
        self,
        device: DeviceId,
        graph: GraphId,
        deps: Seq<usize>,
    ) -> Result<Seq<usize>, SimError> {
        match self.graph_ref(graph) {
            Err(e) => Err(e),
            Ok(g) => if g.instantiated {
                Err(invalid("graph instantiated"))
            } else if g.origin.0 != device {
                Err(invalid("capture gpu mismatch"))
            } else {
                match each_ok(deps.len(), |i: int| self.capture_into_at(deps, g, i)) {
                    Err(e) => Err(e),
                    Ok(_v) => Ok(distinct_ascending(deps)),
                }
            },
        }
    }

    /// Effect of [`Sim::end_capture`].
    pub open spec fn end_capture(self) -> (SimState, Result<GraphId, SimError>) {
        let s = self;
        match s.capturing {
            Some(cap) => {
                let graph = cap.graph;
                let mem = cap.mem_allocs;
                let cycles = s.fail_capture_child_cycles(graph);
                let nodes = s.captured_nodes();
                let s = SimState { capturing: None, capture_buf: Seq::empty(), ..s };
                match cycles {
                    Err(e) => (s, Err(e)),
                    Ok(_v) => s.append_captured(graph, nodes, mem),
                }
            },
            _ => (s, Err(invalid("end_capture without begin_capture"))),
        }
    }

    /// Element `i` of [`Sim::captured_deps`].
    pub open spec fn captured_deps_at(self, own: Seq<usize>, offset: usize, i: int) -> usize {
        own[i].saturating_add(offset)
    }

    /// Value of [`Sim::captured_deps`].
    pub open spec fn captured_deps(
        self,
        own: Seq<usize>,
        offset: usize,
        extra: Seq<usize>,
        roots: Seq<usize>,
    ) -> Seq<usize> {
        let deps = Seq::new(own.len(), |i: int| self.captured_deps_at(own, offset, i));
        let deps = with_all_new(deps, extra);
        let deps = if own.len() == 0 && extra.len() == 0 {
            let deps = with_all_new(deps, roots);
            deps
        } else {
            deps
        };
        let deps = ascending(deps);
        deps
    }

    /// Value of [`Sim::captured_extra`].
    pub open spec fn captured_extra(self, i: usize) -> Seq<usize> {
        match self.capturing {
            Some(cap) => match cap.extra_abs.get(i) {
                Some(v) => v,
                None => Seq::empty(),
            },
            None => Seq::empty(),
        }
    }

    /// Element `i` of [`Sim::captured_nodes`].
    pub open spec fn captured_nodes_at(self, offset: usize, roots: Seq<usize>, i: int) -> StepView {
        let extra = self.captured_extra((i as usize));
        let step = self.capture_buf[i];
        StepView { deps: self.captured_deps(step.deps, offset, extra, roots), ..step }
    }

    /// Value of [`Sim::captured_nodes`].
    pub open spec fn captured_nodes(self) -> Seq<StepView> {
        let offset = self.capture_base();
        let roots = (match self.capturing {
            Some(cap) => cap.deps,
            None => Seq::empty(),
        });
        Seq::new(self.capture_buf.len(), |i: int| self.captured_nodes_at(offset, roots, i))
    }

    /// Effect of [`Sim::append_captured`].
    pub open spec fn append_captured(
        self,
        graph: GraphId,
        nodes: Seq<StepView>,
        mem: Seq<AllocId>,
    ) -> (SimState, Result<GraphId, SimError>) {
        let s = self;
        match s.graph_ref(graph) {
            Err(e) => (s, Err(e)),
            Ok(g) => if g.instantiated {
                (s, Err(invalid("graph instantiated")))
            } else {
                let steps = g.steps;
                s.append_captured_from(graph, nodes, mem, steps, 0)
            },
        }
    }

    /// [`Sim::append_captured`] from position `i` on.
    pub open spec fn append_captured_from(
        self,
        graph: GraphId,
        nodes: Seq<StepView>,
        mem: Seq<AllocId>,
        steps: Seq<StepView>,
        i: int,
    ) -> (SimState, Result<GraphId, SimError>)
        decreases nodes.len() - i,
    {
        let s = self;
        if 0 <= i < nodes.len() {
            let steps = steps.push(nodes[i]);
            s.append_captured_from(graph, nodes, mem, steps, i + 1)
        } else {
            match s.graph_ref(graph) {
                Err(e) => (s, Err(e)),
                Ok(h) => {
                    let h = GraphView { steps: steps, ..h };
                    let s = SimState { graphs: s.graphs.insert(graph, h), ..s };
                    let owned = s.allocs_of(graph);
                    let owned = owned + mem;
                    let s = SimState { graph_allocs: s.graph_allocs.insert(graph, owned), ..s };
                    (s, Ok(graph))
                },
            }
        }
    }

    /// Value of [`Sim::fail_capture_child_cycles`].
    pub open spec fn fail_capture_child_cycles(self, parent: GraphId) -> Result<(), SimError> {
        let nested = nested_of(self.capture_buf);
        self.fail_cycles(parent, nested)
    }

    /// Check of position `i` in [`Sim::fail_cycles`].
    pub open spec fn fail_cycles_at(
        self,
        parent: GraphId,
        nested: Seq<GraphId>,
        i: int,
    ) -> Result<(), SimError> {
        match self.graph_tree_contains(nested[i], parent) {
            Err(e) => Err(e),
            Ok(v1) => if nested[i] == parent || v1 {
                Err(invalid("cyclic child graph"))
            } else {
                Ok(())
            },
        }
    }

    /// Value of [`Sim::fail_cycles`].
    pub open spec fn fail_cycles(
        self,
        parent: GraphId,
        nested: Seq<GraphId>,
    ) -> Result<(), SimError> {
        each_ok(nested.len(), |i: int| self.fail_cycles_at(parent, nested, i))
    }

    /// Effect of [`Sim::stream_update_capture_dependencies`].
    pub open spec fn stream_update_capture_dependencies(
        self,
        device: DeviceId,
        stream: StreamId,
        deps: Seq<usize>,
        mode: CaptureDepOp,
    ) -> (SimState, Result<(), SimError>) {
        let s = self;
        match s.capturing {
            Some(cap) => if !cap.streams.contains(Lane(device, stream)) {
                (s, Err(invalid("stream not capturing")))
            } else {
                let hi = s.capture_base().saturating_add((s.capture_buf.len() as usize));
                s.stream_update_capture_dependencies_from(device, stream, deps, mode, hi, 0)
            },
            _ => (s, Err(invalid("not capturing"))),
        }
    }

    /// [`Sim::stream_update_capture_dependencies`] from position `i` on.
    pub open spec fn stream_update_capture_dependencies_from(
        self,
        device: DeviceId,
        stream: StreamId,
        deps: Seq<usize>,
        mode: CaptureDepOp,
        hi: usize,
        i: int,
    ) -> (SimState, Result<(), SimError>)
        decreases deps.len() - i,
    {
        let s = self;
        if 0 <= i < deps.len() {
            if deps[i] >= hi {
                (s, Err(invalid("graph dependency")))
            } else {
                s.stream_update_capture_dependencies_from(device, stream, deps, mode, hi, i + 1)
            }
        } else {
            let named = s.pending_named(device, stream, deps, mode);
            let s = match s.capturing {
                Some(c) => {
                    let c = CaptureView {
                        pending: c.pending.insert(Lane(device, stream), named),
                        ..c
                    };
                    let s = SimState { capturing: Some(c), ..s };
                    s
                },
                _ => s,
            };
            (s, Ok(()))
        }
    }

    /// Value of [`Sim::pending_named`].
    pub open spec fn pending_named(
        self,
        device: DeviceId,
        stream: StreamId,
        deps: Seq<usize>,
        mode: CaptureDepOp,
    ) -> Seq<usize> {
        match mode {
            CaptureDepOp::Replace => distinct_ascending(deps),
            CaptureDepOp::Append => {
                let before = self.pending_of(device, stream);
                let both = (before + deps);
                distinct_ascending(both)
            },
        }
    }

    /// Value of [`Sim::pending_of`].
    pub open spec fn pending_of(self, device: DeviceId, stream: StreamId) -> Seq<usize> {
        match self.capturing {
            Some(cap) => match cap.pending.get(Lane(device, stream)) {
                Some(v) => v,
                None => Seq::empty(),
            },
            None => Seq::empty(),
        }
    }

    /// Value of [`Sim::stream_is_capturing`].
    pub open spec fn stream_is_capturing(self, device: DeviceId, stream: StreamId) -> bool {
        self.in_capture(device, stream)
    }

    /// Value of [`Sim::stream_capture_info`].
    pub open spec fn stream_capture_info(
        self,
        device: DeviceId,
        stream: StreamId,
    ) -> Option<CaptureInfoView> {
        match self.capturing {
            None => None,
            Some(cap) => if !cap.streams.contains(Lane(device, stream)) {
                None
            } else {
                Some(
                    CaptureInfoView {
                        graph: cap.graph,
                        origin: (cap.origin.0, cap.origin.1),
                        pending_deps: self.pending_of(device, stream),
                        dependencies: self.next_capture_deps(device, stream),
                        id: cap.id,
                        mode: cap.mode,
                    },
                )
            },
        }
    }

    /// Value of [`Sim::next_capture_deps`].
    pub open spec fn next_capture_deps(self, device: DeviceId, stream: StreamId) -> Seq<usize> {
        let deps = self.pending_of(device, stream);
        let deps = match self.last_captured_on(device, stream) {
            Some(i) => {
                let deps = deps.push(self.capture_base().saturating_add(i));
                deps
            },
            _ => deps,
        };
        distinct_ascending(deps)
    }

    /// Effect of [`Sim::thread_exchange_stream_capture_mode`].
    pub open spec fn thread_exchange_stream_capture_mode(
        self,
        mode: StreamCaptureMode,
    ) -> (SimState, StreamCaptureMode) {
        let s = self;
        let prev = s.capture_mode;
        let s = SimState { capture_mode: mode, ..s };
        (s, prev)
    }

    /// Value of [`Sim::stream_capture_mode`].
    pub open spec fn stream_capture_mode(self) -> StreamCaptureMode {
        self.capture_mode
    }
}

impl Sim {
    /// New empty graph.
    pub(crate) fn insert_graph(&mut self, device: DeviceId, stream: StreamId) -> (r: GraphId)
        ensures
            final(self)@ == old(self)@.insert_graph(device, stream).0,
            r == old(self)@.insert_graph(device, stream).1,
    {
        reveal(SimState::insert_graph);
        let id = GraphId(self.next.graph);
        self.next.graph = self.next.graph.saturating_add(1);
        let g = Graph {
            steps: Rows::new(),
            snapshot: None,
            origin: Lane(device, stream),
            instantiated: false,
            uploaded: false,
            auto_free_on_launch: false,
            instantiate_flags: 0,
            device_launch_tail: None,
            primary_exec: None,
            src: None,
        };
        self.graphs.insert(id, g);
        self.graph_allocs.insert(id, Vec::new());
        id
    }

    /// A capture may start on the stream.
    pub(crate) fn capture_start_ok(
        &self,
        device: DeviceId,
        stream: StreamId,
    ) -> (r: Result<(), SimError>)
        ensures
            r == self@.capture_start_ok(device, stream),
    {
        if self.capturing.is_some() {
            return Err(invalid("nested graph capture"));
        }
        let _gpu = self.profile.gpu(device)?;
        if !self.stream_idle(device, stream) {
            return Err(invalid("capture requires idle stream"));
        }
        Ok(())
    }

    /// Record later submissions of the stream into a new graph, in the default mode.
    pub fn begin_capture(&mut self, device: DeviceId, stream: StreamId) -> (r: Result<(), SimError>)
        ensures
            final(self)@ == old(self)@.begin_capture(device, stream).0,
            r == old(self)@.begin_capture(device, stream).1,
    {
        self.capture_start_ok(device, stream)?;
        let graph = self.insert_graph(device, stream);
        let none: Vec<usize> = Vec::new();
        self.begin_capture_inner(device, stream, graph, none.as_slice(), self.capture_mode)
    }

    /// Record later submissions of the stream into a new graph. The default mode stays as it is.
    pub fn begin_capture_with_mode(
        &mut self,
        device: DeviceId,
        stream: StreamId,
        mode: StreamCaptureMode,
    ) -> (r: Result<(), SimError>)
        ensures
            final(self)@ == old(self)@.begin_capture_with_mode(device, stream, mode).0,
            r == old(self)@.begin_capture_with_mode(device, stream, mode).1,
    {
        self.capture_start_ok(device, stream)?;
        let graph = self.insert_graph(device, stream);
        let none: Vec<usize> = Vec::new();
        self.begin_capture_inner(device, stream, graph, none.as_slice(), mode)
    }

    /// Record later submissions of the stream into `graph`. Nodes without predecessors in the
    /// capture depend on `deps`.
    pub fn begin_capture_to_graph(
        &mut self,
        device: DeviceId,
        stream: StreamId,
        graph: GraphId,
        deps: &[usize],
    ) -> (r: Result<(), SimError>)
        ensures
            final(self)@ == old(self)@.begin_capture_to_graph(device, stream, graph, deps@).0,
            r == old(self)@.begin_capture_to_graph(device, stream, graph, deps@).1,
    {
        self.begin_capture_inner(device, stream, graph, deps, self.capture_mode)
    }

    /// [`Sim::begin_capture_to_graph`] in a given mode.
    pub fn begin_capture_to_graph_with_mode(
        &mut self,
        device: DeviceId,
        stream: StreamId,
        graph: GraphId,
        deps: &[usize],
        mode: StreamCaptureMode,
    ) -> (r: Result<(), SimError>)
        ensures
            final(self)@ == old(self)@.begin_capture_to_graph_with_mode(
                device,
                stream,
                graph,
                deps@,
                mode,
            ).0,
            r == old(self)@.begin_capture_to_graph_with_mode(device, stream, graph, deps@, mode).1,
    {
        self.begin_capture_inner(device, stream, graph, deps, mode)
    }

    pub(crate) fn begin_capture_inner(
        &mut self,
        device: DeviceId,
        stream: StreamId,
        graph: GraphId,
        deps: &[usize],
        mode: StreamCaptureMode,
    ) -> (r: Result<(), SimError>)
        ensures
            final(self)@ == old(self)@.begin_capture_inner(device, stream, graph, deps@, mode).0,
            r == old(self)@.begin_capture_inner(device, stream, graph, deps@, mode).1,
    {
        reveal(SimState::begin_capture_inner);
        let _gpu = self.profile.gpu(device)?;
        if self.capturing.is_some() {
            return Err(invalid("nested graph capture"));
        }
        if !self.stream_idle(device, stream) {
            return Err(invalid("capture requires idle stream"));
        }
        let roots: Vec<usize> = self.capture_into(device, graph, deps)?;
        let mut streams: KeySet<Lane> = KeySet::new();
        let _new = streams.insert(Lane(device, stream));
        let id: u64 = self.next.capture;
        self.next.capture = self.next.capture.saturating_add(1);
        self.capturing = Some(Capture {
            origin: Lane(device, stream),
            streams,
            events: KeySet::new(),
            mem_allocs: Vec::new(),
            graph,
            deps: roots,
            pending: Table::new(),
            extra_abs: Table::new(),
            mode,
            id,
        });
        self.capture_buf = Rows::new();
        Ok(())
    }

    /// Nodes of `graph` on which capture roots depend, ascending and each once.
    pub(crate) fn capture_into(
        &self,
        device: DeviceId,
        graph: GraphId,
        deps: &[usize],
    ) -> (r: Result<Vec<usize>, SimError>)
        ensures
            ok_view(r) == self@.capture_into(device, graph, deps@),
    {
        let g: &Graph = self.graph_ref(graph)?;
        if g.instantiated {
            return Err(invalid("graph instantiated"));
        }
        if g.origin.0 != device {
            return Err(invalid("capture gpu mismatch"));
        }
        let mut i: usize = 0;
        while i < deps.len()
            invariant
                i <= deps@.len(),
                each_ok(deps@.len(), |j: int| self@.capture_into_at(deps@, g@, j)) is Err ==> self@.capture_into(device, graph, deps@) == Err::<Seq<usize>, SimError>(
                    each_ok(deps@.len(), |j: int| self@.capture_into_at(deps@, g@, j))->Err_0,
                ),
                forall|j: int| 0 <= j < i ==> #[trigger] self@.capture_into_at(deps@, g@, j) is Ok,
            decreases deps@.len() - i,
        {
            proof {
                lemma_each_ok(deps@.len(), |j: int| self@.capture_into_at(deps@, g@, j), i as int);
            }
            if deps[i] >= g.steps.len() {
                return Err(invalid("graph dependency"));
            }
            i += 1;
        }
        proof {
            lemma_each_ok(deps@.len(), |j: int| self@.capture_into_at(deps@, g@, j), i as int);
        }
        Ok(sorted_distinct(deps))
    }

    /// Finish the capture: the graph gets the recorded nodes.
    pub fn end_capture(&mut self) -> (r: Result<GraphId, SimError>)
        ensures
            final(self)@ == old(self)@.end_capture().0,
            r == old(self)@.end_capture().1,
    {
        let Some(cap) = self.capturing.as_ref() else {
            return Err(invalid("end_capture without begin_capture"));
        };
        let graph = cap.graph;
        let mem: Vec<AllocId> = copy_vec(&cap.mem_allocs);
        let cycles: Result<(), SimError> = self.fail_capture_child_cycles(graph);
        let nodes: Rows<GraphStep> = self.captured_nodes();
        self.capturing = None;
        self.capture_buf = Rows::new();
        cycles?;
        self.append_captured(graph, &nodes, &mem)
    }

    /// Dependencies of a captured node as nodes of the graph: its own shifted by `offset`, then
    /// `extra`, then `roots` where it has none of those, ascending.
    pub(crate) fn captured_deps(
        &self,
        own: &Vec<usize>,
        offset: usize,
        extra: &Vec<usize>,
        roots: &Vec<usize>,
    ) -> (r: Vec<usize>)
        ensures
            r@ == self@.captured_deps(own@, offset, extra@, roots@),
    {
        let mut deps: Vec<usize> = Vec::new();
        let mut i: usize = 0;
        while i < own.len()
            invariant
                i <= own@.len(),
                deps@.len() == i,
                forall|j: int| 0 <= j < i ==> #[trigger] deps@[j] == self@.captured_deps_at(own@, offset, j),
            decreases own@.len() - i,
        {
            deps.push(own[i].saturating_add(offset));
            i += 1;
        }
        assert(deps@ =~= Seq::new(own@.len(), |j: int| self@.captured_deps_at(own@, offset, j)));
        push_all_new(&mut deps, extra);
        if own.len() == 0 && extra.len() == 0 {
            push_all_new(&mut deps, roots);
        }
        sort(&mut deps);
        deps
    }

    /// Extra dependencies of the captured node `i`.
    pub(crate) fn captured_extra(&self, i: usize) -> (r: Vec<usize>)
        ensures
            r@ == self@.captured_extra(i),
    {
        match self.capturing.as_ref() {
            Some(cap) => match cap.extra_abs.get(i) {
                Some(v) => copy_vec(v),
                None => Vec::new(),
            },
            None => Vec::new(),
        }
    }

    /// The captured nodes as they join the graph.
    pub(crate) fn captured_nodes(&self) -> (r: Rows<GraphStep>)
        ensures
            r@ == self@.captured_nodes(),
    {
        let offset: usize = self.capture_base();
        let roots: Vec<usize> = match self.capturing.as_ref() {
            Some(cap) => copy_vec(&cap.deps),
            None => Vec::new(),
        };
        let mut out: Rows<GraphStep> = Rows::new();
        let mut i: usize = 0;
        while i < self.capture_buf.len()
            invariant
                i <= self@.capture_buf.len(),
                out@.len() == i,
                forall|j: int| 0 <= j < i ==> #[trigger] out@[j] == self@.captured_nodes_at(
                    offset,
                    roots@,
                    j,
                ),
            decreases self@.capture_buf.len() - i,
        {
            let extra: Vec<usize> = self.captured_extra(i);
            let mut step: GraphStep = self.capture_buf.at(i).dup();
            step.deps = self.captured_deps(&step.deps, offset, &extra, &roots);
            out.push(step);
            i += 1;
        }
        assert(
            out@ =~= Seq::new(
                self@.capture_buf.len(),
                |j: int| self@.captured_nodes_at(offset, roots@, j),
            )
        );
        out
    }

    pub(crate) fn append_captured(
        &mut self,
        graph: GraphId,
        nodes: &Rows<GraphStep>,
        mem: &Vec<AllocId>,
    ) -> (r: Result<GraphId, SimError>)
        ensures
            final(self)@ == old(self)@.append_captured(graph, nodes@, mem@).0,
            r == old(self)@.append_captured(graph, nodes@, mem@).1,
    {
        let g = self.graph_ref(graph)?;
        if g.instantiated {
            return Err(invalid("graph instantiated"));
        }
        let mut steps: Rows<GraphStep> = g.steps.dup();
        let mut i: usize = 0;
        while i < nodes.len()
            invariant
                i <= nodes@.len(),
                old(self)@.append_captured(graph, nodes@, mem@) == self@.append_captured_from(
                    graph,
                    nodes@,
                    mem@,
                    steps@,
                    i as int,
                ),
            decreases nodes@.len() - i,
        {
            steps.push(nodes.at(i).dup());
            i += 1;
        }
        let h = self.graph_mut(graph)?;
        h.steps = steps;
        let mut owned: Vec<AllocId> = self.allocs_of(graph);
        extend_copy(&mut owned, mem);
        self.graph_allocs.insert(graph, owned);
        Ok(graph)
    }

    /// No captured node nests the graph that receives it.
    pub(crate) fn fail_capture_child_cycles(&self, parent: GraphId) -> (r: Result<(), SimError>)
        ensures
            r == self@.fail_capture_child_cycles(parent),
    {
        let nested: Vec<GraphId> = all_nested(&self.capture_buf);
        self.fail_cycles(parent, &nested)
    }

    pub(crate) fn fail_cycles(
        &self,
        parent: GraphId,
        nested: &Vec<GraphId>,
    ) -> (r: Result<(), SimError>)
        ensures
            r == self@.fail_cycles(parent, nested@),
    {
        let mut i: usize = 0;
        while i < nested.len()
            invariant
                i <= nested@.len(),
                self@.fail_cycles(parent, nested@) == each_ok(
                    nested@.len(),
                    |j: int| self@.fail_cycles_at(parent, nested@, j),
                ),
                forall|j: int| 0 <= j < i ==> #[trigger] self@.fail_cycles_at(
                    parent,
                    nested@,
                    j,
                ) is Ok,
            decreases nested@.len() - i,
        {
            proof {
                lemma_each_ok(
                    nested@.len(),
                    |j: int| self@.fail_cycles_at(parent, nested@, j),
                    i as int,
                );
            }
            if nested[i] == parent || self.graph_tree_contains(nested[i], parent)? {
                return Err(invalid("cyclic child graph"));
            }
            i += 1;
        }
        proof {
            lemma_each_ok(
                nested@.len(),
                |j: int| self@.fail_cycles_at(parent, nested@, j),
                i as int,
            );
        }
        Ok(())
    }

    /// Extra dependencies of the next captured node of the stream, on top of stream order. Nodes
    /// of this capture follow those of the graph.
    pub fn stream_update_capture_dependencies(
        &mut self,
        device: DeviceId,
        stream: StreamId,
        deps: &[usize],
        mode: CaptureDepOp,
    ) -> (r: Result<(), SimError>)
        ensures
            final(self)@ == old(self)@.stream_update_capture_dependencies(
                device,
                stream,
                deps@,
                mode,
            ).0,
            r == old(self)@.stream_update_capture_dependencies(device, stream, deps@, mode).1,
    {
        let Some(cap) = self.capturing.as_ref() else {
            return Err(invalid("not capturing"));
        };
        if !cap.streams.contains(Lane(device, stream)) {
            return Err(invalid("stream not capturing"));
        }
        let hi: usize = self.capture_base().saturating_add(self.capture_buf.len());
        let mut i: usize = 0;
        while i < deps.len()
            invariant
                i <= deps@.len(),
                old(self)@.stream_update_capture_dependencies(device, stream, deps@, mode) == self@.stream_update_capture_dependencies_from(
                    device,
                    stream,
                    deps@,
                    mode,
                    hi,
                    i as int,
                ),
            decreases deps@.len() - i,
        {
            if deps[i] >= hi {
                return Err(invalid("graph dependency"));
            }
            i += 1;
        }
        let named: Vec<usize> = self.pending_named(device, stream, deps, mode);
        if let Some(c) = self.capturing.as_mut() {
            c.pending.insert(Lane(device, stream), named);
        }
        Ok(())
    }

    /// The pending dependencies that an update leaves.
    pub(crate) fn pending_named(
        &self,
        device: DeviceId,
        stream: StreamId,
        deps: &[usize],
        mode: CaptureDepOp,
    ) -> (r: Vec<usize>)
        ensures
            r@ == self@.pending_named(device, stream, deps@, mode),
    {
        match mode {
            CaptureDepOp::Replace => sorted_distinct(deps),
            CaptureDepOp::Append => {
                let before: Vec<usize> = self.pending_of(device, stream);
                let both: Vec<usize> = joined(before.as_slice(), deps);
                sorted_distinct(both.as_slice())
            },
        }
    }

    /// Pending dependencies of a stream.
    pub(crate) fn pending_of(&self, device: DeviceId, stream: StreamId) -> (r: Vec<usize>)
        ensures
            r@ == self@.pending_of(device, stream),
    {
        match self.capturing.as_ref() {
            Some(cap) => match cap.pending.get(Lane(device, stream)) {
                Some(v) => copy_vec(v),
                None => Vec::new(),
            },
            None => Vec::new(),
        }
    }

    /// Whether submissions of the stream are being recorded.
    pub fn stream_is_capturing(&self, device: DeviceId, stream: StreamId) -> (r: bool)
        ensures
            r == self@.stream_is_capturing(device, stream),
    {
        self.in_capture(device, stream)
    }

    /// The capture that the stream takes part in. The dependencies of its next node are its last
    /// captured node and the pending ones.
    pub fn stream_capture_info(
        &self,
        device: DeviceId,
        stream: StreamId,
    ) -> (r: Option<StreamCaptureInfo>)
        ensures
            opt_view(r) == self@.stream_capture_info(device, stream),
    {
        match self.capturing.as_ref() {
            None => None,
            Some(cap) => {
                if !cap.streams.contains(Lane(device, stream)) {
                    return None;
                }
                Some(StreamCaptureInfo {
                    graph: cap.graph,
                    origin: (cap.origin.0, cap.origin.1),
                    pending_deps: self.pending_of(device, stream),
                    dependencies: self.next_capture_deps(device, stream),
                    id: cap.id,
                    mode: cap.mode,
                })
            },
        }
    }

    /// Dependencies that the next captured node of the stream will have.
    pub(crate) fn next_capture_deps(&self, device: DeviceId, stream: StreamId) -> (r: Vec<usize>)
        ensures
            r@ == self@.next_capture_deps(device, stream),
    {
        let mut deps: Vec<usize> = self.pending_of(device, stream);
        if let Some(i) = self.last_captured_on(device, stream) {
            deps.push(self.capture_base().saturating_add(i));
        }
        sorted_distinct(deps.as_slice())
    }

    /// Set the default capture mode; gives back the previous one. A capture in progress keeps its
    /// own.
    pub fn thread_exchange_stream_capture_mode(
        &mut self,
        mode: StreamCaptureMode,
    ) -> (r: StreamCaptureMode)
        ensures
            final(self)@ == old(self)@.thread_exchange_stream_capture_mode(mode).0,
            r == old(self)@.thread_exchange_stream_capture_mode(mode).1,
    {
        let prev = self.capture_mode;
        self.capture_mode = mode;
        prev
    }

    /// Default capture mode.
    pub fn stream_capture_mode(&self) -> (r: StreamCaptureMode)
        ensures
            r == self@.stream_capture_mode(),
    {
        self.capture_mode
    }
}

} // verus!
