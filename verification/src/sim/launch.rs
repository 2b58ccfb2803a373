//! Graph launch: expansion of nodes into operations.
use vstd::prelude::*;
use crate::error::{invalid, SimError};
use crate::ids::{AllocId, CondId, DeviceId, EventId, GraphId, Lane, OpId, StreamId};
use crate::list::{copy_vec, Dup, extend_copy, has_key, ok_view, one, Rows};
use crate::ops::{GpuOp, GpuOpView, GraphInstantiateFlags};
use crate::sim::{Sim, SimState};
use crate::state::{CondPred, Enq, GraphStep, LaunchCost, NodeAttrs, StepView};
use crate::table::Table;
use crate::topo::{graph_topo_order, launch_order};

verus! {

/// Progress of one graph launch.
pub struct Walk {
    /// Operations submitted.
    pub n: u32,
    /// The next operation pays the launch overhead.
    pub head: bool,
    /// Operation that recorded each event in this launch.
    pub rec_ops: Table<EventId, OpId>,
    /// Operations that later nodes wait for, by node.
    pub node_ops: Rows<Vec<OpId>>,
    /// Stream of each node.
    pub node_stream: Vec<Option<StreamId>>,
    /// Internal streams handed out.
    pub worker: u16,
    /// Operations on other streams that the launch stream joins.
    pub joins: Vec<OpId>,
}

/// Mathematical form of [`Walk`].
#[verifier::ext_equal]
pub struct WalkView {
    pub n: u32,
    pub head: bool,
    pub rec_ops: Map<EventId, OpId>,
    pub node_ops: Seq<Seq<OpId>>,
    pub node_stream: Seq<Option<StreamId>>,
    pub worker: u16,
    pub joins: Seq<OpId>,
}

impl View for Walk {
    type V = WalkView;

    open spec fn view(&self) -> WalkView {
        WalkView {
            n: self.n,
            head: self.head,
            rec_ops: self.rec_ops@,
            node_ops: self.node_ops@,
            node_stream: self.node_stream@,
            worker: self.worker,
            joins: self.joins@,
        }
    }
}

/// The operations of several nodes, in the order of the list. A node out of range is refused.
pub open spec fn ops_of_nodes(node_ops: Seq<Seq<OpId>>, deps: Seq<usize>) -> Result<
    Seq<OpId>,
    SimError,
>
    decreases deps.len(),
{
    if deps.len() == 0 {
        Ok(Seq::empty())
    } else {
        match ops_of_nodes(node_ops, deps.drop_last()) {
            Err(e) => Err(e),
            Ok(before) => if deps.last() < node_ops.len() {
                Ok(before + node_ops[deps.last() as int])
            } else {
                Err(invalid("graph dependency"))
            },
        }
    }
}

impl WalkView {
    /// Start over `n` nodes.
    pub open spec fn start(n: usize, head: bool) -> WalkView {
        WalkView {
            n: 0,
            head,
            rec_ops: Map::empty(),
            node_ops: Seq::new(n as nat, |i: int| Seq::empty()),
            node_stream: Seq::new(n as nat, |i: int| None),
            worker: 0,
            joins: Seq::empty(),
        }
    }

    pub open spec fn with_stream(self, idx: usize, s: StreamId, worker: u16) -> WalkView {
        WalkView {
            node_stream: if idx < self.node_stream.len() {
                self.node_stream.update(idx as int, Some(s))
            } else {
                self.node_stream
            },
            worker,
            ..self
        }
    }

    pub open spec fn add_ops(self, idx: usize, ops: Seq<OpId>) -> WalkView {
        WalkView {
            node_ops: if idx < self.node_ops.len() {
                self.node_ops.update(idx as int, self.node_ops[idx as int] + ops)
            } else {
                self.node_ops
            },
            ..self
        }
    }

    /// Whether any node has a stream yet.
    pub open spec fn any_stream(self) -> bool {
        exists|i: int| 0 <= i < self.node_stream.len() && (#[trigger] self.node_stream[i]) is Some
    }

    /// Stream of a node, if it has one yet.
    pub open spec fn stream_of(self, node: usize) -> Option<StreamId> {
        if node < self.node_stream.len() {
            self.node_stream[node as int]
        } else {
            None
        }
    }

    /// What a node waits for: its predecessors, or for a root what the launch waits for.
    pub open spec fn node_waits(
        self,
        deps: Seq<usize>,
        extra_wait: Seq<OpId>,
        launch_tail: Option<OpId>,
    ) -> Result<Seq<OpId>, SimError> {
        if deps.len() > 0 {
            ops_of_nodes(self.node_ops, deps)
        } else {
            match launch_tail {
                Some(t) => Ok(extra_wait.push(t)),
                None => Ok(extra_wait),
            }
        }
    }
}

impl Walk {
    pub fn start(n: usize, head: bool) -> (r: Walk)
        ensures
            r@ == WalkView::start(n, head),
    {
        let mut node_ops: Rows<Vec<OpId>> = Rows::new();
        let mut node_stream: Vec<Option<StreamId>> = Vec::new();
        let mut i: usize = 0;
        while i < n
            invariant
                i <= n,
                node_ops@ =~= Seq::new(i as nat, |k: int| Seq::<OpId>::empty()),
                node_stream@ =~= Seq::new(i as nat, |k: int| None::<StreamId>),
            decreases n - i,
        {
            node_ops.push(Vec::new());
            node_stream.push(None);
            i += 1;
        }
        let r = Walk {
            n: 0,
            head,
            rec_ops: Table::new(),
            node_ops,
            node_stream,
            worker: 0,
            joins: Vec::new(),
        };
        assert(r@ =~= WalkView::start(n, head));
        r
    }

    pub fn with_stream(self, idx: usize, s: StreamId, worker: u16) -> (r: Walk)
        ensures
            r@ == self@.with_stream(idx, s, worker),
    {
        let mut w = self;
        if idx < w.node_stream.len() {
            w.node_stream.set(idx, Some(s));
        }
        w.worker = worker;
        w
    }

    pub fn add_ops(self, idx: usize, ops: &Vec<OpId>) -> (r: Walk)
        ensures
            r@ == self@.add_ops(idx, ops@),
    {
        let mut w = self;
        if idx < w.node_ops.len() {
            let slot = w.node_ops.at_mut(idx);
            extend_copy(slot, ops);
        }
        w
    }

    pub fn any_stream(&self) -> (r: bool)
        ensures
            r == self@.any_stream(),
    {
        let mut i: usize = 0;
        while i < self.node_stream.len()
            invariant
                i <= self.node_stream@.len(),
                forall|k: int| 0 <= k < i ==> (#[trigger] self.node_stream@[k]) is None,
            decreases self.node_stream@.len() - i,
        {
            if self.node_stream[i].is_some() {
                assert(self@.node_stream[i as int] is Some);
                return true;
            }
            i += 1;
        }
        false
    }

    pub fn stream_of(&self, node: usize) -> (r: Option<StreamId>)
        ensures
            r == self@.stream_of(node),
    {
        if node < self.node_stream.len() {
            self.node_stream[node]
        } else {
            None
        }
    }

    pub fn node_waits(
        &self,
        deps: &Vec<usize>,
        extra_wait: &Vec<OpId>,
        launch_tail: Option<OpId>,
    ) -> (r: Result<Vec<OpId>, SimError>)
        ensures
            ok_view(r) == self@.node_waits(deps@, extra_wait@, launch_tail),
    {
        if deps.len() == 0 {
            let mut wait = copy_vec(extra_wait);
            if let Some(t) = launch_tail {
                wait.push(t);
            }
            return Ok(wait);
        }
        let mut wait: Vec<OpId> = Vec::new();
        let mut i: usize = 0;
        while i < deps.len()
            invariant
                i <= deps@.len(),
                ops_of_nodes(self@.node_ops, deps@.take(i as int)) == Ok::<Seq<OpId>, SimError>(
                    wait@,
                ),
            decreases deps@.len() - i,
        {
            let d: usize = deps[i];
            let ghost t = deps@.take(i + 1);
            assert(t.drop_last() =~= deps@.take(i as int));
            if d >= self.node_ops.len() {
                proof {
                    lemma_ops_refused(self@.node_ops, deps@, i as int + 1);
                }
                return Err(invalid("graph dependency"));
            }
            extend_copy(&mut wait, self.node_ops.at(d));
            i += 1;
        }
        assert(deps@.take(i as int) =~= deps@);
        Ok(wait)
    }
}

proof fn lemma_ops_refused(node_ops: Seq<Seq<OpId>>, deps: Seq<usize>, i: int)
    requires
        0 < i <= deps.len(),
        ops_of_nodes(node_ops, deps.take(i)) == Err::<Seq<OpId>, SimError>(
            invalid("graph dependency"),
        ),
    ensures
        ops_of_nodes(node_ops, deps) == Err::<Seq<OpId>, SimError>(invalid("graph dependency")),
    decreases deps.len(),
{
    if i == deps.len() {
        assert(deps.take(i) =~= deps);
    } else {
        assert(deps.drop_last().take(i) =~= deps.take(i));
        lemma_ops_refused(node_ops, deps.drop_last(), i);
    }
}

/// Next internal stream, counted down from the last id and never the launch stream, and the new
/// count.
#[verifier::allow_in_spec]
pub fn alloc_graph_worker(launch: StreamId, worker: u16) -> (StreamId, u16)
    returns
        ({
            let s = StreamId(u16::MAX.saturating_sub(worker));
            let next = worker.saturating_add(1);
            if s != launch {
                (s, next)
            } else {
                (StreamId(u16::MAX.saturating_sub(next)), next.saturating_add(1))
            }
        }),
{
    let s: StreamId = StreamId(u16::MAX.saturating_sub(worker));
    let next: u16 = worker.saturating_add(1);
    if s != launch {
        (s, next)
    } else {
        (StreamId(u16::MAX.saturating_sub(next)), next.saturating_add(1))
    }
}

impl SimState {
    /// Effect of [`Sim::free_each`].
    pub open spec fn free_each(
        self,
        device: DeviceId,
        stream: StreamId,
        ids: Seq<AllocId>,
    ) -> (SimState, Result<(), SimError>) {
        let s = self;
        s.free_each_from(device, stream, ids, 0)
    }

    /// [`Sim::free_each`] from position `i` on.
    pub open spec fn free_each_from(
        self,
        device: DeviceId,
        stream: StreamId,
        ids: Seq<AllocId>,
        i: int,
    ) -> (SimState, Result<(), SimError>)
        decreases ids.len() - i,
    {
        let s = self;
        if 0 <= i < ids.len() {
            let live = (match s.allocs.get(ids[i]) {
                Some(a) => a.live && a.devices.contains(device),
                None => false,
            });
            if !live {
                s.free_each_from(device, stream, ids, i + 1)
            } else {
                match s.submit_launch(
                    device,
                    stream,
                    GpuOpView::Free { id: ids[i] },
                    LaunchCost::GraphBody,
                ) {
                    (s, Err(e)) => (s, Err(e)),
                    (s, Ok(_v)) => s.free_each_from(device, stream, ids, i + 1),
                }
            }
        } else {
            (s, Ok(()))
        }
    }

    /// Effect of [`Sim::enqueue_auto_frees`].
    pub open spec fn enqueue_auto_frees(
        self,
        graph: GraphId,
        stream: StreamId,
    ) -> (SimState, Result<(), SimError>) {
        let s = self;
        match s.graph_ref(graph) {
            Err(e) => (s, Err(e)),
            Ok(g) => if !g.auto_free_on_launch {
                (s, Ok(()))
            } else {
                let device = g.origin.0;
                let ids = s.graph_mem_ids(graph);
                s.free_each(device, stream, ids)
            },
        }
    }

    /// Value of [`Sim::graph_uses_node_priority`].
    pub open spec fn graph_uses_node_priority(self, graph: GraphId) -> bool {
        match self.graphs.get(graph) {
            Some(g) => g.instantiate_flags & GraphInstantiateFlags::USE_NODE_PRIORITY != 0,
            None => false,
        }
    }

    /// Effect of [`Sim::load_enq`].
    #[verifier::opaque]
    pub open spec fn load_enq(self, graph: GraphId, a: NodeAttrs) -> SimState {
        let s = self;
        let priority = if s.graph_uses_node_priority(graph) {
            Some(a.priority)
        } else {
            None
        };
        let s = SimState {
            enq: Enq {
                priority,
                pdl: a.pdl,
                programmatic_event: a.programmatic_event,
                launch_completion: a.launch_completion,
                access_policy: a.access_policy,
                mem_sync_domain: Some(a.mem_sync_domain),
                mem_sync_map: Some(a.mem_sync_map),
                cluster: a.cluster,
                cluster_policy: a.cluster_policy,
                preferred_cluster: a.preferred_cluster,
                carveout: a.carveout,
                device_updatable: a.device_updatable,
                shared_mem: a.shared_mem,
                portable_cluster: a.portable_cluster,
                dynamic_shared: a.dynamic_shared,
                portable_shared: a.portable_shared,
                nvlink_util_centric: a.nvlink_util_centric,
            },
            ..s
        };
        s
    }

    /// Effect of [`Sim::bind_graph_worker`].
    #[verifier::opaque]
    pub open spec fn bind_graph_worker(
        self,
        device: DeviceId,
        launch: StreamId,
        worker: StreamId,
    ) -> SimState {
        let s = self;
        if worker == launch {
            s
        } else {
            let p = (match s.priority.get(Lane(device, launch)) {
                Some(x) => Some(x),
                None => None,
            });
            let s = match p {
                Some(pri) => {
                    let s = SimState {
                        priority: s.priority.insert(Lane(device, worker), pri),
                        ..s
                    };
                    s
                },
                _ => s,
            };
            let m = (match s.sm_permille.get(Lane(device, launch)) {
                Some(x) => Some(x),
                None => None,
            });
            match m {
                Some(sm) => {
                    let s = SimState {
                        sm_permille: s.sm_permille.insert(Lane(device, worker), sm),
                        ..s
                    };
                    s
                },
                _ => s,
            }
        }
    }

    /// Effect of [`Sim::graph_exec_stream`].
    #[verifier::opaque]
    pub open spec fn graph_exec_stream(
        self,
        origin: Lane,
        launch: StreamId,
        device: DeviceId,
        own: StreamId,
        deps: Seq<usize>,
        w: WalkView,
    ) -> (SimState, (StreamId, u16)) {
        let s = self;
        if Lane(device, own) != origin {
            (s, (own, w.worker))
        } else {
            let behind = if deps.len() == 1 {
                w.stream_of(deps[0])
            } else {
                None
            };
            match behind {
                Some(on) => {
                    let s = s.bind_graph_worker(device, launch, on);
                    (s, (on, w.worker))
                },
                None => {
                    let (on, worker) = if !w.any_stream() && deps.len() == 0 {
                        (launch, w.worker)
                    } else {
                        alloc_graph_worker(launch, w.worker)
                    };
                    let s = s.bind_graph_worker(device, launch, on);
                    (s, (on, worker))
                },
            }
        }
    }

    /// Value of [`Sim::nested_done`].
    pub open spec fn nested_done(
        self,
        device: DeviceId,
        on: StreamId,
        stream: StreamId,
        idx: usize,
        add: u32,
        w0: WalkView,
    ) -> WalkView {
        let w = w0;
        let w = WalkView { head: false, ..w };
        let w = WalkView { n: w.n.saturating_add(add), ..w };
        let last = self.tail_of(Lane(device, on));
        let none = Seq::empty();
        let (none, w) = match last {
            Some(id) => {
                let none = none.push(id);
                let w = if on != stream {
                    let w = WalkView { joins: w.joins.push(id), ..w };
                    w
                } else {
                    w
                };
                (none, w)
            },
            _ => (none, w),
        };
        let w = if on != stream {
            let w = match self.graph_joins.get(Lane(device, on)) {
                Some(ids) => {
                    let w = WalkView { joins: w.joins + ids, ..w };
                    w
                },
                _ => w,
            };
            w
        } else {
            w
        };
        w.add_ops(idx, none)
    }

    /// Value of [`Sim::tail_of`].
    pub open spec fn tail_of(self, lane: Lane) -> Option<OpId> {
        match self.tail.get(lane) {
            Some(id) => Some(id),
            None => None,
        }
    }

    /// Effect of [`Sim::pop_pred`].
    pub open spec fn pop_pred(self) -> SimState {
        let s = self;
        if s.enqueue_preds.len() > 0 {
            let s = SimState { enqueue_preds: s.enqueue_preds.drop_last(), ..s };
            s
        } else {
            s
        }
    }

    /// Effect of [`Sim::submit_tick`].
    #[verifier::opaque]
    pub open spec fn submit_tick(
        self,
        device: DeviceId,
        on: StreamId,
        handle: CondId,
        body: GraphId,
        iter: u32,
        wait: Seq<OpId>,
    ) -> (SimState, Result<OpId, SimError>) {
        let s = self;
        let body_tail = s.tail_of(Lane(device, on));
        let s = SimState { enqueue_preds: s.enqueue_preds.push(CondPred::Nonzero(handle)), ..s };
        let (s, tick) = s.submit_launch(
            device,
            on,
            GpuOpView::WhileTick { handle, body, iter },
            LaunchCost::GraphBody,
        );
        let s = s.pop_pred();
        match tick {
            Err(e) => (s, Err(e)),
            Ok(id) => {
                let s = s.add_op_deps(id, wait);
                let s = match body_tail {
                    Some(t) => {
                        let s = if t != id {
                            let s = s.add_op_dep(id, t);
                            s
                        } else {
                            s
                        };
                        s
                    },
                    _ => s,
                };
                (s, Ok(id))
            },
        }
    }

    /// Value of [`Sim::recorded_event`].
    pub open spec fn recorded_event(self, kind: GpuOpView, attrs: NodeAttrs) -> Option<EventId> {
        match kind {
            GpuOpView::EventRecord { event, external } => Some(event),
            _ => match attrs.programmatic_event {
                Some(p) => Some(p.event),
                None => match attrs.launch_completion {
                    Some(p) => Some(p.event),
                    None => None,
                },
            },
        }
    }

    /// Effect of [`Sim::link_event_wait`].
    pub open spec fn link_event_wait(self, id: OpId, kind: GpuOpView, w: WalkView) -> SimState {
        let s = self;
        match kind {
            GpuOpView::EventWait { event, external } => {
                let root = s.event_root(event);
                let rec = if external {
                    s.event_recorded_by(root)
                } else {
                    (match w.rec_ops.get(root) {
                        Some(x) => Some(x),
                        None => None,
                    })
                };
                match rec {
                    Some(r) => {
                        let s = s.add_op_dep(id, r);
                        s
                    },
                    _ => s,
                }
            },
            _ => s,
        }
    }

    /// Effect of [`Sim::enqueue_plain`].
    #[verifier::opaque]
    pub open spec fn enqueue_plain(
        self,
        step: StepView,
        on: StreamId,
        stream: StreamId,
        idx: usize,
        wait: Seq<OpId>,
        w0: WalkView,
    ) -> (SimState, Result<WalkView, SimError>) {
        let s = self;
        let w = w0;
        let launch = if w.head {
            LaunchCost::GraphHead
        } else {
            LaunchCost::GraphBody
        };
        let w = WalkView { head: false, ..w };
        match s.submit_launch(step.device, on, step.kind, launch) {
            (s, Err(e)) => (s, Err(e)),
            (s, Ok(id)) => {
                let s = s.add_op_deps(id, wait);
                let w = match s.recorded_event(step.kind, step.attrs) {
                    Some(event) => {
                        let w = WalkView {
                            rec_ops: w.rec_ops.insert(s.event_root(event), id),
                            ..w
                        };
                        w
                    },
                    _ => w,
                };
                let s = s.link_event_wait(id, step.kind, w);
                let w = if on != stream {
                    let w = WalkView { joins: w.joins.push(id), ..w };
                    w
                } else {
                    w
                };
                let w = WalkView { n: w.n.saturating_add(1), ..w };
                (s, Ok(w.add_ops(idx, seq![id])))
            },
        }
    }

    /// Effect of [`Sim::enqueue_pred_graph`].
    pub open spec fn enqueue_pred_graph(
        self,
        pred: CondPred,
        body: GraphId,
        stream: StreamId,
        head: bool,
        stack: Seq<GraphId>,
        wait: Seq<OpId>,
        fuel: usize,
    ) -> (SimState, Result<u32, SimError>)
        decreases fuel, 3int, 0int,
    {
        let s = self;
        let s = SimState { enqueue_preds: s.enqueue_preds.push(pred), ..s };
        let (s, nested) = s.enqueue_graph(body, stream, head, stack, wait, fuel);
        let s = s.pop_pred();
        (s, nested)
    }

    /// Effect of [`Sim::enqueue_branches`].
    pub open spec fn enqueue_branches(
        self,
        handle: CondId,
        bodies: Seq<GraphId>,
        on: StreamId,
        stack: Seq<GraphId>,
        wait: Seq<OpId>,
        fuel: usize,
        w0: WalkView,
    ) -> (SimState, Result<WalkView, SimError>)
        decreases fuel, 5int, 0int,
    {
        let s = self;
        let w = w0;
        s.enqueue_branches_from(handle, bodies, on, stack, wait, fuel, w, 0)
    }

    /// [`Sim::enqueue_branches`] from position `i` on.
    pub open spec fn enqueue_branches_from(
        self,
        handle: CondId,
        bodies: Seq<GraphId>,
        on: StreamId,
        stack: Seq<GraphId>,
        wait: Seq<OpId>,
        fuel: usize,
        w: WalkView,
        i: int,
    ) -> (SimState, Result<WalkView, SimError>)
        decreases fuel, 4int, bodies.len() - i,
    {
        let s = self;
        if 0 <= i < bodies.len() {
            if (i as usize) as u64 > 0xFFFF_FFFF {
                (s, Err(invalid("switch branches")))
            } else {
                let branch = (i as usize) as u32;
                match s.resolved_graph(bodies[i]) {
                    Err(e) => (s, Err(e)),
                    Ok(body) => match s.enqueue_pred_graph(
                        CondPred::Equals(handle, branch),
                        body,
                        on,
                        w.head,
                        stack,
                        wait,
                        fuel,
                    ) {
                        (s, Err(e)) => (s, Err(e)),
                        (s, Ok(add)) => {
                            let w = WalkView { head: false, ..w };
                            let w = WalkView { n: w.n.saturating_add(add), ..w };
                            s.enqueue_branches_from(handle, bodies, on, stack, wait, fuel, w, i + 1)
                        },
                    },
                }
            }
        } else {
            (s, Ok(w))
        }
    }

    /// Effect of [`Sim::enqueue_step`].
    pub open spec fn enqueue_step(
        self,
        graph: GraphId,
        origin: Lane,
        stream: StreamId,
        step: StepView,
        idx: usize,
        extra_wait: Seq<OpId>,
        launch_tail: Option<OpId>,
        stack: Seq<GraphId>,
        fuel: usize,
        w0: WalkView,
    ) -> (SimState, Result<WalkView, SimError>)
        decreases fuel, 0int, 0int,
    {
        let s = self;
        if fuel == 0 {
            (s, Err(invalid("cyclic child graph")))
        } else {
            let s = s.load_enq(graph, step.attrs);
            match w0.node_waits(step.deps, extra_wait, launch_tail) {
                Err(e) => (s, Err(e)),
                Ok(wait) => {
                    let (s, (on, worker)) = s.graph_exec_stream(
                        origin,
                        stream,
                        step.device,
                        step.stream,
                        step.deps,
                        w0,
                    );
                    let w = w0.with_stream(idx, on, worker);
                    if step.destroyed {
                        (s, Ok(w))
                    } else if !step.enabled {
                        (s, Ok(w.add_ops(idx, wait)))
                    } else {
                        match step.kind {
                            GpuOpView::ChildGraph { graph: child } => match s.resolved_graph(child) {
                                Err(e) => (s, Err(e)),
                                Ok(body) => match s.enqueue_graph(
                                    body,
                                    on,
                                    w.head,
                                    stack,
                                    wait,
                                    fuel.saturating_sub(1),
                                ) {
                                    (s, Err(e)) => (s, Err(e)),
                                    (s, Ok(add)) => (
                                        s,
                                        Ok(s.nested_done(step.device, on, stream, idx, add, w)),
                                    ),
                                },
                            },
                            GpuOpView::If { handle, body } => match s.resolved_graph(body) {
                                Err(e) => (s, Err(e)),
                                Ok(b) => match s.enqueue_pred_graph(
                                    CondPred::Nonzero(handle),
                                    b,
                                    on,
                                    w.head,
                                    stack,
                                    wait,
                                    fuel.saturating_sub(1),
                                ) {
                                    (s, Err(e)) => (s, Err(e)),
                                    (s, Ok(add)) => (
                                        s,
                                        Ok(s.nested_done(step.device, on, stream, idx, add, w)),
                                    ),
                                },
                            },
                            GpuOpView::While { handle, body } => match s.resolved_graph(body) {
                                Err(e) => (s, Err(e)),
                                Ok(b) => match s.enqueue_pred_graph(
                                    CondPred::Nonzero(handle),
                                    b,
                                    on,
                                    w.head,
                                    stack,
                                    wait,
                                    fuel.saturating_sub(1),
                                ) {
                                    (s, Err(e)) => (s, Err(e)),
                                    (s, Ok(add)) => match s.submit_tick(
                                        step.device,
                                        on,
                                        handle,
                                        b,
                                        1,
                                        wait,
                                    ) {
                                        (s, Err(e)) => (s, Err(e)),
                                        (s, Ok(_v)) => (
                                            s,
                                            Ok(
                                                s.nested_done(
                                                    step.device,
                                                    on,
                                                    stream,
                                                    idx,
                                                    add.saturating_add(1),
                                                    w,
                                                ),
                                            ),
                                        ),
                                    },
                                },
                            },
                            GpuOpView::Switch { handle, bodies } => match s.enqueue_branches(
                                handle,
                                bodies,
                                on,
                                stack,
                                wait,
                                fuel.saturating_sub(1),
                                w,
                            ) {
                                (s, Err(e)) => (s, Err(e)),
                                (s, Ok(w2)) => {
                                    let head = w2.head;
                                    let done = s.nested_done(step.device, on, stream, idx, 0, w2);
                                    let done = WalkView { head: head, ..done };
                                    (s, Ok(done))
                                },
                            },
                            _ => s.enqueue_plain(step, on, stream, idx, wait, w),
                        }
                    }
                },
            }
        }
    }

    /// Effect of [`Sim::add_joins`].
    pub open spec fn add_joins(self, lane: Lane, joins: Seq<OpId>) -> SimState {
        let s = self;
        let all = (match s.graph_joins.get(lane) {
            Some(v) => v,
            None => Seq::empty(),
        });
        let all = all + joins;
        let s = SimState { graph_joins: s.graph_joins.insert(lane, all), ..s };
        s
    }

    /// Effect of [`Sim::enqueue_graph`].
    pub open spec fn enqueue_graph(
        self,
        graph: GraphId,
        stream: StreamId,
        head: bool,
        stack: Seq<GraphId>,
        extra_wait: Seq<OpId>,
        fuel: usize,
    ) -> (SimState, Result<u32, SimError>)
        decreases fuel, 2int, 0int,
    {
        let s = self;
        if stack.contains(graph) || fuel == 0 {
            (s, Err(invalid("cyclic child graph")))
        } else {
            let inner = stack;
            let inner = inner.push(graph);
            match s.enqueue_auto_frees(graph, stream) {
                (s, Err(e)) => (s, Err(e)),
                (s, Ok(_v)) => match s.graph_ref(graph) {
                    Err(e) => (s, Err(e)),
                    Ok(g) => {
                        let origin = g.origin;
                        let steps = g.current();
                        match launch_order(steps) {
                            Err(e) => (s, Err(e)),
                            Ok(order) => {
                                let launch_tail = s.tail_of(Lane(origin.0, stream));
                                let w = WalkView::start((steps.len() as usize), head);
                                s.enqueue_graph_from(
                                    graph,
                                    stream,
                                    extra_wait,
                                    fuel,
                                    inner,
                                    origin,
                                    steps,
                                    order,
                                    launch_tail,
                                    w,
                                    0,
                                )
                            },
                        }
                    },
                },
            }
        }
    }

    /// [`Sim::enqueue_graph`] from position `i` on.
    pub open spec fn enqueue_graph_from(
        self,
        graph: GraphId,
        stream: StreamId,
        extra_wait: Seq<OpId>,
        fuel: usize,
        inner: Seq<GraphId>,
        origin: Lane,
        steps: Seq<StepView>,
        order: Seq<usize>,
        launch_tail: Option<OpId>,
        w: WalkView,
        i: int,
    ) -> (SimState, Result<u32, SimError>)
        decreases fuel, 1int, order.len() - i,
    {
        let s = self;
        if 0 <= i < order.len() {
            let idx = order[i];
            if idx >= steps.len() {
                (s, Err(invalid("graph dependency")))
            } else {
                match s.enqueue_step(
                    graph,
                    origin,
                    stream,
                    steps[idx as int],
                    idx,
                    extra_wait,
                    launch_tail,
                    inner,
                    fuel,
                    w,
                ) {
                    (s, Err(e)) => (s, Err(e)),
                    (s, Ok(v1)) => {
                        let w = v1;
                        s.enqueue_graph_from(
                            graph,
                            stream,
                            extra_wait,
                            fuel,
                            inner,
                            origin,
                            steps,
                            order,
                            launch_tail,
                            w,
                            i + 1,
                        )
                    },
                }
            }
        } else {
            let s = if w.joins.len() > 0 {
                let s = s.add_joins(Lane(origin.0, stream), w.joins);
                s
            } else {
                s
            };
            let s = SimState { enq: Enq::plain(), ..s };
            (s, Ok(w.n))
        }
    }

    /// Effect of [`Sim::enqueue_root`].
    #[verifier::opaque]
    pub open spec fn enqueue_root(
        self,
        graph: GraphId,
        stream: StreamId,
        head: bool,
        wait: Seq<OpId>,
    ) -> (SimState, Result<u32, SimError>) {
        let s = self;
        let none = Seq::empty();
        let fuel = s.tree_fuel();
        s.enqueue_graph(graph, stream, head, none, wait, fuel)
    }
}

impl Sim {
    /// Free the live allocations of a graph ahead of its relaunch.
    pub(crate) fn free_each(
        &mut self,
        device: DeviceId,
        stream: StreamId,
        ids: &Vec<AllocId>,
    ) -> (r: Result<(), SimError>)
        ensures
            final(self)@ == old(self)@.free_each(device, stream, ids@).0,
            r == old(self)@.free_each(device, stream, ids@).1,
    {
        let mut i: usize = 0;
        while i < ids.len()
            invariant
                i <= ids@.len(),
                old(self)@.free_each(device, stream, ids@) == self@.free_each_from(
                    device,
                    stream,
                    ids@,
                    i as int,
                ),
            decreases ids@.len() - i,
        {
            let live: bool = match self.allocs.get(ids[i]) {
                Some(a) => a.live && has_key(&a.devices, device),
                None => false,
            };
            if !live {
                i += 1;
                continue;
            }
            self.submit_launch(device, stream, GpuOp::Free { id: ids[i] }, LaunchCost::GraphBody)?;
            i += 1;
        }
        Ok(())
    }

    pub(crate) fn enqueue_auto_frees(
        &mut self,
        graph: GraphId,
        stream: StreamId,
    ) -> (r: Result<(), SimError>)
        ensures
            final(self)@ == old(self)@.enqueue_auto_frees(graph, stream).0,
            r == old(self)@.enqueue_auto_frees(graph, stream).1,
    {
        let g = self.graph_ref(graph)?;
        if !g.auto_free_on_launch {
            return Ok(());
        }
        let device = g.origin.0;
        let ids: Vec<AllocId> = self.graph_mem_ids(graph);
        self.free_each(device, stream, &ids)
    }

    pub(crate) fn graph_uses_node_priority(&self, graph: GraphId) -> (r: bool)
        ensures
            r == self@.graph_uses_node_priority(graph),
    {
        match self.graphs.get(graph) {
            Some(g) => g.instantiate_flags & GraphInstantiateFlags::USE_NODE_PRIORITY != 0,
            None => false,
        }
    }

    /// Attributes of the operations of a node.
    pub(crate) fn load_enq(&mut self, graph: GraphId, a: NodeAttrs)
        ensures
            final(self)@ == old(self)@.load_enq(graph, a),
    {
        reveal(SimState::load_enq);
        let priority: Option<i32> = if self.graph_uses_node_priority(graph) {
            Some(a.priority)
        } else {
            None
        };
        self.enq = Enq {
            priority,
            pdl: a.pdl,
            programmatic_event: a.programmatic_event,
            launch_completion: a.launch_completion,
            access_policy: a.access_policy,
            mem_sync_domain: Some(a.mem_sync_domain),
            mem_sync_map: Some(a.mem_sync_map),
            cluster: a.cluster,
            cluster_policy: a.cluster_policy,
            preferred_cluster: a.preferred_cluster,
            carveout: a.carveout,
            device_updatable: a.device_updatable,
            shared_mem: a.shared_mem,
            portable_cluster: a.portable_cluster,
            dynamic_shared: a.dynamic_shared,
            portable_shared: a.portable_shared,
            nvlink_util_centric: a.nvlink_util_centric,
        };
    }

    /// An internal stream takes priority and multiprocessor share of the launch stream.
    pub(crate) fn bind_graph_worker(&mut self, device: DeviceId, launch: StreamId, worker: StreamId)
        ensures
            final(self)@ == old(self)@.bind_graph_worker(device, launch, worker),
    {
        reveal(SimState::bind_graph_worker);
        if worker == launch {
            return;
        }
        let p: Option<i32> = match self.priority.get(Lane(device, launch)) {
            Some(x) => Some(*x),
            None => None,
        };
        if let Some(pri) = p {
            self.priority.insert(Lane(device, worker), pri);
        }
        let m: Option<u16> = match self.sm_permille.get(Lane(device, launch)) {
            Some(x) => Some(*x),
            None => None,
        };
        if let Some(sm) = m {
            self.sm_permille.insert(Lane(device, worker), sm);
        }
    }

    /// Stream of a node and the new count of internal streams.
    ///
    /// A node off the origin stream keeps its stream. A node with one predecessor stays behind it.
    /// The first root takes the launch stream, and every other node an internal one.
    pub(crate) fn graph_exec_stream(
        &mut self,
        origin: Lane,
        launch: StreamId,
        device: DeviceId,
        own: StreamId,
        deps: &Vec<usize>,
        w: &Walk,
    ) -> (r: (StreamId, u16))
        ensures
            final(self)@ == old(self)@.graph_exec_stream(origin, launch, device, own, deps@, w@).0,
            r == old(self)@.graph_exec_stream(origin, launch, device, own, deps@, w@).1,
    {
        reveal(SimState::graph_exec_stream);
        if Lane(device, own) != origin {
            return (own, w.worker);
        }
        let behind: Option<StreamId> = if deps.len() == 1 {
            w.stream_of(deps[0])
        } else {
            None
        };
        match behind {
            Some(on) => {
                self.bind_graph_worker(device, launch, on);
                (on, w.worker)
            },
            None => {
                let (on, worker) = if !w.any_stream() && deps.len() == 0 {
                    (launch, w.worker)
                } else {
                    alloc_graph_worker(launch, w.worker)
                };
                self.bind_graph_worker(device, launch, on);
                (on, worker)
            },
        }
    }

    /// Account for a nested launch: its last operation stands for the node.
    pub(crate) fn nested_done(
        &self,
        device: DeviceId,
        on: StreamId,
        stream: StreamId,
        idx: usize,
        add: u32,
        w0: Walk,
    ) -> (r: Walk)
        ensures
            r@ == self@.nested_done(device, on, stream, idx, add, w0@),
    {
        let mut w: Walk = w0;
        w.head = false;
        w.n = w.n.saturating_add(add);
        let last: Option<OpId> = self.tail_of(Lane(device, on));
        let mut none: Vec<OpId> = Vec::new();
        if let Some(id) = last {
            none.push(id);
            if on != stream {
                w.joins.push(id);
            }
        }
        if on != stream {
            if let Some(ids) = self.graph_joins.get(Lane(device, on)) {
                extend_copy(&mut w.joins, ids);
            }
        }
        w.add_ops(idx, &none)
    }

    /// Last operation of a stream.
    pub(crate) fn tail_of(&self, lane: Lane) -> (r: Option<OpId>)
        ensures
            r == self@.tail_of(lane),
    {
        match self.tail.get(lane) {
            Some(id) => Some(*id),
            None => None,
        }
    }

    /// Drop the innermost predicate.
    pub(crate) fn pop_pred(&mut self)
        ensures
            final(self)@ == old(self)@.pop_pred(),
    {
        if self.enqueue_preds.len() > 0 {
            let _pred = self.enqueue_preds.pop();
        }
    }

    /// Submit the operation that repeats a loop body. It waits for `wait` and for the body.
    pub(crate) fn submit_tick(
        &mut self,
        device: DeviceId,
        on: StreamId,
        handle: CondId,
        body: GraphId,
        iter: u32,
        wait: &Vec<OpId>,
    ) -> (r: Result<OpId, SimError>)
        ensures
            final(self)@ == old(self)@.submit_tick(device, on, handle, body, iter, wait@).0,
            r == old(self)@.submit_tick(device, on, handle, body, iter, wait@).1,
    {
        reveal(SimState::submit_tick);
        let body_tail: Option<OpId> = self.tail_of(Lane(device, on));
        self.enqueue_preds.push(CondPred::Nonzero(handle));
        let tick = self.submit_launch(
            device,
            on,
            GpuOp::WhileTick { handle, body, iter },
            LaunchCost::GraphBody,
        );
        self.pop_pred();
        let id = tick?;
        self.add_op_deps(id, wait);
        if let Some(t) = body_tail {
            if t != id {
                self.add_op_dep(id, t);
            }
        }
        Ok(id)
    }

    /// Event that a node records in this launch.
    pub(crate) fn recorded_event(&self, kind: &GpuOp, attrs: NodeAttrs) -> (r: Option<EventId>)
        ensures
            r == self@.recorded_event(kind@, attrs),
    {
        match kind {
            GpuOp::EventRecord { event, external } => Some(*event),
            _ => match attrs.programmatic_event {
                Some(p) => Some(p.event),
                None => match attrs.launch_completion {
                    Some(p) => Some(p.event),
                    None => None,
                },
            },
        }
    }

    /// An event wait follows the record of this launch, or for an external one the latest record.
    pub(crate) fn link_event_wait(&mut self, id: OpId, kind: &GpuOp, w: &Walk)
        ensures
            final(self)@ == old(self)@.link_event_wait(id, kind@, w@),
    {
        if let GpuOp::EventWait { event, external } = kind {
            let root = self.event_root(*event);
            let rec: Option<OpId> = if *external {
                self.event_recorded_by(root)
            } else {
                match w.rec_ops.get(root) {
                    Some(x) => Some(*x),
                    None => None,
                }
            };
            if let Some(r) = rec {
                self.add_op_dep(id, r);
            }
        }
    }

    /// Submit the operation of a plain node.
    pub(crate) fn enqueue_plain(
        &mut self,
        step: &GraphStep,
        on: StreamId,
        stream: StreamId,
        idx: usize,
        wait: &Vec<OpId>,
        w0: Walk,
    ) -> (r: Result<Walk, SimError>)
        ensures
            final(self)@ == old(self)@.enqueue_plain(step@, on, stream, idx, wait@, w0@).0,
            ok_view(r) == old(self)@.enqueue_plain(step@, on, stream, idx, wait@, w0@).1,
    {
        reveal(SimState::enqueue_plain);
        let mut w: Walk = w0;
        let launch = if w.head {
            LaunchCost::GraphHead
        } else {
            LaunchCost::GraphBody
        };
        w.head = false;
        let id = self.submit_launch(step.device, on, step.kind.dup(), launch)?;
        self.add_op_deps(id, wait);
        if let Some(event) = self.recorded_event(&step.kind, step.attrs) {
            w.rec_ops.insert(self.event_root(event), id);
        }
        self.link_event_wait(id, &step.kind, &w);
        if on != stream {
            w.joins.push(id);
        }
        w.n = w.n.saturating_add(1);
        Ok(w.add_ops(idx, &one(id)))
    }

    /// Submit the body of a conditional node under its predicate.
    pub(crate) fn enqueue_pred_graph(
        &mut self,
        pred: CondPred,
        body: GraphId,
        stream: StreamId,
        head: bool,
        stack: &Vec<GraphId>,
        wait: &Vec<OpId>,
        fuel: usize,
    ) -> (r: Result<u32, SimError>)
        ensures
            final(self)@ == old(self)@.enqueue_pred_graph(
                pred,
                body,
                stream,
                head,
                stack@,
                wait@,
                fuel,
            ).0,
            r == old(self)@.enqueue_pred_graph(pred, body, stream, head, stack@, wait@, fuel).1,
        decreases fuel, 3int, 0int,
    {
        self.enqueue_preds.push(pred);
        let nested = self.enqueue_graph(body, stream, head, stack, wait, fuel);
        self.pop_pred();
        nested
    }

    /// Submit every branch of a switch node under its number.
    pub(crate) fn enqueue_branches(
        &mut self,
        handle: CondId,
        bodies: &Vec<GraphId>,
        on: StreamId,
        stack: &Vec<GraphId>,
        wait: &Vec<OpId>,
        fuel: usize,
        w0: Walk,
    ) -> (r: Result<Walk, SimError>)
        ensures
            final(self)@ == old(self)@.enqueue_branches(
                handle,
                bodies@,
                on,
                stack@,
                wait@,
                fuel,
                w0@,
            ).0,
            ok_view(r) == old(self)@.enqueue_branches(
                handle,
                bodies@,
                on,
                stack@,
                wait@,
                fuel,
                w0@,
            ).1,
        decreases fuel, 5int, 0int,
    {
        let mut w: Walk = w0;
        let mut i: usize = 0;
        while i < bodies.len()
            invariant
                i <= bodies@.len(),
                old(self)@.enqueue_branches(handle, bodies@, on, stack@, wait@, fuel, w0@) == self@.enqueue_branches_from(
                    handle,
                    bodies@,
                    on,
                    stack@,
                    wait@,
                    fuel,
                    w@,
                    i as int,
                ),
            decreases bodies@.len() - i,
        {
            if i as u64 > 0xFFFF_FFFF {
                return Err(invalid("switch branches"));
            }
            let branch: u32 = i as u32;
            let body = self.resolved_graph(bodies[i])?;
            let add: u32 = self.enqueue_pred_graph(
                CondPred::Equals(handle, branch),
                body,
                on,
                w.head,
                stack,
                wait,
                fuel,
            )?;
            w.head = false;
            w.n = w.n.saturating_add(add);
            i += 1;
        }
        Ok(w)
    }

    /// Submit one node.
    pub(crate) fn enqueue_step(
        &mut self,
        graph: GraphId,
        origin: Lane,
        stream: StreamId,
        step: &GraphStep,
        idx: usize,
        extra_wait: &Vec<OpId>,
        launch_tail: Option<OpId>,
        stack: &Vec<GraphId>,
        fuel: usize,
        w0: Walk,
    ) -> (r: Result<Walk, SimError>)
        ensures
            final(self)@ == old(self)@.enqueue_step(
                graph,
                origin,
                stream,
                step@,
                idx,
                extra_wait@,
                launch_tail,
                stack@,
                fuel,
                w0@,
            ).0,
            ok_view(r) == old(self)@.enqueue_step(
                graph,
                origin,
                stream,
                step@,
                idx,
                extra_wait@,
                launch_tail,
                stack@,
                fuel,
                w0@,
            ).1,
        decreases fuel, 0int, 0int,
    {
        if fuel == 0 {
            return Err(invalid("cyclic child graph"));
        }
        self.load_enq(graph, step.attrs);
        let wait: Vec<OpId> = w0.node_waits(&step.deps, extra_wait, launch_tail)?;
        let (on, worker) = self.graph_exec_stream(
            origin,
            stream,
            step.device,
            step.stream,
            &step.deps,
            &w0,
        );
        let w: Walk = w0.with_stream(idx, on, worker);
        if step.destroyed {
            return Ok(w);
        }
        if !step.enabled {
            return Ok(w.add_ops(idx, &wait));
        }
        match &step.kind {
            GpuOp::ChildGraph { graph: child } => {
                let body = self.resolved_graph(*child)?;
                let add: u32 = self.enqueue_graph(
                    body,
                    on,
                    w.head,
                    stack,
                    &wait,
                    fuel.saturating_sub(1),
                )?;
                Ok(self.nested_done(step.device, on, stream, idx, add, w))
            },
            GpuOp::If { handle, body } => {
                let b = self.resolved_graph(*body)?;
                let add: u32 = self.enqueue_pred_graph(
                    CondPred::Nonzero(*handle),
                    b,
                    on,
                    w.head,
                    stack,
                    &wait,
                    fuel.saturating_sub(1),
                )?;
                Ok(self.nested_done(step.device, on, stream, idx, add, w))
            },
            GpuOp::While { handle, body } => {
                let b = self.resolved_graph(*body)?;
                let add: u32 = self.enqueue_pred_graph(
                    CondPred::Nonzero(*handle),
                    b,
                    on,
                    w.head,
                    stack,
                    &wait,
                    fuel.saturating_sub(1),
                )?;
                self.submit_tick(step.device, on, *handle, b, 1, &wait)?;
                Ok(self.nested_done(step.device, on, stream, idx, add.saturating_add(1), w))
            },
            GpuOp::Switch { handle, bodies } => {
                let w2: Walk = self.enqueue_branches(
                    *handle,
                    bodies,
                    on,
                    stack,
                    &wait,
                    fuel.saturating_sub(1),
                    w,
                )?;
                let head: bool = w2.head;
                let mut done: Walk = self.nested_done(step.device, on, stream, idx, 0, w2);
                done.head = head;
                Ok(done)
            },
            _ => self.enqueue_plain(step, on, stream, idx, &wait, w),
        }
    }

    /// The launch stream waits for what ran on other streams.
    pub(crate) fn add_joins(&mut self, lane: Lane, joins: &Vec<OpId>)
        ensures
            final(self)@ == old(self)@.add_joins(lane, joins@),
    {
        let mut all: Vec<OpId> = match self.graph_joins.get(lane) {
            Some(v) => copy_vec(v),
            None => Vec::new(),
        };
        extend_copy(&mut all, joins);
        self.graph_joins.insert(lane, all);
    }

    /// Submit every node of a graph in dependency order. Returns the number of operations.
    ///
    /// `stack` holds the graphs around this one: a graph inside itself is refused. `fuel` bounds
    /// the nesting and is never short while it exceeds the number of graphs.
    pub(crate) fn enqueue_graph(
        &mut self,
        graph: GraphId,
        stream: StreamId,
        head: bool,
        stack: &Vec<GraphId>,
        extra_wait: &Vec<OpId>,
        fuel: usize,
    ) -> (r: Result<u32, SimError>)
        ensures
            final(self)@ == old(self)@.enqueue_graph(
                graph,
                stream,
                head,
                stack@,
                extra_wait@,
                fuel,
            ).0,
            r == old(self)@.enqueue_graph(graph, stream, head, stack@, extra_wait@, fuel).1,
        decreases fuel, 2int, 0int,
    {
        if has_key(stack, graph) || fuel == 0 {
            return Err(invalid("cyclic child graph"));
        }
        let mut inner: Vec<GraphId> = copy_vec(stack);
        inner.push(graph);
        self.enqueue_auto_frees(graph, stream)?;
        let g = self.graph_ref(graph)?;
        let origin: Lane = g.origin;
        let steps: Rows<GraphStep> = g.current().dup();
        let order: Vec<usize> = graph_topo_order(&steps)?;
        let launch_tail: Option<OpId> = self.tail_of(Lane(origin.0, stream));
        let mut w: Walk = Walk::start(steps.len(), head);
        let mut i: usize = 0;
        while i < order.len()
            invariant
                i <= order.len(),
                old(self)@.enqueue_graph(graph, stream, head, stack@, extra_wait@, fuel) == self@.enqueue_graph_from(
                    graph,
                    stream,
                    extra_wait@,
                    fuel,
                    inner@,
                    origin,
                    steps@,
                    order@,
                    launch_tail,
                    w@,
                    i as int,
                ),
            decreases order.len() - i,
        {
            let idx: usize = order[i];
            if idx >= steps.len() {
                return Err(invalid("graph dependency"));
            }
            w = self.enqueue_step(
                graph,
                origin,
                stream,
                steps.at(idx),
                idx,
                extra_wait,
                launch_tail,
                &inner,
                fuel,
                w,
            )?;
            i += 1;
        }
        if w.joins.len() > 0 {
            self.add_joins(Lane(origin.0, stream), &w.joins);
        }
        self.enq = Enq::plain();
        Ok(w.n)
    }

    /// Submit a whole graph.
    pub(crate) fn enqueue_root(
        &mut self,
        graph: GraphId,
        stream: StreamId,
        head: bool,
        wait: &Vec<OpId>,
    ) -> (r: Result<u32, SimError>)
        ensures
            final(self)@ == old(self)@.enqueue_root(graph, stream, head, wait@).0,
            r == old(self)@.enqueue_root(graph, stream, head, wait@).1,
    {
        reveal(SimState::enqueue_root);
        let none: Vec<GraphId> = Vec::new();
        let fuel: usize = self.tree_fuel();
        self.enqueue_graph(graph, stream, head, &none, wait, fuel)
    }
}

} // verus!
