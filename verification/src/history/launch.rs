//! Histories of the operations in `sim::launch`.
use vstd::prelude::*;
use crate::history::{add_op_dep_follows, counted, follows, rest_follows};
use crate::history::ranges::share_follows;
use crate::history::submit::{add_op_deps_follows, submit_launch_follows};
use crate::history::timeline::unstarted;
use crate::ids::{AllocId, CondId, DeviceId, GraphId, Lane, OpId, StreamId};
use crate::ops::GpuOpView;
use crate::sim::SimState;
use crate::sim::launch::{alloc_graph_worker, WalkView};
use crate::state::{CondPred, Enq, LaunchCost, NodeAttrs, StepView};
use crate::topo::launch_order;

verus! {

/// [`Sim::free_each`] continues the history.
pub proof fn free_each_follows(
    z: SimState,
    s0: SimState,
    device: DeviceId,
    stream: StreamId,
    ids: Seq<AllocId>,
)
    requires
        follows(z, s0),
    ensures
        follows(z, s0.free_each(device, stream, ids).0),
{
    let s = s0;
    free_each_from_follows(z, s, device, stream, ids, 0);
}

/// [`Sim::free_each`] continues the history, from position `i` on.
pub proof fn free_each_from_follows(
    z: SimState,
    s0: SimState,
    device: DeviceId,
    stream: StreamId,
    ids: Seq<AllocId>,
    i: int,
)
    requires
        follows(z, s0),
    ensures
        follows(z, s0.free_each_from(device, stream, ids, i).0),
    decreases ids.len() - i,
{
    let s = s0;
    if 0 <= i < ids.len() {
        let live = match s.allocs.get(ids[i]) {
            Some(a) => a.live && a.devices.contains(device),
            None => false,
        };
        if !live {
            free_each_from_follows(z, s, device, stream, ids, i + 1);
        } else {
            submit_launch_follows(
                z,
                s,
                device,
                stream,
                GpuOpView::Free { id: ids[i] },
                LaunchCost::GraphBody,
            );
            match s.submit_launch(
                device,
                stream,
                GpuOpView::Free { id: ids[i] },
                LaunchCost::GraphBody,
            ) {
                (s, Err(e)) => {},
                (s, Ok(_v)) => {
                    free_each_from_follows(z, s, device, stream, ids, i + 1);
                },
            }
        }
    }
}

/// [`Sim::enqueue_auto_frees`] continues the history.
pub proof fn enqueue_auto_frees_follows(z: SimState, s0: SimState, graph: GraphId, stream: StreamId)
    requires
        follows(z, s0),
    ensures
        follows(z, s0.enqueue_auto_frees(graph, stream).0),
{
    let s = s0;
    match s.graph_ref(graph) {
        Err(e) => {},
        Ok(g) => {
            if !(!g.auto_free_on_launch) {
                let device = g.origin.0;
                let ids = s.graph_mem_ids(graph);
                free_each_follows(z, s, device, stream, ids);
            }
        },
    }
}

/// [`Sim::load_enq`] continues the history.
pub proof fn load_enq_follows(z: SimState, s0: SimState, graph: GraphId, a: NodeAttrs)
    requires
        follows(z, s0),
    ensures
        follows(z, s0.load_enq(graph, a)),
{
    reveal(SimState::load_enq);
    let s = s0;
    let priority = if s.graph_uses_node_priority(graph) { Some(a.priority) } else { None };
    rest_follows(
        z,
        s,
        SimState {
            enq: Enq {
                priority,
                pdl: a.pdl,
                programmatic_event: a.programmatic_event,
                launch_completion: a.launch_completion,
                access_policy: a.access_policy,
                mem_sync_domain: Some(a.mem_sync_domain),
                mem_sync_map: Some(a.mem_sync_map),
                cluster: a.cluster,
                cluster_policy: a.cluster_policy,
                preferred_cluster: a.preferred_cluster,
                carveout: a.carveout,
                device_updatable: a.device_updatable,
                shared_mem: a.shared_mem,
                portable_cluster: a.portable_cluster,
                dynamic_shared: a.dynamic_shared,
                portable_shared: a.portable_shared,
                nvlink_util_centric: a.nvlink_util_centric,
            },
            ..s
        },
    );
}

/// [`Sim::bind_graph_worker`] continues the history.
pub proof fn bind_graph_worker_follows(
    z: SimState,
    s0: SimState,
    device: DeviceId,
    launch: StreamId,
    worker: StreamId,
)
    requires
        follows(z, s0),
    ensures
        follows(z, s0.bind_graph_worker(device, launch, worker)),
{
    reveal(SimState::bind_graph_worker);
    let s = s0;
    if !(worker == launch) {
        let p = (match s.priority.get(Lane(device, launch)) { Some(x) => Some(x), None => None, });
        match p {
            Some(pri) => {
                rest_follows(
                    z,
                    s,
                    SimState { priority: s.priority.insert(Lane(device, worker), pri), ..s },
                );
            },
            _ => {},
        }
        let s = match p {
            Some(pri) => {
                let s = SimState { priority: s.priority.insert(Lane(device, worker), pri), ..s };
                s
            },
            _ => s,
        };
        let m = match s.sm_permille.get(Lane(device, launch)) { Some(x) => Some(x), None => None, };
        match m {
            Some(sm) => {
                share_follows(z, s, Lane(device, worker), sm);
            },
            _ => {},
        }
    }
}

/// [`Sim::graph_exec_stream`] continues the history.
pub proof fn graph_exec_stream_follows(
    z: SimState,
    s0: SimState,
    origin: Lane,
    launch: StreamId,
    device: DeviceId,
    own: StreamId,
    deps: Seq<usize>,
    w: WalkView,
)
    requires
        follows(z, s0),
    ensures
        follows(z, s0.graph_exec_stream(origin, launch, device, own, deps, w).0),
{
    reveal(SimState::graph_exec_stream);
    let s = s0;
    if !(Lane(device, own) != origin) {
        let behind = if deps.len() == 1 { w.stream_of(deps[0]) } else { None };
        match behind {
            Some(on) => {
                bind_graph_worker_follows(z, s, device, launch, on);
            },
            None => {
                let (on, worker) = if !w.any_stream() && deps.len() == 0 {
                    (launch, w.worker)
                } else {
                    alloc_graph_worker(launch, w.worker)
                };
                bind_graph_worker_follows(z, s, device, launch, on);
            },
        }
    }
}

/// [`Sim::pop_pred`] continues the history.
pub proof fn pop_pred_follows(z: SimState, s0: SimState)
    requires
        follows(z, s0),
    ensures
        follows(z, s0.pop_pred()),
{
    let s = s0;
    if s.enqueue_preds.len() > 0 {
        rest_follows(z, s, SimState { enqueue_preds: s.enqueue_preds.drop_last(), ..s });
    }
}

/// [`Sim::submit_tick`] continues the history.
pub proof fn submit_tick_follows(
    z: SimState,
    s0: SimState,
    device: DeviceId,
    on: StreamId,
    handle: CondId,
    body: GraphId,
    iter: u32,
    wait: Seq<OpId>,
)
    requires
        follows(z, s0),
    ensures
        follows(z, s0.submit_tick(device, on, handle, body, iter, wait).0),
{
    reveal(SimState::submit_tick);
    let s = s0;
    let body_tail = s.tail_of(Lane(device, on));
    rest_follows(
        z,
        s,
        SimState { enqueue_preds: s.enqueue_preds.push(CondPred::Nonzero(handle)), ..s },
    );
    let s = SimState { enqueue_preds: s.enqueue_preds.push(CondPred::Nonzero(handle)), ..s };
    submit_launch_follows(
        z,
        s,
        device,
        on,
        GpuOpView::WhileTick { handle, body, iter },
        LaunchCost::GraphBody,
    );
    let (s, tick) = s.submit_launch(
        device,
        on,
        GpuOpView::WhileTick { handle, body, iter },
        LaunchCost::GraphBody,
    );
    pop_pred_follows(z, s);
    let s = s.pop_pred();
    match tick {
        Err(e) => {},
        Ok(id) => {
            add_op_deps_follows(z, s, id, wait);
            let s = s.add_op_deps(id, wait);
            match body_tail {
                Some(t) => {
                    if t != id {
                        add_op_dep_follows(z, s, id, t);
                    }
                },
                _ => {},
            }
        },
    }
}

/// [`Sim::link_event_wait`] continues the history.
pub proof fn link_event_wait_follows(
    z: SimState,
    s0: SimState,
    id: OpId,
    kind: GpuOpView,
    w: WalkView,
)
    requires
        follows(z, s0),
        counted(z, s0) ==> unstarted(s0.ops, s0.running, id),
    ensures
        follows(z, s0.link_event_wait(id, kind, w)),
{
    let s = s0;
    match kind {
        GpuOpView::EventWait { event, external } => {
            let root = s.event_root(event);
            let rec = if external {
                s.event_recorded_by(root)
            } else {
                (match w.rec_ops.get(root) { Some(x) => Some(x), None => None, })
            };
            match rec {
                Some(r) => {
                    add_op_dep_follows(z, s, id, r);
                },
                _ => {},
            }
        },
        _ => {},
    }
}

/// [`Sim::enqueue_plain`] continues the history.
pub proof fn enqueue_plain_follows(
    z: SimState,
    s0: SimState,
    step: StepView,
    on: StreamId,
    stream: StreamId,
    idx: usize,
    wait: Seq<OpId>,
    w0: WalkView,
)
    requires
        follows(z, s0),
    ensures
        follows(z, s0.enqueue_plain(step, on, stream, idx, wait, w0).0),
{
    reveal(SimState::enqueue_plain);
    let s = s0;
    let w = w0;
    let launch = if w.head { LaunchCost::GraphHead } else { LaunchCost::GraphBody };
    let w = WalkView { head: false, ..w };
    submit_launch_follows(z, s, step.device, on, step.kind, launch);
    match s.submit_launch(step.device, on, step.kind, launch) {
        (s, Err(e)) => {},
        (s, Ok(id)) => {
            add_op_deps_follows(z, s, id, wait);
            let s = s.add_op_deps(id, wait);
            let w = match s.recorded_event(step.kind, step.attrs) {
                Some(event) => {
                    let w = WalkView { rec_ops: w.rec_ops.insert(s.event_root(event), id), ..w };
                    w
                },
                _ => w,
            };
            link_event_wait_follows(z, s, id, step.kind, w);
        },
    }
}

/// [`Sim::enqueue_pred_graph`] continues the history.
pub proof fn enqueue_pred_graph_follows(
    z: SimState,
    s0: SimState,
    pred: CondPred,
    body: GraphId,
    stream: StreamId,
    head: bool,
    stack: Seq<GraphId>,
    wait: Seq<OpId>,
    fuel: usize,
)
    requires
        follows(z, s0),
    ensures
        follows(z, s0.enqueue_pred_graph(pred, body, stream, head, stack, wait, fuel).0),
    decreases fuel, 3int, 0int,
{
    let s = s0;
    rest_follows(z, s, SimState { enqueue_preds: s.enqueue_preds.push(pred), ..s });
    let s = SimState { enqueue_preds: s.enqueue_preds.push(pred), ..s };
    enqueue_graph_follows(z, s, body, stream, head, stack, wait, fuel);
    let (s, nested) = s.enqueue_graph(body, stream, head, stack, wait, fuel);
    pop_pred_follows(z, s);
}

/// [`Sim::enqueue_branches`] continues the history.
pub proof fn enqueue_branches_follows(
    z: SimState,
    s0: SimState,
    handle: CondId,
    bodies: Seq<GraphId>,
    on: StreamId,
    stack: Seq<GraphId>,
    wait: Seq<OpId>,
    fuel: usize,
    w0: WalkView,
)
    requires
        follows(z, s0),
    ensures
        follows(z, s0.enqueue_branches(handle, bodies, on, stack, wait, fuel, w0).0),
    decreases fuel, 5int, 0int,
{
    let s = s0;
    let w = w0;
    enqueue_branches_from_follows(z, s, handle, bodies, on, stack, wait, fuel, w, 0);
}

/// [`Sim::enqueue_branches`] continues the history, from position `i` on.
pub proof fn enqueue_branches_from_follows(
    z: SimState,
    s0: SimState,
    handle: CondId,
    bodies: Seq<GraphId>,
    on: StreamId,
    stack: Seq<GraphId>,
    wait: Seq<OpId>,
    fuel: usize,
    w: WalkView,
    i: int,
)
    requires
        follows(z, s0),
    ensures
        follows(z, s0.enqueue_branches_from(handle, bodies, on, stack, wait, fuel, w, i).0),
    decreases fuel, 4int, bodies.len() - i,
{
    let s = s0;
    if 0 <= i < bodies.len() {
        if !((i as usize)as u64 > 0xFFFF_FFFF) {
            let branch = (i as usize)as u32;
            match s.resolved_graph(bodies[i]) {
                Err(e) => {},
                Ok(body) => {
                    enqueue_pred_graph_follows(
                        z,
                        s,
                        CondPred::Equals(handle, branch),
                        body,
                        on,
                        w.head,
                        stack,
                        wait,
                        fuel,
                    );
                    match s.enqueue_pred_graph(
                        CondPred::Equals(handle, branch),
                        body,
                        on,
                        w.head,
                        stack,
                        wait,
                        fuel,
                    ) {
                        (s, Err(e)) => {},
                        (s, Ok(add)) => {
                            let w = WalkView { head: false, ..w };
                            let w = WalkView { n: w.n.saturating_add(add), ..w };
                            enqueue_branches_from_follows(
                                z,
                                s,
                                handle,
                                bodies,
                                on,
                                stack,
                                wait,
                                fuel,
                                w,
                                i + 1,
                            );
                        },
                    }
                },
            }
        }
    }
}

/// [`Sim::enqueue_step`] continues the history.
pub proof fn enqueue_step_follows(
    z: SimState,
    s0: SimState,
    graph: GraphId,
    origin: Lane,
    stream: StreamId,
    step: StepView,
    idx: usize,
    extra_wait: Seq<OpId>,
    launch_tail: Option<OpId>,
    stack: Seq<GraphId>,
    fuel: usize,
    w0: WalkView,
)
    requires
        follows(z, s0),
    ensures
        follows(
            z,
            s0.enqueue_step(
                graph,
                origin,
                stream,
                step,
                idx,
                extra_wait,
                launch_tail,
                stack,
                fuel,
                w0,
            ).0,
        ),
    decreases fuel, 0int, 0int,
{
    let s = s0;
    if !(fuel == 0) {
        load_enq_follows(z, s, graph, step.attrs);
        let s = s.load_enq(graph, step.attrs);
        match w0.node_waits(step.deps, extra_wait, launch_tail) {
            Err(e) => {},
            Ok(wait) => {
                graph_exec_stream_follows(
                    z,
                    s,
                    origin,
                    stream,
                    step.device,
                    step.stream,
                    step.deps,
                    w0,
                );
                let (s, (on, worker)) = s.graph_exec_stream(
                    origin,
                    stream,
                    step.device,
                    step.stream,
                    step.deps,
                    w0,
                );
                let w = w0.with_stream(idx, on, worker);
                if !(step.destroyed) {
                    if !(!step.enabled) {
                        match step.kind {
                            GpuOpView::ChildGraph { graph: child } => match s.resolved_graph(child) {
                                Err(e) => {},
                                Ok(body) => {
                                    enqueue_graph_follows(
                                        z,
                                        s,
                                        body,
                                        on,
                                        w.head,
                                        stack,
                                        wait,
                                        fuel.saturating_sub(1),
                                    );
                                },
                            },
                            GpuOpView::If { handle, body } => match s.resolved_graph(body) {
                                Err(e) => {},
                                Ok(b) => {
                                    enqueue_pred_graph_follows(
                                        z,
                                        s,
                                        CondPred::Nonzero(handle),
                                        b,
                                        on,
                                        w.head,
                                        stack,
                                        wait,
                                        fuel.saturating_sub(1),
                                    );
                                },
                            },
                            GpuOpView::While { handle, body } => match s.resolved_graph(body) {
                                Err(e) => {},
                                Ok(b) => {
                                    enqueue_pred_graph_follows(
                                        z,
                                        s,
                                        CondPred::Nonzero(handle),
                                        b,
                                        on,
                                        w.head,
                                        stack,
                                        wait,
                                        fuel.saturating_sub(1),
                                    );
                                    match s.enqueue_pred_graph(
                                        CondPred::Nonzero(handle),
                                        b,
                                        on,
                                        w.head,
                                        stack,
                                        wait,
                                        fuel.saturating_sub(1),
                                    ) {
                                        (s, Err(e)) => {},
                                        (s, Ok(add)) => {
                                            submit_tick_follows(
                                                z,
                                                s,
                                                step.device,
                                                on,
                                                handle,
                                                b,
                                                1,
                                                wait,
                                            );
                                        },
                                    }
                                },
                            },
                            GpuOpView::Switch { handle, bodies } => {
                                enqueue_branches_follows(
                                    z,
                                    s,
                                    handle,
                                    bodies,
                                    on,
                                    stack,
                                    wait,
                                    fuel.saturating_sub(1),
                                    w,
                                );
                            },
                            _ => {
                                enqueue_plain_follows(z, s, step, on, stream, idx, wait, w);
                            },
                        }
                    }
                }
            },
        }
    }
}

/// [`Sim::add_joins`] continues the history.
pub proof fn add_joins_follows(z: SimState, s0: SimState, lane: Lane, joins: Seq<OpId>)
    requires
        follows(z, s0),
    ensures
        follows(z, s0.add_joins(lane, joins)),
{
    let s = s0;
    let all = (match s.graph_joins.get(lane) { Some(v) => v, None => Seq::empty(), });
    let all = all + joins;
    rest_follows(z, s, SimState { graph_joins: s.graph_joins.insert(lane, all), ..s });
}

/// [`Sim::enqueue_graph`] continues the history.
pub proof fn enqueue_graph_follows(
    z: SimState,
    s0: SimState,
    graph: GraphId,
    stream: StreamId,
    head: bool,
    stack: Seq<GraphId>,
    extra_wait: Seq<OpId>,
    fuel: usize,
)
    requires
        follows(z, s0),
    ensures
        follows(z, s0.enqueue_graph(graph, stream, head, stack, extra_wait, fuel).0),
    decreases fuel, 2int, 0int,
{
    let s = s0;
    if !(stack.contains(graph) || fuel == 0) {
        let inner = stack;
        let inner = inner.push(graph);
        enqueue_auto_frees_follows(z, s, graph, stream);
        match s.enqueue_auto_frees(graph, stream) {
            (s, Err(e)) => {},
            (s, Ok(_v)) => match s.graph_ref(graph) {
                Err(e) => {},
                Ok(g) => {
                    let origin = g.origin;
                    let steps = g.current();
                    match launch_order(steps) {
                        Err(e) => {},
                        Ok(order) => {
                            let launch_tail = s.tail_of(Lane(origin.0, stream));
                            let w = WalkView::start((steps.len()as usize), head);
                            enqueue_graph_from_follows(
                                z,
                                s,
                                graph,
                                stream,
                                extra_wait,
                                fuel,
                                inner,
                                origin,
                                steps,
                                order,
                                launch_tail,
                                w,
                                0,
                            );
                        },
                    }
                },
            },
        }
    }
}

/// [`Sim::enqueue_graph`] continues the history, from position `i` on.
pub proof fn enqueue_graph_from_follows(
    z: SimState,
    s0: SimState,
    graph: GraphId,
    stream: StreamId,
    extra_wait: Seq<OpId>,
    fuel: usize,
    inner: Seq<GraphId>,
    origin: Lane,
    steps: Seq<StepView>,
    order: Seq<usize>,
    launch_tail: Option<OpId>,
    w: WalkView,
    i: int,
)
    requires
        follows(z, s0),
    ensures
        follows(
            z,
            s0.enqueue_graph_from(
                graph,
                stream,
                extra_wait,
                fuel,
                inner,
                origin,
                steps,
                order,
                launch_tail,
                w,
                i,
            ).0,
        ),
    decreases fuel, 1int, order.len() - i,
{
    let s = s0;
    if 0 <= i < order.len() {
        let idx = order[i];
        if !(idx >= steps.len()) {
            enqueue_step_follows(
                z,
                s,
                graph,
                origin,
                stream,
                steps[idx as int],
                idx,
                extra_wait,
                launch_tail,
                inner,
                fuel,
                w,
            );
            match s.enqueue_step(
                graph,
                origin,
                stream,
                steps[idx as int],
                idx,
                extra_wait,
                launch_tail,
                inner,
                fuel,
                w,
            ) {
                (s, Err(e)) => {},
                (s, Ok(v1)) => {
                    let w = v1;
                    enqueue_graph_from_follows(
                        z,
                        s,
                        graph,
                        stream,
                        extra_wait,
                        fuel,
                        inner,
                        origin,
                        steps,
                        order,
                        launch_tail,
                        w,
                        i + 1,
                    );
                },
            }
        }
    } else {
        if w.joins.len() > 0 {
            add_joins_follows(z, s, Lane(origin.0, stream), w.joins);
        }
        let s = if w.joins.len() > 0 {
            let s = s.add_joins(Lane(origin.0, stream), w.joins);
            s
        } else {
            s
        };
        rest_follows(z, s, SimState { enq: Enq::plain(), ..s });
    }
}

/// [`Sim::enqueue_root`] continues the history.
pub proof fn enqueue_root_follows(
    z: SimState,
    s0: SimState,
    graph: GraphId,
    stream: StreamId,
    head: bool,
    wait: Seq<OpId>,
)
    requires
        follows(z, s0),
    ensures
        follows(z, s0.enqueue_root(graph, stream, head, wait).0),
{
    reveal(SimState::enqueue_root);
    let s = s0;
    let none = Seq::empty();
    let fuel = s.tree_fuel();
    enqueue_graph_follows(z, s, graph, stream, head, none, wait, fuel);
}

} // verus!
