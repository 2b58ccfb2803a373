//! Conditions on submitted operations: while a condition is in force, all that is submitted gets it.
use vstd::prelude::*;
use crate::ids::{AllocId, CondId, DeviceId, EventId, GraphId, Lane, OpId, StreamId};
use crate::laws::frames::mark_launch_events_keeps_work;
use crate::ops::{GpuOpView, LaunchCompletionEvent, ProgrammaticEvent};
use crate::sim::SimState;
use crate::sim::launch::{alloc_graph_worker, WalkView};
use crate::state::{
    CaptureView, CondPred, Enq, Ev, LaunchCost, NextIds, NodeAttrs, OpView, StepView,
};
use crate::topo::launch_order;

verus! {

/// Whether each operation of `after` that is not one of `before` waits for a condition.
pub open spec fn guarded(
    before: Map<OpId, OpView>,
    after: Map<OpId, OpView>,
    p: CondPred,
) -> bool {
    forall|k: OpId| #[trigger]
        after.contains_key(k) ==> after[k].preds.contains(p) || (before.contains_key(k)
            && after[k].preds == before[k].preds)
}

/// A condition is in force, and what was submitted since `z` has it.
#[verifier::opaque]
pub open spec fn carried(z: SimState, s: SimState, p: CondPred) -> bool {
    s.enqueue_preds.contains(p) && guarded(z.ops, s.ops, p)
}

/// Where a condition is in force, nothing was submitted yet.
pub proof fn nothing_carried(s: SimState, p: CondPred)
    requires
        s.enqueue_preds.contains(p),
    ensures
        carried(s, s, p),
{
    reveal(carried);
}

/// What was submitted has the condition.
pub proof fn carried_is_guarded(z: SimState, s: SimState, p: CondPred)
    requires
        carried(z, s, p),
    ensures
        guarded(z.ops, s.ops, p),
        s.enqueue_preds.contains(p),
{
    reveal(carried);
}

/// A change of anything but operations and conditions keeps the condition.
pub proof fn other_change_carries(z: SimState, s: SimState, t: SimState, p: CondPred)
    requires
        carried(z, s, p),
        t.ops == s.ops,
        t.enqueue_preds == s.enqueue_preds,
    ensures
        carried(z, t, p),
{
    reveal(carried);
}

/// [`Sim::submit_live`] keeps the condition on what it submits.
pub proof fn submit_live_carries(
    z: SimState,
    s0: SimState,
    p: CondPred,
    device: DeviceId,
    stream: StreamId,
    kind: GpuOpView,
    launch: LaunchCost,
)
    requires
        carried(z, s0, p),
    ensures
        carried(z, s0.submit_live(device, stream, kind, launch).0, p),
        s0.submit_live(device, stream, kind, launch).0.enqueue_preds == s0.enqueue_preds,
{
    reveal(SimState::submit_live);
    let t = s0.submit_live(device, stream, kind, launch).0;
    take_op_id_carries(z, s0, p);
    let s1 = s0.take_op_id().0;
    ensure_launch_events_carries(z, s1, p);
    let s2 = s1.ensure_launch_events();
    let id = OpId(s0.next.op);
    if t.ops != s0.ops {
        let o = t.ops[id];
        let s3 = SimState { ops: s2.ops.insert(id, o), ..s2 };
        assert(o.preds == s0.enqueue_preds) by {
            mark_launch_events_keeps_work(
                s3,
                o.attrs.programmatic_event,
                o.attrs.launch_completion,
                id,
            );
        }
        assert(carried(z, s3, p)) by {
            reveal(carried);
        }
        mark_launch_events_carries(
            z,
            s3,
            p,
            o.attrs.programmatic_event,
            o.attrs.launch_completion,
            id,
        );
        let s4 = s3.mark_launch_events(o.attrs.programmatic_event, o.attrs.launch_completion, id);
        other_change_carries(z, s4, t, p);
    } else {
        other_change_carries(z, s0, t, p);
    }
}

/// [`Sim::add_op_dep`] keeps the condition on what was submitted.
pub proof fn add_op_dep_carries(z: SimState, s0: SimState, p: CondPred, id: OpId, dep: OpId)
    requires
        carried(z, s0, p),
    ensures
        carried(z, s0.add_op_dep(id, dep), p),
        s0.add_op_dep(id, dep).enqueue_preds == s0.enqueue_preds,
{
    reveal(carried);
}

/// A further condition does not take the first one away.
pub proof fn further_condition_carries(z: SimState, s: SimState, p: CondPred, more: CondPred)
    requires
        carried(z, s, p),
    ensures
        carried(z, (SimState { enqueue_preds: s.enqueue_preds.push(more), ..s }), p),
{
    reveal(carried);
    let q = s.enqueue_preds;
    let j = choose|j: int| 0 <= j < q.len() && q[j] == p;
    assert(q.push(more)[j] == p);
}

/// [`Sim::enqueue_pred_graph`] keeps the condition on what it submits.
pub proof fn enqueue_pred_graph_carries(
    z: SimState,
    s0: SimState,
    p: CondPred,
    pred: CondPred,
    body: GraphId,
    stream: StreamId,
    head: bool,
    stack: Seq<GraphId>,
    wait: Seq<OpId>,
    fuel: usize,
)
    requires
        carried(z, s0, p),
    ensures
        carried(z, s0.enqueue_pred_graph(pred, body, stream, head, stack, wait, fuel).0, p),
        s0.enqueue_pred_graph(pred, body, stream, head, stack, wait, fuel).0.enqueue_preds
            == s0.enqueue_preds,
    decreases fuel, 3int, 0int,
{
    let s1 = SimState { enqueue_preds: s0.enqueue_preds.push(pred), ..s0 };
    further_condition_carries(z, s0, p, pred);
    enqueue_graph_carries(z, s1, p, body, stream, head, stack, wait, fuel);
    let s2 = s1.enqueue_graph(body, stream, head, stack, wait, fuel).0;
    assert(s0.enqueue_preds.push(pred).drop_last() =~= s0.enqueue_preds);
    assert(carried(z, s2.pop_pred(), p)) by {
        reveal(carried);
    }
}

/// [`Sim::submit_tick`] keeps the condition on what it submits.
pub proof fn submit_tick_carries(
    z: SimState,
    s0: SimState,
    p: CondPred,
    device: DeviceId,
    on: StreamId,
    handle: CondId,
    body: GraphId,
    iter: u32,
    wait: Seq<OpId>,
)
    requires
        carried(z, s0, p),
    ensures
        carried(z, s0.submit_tick(device, on, handle, body, iter, wait).0, p),
        s0.submit_tick(device, on, handle, body, iter, wait).0.enqueue_preds == s0.enqueue_preds,
{
    reveal(SimState::submit_tick);
    let pred = CondPred::Nonzero(handle);
    let s1 = SimState { enqueue_preds: s0.enqueue_preds.push(pred), ..s0 };
    further_condition_carries(z, s0, p, pred);
    let kind = GpuOpView::WhileTick { handle, body, iter };
    submit_launch_carries(z, s1, p, device, on, kind, LaunchCost::GraphBody);
    let (s2, tick) = s1.submit_launch(device, on, kind, LaunchCost::GraphBody);
    assert(s0.enqueue_preds.push(pred).drop_last() =~= s0.enqueue_preds);
    let s3 = s2.pop_pred();
    assert(carried(z, s3, p)) by {
        reveal(carried);
    }
    match tick {
        Err(_e) => {},
        Ok(id) => {
            add_op_deps_carries(z, s3, p, id, wait);
            let s4 = s3.add_op_deps(id, wait);
            match s0.tail_of(Lane(device, on)) {
                Some(t) => {
                    add_op_dep_carries(z, s4, p, id, t);
                },
                None => {},
            }
        },
    }
}

/// [`Sim::ensure_event`] keeps the condition on what it submits.
pub proof fn ensure_event_carries(z: SimState, s0: SimState, guard: CondPred, event: EventId)
    requires
        carried(z, s0, guard),
    ensures
        carried(z, s0.ensure_event(event), guard),
        s0.ensure_event(event).enqueue_preds == s0.enqueue_preds,
{
    let s = s0;
    if !s.events.contains_key(event) {
        other_change_carries(
            z,
            s,
            SimState { events: s.events.insert(event, Ev::new(true)), ..s },
            guard,
        );
    }
}

/// [`Sim::mark_recorded`] keeps the condition on what it submits.
pub proof fn mark_recorded_carries(
    z: SimState,
    s0: SimState,
    guard: CondPred,
    root: EventId,
    op: OpId,
)
    requires
        carried(z, s0, guard),
    ensures
        carried(z, s0.mark_recorded(root, op), guard),
        s0.mark_recorded(root, op).enqueue_preds == s0.enqueue_preds,
{
    let s = s0;
    match s.events.get(root) {
        Some(ev) => {
            let ev = Ev { recorded_by: Some(op), ..ev };
            other_change_carries(z, s, SimState { events: s.events.insert(root, ev), ..s }, guard);
        },
        _ => {},
    }
}

/// [`Sim::free_each`] keeps the condition on what it submits.
pub proof fn free_each_carries(
    z: SimState,
    s0: SimState,
    guard: CondPred,
    device: DeviceId,
    stream: StreamId,
    ids: Seq<AllocId>,
)
    requires
        carried(z, s0, guard),
    ensures
        carried(z, s0.free_each(device, stream, ids).0, guard),
        s0.free_each(device, stream, ids).0.enqueue_preds == s0.enqueue_preds,
{
    let s = s0;
    free_each_from_carries(z, s, guard, device, stream, ids, 0);
}

/// [`Sim::free_each`] keeps the condition on what it submits.
pub proof fn free_each_from_carries(
    z: SimState,
    s0: SimState,
    guard: CondPred,
    device: DeviceId,
    stream: StreamId,
    ids: Seq<AllocId>,
    i: int,
)
    requires
        carried(z, s0, guard),
    ensures
        carried(z, s0.free_each_from(device, stream, ids, i).0, guard),
        s0.free_each_from(device, stream, ids, i).0.enqueue_preds == s0.enqueue_preds,
    decreases ids.len() - i,
{
    let s = s0;
    if 0 <= i < ids.len() {
        let live = match s.allocs.get(ids[i]) {
            Some(a) => a.live && a.devices.contains(device),
            None => false,
        };
        if !live {
            free_each_from_carries(z, s, guard, device, stream, ids, i + 1);
        } else {
            submit_launch_carries(
                z,
                s,
                guard,
                device,
                stream,
                GpuOpView::Free { id: ids[i] },
                LaunchCost::GraphBody,
            );
            match s.submit_launch(
                device,
                stream,
                GpuOpView::Free { id: ids[i] },
                LaunchCost::GraphBody,
            ) {
                (s, Err(e)) => {},
                (s, Ok(_v)) => {
                    free_each_from_carries(z, s, guard, device, stream, ids, i + 1);
                },
            }
        }
    }
}

/// [`Sim::enqueue_auto_frees`] keeps the condition on what it submits.
pub proof fn enqueue_auto_frees_carries(
    z: SimState,
    s0: SimState,
    guard: CondPred,
    graph: GraphId,
    stream: StreamId,
)
    requires
        carried(z, s0, guard),
    ensures
        carried(z, s0.enqueue_auto_frees(graph, stream).0, guard),
        s0.enqueue_auto_frees(graph, stream).0.enqueue_preds == s0.enqueue_preds,
{
    let s = s0;
    match s.graph_ref(graph) {
        Err(e) => {},
        Ok(g) => {
            if !(!g.auto_free_on_launch) {
                let device = g.origin.0;
                let ids = s.graph_mem_ids(graph);
                free_each_carries(z, s, guard, device, stream, ids);
            }
        },
    }
}

/// [`Sim::load_enq`] keeps the condition on what it submits.
pub proof fn load_enq_carries(
    z: SimState,
    s0: SimState,
    guard: CondPred,
    graph: GraphId,
    a: NodeAttrs,
)
    requires
        carried(z, s0, guard),
    ensures
        carried(z, s0.load_enq(graph, a), guard),
        s0.load_enq(graph, a).enqueue_preds == s0.enqueue_preds,
{
    reveal(SimState::load_enq);
    let s = s0;
    let priority = if s.graph_uses_node_priority(graph) { Some(a.priority) } else { None };
    other_change_carries(
        z,
        s,
        SimState {
            enq: Enq {
                priority,
                pdl: a.pdl,
                programmatic_event: a.programmatic_event,
                launch_completion: a.launch_completion,
                access_policy: a.access_policy,
                mem_sync_domain: Some(a.mem_sync_domain),
                mem_sync_map: Some(a.mem_sync_map),
                cluster: a.cluster,
                cluster_policy: a.cluster_policy,
                preferred_cluster: a.preferred_cluster,
                carveout: a.carveout,
                device_updatable: a.device_updatable,
                shared_mem: a.shared_mem,
                portable_cluster: a.portable_cluster,
                dynamic_shared: a.dynamic_shared,
                portable_shared: a.portable_shared,
                nvlink_util_centric: a.nvlink_util_centric,
            },
            ..s
        },
        guard,
    );
}

/// [`Sim::bind_graph_worker`] keeps the condition on what it submits.
pub proof fn bind_graph_worker_carries(
    z: SimState,
    s0: SimState,
    guard: CondPred,
    device: DeviceId,
    launch: StreamId,
    worker: StreamId,
)
    requires
        carried(z, s0, guard),
    ensures
        carried(z, s0.bind_graph_worker(device, launch, worker), guard),
        s0.bind_graph_worker(device, launch, worker).enqueue_preds == s0.enqueue_preds,
{
    reveal(SimState::bind_graph_worker);
    let s = s0;
    if !(worker == launch) {
        let p = (match s.priority.get(Lane(device, launch)) { Some(x) => Some(x), None => None, });
        match p {
            Some(pri) => {
                other_change_carries(
                    z,
                    s,
                    SimState { priority: s.priority.insert(Lane(device, worker), pri), ..s },
                    guard,
                );
            },
            _ => {},
        }
        let s = match p {
            Some(pri) => {
                let s = SimState { priority: s.priority.insert(Lane(device, worker), pri), ..s };
                s
            },
            _ => s,
        };
        let m = match s.sm_permille.get(Lane(device, launch)) { Some(x) => Some(x), None => None, };
        match m {
            Some(sm) => {
                other_change_carries(
                    z,
                    s,
                    SimState { sm_permille: s.sm_permille.insert(Lane(device, worker), sm), ..s },
                    guard,
                );
            },
            _ => {},
        }
    }
}

/// [`Sim::graph_exec_stream`] keeps the condition on what it submits.
pub proof fn graph_exec_stream_carries(
    z: SimState,
    s0: SimState,
    guard: CondPred,
    origin: Lane,
    launch: StreamId,
    device: DeviceId,
    own: StreamId,
    deps: Seq<usize>,
    w: WalkView,
)
    requires
        carried(z, s0, guard),
    ensures
        carried(z, s0.graph_exec_stream(origin, launch, device, own, deps, w).0, guard),
        s0.graph_exec_stream(
            origin,
            launch,
            device,
            own,
            deps,
            w,
        ).0.enqueue_preds == s0.enqueue_preds,
{
    reveal(SimState::graph_exec_stream);
    let s = s0;
    if !(Lane(device, own) != origin) {
        let behind = if deps.len() == 1 { w.stream_of(deps[0]) } else { None };
        match behind {
            Some(on) => {
                bind_graph_worker_carries(z, s, guard, device, launch, on);
            },
            None => {
                let (on, worker) = if !w.any_stream() && deps.len() == 0 {
                    (launch, w.worker)
                } else {
                    alloc_graph_worker(launch, w.worker)
                };
                bind_graph_worker_carries(z, s, guard, device, launch, on);
            },
        }
    }
}

/// [`Sim::link_event_wait`] keeps the condition on what it submits.
pub proof fn link_event_wait_carries(
    z: SimState,
    s0: SimState,
    guard: CondPred,
    id: OpId,
    kind: GpuOpView,
    w: WalkView,
)
    requires
        carried(z, s0, guard),
    ensures
        carried(z, s0.link_event_wait(id, kind, w), guard),
        s0.link_event_wait(id, kind, w).enqueue_preds == s0.enqueue_preds,
{
    let s = s0;
    match kind {
        GpuOpView::EventWait { event, external } => {
            let root = s.event_root(event);
            let rec = if external {
                s.event_recorded_by(root)
            } else {
                (match w.rec_ops.get(root) { Some(x) => Some(x), None => None, })
            };
            match rec {
                Some(r) => {
                    add_op_dep_carries(z, s, guard, id, r);
                },
                _ => {},
            }
        },
        _ => {},
    }
}

/// [`Sim::enqueue_plain`] keeps the condition on what it submits.
pub proof fn enqueue_plain_carries(
    z: SimState,
    s0: SimState,
    guard: CondPred,
    step: StepView,
    on: StreamId,
    stream: StreamId,
    idx: usize,
    wait: Seq<OpId>,
    w0: WalkView,
)
    requires
        carried(z, s0, guard),
    ensures
        carried(z, s0.enqueue_plain(step, on, stream, idx, wait, w0).0, guard),
        s0.enqueue_plain(step, on, stream, idx, wait, w0).0.enqueue_preds == s0.enqueue_preds,
{
    reveal(SimState::enqueue_plain);
    let s = s0;
    let w = w0;
    let launch = if w.head { LaunchCost::GraphHead } else { LaunchCost::GraphBody };
    let w = WalkView { head: false, ..w };
    submit_launch_carries(z, s, guard, step.device, on, step.kind, launch);
    match s.submit_launch(step.device, on, step.kind, launch) {
        (s, Err(e)) => {},
        (s, Ok(id)) => {
            add_op_deps_carries(z, s, guard, id, wait);
            let s = s.add_op_deps(id, wait);
            let w = match s.recorded_event(step.kind, step.attrs) {
                Some(event) => {
                    let w = WalkView { rec_ops: w.rec_ops.insert(s.event_root(event), id), ..w };
                    w
                },
                _ => w,
            };
            link_event_wait_carries(z, s, guard, id, step.kind, w);
        },
    }
}

/// [`Sim::enqueue_branches`] keeps the condition on what it submits.
pub proof fn enqueue_branches_carries(
    z: SimState,
    s0: SimState,
    guard: CondPred,
    handle: CondId,
    bodies: Seq<GraphId>,
    on: StreamId,
    stack: Seq<GraphId>,
    wait: Seq<OpId>,
    fuel: usize,
    w0: WalkView,
)
    requires
        carried(z, s0, guard),
    ensures
        carried(z, s0.enqueue_branches(handle, bodies, on, stack, wait, fuel, w0).0, guard),
        s0.enqueue_branches(
            handle,
            bodies,
            on,
            stack,
            wait,
            fuel,
            w0,
        ).0.enqueue_preds == s0.enqueue_preds,
    decreases fuel, 5int, 0int,
{
    let s = s0;
    let w = w0;
    enqueue_branches_from_carries(z, s, guard, handle, bodies, on, stack, wait, fuel, w, 0);
}

/// [`Sim::enqueue_branches`] keeps the condition on what it submits.
pub proof fn enqueue_branches_from_carries(
    z: SimState,
    s0: SimState,
    guard: CondPred,
    handle: CondId,
    bodies: Seq<GraphId>,
    on: StreamId,
    stack: Seq<GraphId>,
    wait: Seq<OpId>,
    fuel: usize,
    w: WalkView,
    i: int,
)
    requires
        carried(z, s0, guard),
    ensures
        carried(z, s0.enqueue_branches_from(handle, bodies, on, stack, wait, fuel, w, i).0, guard),
        s0.enqueue_branches_from(
            handle,
            bodies,
            on,
            stack,
            wait,
            fuel,
            w,
            i,
        ).0.enqueue_preds == s0.enqueue_preds,
    decreases fuel, 4int, bodies.len() - i,
{
    let s = s0;
    if 0 <= i < bodies.len() {
        if !((i as usize)as u64 > 0xFFFF_FFFF) {
            let branch = (i as usize)as u32;
            match s.resolved_graph(bodies[i]) {
                Err(e) => {},
                Ok(body) => {
                    enqueue_pred_graph_carries(
                        z,
                        s,
                        guard,
                        CondPred::Equals(handle, branch),
                        body,
                        on,
                        w.head,
                        stack,
                        wait,
                        fuel,
                    );
                    match s.enqueue_pred_graph(
                        CondPred::Equals(handle, branch),
                        body,
                        on,
                        w.head,
                        stack,
                        wait,
                        fuel,
                    ) {
                        (s, Err(e)) => {},
                        (s, Ok(add)) => {
                            let w = WalkView { head: false, ..w };
                            let w = WalkView { n: w.n.saturating_add(add), ..w };
                            enqueue_branches_from_carries(
                                z,
                                s,
                                guard,
                                handle,
                                bodies,
                                on,
                                stack,
                                wait,
                                fuel,
                                w,
                                i + 1,
                            );
                        },
                    }
                },
            }
        }
    }
}

/// [`Sim::enqueue_step`] keeps the condition on what it submits.
pub proof fn enqueue_step_carries(
    z: SimState,
    s0: SimState,
    guard: CondPred,
    graph: GraphId,
    origin: Lane,
    stream: StreamId,
    step: StepView,
    idx: usize,
    extra_wait: Seq<OpId>,
    launch_tail: Option<OpId>,
    stack: Seq<GraphId>,
    fuel: usize,
    w0: WalkView,
)
    requires
        carried(z, s0, guard),
    ensures
        carried(
            z,
            s0.enqueue_step(
                graph,
                origin,
                stream,
                step,
                idx,
                extra_wait,
                launch_tail,
                stack,
                fuel,
                w0,
            ).0,
            guard,
        ),
        s0.enqueue_step(
            graph,
            origin,
            stream,
            step,
            idx,
            extra_wait,
            launch_tail,
            stack,
            fuel,
            w0,
        ).0.enqueue_preds == s0.enqueue_preds,
    decreases fuel, 0int, 0int,
{
    let s = s0;
    if !(fuel == 0) {
        load_enq_carries(z, s, guard, graph, step.attrs);
        let s = s.load_enq(graph, step.attrs);
        match w0.node_waits(step.deps, extra_wait, launch_tail) {
            Err(e) => {},
            Ok(wait) => {
                graph_exec_stream_carries(
                    z,
                    s,
                    guard,
                    origin,
                    stream,
                    step.device,
                    step.stream,
                    step.deps,
                    w0,
                );
                let (s, (on, worker)) = s.graph_exec_stream(
                    origin,
                    stream,
                    step.device,
                    step.stream,
                    step.deps,
                    w0,
                );
                let w = w0.with_stream(idx, on, worker);
                if !(step.destroyed) {
                    if !(!step.enabled) {
                        match step.kind {
                            GpuOpView::ChildGraph { graph: child } => match s.resolved_graph(child) {
                                Err(e) => {},
                                Ok(body) => {
                                    enqueue_graph_carries(
                                        z,
                                        s,
                                        guard,
                                        body,
                                        on,
                                        w.head,
                                        stack,
                                        wait,
                                        fuel.saturating_sub(1),
                                    );
                                },
                            },
                            GpuOpView::If { handle, body } => match s.resolved_graph(body) {
                                Err(e) => {},
                                Ok(b) => {
                                    enqueue_pred_graph_carries(
                                        z,
                                        s,
                                        guard,
                                        CondPred::Nonzero(handle),
                                        b,
                                        on,
                                        w.head,
                                        stack,
                                        wait,
                                        fuel.saturating_sub(1),
                                    );
                                },
                            },
                            GpuOpView::While { handle, body } => match s.resolved_graph(body) {
                                Err(e) => {},
                                Ok(b) => {
                                    enqueue_pred_graph_carries(
                                        z,
                                        s,
                                        guard,
                                        CondPred::Nonzero(handle),
                                        b,
                                        on,
                                        w.head,
                                        stack,
                                        wait,
                                        fuel.saturating_sub(1),
                                    );
                                    match s.enqueue_pred_graph(
                                        CondPred::Nonzero(handle),
                                        b,
                                        on,
                                        w.head,
                                        stack,
                                        wait,
                                        fuel.saturating_sub(1),
                                    ) {
                                        (s, Err(e)) => {},
                                        (s, Ok(add)) => {
                                            submit_tick_carries(
                                                z,
                                                s,
                                                guard,
                                                step.device,
                                                on,
                                                handle,
                                                b,
                                                1,
                                                wait,
                                            );
                                        },
                                    }
                                },
                            },
                            GpuOpView::Switch { handle, bodies } => {
                                enqueue_branches_carries(
                                    z,
                                    s,
                                    guard,
                                    handle,
                                    bodies,
                                    on,
                                    stack,
                                    wait,
                                    fuel.saturating_sub(1),
                                    w,
                                );
                            },
                            _ => {
                                enqueue_plain_carries(z, s, guard, step, on, stream, idx, wait, w);
                            },
                        }
                    }
                }
            },
        }
    }
}

/// [`Sim::add_joins`] keeps the condition on what it submits.
pub proof fn add_joins_carries(
    z: SimState,
    s0: SimState,
    guard: CondPred,
    lane: Lane,
    joins: Seq<OpId>,
)
    requires
        carried(z, s0, guard),
    ensures
        carried(z, s0.add_joins(lane, joins), guard),
        s0.add_joins(lane, joins).enqueue_preds == s0.enqueue_preds,
{
    let s = s0;
    let all = (match s.graph_joins.get(lane) { Some(v) => v, None => Seq::empty(), });
    let all = all + joins;
    other_change_carries(
        z,
        s,
        SimState { graph_joins: s.graph_joins.insert(lane, all), ..s },
        guard,
    );
}

/// [`Sim::enqueue_graph`] keeps the condition on what it submits.
pub proof fn enqueue_graph_carries(
    z: SimState,
    s0: SimState,
    guard: CondPred,
    graph: GraphId,
    stream: StreamId,
    head: bool,
    stack: Seq<GraphId>,
    extra_wait: Seq<OpId>,
    fuel: usize,
)
    requires
        carried(z, s0, guard),
    ensures
        carried(z, s0.enqueue_graph(graph, stream, head, stack, extra_wait, fuel).0, guard),
        s0.enqueue_graph(
            graph,
            stream,
            head,
            stack,
            extra_wait,
            fuel,
        ).0.enqueue_preds == s0.enqueue_preds,
    decreases fuel, 2int, 0int,
{
    let s = s0;
    if !(stack.contains(graph) || fuel == 0) {
        let inner = stack;
        let inner = inner.push(graph);
        enqueue_auto_frees_carries(z, s, guard, graph, stream);
        match s.enqueue_auto_frees(graph, stream) {
            (s, Err(e)) => {},
            (s, Ok(_v)) => match s.graph_ref(graph) {
                Err(e) => {},
                Ok(g) => {
                    let origin = g.origin;
                    let steps = g.current();
                    match launch_order(steps) {
                        Err(e) => {},
                        Ok(order) => {
                            let launch_tail = s.tail_of(Lane(origin.0, stream));
                            let w = WalkView::start((steps.len()as usize), head);
                            enqueue_graph_from_carries(
                                z,
                                s,
                                guard,
                                graph,
                                stream,
                                extra_wait,
                                fuel,
                                inner,
                                origin,
                                steps,
                                order,
                                launch_tail,
                                w,
                                0,
                            );
                        },
                    }
                },
            },
        }
    }
}

/// [`Sim::enqueue_graph`] keeps the condition on what it submits.
pub proof fn enqueue_graph_from_carries(
    z: SimState,
    s0: SimState,
    guard: CondPred,
    graph: GraphId,
    stream: StreamId,
    extra_wait: Seq<OpId>,
    fuel: usize,
    inner: Seq<GraphId>,
    origin: Lane,
    steps: Seq<StepView>,
    order: Seq<usize>,
    launch_tail: Option<OpId>,
    w: WalkView,
    i: int,
)
    requires
        carried(z, s0, guard),
    ensures
        carried(
            z,
            s0.enqueue_graph_from(
                graph,
                stream,
                extra_wait,
                fuel,
                inner,
                origin,
                steps,
                order,
                launch_tail,
                w,
                i,
            ).0,
            guard,
        ),
        s0.enqueue_graph_from(
            graph,
            stream,
            extra_wait,
            fuel,
            inner,
            origin,
            steps,
            order,
            launch_tail,
            w,
            i,
        ).0.enqueue_preds == s0.enqueue_preds,
    decreases fuel, 1int, order.len() - i,
{
    let s = s0;
    if 0 <= i < order.len() {
        let idx = order[i];
        if !(idx >= steps.len()) {
            enqueue_step_carries(
                z,
                s,
                guard,
                graph,
                origin,
                stream,
                steps[idx as int],
                idx,
                extra_wait,
                launch_tail,
                inner,
                fuel,
                w,
            );
            match s.enqueue_step(
                graph,
                origin,
                stream,
                steps[idx as int],
                idx,
                extra_wait,
                launch_tail,
                inner,
                fuel,
                w,
            ) {
                (s, Err(e)) => {},
                (s, Ok(v1)) => {
                    let w = v1;
                    enqueue_graph_from_carries(
                        z,
                        s,
                        guard,
                        graph,
                        stream,
                        extra_wait,
                        fuel,
                        inner,
                        origin,
                        steps,
                        order,
                        launch_tail,
                        w,
                        i + 1,
                    );
                },
            }
        }
    } else {
        if w.joins.len() > 0 {
            add_joins_carries(z, s, guard, Lane(origin.0, stream), w.joins);
        }
        let s = if w.joins.len() > 0 {
            let s = s.add_joins(Lane(origin.0, stream), w.joins);
            s
        } else {
            s
        };
        other_change_carries(z, s, SimState { enq: Enq::plain(), ..s }, guard);
    }
}

/// [`Sim::add_op_deps`] keeps the condition on what it submits.
pub proof fn add_op_deps_carries(
    z: SimState,
    s0: SimState,
    guard: CondPred,
    id: OpId,
    deps: Seq<OpId>,
)
    requires
        carried(z, s0, guard),
    ensures
        carried(z, s0.add_op_deps(id, deps), guard),
        s0.add_op_deps(id, deps).enqueue_preds == s0.enqueue_preds,
{
    let s = s0;
    add_op_deps_from_carries(z, s, guard, id, deps, 0);
}

/// [`Sim::add_op_deps`] keeps the condition on what it submits.
pub proof fn add_op_deps_from_carries(
    z: SimState,
    s0: SimState,
    guard: CondPred,
    id: OpId,
    deps: Seq<OpId>,
    i: int,
)
    requires
        carried(z, s0, guard),
    ensures
        carried(z, s0.add_op_deps_from(id, deps, i), guard),
        s0.add_op_deps_from(id, deps, i).enqueue_preds == s0.enqueue_preds,
    decreases deps.len() - i,
{
    let s = s0;
    if 0 <= i < deps.len() {
        add_op_dep_carries(z, s, guard, id, deps[i]);
        let s = s.add_op_dep(id, deps[i]);
        add_op_deps_from_carries(z, s, guard, id, deps, i + 1);
    }
}

/// [`Sim::ensure_launch_events`] keeps the condition on what it submits.
pub proof fn ensure_launch_events_carries(z: SimState, s0: SimState, guard: CondPred)
    requires
        carried(z, s0, guard),
    ensures
        carried(z, s0.ensure_launch_events(), guard),
        s0.ensure_launch_events().enqueue_preds == s0.enqueue_preds,
{
    let s = s0;
    match s.enq.programmatic_event {
        Some(pe) => {
            ensure_event_carries(z, s, guard, pe.event);
        },
        _ => {},
    }
    let s = match s.enq.programmatic_event {
        Some(pe) => {
            let s = s.ensure_event(pe.event);
            s
        },
        _ => s,
    };
    match s.enq.launch_completion {
        Some(lc) => {
            ensure_event_carries(z, s, guard, lc.event);
        },
        _ => {},
    }
}

/// [`Sim::mark_launch_events`] keeps the condition on what it submits.
pub proof fn mark_launch_events_carries(
    z: SimState,
    s0: SimState,
    guard: CondPred,
    pde: Option<ProgrammaticEvent>,
    lce: Option<LaunchCompletionEvent>,
    id: OpId,
)
    requires
        carried(z, s0, guard),
    ensures
        carried(z, s0.mark_launch_events(pde, lce, id), guard),
        s0.mark_launch_events(pde, lce, id).enqueue_preds == s0.enqueue_preds,
{
    let s = s0;
    match pde {
        Some(pe) => {
            let root = s.event_root(pe.event);
            mark_recorded_carries(z, s, guard, root, id);
        },
        _ => {},
    }
    let s = match pde {
        Some(pe) => {
            let root = s.event_root(pe.event);
            let s = s.mark_recorded(root, id);
            s
        },
        _ => s,
    };
    match lce {
        Some(lc) => {
            let root = s.event_root(lc.event);
            mark_recorded_carries(z, s, guard, root, id);
        },
        _ => {},
    }
}

/// [`Sim::take_op_id`] keeps the condition on what it submits.
pub proof fn take_op_id_carries(z: SimState, s0: SimState, guard: CondPred)
    requires
        carried(z, s0, guard),
    ensures
        carried(z, s0.take_op_id().0, guard),
        s0.take_op_id().0.enqueue_preds == s0.enqueue_preds,
{
    let s = s0;
    let id = OpId(s.next.op);
    other_change_carries(
        z,
        s,
        SimState { next: NextIds { op: s.next.op.saturating_add(1), ..s.next }, ..s },
        guard,
    );
}

/// [`Sim::capture_event`] keeps the condition on what it submits.
pub proof fn capture_event_carries(z: SimState, s0: SimState, guard: CondPred, event: EventId)
    requires
        carried(z, s0, guard),
    ensures
        carried(z, s0.capture_event(event), guard),
        s0.capture_event(event).enqueue_preds == s0.enqueue_preds,
{
    let s = s0;
    let root = s.event_root(event);
    match s.capturing {
        Some(cap) => {
            let cap = CaptureView { events: cap.events.insert(root), ..cap };
            other_change_carries(z, s, SimState { capturing: Some(cap), ..s }, guard);
        },
        _ => {},
    }
}

/// [`Sim::capture_fork`] keeps the condition on what it submits.
pub proof fn capture_fork_carries(
    z: SimState,
    s0: SimState,
    guard: CondPred,
    device: DeviceId,
    stream: StreamId,
    kind: GpuOpView,
)
    requires
        carried(z, s0, guard),
    ensures
        carried(z, s0.capture_fork(device, stream, kind).0, guard),
        s0.capture_fork(device, stream, kind).0.enqueue_preds == s0.enqueue_preds,
{
    reveal(SimState::capture_fork);
    let s = s0;
    match kind {
        GpuOpView::EventWait { event, external } => {
            let root = s.event_root(event);
            let (join, same) = match s.capturing {
                Some(c) => (!external && c.events.contains(root), c.origin.0 == device),
                None => (false, false),
            };
            if join && !s.in_capture(device, stream) {
                if !(!same) {
                    if !(!s.stream_idle(device, stream)) {
                        match s.capturing {
                            Some(cap) => {
                                let cap = CaptureView {
                                    streams: cap.streams.insert(Lane(device, stream)),
                                    ..cap
                                };
                                other_change_carries(
                                    z,
                                    s,
                                    SimState { capturing: Some(cap), ..s },
                                    guard,
                                );
                            },
                            _ => {},
                        }
                    }
                }
            }
        },
        _ => {},
    }
}

/// [`Sim::capture_events`] keeps the condition on what it submits.
pub proof fn capture_events_carries(z: SimState, s0: SimState, guard: CondPred, kind: GpuOpView)
    requires
        carried(z, s0, guard),
    ensures
        carried(z, s0.capture_events(kind), guard),
        s0.capture_events(kind).enqueue_preds == s0.enqueue_preds,
{
    reveal(SimState::capture_events);
    let s = s0;
    match kind {
        GpuOpView::EventRecord { event, external } => {
            if !external {
                capture_event_carries(z, s, guard, event);
            }
        },
        _ => {},
    }
    let s = match kind {
        GpuOpView::EventRecord { event, external } => {
            let s = if !external {
                let s = s.capture_event(event);
                s
            } else {
                s
            };
            s
        },
        _ => s,
    };
    match s.enq.programmatic_event {
        Some(pe) => {
            ensure_event_carries(z, s, guard, pe.event);
            let s = s.ensure_event(pe.event);
            if !pe.external {
                capture_event_carries(z, s, guard, pe.event);
            }
        },
        _ => {},
    }
    let s = match s.enq.programmatic_event {
        Some(pe) => {
            let s = s.ensure_event(pe.event);
            let s = if !pe.external {
                let s = s.capture_event(pe.event);
                s
            } else {
                s
            };
            s
        },
        _ => s,
    };
    match s.enq.launch_completion {
        Some(lc) => {
            ensure_event_carries(z, s, guard, lc.event);
            let s = s.ensure_event(lc.event);
            if !lc.external {
                capture_event_carries(z, s, guard, lc.event);
            }
        },
        _ => {},
    }
}

/// [`Sim::take_pending`] keeps the condition on what it submits.
pub proof fn take_pending_carries(
    z: SimState,
    s0: SimState,
    guard: CondPred,
    device: DeviceId,
    stream: StreamId,
)
    requires
        carried(z, s0, guard),
    ensures
        carried(z, s0.take_pending(device, stream).0, guard),
        s0.take_pending(device, stream).0.enqueue_preds == s0.enqueue_preds,
{
    let s = s0;
    match s.capturing {
        Some(cap) => {
            let taken = cap.pending.get(Lane(device, stream));
            let cap = CaptureView { pending: cap.pending.remove(Lane(device, stream)), ..cap };
            other_change_carries(z, s, SimState { capturing: Some(cap), ..s }, guard);
        },
        _ => {},
    }
}

/// [`Sim::merge_capture_pending`] keeps the condition on what it submits.
pub proof fn merge_capture_pending_carries(
    z: SimState,
    s0: SimState,
    guard: CondPred,
    device: DeviceId,
    stream: StreamId,
    first: Seq<usize>,
)
    requires
        carried(z, s0, guard),
    ensures
        carried(z, s0.merge_capture_pending(device, stream, first).0, guard),
        s0.merge_capture_pending(device, stream, first).0.enqueue_preds == s0.enqueue_preds,
{
    reveal(SimState::merge_capture_pending);
    let s = s0;
    take_pending_carries(z, s, guard, device, stream);
    let (s, extra) = s.take_pending(device, stream);
    if !(extra.len() == 0) {
        let deps = s.pending_captured(first, extra);
        let known = s.pending_existing(extra);
        if known.len() > 0 {
            let at = (s.capture_buf.len()as usize);
            match s.capturing {
                Some(cap) => {
                    let cap = CaptureView { extra_abs: cap.extra_abs.insert(at, known), ..cap };
                    other_change_carries(z, s, SimState { capturing: Some(cap), ..s }, guard);
                },
                _ => {},
            }
        }
    }
}

/// [`Sim::record_captured`] keeps the condition on what it submits.
pub proof fn record_captured_carries(
    z: SimState,
    s0: SimState,
    guard: CondPred,
    device: DeviceId,
    stream: StreamId,
    kind: GpuOpView,
)
    requires
        carried(z, s0, guard),
    ensures
        carried(z, s0.record_captured(device, stream, kind).0, guard),
        s0.record_captured(device, stream, kind).0.enqueue_preds == s0.enqueue_preds,
{
    reveal(SimState::record_captured);
    let s = s0;
    capture_events_carries(z, s, guard, kind);
    let s = s.capture_events(kind);
    let first = s.capture_step_deps(device, stream, kind);
    merge_capture_pending_carries(z, s, guard, device, stream, first);
    let (s, deps) = s.merge_capture_pending(device, stream, first);
    let priority = s.snap_priority(device, stream);
    match s.snap_mem_sync(device, stream, kind) {
        Err(e) => {},
        Ok((domain, map)) => {
            let attrs = s.node_attrs(priority, domain, map);
            let step = StepView {
                device,
                stream,
                kind,
                deps,
                enabled: true,
                destroyed: false,
                attrs,
            };
            other_change_carries(
                z,
                s,
                SimState { capture_buf: s.capture_buf.push(step), ..s },
                guard,
            );
            let s = SimState { capture_buf: s.capture_buf.push(step), ..s };
            take_op_id_carries(z, s, guard);
        },
    }
}

/// [`Sim::submit_captured`] keeps the condition on what it submits.
pub proof fn submit_captured_carries(
    z: SimState,
    s0: SimState,
    guard: CondPred,
    device: DeviceId,
    stream: StreamId,
    kind: GpuOpView,
)
    requires
        carried(z, s0, guard),
    ensures
        carried(z, s0.submit_captured(device, stream, kind).0, guard),
        s0.submit_captured(device, stream, kind).0.enqueue_preds == s0.enqueue_preds,
{
    reveal(SimState::submit_captured);
    let s = s0;
    capture_fork_carries(z, s, guard, device, stream, kind);
    match s.capture_fork(device, stream, kind) {
        (s, Err(e)) => {},
        (s, Ok(_v)) => if !s.in_capture(device, stream) {
            let live = (match s.capturing { Some(c) => c.mode.live_uncaptured(), None => false, });
            if live {
                submit_live_carries(z, s, guard, device, stream, kind, LaunchCost::Kernel);
            }
        } else {
            record_captured_carries(z, s, guard, device, stream, kind);
        },
    }
}

/// [`Sim::submit_launch`] keeps the condition on what it submits.
pub proof fn submit_launch_carries(
    z: SimState,
    s0: SimState,
    guard: CondPred,
    device: DeviceId,
    stream: StreamId,
    kind: GpuOpView,
    launch: LaunchCost,
)
    requires
        carried(z, s0, guard),
    ensures
        carried(z, s0.submit_launch(device, stream, kind, launch).0, guard),
        s0.submit_launch(device, stream, kind, launch).0.enqueue_preds == s0.enqueue_preds,
{
    let s = s0;
    if !(s.unavailable.contains(device)) {
        if s.capturing.is_some() {
            submit_captured_carries(z, s, guard, device, stream, kind);
        } else {
            submit_live_carries(z, s, guard, device, stream, kind, launch);
        }
    }
}

} // verus!
