//! Launching graphs: what is submitted, and at what cost.
use vstd::prelude::*;
use crate::error::SimError;
use crate::ids::{CondId, DeviceId, GraphId, Lane, OpId, StreamId};
use crate::laws::costs::{held, no_less};
use crate::laws::order::launch_order_respects_dependencies;
use crate::laws::submission::submitted_is_queued;
use crate::ops::{GpuOpView, GraphInstantiateFlags};
use crate::profile::GpuProfile;
use crate::sim::SimState;
use crate::sim::launch::WalkView;
use crate::state::{Cond, CondPred, GraphView, LaunchCost, OpView, StepView};
use crate::topo::launch_order;

verus! {

/// Whether a node is submitted as one operation.
pub open spec fn is_plain(k: GpuOpView) -> bool {
    !(k is ChildGraph) && !(k is If) && !(k is While) && !(k is Switch)
}

/// Operations stay as what they were submitted as.
pub open spec fn kinds_stay(a: Map<OpId, OpView>, b: Map<OpId, OpView>) -> bool {
    forall|k: OpId| #[trigger]
        a.contains_key(k) ==> b.contains_key(k) && b[k].kind == a[k].kind && b[k].device
            == a[k].device && b[k].launch == a[k].launch
}

proof fn lemma_submitted(
    s: SimState,
    device: DeviceId,
    stream: StreamId,
    kind: GpuOpView,
    launch: LaunchCost,
)
    requires
        s.capturing is None,
        s.next.op < u64::MAX,
        forall|k: OpId| #[trigger] s.ops.contains_key(k) ==> k.0 < s.next.op,
        s.submit_launch(device, stream, kind, launch).1 is Ok,
    ensures
        ({
            let (t, r) = s.submit_launch(device, stream, kind, launch);
            let id = OpId(s.next.op);
            &&& r == Ok::<OpId, SimError>(id)
            &&& t.ops == s.ops.insert(id, t.ops[id])
            &&& t.ops[id].kind == kind
            &&& t.ops[id].device == device
            &&& t.ops[id].stream == stream
            &&& t.ops[id].launch == launch
            &&& !t.ops[id].done
            &&& t.next.op == s.next.op + 1
            &&& t.capturing is None
            &&& t.graphs == s.graphs
            &&& t.allocs == s.allocs
            &&& t.clock == s.clock
            &&& t.enqueue_preds == s.enqueue_preds
        }),
{
    reveal(SimState::submit_live);
}

proof fn lemma_dep_stays(s: SimState, id: OpId, dep: OpId)
    ensures
        ({
            let t = s.add_op_dep(id, dep);
            &&& kinds_stay(s.ops, t.ops)
            &&& forall|k: OpId| #[trigger] t.ops.contains_key(k) ==> s.ops.contains_key(k)
            &&& t.next == s.next
            &&& t.capturing == s.capturing
            &&& t.graphs == s.graphs
            &&& t.clock == s.clock
        }),
{
    if s.ops.contains_key(id) {
        assert(s.ops.get(id) == Some(s.ops[id]));
    }
}

proof fn lemma_deps_stay(s: SimState, id: OpId, deps: Seq<OpId>, i: int)
    ensures
        ({
            let t = s.add_op_deps_from(id, deps, i);
            &&& kinds_stay(s.ops, t.ops)
            &&& forall|k: OpId| #[trigger] t.ops.contains_key(k) ==> s.ops.contains_key(k)
            &&& t.next == s.next
            &&& t.capturing == s.capturing
            &&& t.graphs == s.graphs
            &&& t.clock == s.clock
        }),
    decreases deps.len() - i,
{
    if 0 <= i < deps.len() {
        let u = s.add_op_dep(id, deps[i]);
        lemma_dep_stays(s, id, deps[i]);
        lemma_deps_stay(u, id, deps, i + 1);
        let t = u.add_op_deps_from(id, deps, i + 1);
        assert forall|k: OpId| #[trigger] s.ops.contains_key(k) implies t.ops.contains_key(k)
            && t.ops[k].kind == s.ops[k].kind && t.ops[k].device == s.ops[k].device
            && t.ops[k].launch == s.ops[k].launch by {
            assert(u.ops.contains_key(k));
        }
        assert forall|k: OpId| #[trigger] t.ops.contains_key(k) implies s.ops.contains_key(k) by {
            assert(u.ops.contains_key(k));
        }
    }
}

/// What holds before a node is submitted, and after.
pub open spec fn in_good_order(s: SimState, room: int) -> bool {
    &&& s.capturing is None
    &&& s.next.op + room < u64::MAX
    &&& forall|k: OpId| #[trigger] s.ops.contains_key(k) ==> k.0 < s.next.op
}

proof fn lemma_plain(
    s: SimState,
    step: StepView,
    on: StreamId,
    stream: StreamId,
    idx: usize,
    wait: Seq<OpId>,
    w: WalkView,
    room: int,
)
    requires
        in_good_order(s, room + 1),
        room >= 0,
        s.enqueue_plain(step, on, stream, idx, wait, w).1 is Ok,
    ensures
        ({
            let (t, r) = s.enqueue_plain(step, on, stream, idx, wait, w);
            let id = OpId(s.next.op);
            &&& in_good_order(t, room)
            &&& kinds_stay(s.ops, t.ops)
            &&& !s.ops.contains_key(id)
            &&& t.ops.contains_key(id)
            &&& t.ops[id].kind == step.kind
            &&& t.ops[id].device == step.device
            &&& t.ops[id].launch == (if w.head {
                LaunchCost::GraphHead
            } else {
                LaunchCost::GraphBody
            })
            &&& t.next.op == s.next.op + 1
            &&& !r->Ok_0.head
            &&& r->Ok_0.n == w.n.saturating_add(1)
            &&& t.graphs == s.graphs
            &&& t.clock == s.clock
        }),
{
    reveal(SimState::enqueue_plain);
    let launch = if w.head {
        LaunchCost::GraphHead
    } else {
        LaunchCost::GraphBody
    };
    lemma_submitted(s, step.device, on, step.kind, launch);
    let (u, r) = s.submit_launch(step.device, on, step.kind, launch);
    let id = r->Ok_0;
    lemma_deps_stay(u, id, wait, 0);
    let v = u.add_op_deps(id, wait);
    let rec = match v.recorded_event(step.kind, step.attrs) {
        Some(event) => WalkView {
            head: false,
            rec_ops: w.rec_ops.insert(v.event_root(event), id),
            ..w
        },
        _ => WalkView { head: false, ..w },
    };
    let t = v.link_event_wait(id, step.kind, rec);
    assert(kinds_stay(v.ops, t.ops) && (forall|k: OpId| #[trigger]
        t.ops.contains_key(k) ==> v.ops.contains_key(k)) && t.next == v.next && t.capturing
        == v.capturing && t.graphs == v.graphs && t.clock == v.clock) by {
        if step.kind is EventWait {
            let event = step.kind->EventWait_event;
            if rec.rec_ops.contains_key(v.event_root(event)) {
                lemma_dep_stays(v, id, rec.rec_ops[v.event_root(event)]);
            }
        }
    }
    assert forall|k: OpId| #[trigger] s.ops.contains_key(k) implies t.ops.contains_key(k)
        && t.ops[k].kind == s.ops[k].kind && t.ops[k].device == s.ops[k].device && t.ops[k].launch
        == s.ops[k].launch by {
        assert(u.ops.contains_key(k));
        assert(v.ops.contains_key(k));
    }
    assert forall|k: OpId| #[trigger] t.ops.contains_key(k) implies k.0 < t.next.op by {
        assert(v.ops.contains_key(k));
        assert(u.ops.contains_key(k));
    }
    assert(u.ops.contains_key(id));
    assert(v.ops.contains_key(id));
}

/// Number of nodes among the first `n` in order that a launch submits.
pub open spec fn submitted_nodes(steps: Seq<StepView>, order: Seq<usize>, n: int) -> nat
    decreases n,
{
    if n <= 0 {
        0
    } else {
        let x = steps[order[n - 1] as int];
        submitted_nodes(steps, order, n - 1) + if !x.destroyed && x.enabled {
            1nat
        } else {
            0nat
        }
    }
}

/// Whether a node has an operation of its own among those submitted since a number.
pub open spec fn has_operation(t: SimState, from: int, step: StepView) -> bool {
    exists|k: OpId| #[trigger]
        t.ops.contains_key(k) && k.0 >= from && t.ops[k].kind == step.kind && t.ops[k].device
            == step.device && !(t.ops[k].launch is Kernel)
}

proof fn lemma_step(
    s: SimState,
    graph: GraphId,
    origin: Lane,
    stream: StreamId,
    step: StepView,
    idx: usize,
    extra_wait: Seq<OpId>,
    launch_tail: Option<OpId>,
    stack: Seq<GraphId>,
    fuel: usize,
    w: WalkView,
    room: int,
)
    requires
        in_good_order(s, room + 1),
        room >= 0,
        is_plain(step.kind),
        s.enqueue_step(
            graph,
            origin,
            stream,
            step,
            idx,
            extra_wait,
            launch_tail,
            stack,
            fuel,
            w,
        ).1 is Ok,
    ensures
        ({
            let (t, r) = s.enqueue_step(
                graph,
                origin,
                stream,
                step,
                idx,
                extra_wait,
                launch_tail,
                stack,
                fuel,
                w,
            );
            let runs = !step.destroyed && step.enabled;
            &&& in_good_order(t, room)
            &&& kinds_stay(s.ops, t.ops)
            &&& t.next.op == s.next.op + (if runs {
                1int
            } else {
                0
            })
            &&& runs ==> {
                &&& t.ops.contains_key(OpId(s.next.op))
                &&& t.ops[OpId(s.next.op)].kind == step.kind
                &&& t.ops[OpId(s.next.op)].device == step.device
                &&& t.ops[OpId(s.next.op)].launch == (if w.head {
                    LaunchCost::GraphHead
                } else {
                    LaunchCost::GraphBody
                })
            }
            &&& r->Ok_0.n == (if runs {
                w.n.saturating_add(1)
            } else {
                w.n
            })
            &&& r->Ok_0.head == (w.head && !runs)
            &&& t.graphs == s.graphs
            &&& t.clock == s.clock
        }),
{
    let s1 = s.load_enq(graph, step.attrs);
    assert(s1 == SimState { enq: s1.enq, ..s }) by {
        reveal(SimState::load_enq);
    }
    let (s2, (on, worker)) = s1.graph_exec_stream(
        origin,
        stream,
        step.device,
        step.stream,
        step.deps,
        w,
    );
    assert(s2 == SimState { priority: s2.priority, sm_permille: s2.sm_permille, ..s1 }) by {
        reveal(SimState::graph_exec_stream);
        reveal(SimState::bind_graph_worker);
    }
    let v = w.with_stream(idx, on, worker);
    let wait = w.node_waits(step.deps, extra_wait, launch_tail)->Ok_0;
    if !step.destroyed && step.enabled {
        lemma_plain(s2, step, on, stream, idx, wait, v, room);
    }
}

proof fn lemma_nodes(
    z: SimState,
    s: SimState,
    graph: GraphId,
    stream: StreamId,
    extra_wait: Seq<OpId>,
    fuel: usize,
    inner: Seq<GraphId>,
    origin: Lane,
    steps: Seq<StepView>,
    order: Seq<usize>,
    launch_tail: Option<OpId>,
    w: WalkView,
    i: int,
)
    requires
        0 <= i <= order.len() <= u32::MAX,
        in_good_order(s, order.len() - i),
        z.next.op <= s.next.op,
        forall|j: int| 0 <= j < steps.len() ==> is_plain((#[trigger] steps[j]).kind),
        forall|j: int| 0 <= j < order.len() ==> (#[trigger] order[j]) < steps.len(),
        forall|j: int|
            0 <= j < i && !steps[order[j] as int].destroyed && steps[order[j] as int].enabled
                ==> has_operation(s, z.next.op as int, steps[(#[trigger] order[j]) as int]),
        w.n == submitted_nodes(steps, order, i),
        s.next.op == z.next.op + submitted_nodes(steps, order, i),
        s.enqueue_graph_from(
            graph,
            stream,
            extra_wait,
            fuel,
            inner,
            origin,
            steps,
            order,
            launch_tail,
            w,
            i,
        ).1 is Ok,
    ensures
        ({
            let (t, r) = s.enqueue_graph_from(
                graph,
                stream,
                extra_wait,
                fuel,
                inner,
                origin,
                steps,
                order,
                launch_tail,
                w,
                i,
            );
            &&& r->Ok_0 == submitted_nodes(steps, order, order.len() as int)
            &&& t.next.op == z.next.op + submitted_nodes(steps, order, order.len() as int)
            &&& kinds_stay(s.ops, t.ops)
            &&& forall|j: int|
                0 <= j < order.len() && !steps[order[j] as int].destroyed
                    && steps[order[j] as int].enabled ==> has_operation(
                    t,
                    z.next.op as int,
                    steps[(#[trigger] order[j]) as int],
                )
            &&& t.clock == s.clock
            &&& t.graphs == s.graphs
            &&& t.capturing is None
            &&& forall|k: OpId| #[trigger] t.ops.contains_key(k) ==> k.0 < t.next.op
        }),
    decreases order.len() - i,
{
    lemma_submitted_bound(steps, order, order.len() as int);
    lemma_submitted_bound(steps, order, i);
    if i < order.len() {
        let idx = order[i];
        let step = steps[idx as int];
        let room = order.len() - i - 1;
        lemma_step(
            s,
            graph,
            origin,
            stream,
            step,
            idx,
            extra_wait,
            launch_tail,
            inner,
            fuel,
            w,
            room,
        );
        let (u, r) = s.enqueue_step(
            graph,
            origin,
            stream,
            step,
            idx,
            extra_wait,
            launch_tail,
            inner,
            fuel,
            w,
        );
        assert forall|j: int|
            0 <= j < i + 1 && !steps[order[j] as int].destroyed
                && steps[order[j] as int].enabled implies has_operation(
            u,
            z.next.op as int,
            steps[(#[trigger] order[j]) as int],
        ) by {
            if j < i {
                let x = steps[order[j] as int];
                let k = choose|k: OpId| #[trigger]
                    s.ops.contains_key(k) && k.0 >= z.next.op && s.ops[k].kind == x.kind
                        && s.ops[k].device == x.device && !(s.ops[k].launch is Kernel);
                assert(u.ops.contains_key(k));
            } else {
                assert(u.ops.contains_key(OpId(s.next.op)));
            }
        }
        lemma_nodes(
            z,
            u,
            graph,
            stream,
            extra_wait,
            fuel,
            inner,
            origin,
            steps,
            order,
            launch_tail,
            r->Ok_0,
            i + 1,
        );
    }
}

proof fn lemma_submitted_bound(steps: Seq<StepView>, order: Seq<usize>, n: int)
    requires
        0 <= n,
    ensures
        submitted_nodes(steps, order, n) <= n,
    decreases n,
{
    if n > 0 {
        lemma_submitted_bound(steps, order, n - 1);
    }
}

/// Whether a graph has no nested graphs and frees nothing by itself, and its nodes fit.
pub open spec fn is_flat(s: SimState, graph: GraphId) -> bool {
    &&& s.graphs.contains_key(graph)
    &&& s.graphs[graph].current().len() <= u32::MAX
    &&& s.graphs[graph].current().len() <= usize::MAX
    &&& !s.graphs[graph].auto_free_on_launch
    &&& forall|j: int|
        0 <= j < s.graphs[graph].current().len() ==> is_plain(
            (#[trigger] s.graphs[graph].current()[j]).kind,
        )
}

/// Whether each node that is enabled and not destroyed has an operation among those submitted since a
/// number.
pub open spec fn all_submitted(t: SimState, from: int, steps: Seq<StepView>) -> bool {
    forall|i: int|
        0 <= i < steps.len() && !steps[i].destroyed && steps[i].enabled ==> has_operation(
            t,
            from,
            #[trigger] steps[i],
        )
}

/// The launch of a graph without nested graphs submits each node that is enabled and not destroyed,
/// as the work that it is and on its GPU, and gives their number. It takes no time by itself.
pub proof fn launch_submits_each_node(
    s: SimState,
    graph: GraphId,
    stream: StreamId,
    head: bool,
    stack: Seq<GraphId>,
    wait: Seq<OpId>,
    fuel: usize,
)
    requires
        is_flat(s, graph),
        in_good_order(s, s.graphs[graph].current().len() as int),
        s.enqueue_graph(graph, stream, head, stack, wait, fuel).1 is Ok,
    ensures
        ({
            let (t, r) = s.enqueue_graph(graph, stream, head, stack, wait, fuel);
            let steps = s.graphs[graph].current();
            let order = launch_order(steps)->Ok_0;
            &&& r->Ok_0 == submitted_nodes(steps, order, order.len() as int)
            &&& t.next.op == s.next.op + r->Ok_0
            &&& kinds_stay(s.ops, t.ops)
            &&& all_submitted(t, s.next.op as int, steps)
            &&& t.clock == s.clock
            &&& t.graphs == s.graphs
            &&& t.capturing is None
            &&& forall|k: OpId| #[trigger] t.ops.contains_key(k) ==> k.0 < t.next.op
        }),
{
    let steps = s.graphs[graph].current();
    let order = launch_order(steps)->Ok_0;
    launch_order_respects_dependencies(steps, order);
    let origin = s.graphs[graph].origin;
    let inner = stack.push(graph);
    assert forall|j: int| 0 <= j < order.len() implies (#[trigger] order[j]) < steps.len() by {}
    lemma_nodes(
        s,
        s,
        graph,
        stream,
        wait,
        fuel,
        inner,
        origin,
        steps,
        order,
        s.tail_of(Lane(origin.0, stream)),
        WalkView::start(steps.len() as usize, head),
        0,
    );
    let t = s.enqueue_graph(graph, stream, head, stack, wait, fuel).0;
    assert forall|i: int|
        0 <= i < steps.len() && !steps[i].destroyed && steps[i].enabled implies has_operation(
        t,
        s.next.op as int,
        #[trigger] steps[i],
    ) by {
        assert(order.contains(i as usize));
        let j = choose|j: int| 0 <= j < order.len() && order[j] == i as usize;
        assert(steps[order[j] as int] == steps[i]);
    }
}

/// The graph that a child node or an if node launches.
pub open spec fn launched_by(k: GpuOpView) -> Option<GraphId> {
    match k {
        GpuOpView::ChildGraph { graph } => Some(graph),
        GpuOpView::If { body, .. } => Some(body),
        _ => None,
    }
}

/// The launch of a child node or an if node submits the nodes of its graph, each that is enabled and
/// not destroyed, and counts them.
pub proof fn nested_graph_is_launched(
    s: SimState,
    graph: GraphId,
    origin: Lane,
    stream: StreamId,
    step: StepView,
    idx: usize,
    extra_wait: Seq<OpId>,
    launch_tail: Option<OpId>,
    stack: Seq<GraphId>,
    fuel: usize,
    w: WalkView,
    body: GraphId,
)
    requires
        !step.destroyed,
        step.enabled,
        launched_by(step.kind) is Some,
        s.resolved_graph(launched_by(step.kind)->0) == Ok::<GraphId, SimError>(body),
        is_flat(s, body),
        in_good_order(s, s.graphs[body].current().len() as int),
        s.enqueue_step(
            graph,
            origin,
            stream,
            step,
            idx,
            extra_wait,
            launch_tail,
            stack,
            fuel,
            w,
        ).1 is Ok,
    ensures
        ({
            let (t, r) = s.enqueue_step(
                graph,
                origin,
                stream,
                step,
                idx,
                extra_wait,
                launch_tail,
                stack,
                fuel,
                w,
            );
            let steps = s.graphs[body].current();
            let order = launch_order(steps)->Ok_0;
            let count = submitted_nodes(steps, order, order.len() as int);
            &&& all_submitted(t, s.next.op as int, steps)
            &&& kinds_stay(s.ops, t.ops)
            &&& t.next.op == s.next.op + count
            &&& w.n + count <= u32::MAX ==> r->Ok_0.n == w.n + count
        }),
{
    let s1 = s.load_enq(graph, step.attrs);
    assert(s1 == SimState { enq: s1.enq, ..s }) by {
        reveal(SimState::load_enq);
    }
    let (s2, (on, worker)) = s1.graph_exec_stream(
        origin,
        stream,
        step.device,
        step.stream,
        step.deps,
        w,
    );
    assert(s2 == SimState { priority: s2.priority, sm_permille: s2.sm_permille, ..s1 }) by {
        reveal(SimState::graph_exec_stream);
        reveal(SimState::bind_graph_worker);
    }
    let v = w.with_stream(idx, on, worker);
    let wait = w.node_waits(step.deps, extra_wait, launch_tail)->Ok_0;
    assert(s2.resolved_graph(launched_by(step.kind)->0) == s.resolved_graph(
        launched_by(step.kind)->0,
    ));
    let less = fuel.saturating_sub(1);
    if let GpuOpView::If { handle, body: inside } = step.kind {
        let s3 = SimState {
            enqueue_preds: s2.enqueue_preds.push(CondPred::Nonzero(handle)),
            ..s2
        };
        launch_submits_each_node(s3, body, on, v.head, stack, wait, less);
        let s4 = s3.enqueue_graph(body, on, v.head, stack, wait, less).0;
        let t = s4.pop_pred();
        assert(t.ops == s4.ops && t.next == s4.next);
        assert(all_submitted(t, s.next.op as int, s.graphs[body].current())) by {
            lemma_submitted_in(s4, t, s.next.op as int, s.graphs[body].current());
        }
    } else {
        launch_submits_each_node(s2, body, on, v.head, stack, wait, less);
    }
}

/// A body is launched under its condition: its nodes are submitted, each that is enabled and not
/// destroyed.
pub proof fn body_is_launched(
    s: SimState,
    pred: CondPred,
    body: GraphId,
    stream: StreamId,
    head: bool,
    stack: Seq<GraphId>,
    wait: Seq<OpId>,
    fuel: usize,
)
    requires
        is_flat(s, body),
        in_good_order(s, s.graphs[body].current().len() as int),
        s.enqueue_pred_graph(pred, body, stream, head, stack, wait, fuel).1 is Ok,
    ensures
        ({
            let (t, r) = s.enqueue_pred_graph(pred, body, stream, head, stack, wait, fuel);
            &&& all_submitted(t, s.next.op as int, s.graphs[body].current())
            &&& r->Ok_0 <= s.graphs[body].current().len()
            &&& t.next.op == s.next.op + r->Ok_0
            &&& kinds_stay(s.ops, t.ops)
            &&& t.graphs == s.graphs
            &&& t.capturing is None
            &&& forall|k: OpId| #[trigger] t.ops.contains_key(k) ==> k.0 < t.next.op
        }),
{
    let s3 = SimState { enqueue_preds: s.enqueue_preds.push(pred), ..s };
    let steps = s.graphs[body].current();
    launch_submits_each_node(s3, body, stream, head, stack, wait, fuel);
    let order = launch_order(steps)->Ok_0;
    launch_order_respects_dependencies(steps, order);
    lemma_submitted_bound(steps, order, order.len() as int);
    let s4 = s3.enqueue_graph(body, stream, head, stack, wait, fuel).0;
    lemma_submitted_in(s4, s4.pop_pred(), s.next.op as int, steps);
}

proof fn lemma_submitted_still(
    s: SimState,
    t: SimState,
    from: int,
    since: int,
    steps: Seq<StepView>,
)
    requires
        all_submitted(s, since, steps),
        from <= since,
        kinds_stay(s.ops, t.ops),
    ensures
        all_submitted(t, from, steps),
{
    assert forall|i: int|
        0 <= i < steps.len() && !steps[i].destroyed && steps[i].enabled implies has_operation(
        t,
        from,
        #[trigger] steps[i],
    ) by {
        assert(has_operation(s, since, steps[i]));
        let k = choose|k: OpId| #[trigger]
            s.ops.contains_key(k) && k.0 >= since && s.ops[k].kind == steps[i].kind
                && s.ops[k].device == steps[i].device && !(s.ops[k].launch is Kernel);
        assert(t.ops.contains_key(k));
    }
}

/// Room that the bodies from `i` on take.
pub open spec fn room_for(s: SimState, bodies: Seq<GraphId>, i: int) -> int
    decreases bodies.len() - i,
{
    if 0 <= i < bodies.len() {
        s.graphs[s.resolved_graph(bodies[i])->Ok_0].current().len() + room_for(s, bodies, i + 1)
    } else {
        0
    }
}

proof fn lemma_same_room(s: SimState, t: SimState, bodies: Seq<GraphId>, i: int)
    requires
        t.graphs == s.graphs,
    ensures
        room_for(t, bodies, i) == room_for(s, bodies, i),
        room_for(s, bodies, i) >= 0,
    decreases bodies.len() - i,
{
    if 0 <= i < bodies.len() {
        lemma_same_room(s, t, bodies, i + 1);
    }
}

/// Each branch of a switch is launched: the nodes of its body are submitted.
pub proof fn branches_are_launched(
    s: SimState,
    handle: CondId,
    bodies: Seq<GraphId>,
    on: StreamId,
    stack: Seq<GraphId>,
    wait: Seq<OpId>,
    fuel: usize,
    w: WalkView,
    i: int,
    j: int,
)
    requires
        0 <= i <= j < bodies.len(),
        forall|k: int|
            0 <= k < bodies.len() ==> s.resolved_graph(#[trigger] bodies[k]) is Ok && is_flat(
                s,
                s.resolved_graph(bodies[k])->Ok_0,
            ),
        in_good_order(s, room_for(s, bodies, i)),
        s.enqueue_branches_from(handle, bodies, on, stack, wait, fuel, w, i).1 is Ok,
    ensures
        ({
            let t = s.enqueue_branches_from(handle, bodies, on, stack, wait, fuel, w, i).0;
            all_submitted(
                t,
                s.next.op as int,
                s.graphs[s.resolved_graph(bodies[j])->Ok_0].current(),
            )
        }),
    decreases bodies.len() - i,
{
    let body = s.resolved_graph(bodies[i])->Ok_0;
    let pred = CondPred::Equals(handle, (i as usize) as u32);
    lemma_same_room(s, s, bodies, i + 1);
    body_is_launched(s, pred, body, on, w.head, stack, wait, fuel);
    let (t, r) = s.enqueue_pred_graph(pred, body, on, w.head, stack, wait, fuel);
    let v = WalkView { head: false, ..w };
    let v = WalkView { n: v.n.saturating_add(r->Ok_0), ..v };
    lemma_same_room(s, t, bodies, i + 1);
    assert forall|k: int| 0 <= k < bodies.len() implies t.resolved_graph(#[trigger] bodies[k]) is Ok
        && is_flat(t, t.resolved_graph(bodies[k])->Ok_0) by {
        assert(t.resolved_graph(bodies[k]) == s.resolved_graph(bodies[k]));
    }
    let u = t.enqueue_branches_from(handle, bodies, on, stack, wait, fuel, v, i + 1).0;
    if i == j {
        lemma_branches_stay(t, handle, bodies, on, stack, wait, fuel, v, i + 1);
        lemma_submitted_still(
            t,
            u,
            s.next.op as int,
            s.next.op as int,
            s.graphs[body].current(),
        );
    } else {
        branches_are_launched(t, handle, bodies, on, stack, wait, fuel, v, i + 1, j);
        assert(t.resolved_graph(bodies[j]) == s.resolved_graph(bodies[j]));
        let steps = s.graphs[s.resolved_graph(bodies[j])->Ok_0].current();
        assert(kinds_stay(u.ops, u.ops));
        lemma_submitted_still(u, u, s.next.op as int, t.next.op as int, steps);
    }
}

proof fn lemma_branches_stay(
    s: SimState,
    handle: CondId,
    bodies: Seq<GraphId>,
    on: StreamId,
    stack: Seq<GraphId>,
    wait: Seq<OpId>,
    fuel: usize,
    w: WalkView,
    i: int,
)
    requires
        0 <= i <= bodies.len(),
        forall|k: int|
            0 <= k < bodies.len() ==> s.resolved_graph(#[trigger] bodies[k]) is Ok && is_flat(
                s,
                s.resolved_graph(bodies[k])->Ok_0,
            ),
        in_good_order(s, room_for(s, bodies, i)),
        s.enqueue_branches_from(handle, bodies, on, stack, wait, fuel, w, i).1 is Ok,
    ensures
        kinds_stay(
            s.ops,
            s.enqueue_branches_from(handle, bodies, on, stack, wait, fuel, w, i).0.ops,
        ),
    decreases bodies.len() - i,
{
    if i < bodies.len() {
        let body = s.resolved_graph(bodies[i])->Ok_0;
        let pred = CondPred::Equals(handle, (i as usize) as u32);
        lemma_same_room(s, s, bodies, i + 1);
        body_is_launched(s, pred, body, on, w.head, stack, wait, fuel);
        let (t, r) = s.enqueue_pred_graph(pred, body, on, w.head, stack, wait, fuel);
        let v = WalkView { head: false, ..w };
        let v = WalkView { n: v.n.saturating_add(r->Ok_0), ..v };
        lemma_same_room(s, t, bodies, i + 1);
        assert forall|k: int| 0 <= k < bodies.len() implies t.resolved_graph(
            #[trigger] bodies[k],
        ) is Ok
            && is_flat(t, t.resolved_graph(bodies[k])->Ok_0) by {
            assert(t.resolved_graph(bodies[k]) == s.resolved_graph(bodies[k]));
        }
        lemma_branches_stay(t, handle, bodies, on, stack, wait, fuel, v, i + 1);
        let u = t.enqueue_branches_from(handle, bodies, on, stack, wait, fuel, v, i + 1).0;
        assert forall|k: OpId| #[trigger] s.ops.contains_key(k) implies u.ops.contains_key(k)
            && u.ops[k].kind == s.ops[k].kind && u.ops[k].device == s.ops[k].device
            && u.ops[k].launch == s.ops[k].launch by {
            assert(t.ops.contains_key(k));
        }
    }
}

/// The end of a turn of a while node is submitted with its handle, its body and its number.
pub proof fn turn_is_submitted(
    s: SimState,
    device: DeviceId,
    on: StreamId,
    handle: CondId,
    body: GraphId,
    iter: u32,
    wait: Seq<OpId>,
)
    requires
        in_good_order(s, 1),
        s.submit_tick(device, on, handle, body, iter, wait).1 is Ok,
    ensures
        ({
            let (t, r) = s.submit_tick(device, on, handle, body, iter, wait);
            let id = r->Ok_0;
            &&& id == OpId(s.next.op)
            &&& t.ops.contains_key(id)
            &&& t.ops[id].kind == (GpuOpView::WhileTick { handle, body, iter })
            &&& t.ops[id].device == device
            &&& kinds_stay(s.ops, t.ops)
        }),
{
    reveal(SimState::submit_tick);
    let s1 = SimState { enqueue_preds: s.enqueue_preds.push(CondPred::Nonzero(handle)), ..s };
    let kind = GpuOpView::WhileTick { handle, body, iter };
    lemma_submitted(s1, device, on, kind, LaunchCost::GraphBody);
    let (s2, r) = s1.submit_launch(device, on, kind, LaunchCost::GraphBody);
    let id = r->Ok_0;
    let s3 = s2.pop_pred();
    assert(s3.ops == s2.ops);
    lemma_deps_stay(s3, id, wait, 0);
    let s4 = s3.add_op_deps(id, wait);
    assert(s3.ops.contains_key(id));
    assert(s4.ops.contains_key(id));
    if let Some(last) = s.tail_of(Lane(device, on)) {
        lemma_dep_stays(s4, id, last);
    }
    let t = s.submit_tick(device, on, handle, body, iter, wait).0;
    assert forall|k: OpId| #[trigger] s.ops.contains_key(k) implies t.ops.contains_key(k)
        && t.ops[k].kind == s.ops[k].kind && t.ops[k].device == s.ops[k].device && t.ops[k].launch
        == s.ops[k].launch by {
        assert(s3.ops.contains_key(k));
        assert(s4.ops.contains_key(k));
    }
}

/// The launch of a while node submits the nodes of its body and the end of its first turn, and that of
/// a switch node submits the nodes of every branch.
pub proof fn loops_and_branches_are_launched(
    s: SimState,
    graph: GraphId,
    origin: Lane,
    stream: StreamId,
    step: StepView,
    idx: usize,
    extra_wait: Seq<OpId>,
    launch_tail: Option<OpId>,
    stack: Seq<GraphId>,
    fuel: usize,
    w: WalkView,
    j: int,
)
    requires
        !step.destroyed,
        step.enabled,
        step.kind is While || step.kind is Switch,
        step.kind is While ==> s.resolved_graph(step.kind->While_body) is Ok && is_flat(
            s,
            s.resolved_graph(step.kind->While_body)->Ok_0,
        ) && in_good_order(
            s,
            s.graphs[s.resolved_graph(step.kind->While_body)->Ok_0].current().len() + 1int,
        ),
        step.kind is Switch ==> 0 <= j < step.kind->bodies.len() && in_good_order(
            s,
            room_for(s, step.kind->bodies, 0),
        ) && forall|k: int|
            0 <= k < step.kind->bodies.len() ==> s.resolved_graph(
                #[trigger] step.kind->bodies[k],
            ) is Ok && is_flat(s, s.resolved_graph(step.kind->bodies[k])->Ok_0),
        s.enqueue_step(
            graph,
            origin,
            stream,
            step,
            idx,
            extra_wait,
            launch_tail,
            stack,
            fuel,
            w,
        ).1 is Ok,
    ensures
        ({
            let t = s.enqueue_step(
                graph,
                origin,
                stream,
                step,
                idx,
                extra_wait,
                launch_tail,
                stack,
                fuel,
                w,
            ).0;
            &&& step.kind is While ==> {
                let body = s.resolved_graph(step.kind->While_body)->Ok_0;
                &&& all_submitted(t, s.next.op as int, s.graphs[body].current())
                &&& exists|k: OpId| #[trigger]
                    t.ops.contains_key(k) && t.ops[k].kind == (GpuOpView::WhileTick {
                        handle: step.kind->While_handle,
                        body,
                        iter: 1,
                    }) && k.0 >= s.next.op
            }
            &&& step.kind is Switch ==> all_submitted(
                t,
                s.next.op as int,
                s.graphs[s.resolved_graph(step.kind->bodies[j])->Ok_0].current(),
            )
        }),
{
    let s1 = s.load_enq(graph, step.attrs);
    assert(s1 == SimState { enq: s1.enq, ..s }) by {
        reveal(SimState::load_enq);
    }
    let (s2, (on, worker)) = s1.graph_exec_stream(
        origin,
        stream,
        step.device,
        step.stream,
        step.deps,
        w,
    );
    assert(s2 == SimState { priority: s2.priority, sm_permille: s2.sm_permille, ..s1 }) by {
        reveal(SimState::graph_exec_stream);
        reveal(SimState::bind_graph_worker);
    }
    let v = w.with_stream(idx, on, worker);
    let wait = w.node_waits(step.deps, extra_wait, launch_tail)->Ok_0;
    let less = fuel.saturating_sub(1);
    if let GpuOpView::While { handle, body: inside } = step.kind {
        let body = s.resolved_graph(inside)->Ok_0;
        assert(s2.resolved_graph(inside) == s.resolved_graph(inside));
        let pred = CondPred::Nonzero(handle);
        body_is_launched(s2, pred, body, on, v.head, stack, wait, less);
        let s3 = s2.enqueue_pred_graph(pred, body, on, v.head, stack, wait, less).0;
        turn_is_submitted(s3, step.device, on, handle, body, 1, wait);
        let (t, r) = s3.submit_tick(step.device, on, handle, body, 1, wait);
        lemma_submitted_still(
            s3,
            t,
            s.next.op as int,
            s.next.op as int,
            s.graphs[body].current(),
        );
        assert(t.ops.contains_key(r->Ok_0));
    } else {
        let bodies = step.kind->bodies;
        lemma_same_room(s, s2, bodies, 0);
        assert forall|k: int| 0 <= k < bodies.len() implies s2.resolved_graph(
            #[trigger] bodies[k],
        ) is Ok && is_flat(s2, s2.resolved_graph(bodies[k])->Ok_0) by {
            assert(s2.resolved_graph(bodies[k]) == s.resolved_graph(bodies[k]));
        }
        branches_are_launched(
            s2,
            step.kind->Switch_handle,
            bodies,
            on,
            stack,
            wait,
            less,
            v,
            0,
            j,
        );
        assert(s2.resolved_graph(bodies[j]) == s.resolved_graph(bodies[j]));
    }
}

proof fn lemma_submitted_in(s: SimState, t: SimState, from: int, steps: Seq<StepView>)
    requires
        all_submitted(s, from, steps),
        t.ops == s.ops,
    ensures
        all_submitted(t, from, steps),
{
    assert forall|i: int|
        0 <= i < steps.len() && !steps[i].destroyed && steps[i].enabled implies has_operation(
        t,
        from,
        #[trigger] steps[i],
    ) by {
        assert(has_operation(s, from, steps[i]));
        let k = choose|k: OpId| #[trigger]
            s.ops.contains_key(k) && k.0 >= from && s.ops[k].kind == steps[i].kind
                && s.ops[k].device == steps[i].device && !(s.ops[k].launch is Kernel);
        assert(t.ops.contains_key(k));
    }
}

proof fn lemma_reset(s: SimState, stack: Seq<GraphId>, seen: Seq<GraphId>, h: CondId)
    requires
        s.conds.contains_key(h),
    ensures
        ({
            let t = s.reset_tree(stack, seen);
            &&& t == (SimState { conds: t.conds, ..s })
            &&& t.conds.contains_key(h)
            &&& t.conds[h] == s.conds[h] || t.conds[h] == (Cond {
                value: s.conds[h].default,
                ..s.conds[h]
            })
            &&& s.conds[h].value == s.conds[h].default ==> t.conds[h] == s.conds[h]
        }),
    decreases 0x1_0000_0000 - seen.len(), stack.len(),
{
    if stack.len() > 0 {
        if seen.contains(stack.last()) || seen.len() >= 0x1_0000_0000 {
            lemma_reset(s, stack.drop_last(), seen, h);
        } else {
            let g = stack.last();
            let u = s.reset_conds_of(g);
            lemma_reset(u, stack.drop_last() + u.children(g), seen.push(g), h);
        }
    }
}

/// A launch gives each handle of the graph its default again, and leaves every other handle as it is
/// or gives it its default. Nothing else changes.
pub proof fn launch_resets_handles(s: SimState, graph: GraphId, h: CondId)
    requires
        s.conds.contains_key(h),
    ensures
        ({
            let t = s.reset_graph_tree_conds(graph);
            &&& t == (SimState { conds: t.conds, ..s })
            &&& t.conds.contains_key(h)
            &&& t.conds[h].default == s.conds[h].default
            &&& t.conds[h].graph == s.conds[h].graph
            &&& t.conds[h].value == s.conds[h].value || t.conds[h].value == s.conds[h].default
            &&& s.conds[h].graph == graph || (s.graphs.contains_key(graph) && s.graphs[graph].src
                == Some(s.conds[h].graph)) ==> t.conds[h].value == s.conds[h].default
        }),
{
    let stack = seq![graph];
    let none = Seq::<GraphId>::empty();
    assert(stack.last() == graph);
    assert(!none.contains(graph));
    let u = s.reset_conds_of(graph);
    lemma_reset(u, stack.drop_last() + u.children(graph), none.push(graph), h);
}

/// An upload is paid once: it takes the time that the GPU of the first node asks for, and one that is
/// uploaded takes none.
pub proof fn upload_takes_its_time(s: SimState, graph: GraphId, id: GraphId, g: GpuProfile)
    requires
        s.capturing is None,
        s.as_exec(graph) == Ok::<GraphId, SimError>(id),
        s.graphs.contains_key(id),
        s.profile.gpu(s.graphs[id].head_device(DeviceId(0))) == Ok::<GpuProfile, SimError>(g),
    ensures
        ({
            let (t, r) = s.upload_graph(graph);
            &&& r is Ok
            &&& s.graphs[id].uploaded ==> t == s
            &&& !s.graphs[id].uploaded ==> t.clock == held(
                s.clock + no_less(g.graph_upload_ns as int, 1),
            ) && t.graphs == s.graphs.insert(id, GraphView { uploaded: true, ..s.graphs[id] })
        }),
        s.upload_for_launch(id).1 is Ok || !s.graphs[id].instantiated,
{
}

/// An instantiation and an update take the time that the GPU of the first node asks for.
pub proof fn update_takes_its_time(s: SimState, graph: GraphId, src: GraphId, g: GpuProfile)
    requires
        s.update_graph(graph, src).1 is Ok,
        s.profile.gpu(s.graphs[s.as_exec(graph)->Ok_0].head_device(DeviceId(0))) == Ok::<
            GpuProfile,
            SimError,
        >(g),
    ensures
        s.update_graph(graph, src).0.clock == held(
            s.clock + no_less(g.graph_update_ns as int, 1),
        ),
{
    reveal(SimState::update_and_report);
    reveal(SimState::replace_steps);
}

/// A launch from the device is queued on the stream where the executable allows it, is uploaded and
/// has no such launch in flight, and is then in flight itself.
pub proof fn device_launch_is_queued(s: SimState, graph: GraphId, stream: StreamId)
    requires
        s.device_launch_graph(graph, stream).1 is Ok,
    ensures
        ({
            let (t, r) = s.device_launch_graph(graph, stream);
            let id = s.as_exec(graph)->Ok_0;
            let g = s.graphs[id];
            &&& s.capturing is None
            &&& g.instantiate_flags & GraphInstantiateFlags::DEVICE_LAUNCH != 0
            &&& g.uploaded
            &&& g.device_launch_tail matches Some(k) ==> s.op_done(k)
            &&& t.ops[r->Ok_0].kind == (GpuOpView::DeviceLaunch { graph: id })
            &&& t.ops[r->Ok_0].device == g.origin.0
            &&& t.ops[r->Ok_0].stream == stream
            &&& t.graphs[id].device_launch_tail == Some(r->Ok_0)
            &&& !t.op_done(r->Ok_0)
        }),
{
    let id = s.as_exec(graph)->Ok_0;
    let device = s.graphs[id].origin.0;
    submitted_is_queued(s, device, stream, GpuOpView::DeviceLaunch { graph: id });
    reveal(SimState::submit_live);
}

} // verus!
