//! How graphs, streams and objects hold together from call to call.
use vstd::prelude::*;
use crate::ids::{AllocId, DeviceId, EventId, GraphId, Lane, OpId, StreamId, UserObjectId};
use crate::laws::shorthand::{held_wait_value, held_write_value};
use crate::list::{distinct_ascending, first_where, lemma_first_where};
use crate::ops::{
    BatchMemOp, CaptureDepOp, GpuOpView, GraphInstantiateFlags, HostNodeParams, KernelParamsView,
    LaunchCompletionEvent, MemcpyOp, MemsetOp, NodeParamsView, ProgrammaticEvent,
};
use crate::sim::SimState;
use crate::sim::launch::WalkView;
use crate::state::{GraphView, NodeAttrs, StepView};
use crate::table::{lemma_order_exists, order_of};

verus! {

/// Where the executable that a definition launches is destroyed, another executable of the definition
/// takes its place, if there is one.
pub proof fn destroyed_executable_is_replaced(s: SimState, graph: GraphId, def: GraphId)
    requires
        s.destroy_graph(graph).1 is Ok,
        s.graphs[graph].instantiated,
        s.graphs[graph].src == Some(def),
        s.graphs.dom().finite(),
        s.graphs.contains_key(def),
        def != graph,
    ensures
        ({
            let t = s.destroy_graph(graph).0;
            let next = t.graphs[def].primary_exec;
            &&& !t.graphs.contains_key(graph)
            &&& t.graphs.contains_key(def)
            &&& t.graphs[def] == (GraphView { primary_exec: next, ..s.graphs[def] })
            &&& s.graphs[def].primary_exec != Some(graph) ==> next == s.graphs[def].primary_exec
            &&& s.graphs[def].primary_exec == Some(graph) ==> {
                &&& next matches Some(x) ==> x != graph && s.graphs.contains_key(x)
                    && s.graphs[x].src == Some(def)
                &&& next is None ==> forall|x: GraphId|
                    x != graph && #[trigger] s.graphs.contains_key(x) ==> s.graphs[x].src != Some(
                        def,
                    )
            }
        }),
{
    let u = SimState { graphs: s.graphs.remove(graph), ..s };
    let q = order_of(u.graphs.dom());
    lemma_order_exists(u.graphs.dom());
    let f = |i: int| u.first_exec_of_at(def, i);
    lemma_first_where(q.len(), f);
    if u.first_exec_of(def) is None {
        assert forall|x: GraphId|
            x != graph && #[trigger] s.graphs.contains_key(x) implies s.graphs[x].src != Some(def) by {
            assert(u.graphs.dom().contains(x));
            assert(q.contains(x));
            let i = choose|i: int| 0 <= i < q.len() && q[i] == x;
            assert(!f(i));
        }
    } else {
        let i = first_where(q.len(), f)->0;
        assert(f(i));
        assert(q.contains(q[i]));
    }
    let v = u.next_primary(def, graph);
    lemma_objects_keep_graphs(v, graph, v.objects_of(graph), 0);
}

proof fn lemma_objects_keep_graphs(
    s: SimState,
    graph: GraphId,
    ids: Seq<(UserObjectId, u32)>,
    i: int,
)
    ensures
        s.release_user_objects_for_graph_from(graph, ids, i).graphs == s.graphs,
    decreases ids.len() - i,
{
    reveal(SimState::graph_release_user_object_inner);
    if 0 <= i < ids.len() {
        lemma_objects_keep_graphs(
            s.graph_release_user_object_inner(graph, ids[i].0, ids[i].1).0,
            graph,
            ids,
            i + 1,
        );
    }
}

/// References that a graph gives up are gone: it has fewer by that number, and no other holder has
/// others. With the last reference of all the object goes, and its destructor runs.
pub proof fn graph_gives_up_references(
    s: SimState,
    graph: GraphId,
    object: UserObjectId,
    count: u32,
    x: GraphId,
)
    requires
        s.graph_release_user_object(graph, object, count).1 is Ok,
    ensures
        ({
            let t = s.graph_release_user_object(graph, object, count).0;
            let o = s.user_objects[object];
            let left = o.graphs[graph] - count;
            &&& s.user_objects.contains_key(object)
            &&& count > 0 && o.graphs.contains_key(graph) && count <= o.graphs[graph]
            &&& t.user_objects.contains_key(object) ==> {
                let p = t.user_objects[object];
                &&& p.caller == o.caller
                &&& left > 0 ==> p.graphs.contains_key(graph) && p.graphs[graph] == left
                &&& left == 0 ==> !p.graphs.contains_key(graph)
                &&& x != graph ==> (p.graphs.contains_key(x) <==> o.graphs.contains_key(x))
                &&& x != graph && o.graphs.contains_key(x) ==> p.graphs[x] == o.graphs[x]
                &&& t.user_object_dtors == s.user_object_dtors
            }
            &&& !t.user_objects.contains_key(object) ==> left == 0 && o.caller == 0
                && t.user_object_dtors == s.user_object_dtors.push((object, o.destroy_fn))
        }),
{
    reveal(SimState::graph_release_user_object_inner);
    let o = s.user_objects[object];
    let left = o.graphs[graph] - count;
    assert(o.graphs.contains_key(graph)) by {
        if !o.graphs.contains_key(graph) {
            assert(s.held_by(graph, object) == 0);
        }
    }
    if left > 0 {
        assert(o.graphs.insert(graph, left as u32).dom().contains(graph));
    }
}

/// A launched node has its own priority where the executable uses the priorities of nodes, and
/// otherwise that of the stream.
pub proof fn nodes_bring_their_settings(s: SimState, graph: GraphId, a: NodeAttrs)
    requires
        s.graphs.contains_key(graph),
    ensures
        ({
            let e = s.load_enq(graph, a).enq;
            &&& e.priority == if s.graphs[graph].instantiate_flags
                & GraphInstantiateFlags::USE_NODE_PRIORITY != 0 {
                Some(a.priority)
            } else {
                None
            }
            &&& e.pdl == a.pdl
            &&& e.programmatic_event == a.programmatic_event
            &&& e.launch_completion == a.launch_completion
            &&& e.access_policy == a.access_policy
            &&& e.mem_sync_domain == Some(a.mem_sync_domain)
            &&& e.mem_sync_map == Some(a.mem_sync_map)
            &&& e.cluster == a.cluster
            &&& e.cluster_policy == a.cluster_policy
            &&& e.preferred_cluster == a.preferred_cluster
            &&& e.carveout == a.carveout
            &&& e.shared_mem == a.shared_mem
            &&& e.dynamic_shared == a.dynamic_shared
            &&& e.portable_cluster == a.portable_cluster
            &&& e.portable_shared == a.portable_shared
            &&& e.nvlink_util_centric == a.nvlink_util_centric
        }),
{
    reveal(SimState::load_enq);
}

/// A stream that runs a branch of a launched graph has the priority and the share of the stream of
/// the launch.
pub proof fn workers_are_like_the_launch(
    s: SimState,
    device: DeviceId,
    launch: StreamId,
    worker: StreamId,
)
    ensures
        ({
            let t = s.bind_graph_worker(device, launch, worker);
            let a = Lane(device, launch);
            let b = Lane(device, worker);
            &&& s.priority.contains_key(a) ==> t.priority.contains_key(b) && t.priority[b]
                == s.priority[a]
            &&& s.sm_permille.contains_key(a) ==> t.sm_permille.contains_key(b) && t.sm_permille[b]
                == s.sm_permille[a]
            &&& t == (SimState { priority: t.priority, sm_permille: t.sm_permille, ..s })
        }),
{
    reveal(SimState::bind_graph_worker);
}

/// What ran beside the stream of a launch is noted for that stream.
pub proof fn branches_are_joined(s: SimState, lane: Lane, joins: Seq<OpId>, x: OpId)
    ensures
        ({
            let t = s.add_joins(lane, joins);
            let before = if s.graph_joins.contains_key(lane) {
                s.graph_joins[lane]
            } else {
                Seq::empty()
            };
            &&& t.graph_joins.contains_key(lane)
            &&& t.graph_joins[lane].contains(x) <==> before.contains(x) || joins.contains(x)
        }),
{
    let before = if s.graph_joins.contains_key(lane) {
        s.graph_joins[lane]
    } else {
        Seq::empty()
    };
    let all = before + joins;
    if before.contains(x) {
        let i = choose|i: int| 0 <= i < before.len() && before[i] == x;
        assert(all[i] == x);
    }
    if joins.contains(x) {
        let i = choose|i: int| 0 <= i < joins.len() && joins[i] == x;
        assert(all[before.len() + i] == x);
    }
    if all.contains(x) {
        let i = choose|i: int| 0 <= i < all.len() && all[i] == x;
        if i < before.len() {
            assert(before[i] == x);
        } else {
            assert(joins[i - before.len()] == x);
        }
    }
}

/// A launched node that runs beside the stream of the launch is to be joined.
pub proof fn node_beside_the_stream_is_joined(
    s: SimState,
    step: StepView,
    on: StreamId,
    stream: StreamId,
    idx: usize,
    wait: Seq<OpId>,
    w: WalkView,
)
    requires
        s.enqueue_plain(step, on, stream, idx, wait, w).1 is Ok,
        s.capturing is None,
    ensures
        ({
            let v = s.enqueue_plain(step, on, stream, idx, wait, w).1->Ok_0;
            &&& on != stream ==> v.joins == w.joins.push(OpId(s.next.op))
            &&& on == stream ==> v.joins == w.joins
            &&& idx < w.node_ops.len() ==> v.node_ops[idx as int].contains(OpId(s.next.op))
        }),
{
    reveal(SimState::enqueue_plain);
    reveal(SimState::submit_live);
    if idx < w.node_ops.len() {
        let q = w.node_ops[idx as int] + seq![OpId(s.next.op)];
        assert(q[q.len() - 1] == OpId(s.next.op));
    }
}

/// The nodes that the next captured node on a stream depends on can be named, in place of the ones
/// named before or beside them.
pub proof fn named_dependencies_are_kept(
    s: SimState,
    device: DeviceId,
    stream: StreamId,
    deps: Seq<usize>,
    mode: CaptureDepOp,
    x: usize,
)
    requires
        s.stream_update_capture_dependencies(device, stream, deps, mode).1 is Ok,
    ensures
        ({
            let t = s.stream_update_capture_dependencies(device, stream, deps, mode).0;
            &&& s.capturing is Some
            &&& s.capturing->0.streams.contains(Lane(device, stream))
            &&& t.pending_of(device, stream).contains(x) <==> deps.contains(x) || (mode is Append
                && s.pending_of(device, stream).contains(x))
        }),
{
    let hi = s.capture_base().saturating_add((s.capture_buf.len() as usize));
    lemma_named(s, device, stream, deps, mode, hi, 0);
    let both = s.pending_of(device, stream) + deps;
    lemma_distinct_has(deps, x);
    lemma_distinct_has(both, x);
    lemma_joined_has(s.pending_of(device, stream), deps, x);
}

proof fn lemma_joined_has(a: Seq<usize>, b: Seq<usize>, x: usize)
    ensures
        (a + b).contains(x) <==> a.contains(x) || b.contains(x),
{
    let all = a + b;
    if a.contains(x) {
        let i = choose|i: int| 0 <= i < a.len() && a[i] == x;
        assert(all[i] == x);
    }
    if b.contains(x) {
        let i = choose|i: int| 0 <= i < b.len() && b[i] == x;
        assert(all[a.len() + i] == x);
    }
    if all.contains(x) {
        let i = choose|i: int| 0 <= i < all.len() && all[i] == x;
        if i < a.len() {
            assert(a[i] == x);
        } else {
            assert(b[i - a.len()] == x);
        }
    }
}

proof fn lemma_distinct_has(q: Seq<usize>, x: usize)
    ensures
        distinct_ascending(q).contains(x) <==> q.contains(x),
{
    vstd::seq_lib::seq_to_set_is_finite(q);
    lemma_order_exists(q.to_set());
    let r = distinct_ascending(q);
    if r.contains(x) {
        assert(q.to_set().contains(x));
    }
    if q.contains(x) {
        assert(q.to_set().contains(x));
    }
}

proof fn lemma_named(
    s: SimState,
    device: DeviceId,
    stream: StreamId,
    deps: Seq<usize>,
    mode: CaptureDepOp,
    hi: usize,
    i: int,
)
    requires
        0 <= i,
        s.capturing is Some,
        s.stream_update_capture_dependencies_from(device, stream, deps, mode, hi, i).1 is Ok,
    ensures
        s.stream_update_capture_dependencies_from(device, stream, deps, mode, hi, i).0.pending_of(
            device,
            stream,
        ) == s.pending_named(device, stream, deps, mode),
    decreases deps.len() - i,
{
    if i < deps.len() {
        lemma_named(s, device, stream, deps, mode, hi, i + 1);
    }
}

/// A stream joins a capture by waiting for an event that was recorded in it. An external wait joins
/// nothing, nor does other work.
pub proof fn capture_spreads_by_events(
    s: SimState,
    device: DeviceId,
    stream: StreamId,
    kind: GpuOpView,
)
    requires
        s.capturing is Some,
        s.capture_fork(device, stream, kind).1 is Ok,
    ensures
        ({
            let t = s.capture_fork(device, stream, kind).0;
            let c = s.capturing->0;
            let lane = Lane(device, stream);
            let joins = kind is EventWait && !kind->EventWait_external && c.events.contains(
                s.event_root(kind->EventWait_event),
            );
            &&& t.capturing is Some
            &&& t.capturing->0.streams.contains(lane) <==> c.streams.contains(lane) || joins
            &&& joins && !c.streams.contains(lane) ==> device == c.origin.0 && s.stream_idle(
                device,
                stream,
            )
            &&& !joins ==> t == s
        }),
{
    reveal(SimState::capture_fork);
}

/// Events that a kernel fires are recorded by it from its submission on.
pub proof fn launch_marks_its_events(
    s: SimState,
    pde: Option<ProgrammaticEvent>,
    lce: Option<LaunchCompletionEvent>,
    id: OpId,
)
    ensures
        ({
            let t = s.mark_launch_events(pde, lce, id);
            &&& pde matches Some(p) ==> (s.events.contains_key(s.event_root(p.event))
                ==> t.events[s.event_root(p.event)].recorded_by == Some(id))
            &&& pde is None ==> (lce matches Some(l) ==> (s.events.contains_key(
                s.event_root(l.event),
            ) ==> t.events[s.event_root(l.event)].recorded_by == Some(id)))
            &&& pde is None && lce is None ==> t == s
        }),
{
}

/// A kernel is queued only with a cluster and dynamic shared memory that its device takes.
pub proof fn queued_kernel_fits_the_device(
    s: SimState,
    device: DeviceId,
    stream: StreamId,
    kind: GpuOpView,
)
    requires
        s.capturing is None,
        kind is Kernel,
        s.submit(device, stream, kind).1 is Ok,
    ensures
        s.enq.cluster matches Some(c) ==> s.validate_cluster(
            device,
            c,
            s.enq.portable_cluster,
        ) is Ok,
        s.enq.preferred_cluster matches Some(p) ==> s.enq.cluster is Some && p.multiple_of(
            s.enq.cluster->0,
        ) && s.validate_cluster(device, p, s.enq.portable_cluster) is Ok,
        s.validate_dynamic_shared(device, s.enq.dynamic_shared, s.enq.portable_shared) is Ok,
{
    reveal(SimState::submit_live);
}

/// Parameters of any kind are set as those of their kind are, in a definition and in an executable.
/// Memory that a node allocates cannot be changed, and an empty node has no parameters.
pub proof fn params_are_set_by_kind(
    s: SimState,
    graph: GraphId,
    node: usize,
    k: KernelParamsView,
    c: MemcpyOp,
    m: MemsetOp,
    h: HostNodeParams,
    e: EventId,
    external: bool,
    g: GraphId,
    a: AllocId,
    ops: Seq<BatchMemOp>,
    bytes: u64,
)
    ensures
        s.graph_node_set_params(graph, node, NodeParamsView::Kernel(k))
            == s.graph_kernel_set_params(graph, node, k),
        s.graph_node_set_params(graph, node, NodeParamsView::Memcpy(c))
            == s.graph_memcpy_set_params(graph, node, c),
        s.graph_node_set_params(graph, node, NodeParamsView::Memset(m))
            == s.graph_memset_set_params(graph, node, m),
        s.graph_node_set_params(graph, node, NodeParamsView::Host(h)) == s.graph_host_set_params(
            graph,
            node,
            h,
        ),
        s.graph_node_set_params(graph, node, NodeParamsView::EventRecord { event: e, external })
            == s.graph_event_record_set_event(graph, node, e),
        s.graph_node_set_params(graph, node, NodeParamsView::EventWait { event: e, external })
            == s.graph_event_wait_set_event(graph, node, e),
        s.graph_node_set_params(graph, node, NodeParamsView::ChildGraph(g))
            == s.graph_child_set_params(graph, node, g),
        s.graph_node_set_params(graph, node, NodeParamsView::Free(a)) == s.graph_free_set_params(
            graph,
            node,
            a,
        ),
        s.graph_node_set_params(graph, node, NodeParamsView::BatchMemOp(ops))
            == s.graph_batch_mem_ops_set_params(graph, node, ops),
        s.graph_node_set_params(graph, node, NodeParamsView::Alloc { bytes }).1 is Err,
        s.graph_node_set_params(graph, node, NodeParamsView::Empty).1 is Err,
        s.graph_exec_node_set_params(graph, node, NodeParamsView::Kernel(k))
            == s.graph_exec_kernel_set_params(graph, node, k),
        s.graph_exec_node_set_params(graph, node, NodeParamsView::Memcpy(c))
            == s.graph_exec_memcpy_set_params(graph, node, c),
        s.graph_exec_node_set_params(graph, node, NodeParamsView::Memset(m))
            == s.graph_exec_memset_set_params(graph, node, m),
        s.graph_exec_node_set_params(graph, node, NodeParamsView::Host(h))
            == s.graph_exec_host_set_params(graph, node, h),
        s.graph_exec_node_set_params(
            graph,
            node,
            NodeParamsView::EventRecord { event: e, external },
        )
            == s.graph_exec_event_record_set_event(graph, node, e),
        s.graph_exec_node_set_params(graph, node, NodeParamsView::EventWait { event: e, external })
            == s.graph_exec_event_wait_set_event(graph, node, e),
        s.graph_exec_node_set_params(graph, node, NodeParamsView::ChildGraph(g))
            == s.graph_exec_child_set_params(graph, node, g),
        s.graph_exec_node_set_params(graph, node, NodeParamsView::Free(a))
            == s.graph_exec_free_set_params(graph, node, a),
        s.graph_exec_node_set_params(graph, node, NodeParamsView::BatchMemOp(ops))
            == s.graph_exec_batch_mem_ops_set_params(graph, node, ops),
        s.graph_exec_node_set_params(graph, node, NodeParamsView::Alloc { bytes }).1 is Err,
        s.graph_exec_node_set_params(graph, node, NodeParamsView::Empty).1 is Err,
{
}

/// The child of a launched node can be replaced by another graph of the same shape on the same GPU;
/// the node then launches the executable of that graph.
pub proof fn launched_child_is_replaced(s: SimState, graph: GraphId, node: usize, child: GraphId)
    requires
        s.graph_exec_child_set_params(graph, node, child).1 is Ok,
    ensures
        ({
            let t = s.graph_exec_child_set_params(graph, node, child).0;
            let id = s.as_exec(graph)->Ok_0;
            let o = s.graphs[id].current()[node as int];
            &&& child != graph && child != id
            &&& s.as_exec(child) is Ok
            &&& s.as_exec(child)->Ok_0 != id
            &&& o.kind is ChildGraph
            &&& s.graphs[child].origin.0 == o.device
            &&& s.graphs[o.kind->ChildGraph_graph].steps.len() == s.graphs[child].steps.len()
            &&& t.graphs[id].snapshot->0[node as int].kind == (GpuOpView::ChildGraph {
                graph: s.as_exec(child)->Ok_0,
            })
            &&& !t.graphs[id].uploaded
        }),
{
}

/// Memory operations of a node are replaced as a list. A node of one word operation takes one of the
/// same kind and width.
pub proof fn batch_params_are_set(
    s: SimState,
    graph: GraphId,
    node: usize,
    ops: Seq<BatchMemOp>,
    op: BatchMemOp,
)
    ensures
        s.graph_batch_mem_op_set_params(graph, node, op) == s.graph_batch_mem_ops_set_params(
            graph,
            node,
            seq![op],
        ),
        s.graph_exec_batch_mem_op_set_params(graph, node, op)
            == s.graph_exec_batch_mem_ops_set_params(graph, node, seq![op]),
        s.graph_batch_mem_ops_set_params(graph, node, ops).1 is Ok ==> {
            let t = s.graph_batch_mem_ops_set_params(graph, node, ops).0;
            let was = s.graphs[graph].steps[node as int].kind;
            let is = t.graphs[graph].steps[node as int].kind;
            &&& was is BatchMem ==> is == (GpuOpView::BatchMem { ops })
            &&& was is WriteValue ==> ops.len() == 1 && is is WriteValue && held_write_value(is)
                == Some(ops[0]) && is->WriteValue_bits32 == was->WriteValue_bits32
            &&& was is WaitValue ==> ops.len() == 1 && is is WaitValue && held_wait_value(is) == Some(
                ops[0],
            ) && is->WaitValue_bits32 == was->WaitValue_bits32
            &&& was is BatchMem || was is WriteValue || was is WaitValue
        },
        s.graph_exec_batch_mem_ops_set_params(graph, node, ops).1 is Ok ==> {
            let t = s.graph_exec_batch_mem_ops_set_params(graph, node, ops).0;
            let id = s.as_exec(graph)->Ok_0;
            let was = s.graphs[id].current()[node as int].kind;
            let is = t.graphs[id].current()[node as int].kind;
            &&& was is BatchMem ==> is == (GpuOpView::BatchMem { ops })
            &&& was is WriteValue ==> ops.len() == 1 && held_write_value(is) == Some(ops[0])
            &&& was is WaitValue ==> ops.len() == 1 && held_wait_value(is) == Some(ops[0])
        },
{
    reveal(SimState::set_exec_batch_mem_ops);
}

} // verus!
