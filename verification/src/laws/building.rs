//! Building graphs: what a new node is, and what setting its parameters changes.
use vstd::prelude::*;
use crate::error::SimError;
use crate::ids::{AllocId, CondId, DeviceId, EventId, GraphId, OpId, StreamId};
use crate::laws::costs::{held, no_less, put_in_flight};
use crate::laws::edges::{sorting_orders, strictly_ascending};
use crate::laws::order::sorting_keeps;
use crate::laws::recording::adding_keeps_distinct;
use crate::laws::submission::{queued, submitted_is_queued};
use crate::list::{lemma_ok_each, with_all_new};
use crate::ops::{
    BatchMemOp, GpuOpView, HostNodeParams, KernelParamsView, MemcpyOp, MemsetOp, NodeParamsView,
};
use crate::sim::SimState;
use crate::state::{Alloc, Cond, GraphView, StepView};

verus! {

/// A graph got one more node: enabled, on the stream of the graph, behind no other node, and with
/// what is in force as its attributes. No other graph changed, and nothing was submitted.
pub open spec fn got_node(s: SimState, t: SimState, graph: GraphId, kind: GpuOpView) -> bool {
    let g = s.graphs[graph];
    let n = t.graphs[graph].steps.last();
    &&& s.capturing is None
    &&& s.graphs.contains_key(graph)
    &&& !g.instantiated
    &&& t.graphs.contains_key(graph)
    &&& t.graphs[graph] == (GraphView { steps: g.steps.push(n), ..g })
    &&& n.kind == kind
    &&& n.device == g.origin.0
    &&& n.stream == g.origin.1
    &&& n.deps.len() == 0
    &&& n.enabled
    &&& !n.destroyed
    &&& n.attrs.pdl == s.enq.pdl
    &&& n.attrs.cluster == s.enq.cluster
    &&& n.attrs.access_policy == s.enq.access_policy
    &&& forall|k: GraphId|
        k != graph && #[trigger] s.graphs.contains_key(k) ==> t.graphs.contains_key(k)
            && t.graphs[k] == s.graphs[k]
    &&& t.ops == s.ops
    &&& t.clock == s.clock
}

/// A node that is pushed is the node that the graph gets.
pub proof fn node_is_got(s: SimState, graph: GraphId, kind: GpuOpView)
    ensures
        s.graph_origin_for_add(graph) is Ok && s.graph_push(
            graph,
            s.graph_origin_for_add(graph)->Ok_0,
            kind,
        ).1 is Ok ==> got_node(
            s,
            s.graph_push(graph, s.graph_origin_for_add(graph)->Ok_0, kind).0,
            graph,
            kind,
        ),
{
    reveal(SimState::graph_push);
    if s.graph_origin_for_add(graph) is Ok && s.graph_push(
        graph,
        s.graph_origin_for_add(graph)->Ok_0,
        kind,
    ).1 is Ok {
        let t = s.graph_push(graph, s.graph_origin_for_add(graph)->Ok_0, kind).0;
        assert(t.graphs[graph].steps == s.graphs[graph].steps.push(t.graphs[graph].steps.last()));
    }
}

/// Each call that adds a node adds the node that it names.
pub proof fn nodes_are_added_as_asked(
    s: SimState,
    graph: GraphId,
    params: KernelParamsView,
    copy: MemcpyOp,
    fill: MemsetOp,
    host: HostNodeParams,
    event: EventId,
    external: bool,
    id: AllocId,
    child: GraphId,
    ops: Seq<BatchMemOp>,
)
    ensures
        s.graph_add_kernel_params(graph, params).1 is Ok ==> got_node(
            s,
            s.graph_add_kernel_params(graph, params).0,
            graph,
            GpuOpView::Kernel {
                kind: params.kind,
                reads: s.resolve_bufs(params.reads)->Ok_0,
                writes: s.resolve_bufs(params.writes)->Ok_0,
                cooperative: params.cooperative,
            },
        ),
        s.graph_add_memcpy(graph, copy).1 is Ok ==> got_node(
            s,
            s.graph_add_memcpy(graph, copy).0,
            graph,
            GpuOpView::Memcpy(copy),
        ) && !(copy.src is Host) && !(copy.dst is Host),
        s.graph_add_memset_op(graph, fill).1 is Ok ==> got_node(
            s,
            s.graph_add_memset_op(graph, fill).0,
            graph,
            GpuOpView::Memset(s.resolve_memset_op(fill)->Ok_0),
        ),
        s.graph_add_host_func_params(graph, host).1 is Ok ==> got_node(
            s,
            s.graph_add_host_func_params(graph, host).0,
            graph,
            GpuOpView::HostFunc { fn_id: host.fn_id, user_data: host.user_data },
        ),
        s.graph_add_empty(graph).1 is Ok ==> got_node(
            s,
            s.graph_add_empty(graph).0,
            graph,
            GpuOpView::Empty,
        ),
        s.graph_add_free(graph, id).1 is Ok ==> got_node(
            s,
            s.graph_add_free(graph, id).0,
            graph,
            GpuOpView::Free { id },
        ),
        s.graph_add_child(graph, child).1 is Ok ==> got_node(
            s,
            s.graph_add_child(graph, child).0,
            graph,
            GpuOpView::ChildGraph { graph: child },
        ) && child != graph && s.graphs.contains_key(child) && s.graphs[child].origin.0
            == s.graphs[graph].origin.0,
        s.graph_add_batch_mem_op(graph, ops).1 is Ok ==> got_node(
            s,
            s.graph_add_batch_mem_op(graph, ops).0,
            graph,
            GpuOpView::BatchMem { ops },
        ),
{
    if s.graph_add_kernel_params(graph, params).1 is Ok {
        node_is_got(
            s,
            graph,
            GpuOpView::Kernel {
                kind: params.kind,
                reads: s.resolve_bufs(params.reads)->Ok_0,
                writes: s.resolve_bufs(params.writes)->Ok_0,
                cooperative: params.cooperative,
            },
        );
    }
    node_is_got(s, graph, GpuOpView::Memcpy(copy));
    node_is_got(s, graph, GpuOpView::Memset(s.resolve_memset_op(fill)->Ok_0));
    node_is_got(s, graph, GpuOpView::HostFunc { fn_id: host.fn_id, user_data: host.user_data });
    node_is_got(s, graph, GpuOpView::Empty);
    node_is_got(s, graph, GpuOpView::Free { id });
    node_is_got(s, graph, GpuOpView::ChildGraph { graph: child });
    node_is_got(s, graph, GpuOpView::BatchMem { ops });
}

/// Nodes that record or wait for an event make the event where it is not known, and are added as
/// asked.
pub proof fn event_nodes_are_added(s: SimState, graph: GraphId, event: EventId, external: bool)
    ensures
        ({
            let (t, r) = s.graph_add_event_record(graph, event, external);
            r is Ok ==> got_node(
                s,
                t,
                graph,
                GpuOpView::EventRecord { event, external },
            ) && t.events.contains_key(event)
        }),
        ({
            let (t, r) = s.graph_add_event_wait(graph, event, external);
            r is Ok ==> got_node(s, t, graph, GpuOpView::EventWait { event, external })
                && t.events.contains_key(event)
        }),
{
    let u = s.ensure_event(event);
    assert(u == SimState { events: u.events, ..s });
    node_is_got(u, graph, GpuOpView::EventRecord { event, external });
    node_is_got(u, graph, GpuOpView::EventWait { event, external });
    reveal(SimState::graph_push);
}

/// A memory node allocates from the memory of graphs, and the graph owns what it allocates.
pub proof fn memory_node_is_owned(s: SimState, graph: GraphId, bytes: u64)
    requires
        s.graph_add_alloc(graph, bytes).1 is Ok,
    ensures
        ({
            let (t, r) = s.graph_add_alloc(graph, bytes);
            let id = r->Ok_0;
            &&& bytes > 0
            &&& id == AllocId(s.next.alloc)
            &&& t.allocs[id].bytes == bytes
            &&& !t.allocs[id].live
            &&& t.allocs[id].pool == Some(s.graph_pools[s.graphs[graph].origin.0])
            &&& t.graphs[graph].steps.last().kind == (GpuOpView::Alloc { id, bytes })
            &&& t.graphs[graph].steps.len() == s.graphs[graph].steps.len() + 1
            &&& t.graph_mem_allocs(graph)->Ok_0.last() == id
            &&& t.graph_mem_allocs(graph)->Ok_0.len() == s.allocs_of(graph).len() + 1
            &&& t.gpus == s.gpus
        }),
{
    reveal(SimState::graph_push);
}

/// A handle starts with its default and belongs to its graph; if, while and switch nodes take a
/// handle of their own graph and get new empty bodies, one for each branch.
pub proof fn conditional_nodes_get_bodies(
    s: SimState,
    graph: GraphId,
    handle: CondId,
    default: u32,
)
    ensures
        ({
            let (t, r) = s.graph_conditional_create(graph, default);
            r is Ok ==> t.conds == s.conds.insert(
                CondId(s.next.cond),
                Cond { graph, default, value: default },
            ) && r->Ok_0 == CondId(s.next.cond) && s.graphs.contains_key(graph)
                && !s.graphs[graph].instantiated
        }),
        ({
            let (t, r) = s.graph_add_if(graph, handle);
            r is Ok && graph.0 != s.next.graph ==> s.conds.contains_key(handle)
                && s.conds[handle].graph == graph && t.graphs[graph].steps.last().kind == (
            GpuOpView::If { handle, body: r->Ok_0 }) && t.graphs[graph].steps.len()
                == s.graphs[graph].steps.len() + 1 && t.graphs[r->Ok_0].steps.len() == 0
                && !t.graphs[r->Ok_0].instantiated && t.graphs[r->Ok_0].origin
                == s.graphs[graph].origin
        }),
        ({
            let (t, r) = s.graph_add_while(graph, handle);
            r is Ok && graph.0 != s.next.graph ==> s.conds.contains_key(handle)
                && s.conds[handle].graph == graph && t.graphs[graph].steps.last().kind == (
            GpuOpView::While { handle, body: r->Ok_0 }) && t.graphs[graph].steps.len()
                == s.graphs[graph].steps.len() + 1 && t.graphs[r->Ok_0].steps.len() == 0
                && t.graphs[r->Ok_0].origin == s.graphs[graph].origin
        }),
{
    reveal(SimState::graph_push);
    reveal(SimState::insert_graph);
}

/// The value of a handle is set on a stream, when its turn comes, and no other handle changes.
pub proof fn handle_is_set(
    s: SimState,
    device: DeviceId,
    stream: StreamId,
    id: OpId,
    handle: CondId,
    value: u32,
)
    ensures
        ({
            let (t, r) = s.set_conditional(device, handle, value, stream);
            s.capturing is None && r is Ok ==> queued(
                s,
                t,
                r->Ok_0,
                device,
                stream,
                GpuOpView::SetConditional { handle, value },
            ) && t.conds == s.conds && s.conds.contains_key(handle)
        }),
        ({
            let (t, r) = s.start_set_conditional(id, handle, value);
            &&& r is Ok <==> s.conds.contains_key(handle)
            &&& r is Ok ==> t.conds == s.conds.insert(
                handle,
                Cond { value, ..s.conds[handle] },
            ) && put_in_flight(s, t, id, 1)
        }),
{
    let kind = GpuOpView::SetConditional { handle, value };
    if s.capturing is None && s.set_conditional(device, handle, value, stream).1 is Ok {
        submitted_is_queued(s, device, stream, kind);
        assert(s.submit(device, stream, kind).0.conds == s.conds) by {
            reveal(SimState::submit_live);
        }
    }
}

/// One node of a definition does other work, and a nanosecond passed. Nothing else changed.
pub open spec fn node_was_set(
    s: SimState,
    t: SimState,
    graph: GraphId,
    node: usize,
    kind: GpuOpView,
) -> bool {
    let g = s.graphs[graph];
    &&& s.capturing is None
    &&& s.graphs.contains_key(graph)
    &&& node < g.steps.len()
    &&& !g.steps[node as int].destroyed
    &&& t == (SimState {
        graphs: s.graphs.insert(
            graph,
            GraphView {
                steps: g.steps.update(
                    node as int,
                    StepView { kind, ..g.steps[node as int] },
                ),
                ..g
            },
        ),
        clock: s.clock.saturating_add(1),
        ..s
    })
}

/// One node of what an executable launches does other work, and the time of such a change passed. It
/// has to be uploaded again, unless the node may be changed from the device. Nothing else changed.
pub open spec fn launched_node_was_set(
    s: SimState,
    t: SimState,
    graph: GraphId,
    node: usize,
    kind: GpuOpView,
) -> bool {
    let id = s.as_exec(graph)->Ok_0;
    let g = s.graphs[id];
    let q = g.snapshot->0;
    let o = q[node as int];
    &&& s.capturing is None
    &&& s.as_exec(graph) is Ok
    &&& s.graphs.contains_key(id)
    &&& g.snapshot is Some
    &&& node < q.len()
    &&& !o.destroyed
    &&& t == (SimState {
        graphs: s.graphs.insert(
            id,
            GraphView {
                snapshot: Some(q.update(node as int, StepView { kind, ..o })),
                uploaded: t.graphs[id].uploaded,
                ..g
            },
        ),
        clock: t.clock,
        ..s
    })
    &&& t.graphs[id].uploaded ==> g.uploaded && o.attrs.device_updatable
    &&& s.profile.gpu(o.device) is Ok
    &&& t.clock == held(
        s.clock + no_less(s.profile.gpu(o.device)->Ok_0.graph_set_params_ns as int, 1),
    )
}

/// Parameters of a definition's node are set for this node alone, where it is of that kind.
pub proof fn definition_params_are_set(
    s: SimState,
    graph: GraphId,
    node: usize,
    copy: MemcpyOp,
    fill: MemsetOp,
    host: HostNodeParams,
    event: EventId,
    id: AllocId,
    child: GraphId,
)
    ensures
        s.graph_memcpy_set_params(graph, node, copy).1 is Ok ==> node_was_set(
            s,
            s.graph_memcpy_set_params(graph, node, copy).0,
            graph,
            node,
            GpuOpView::Memcpy(copy),
        ) && s.graphs[graph].steps[node as int].kind is Memcpy,
        s.graph_memset_set_params(graph, node, fill).1 is Ok ==> node_was_set(
            s,
            s.graph_memset_set_params(graph, node, fill).0,
            graph,
            node,
            GpuOpView::Memset(s.resolve_memset_op(fill)->Ok_0),
        ) && s.graphs[graph].steps[node as int].kind is Memset,
        s.graph_host_set_params(graph, node, host).1 is Ok ==> node_was_set(
            s,
            s.graph_host_set_params(graph, node, host).0,
            graph,
            node,
            GpuOpView::HostFunc { fn_id: host.fn_id, user_data: host.user_data },
        ) && s.graphs[graph].steps[node as int].kind is HostFunc,
        s.graph_free_set_params(graph, node, id).1 is Ok ==> node_was_set(
            s,
            s.graph_free_set_params(graph, node, id).0,
            graph,
            node,
            GpuOpView::Free { id },
        ) && s.graphs[graph].steps[node as int].kind is Free,
        s.graph_child_set_params(graph, node, child).1 is Ok ==> node_was_set(
            s,
            s.graph_child_set_params(graph, node, child).0,
            graph,
            node,
            GpuOpView::ChildGraph { graph: child },
        ) && s.graphs[graph].steps[node as int].kind is ChildGraph && child != graph,
        s.graph_event_record_set_event(graph, node, event).1 is Ok ==> (
        s.graphs[graph].steps[node as int].kind matches GpuOpView::EventRecord { external, .. }
            && node_was_set(
            s,
            s.graph_event_record_set_event(graph, node, event).0,
            graph,
            node,
            GpuOpView::EventRecord { event, external },
        )),
        s.graph_event_wait_set_event(graph, node, event).1 is Ok ==> (
        s.graphs[graph].steps[node as int].kind matches GpuOpView::EventWait { external, .. }
            && node_was_set(
            s,
            s.graph_event_wait_set_event(graph, node, event).0,
            graph,
            node,
            GpuOpView::EventWait { event, external },
        )),
{
}

/// Parameters of a node that an executable launches are set for this node alone, where it is of that
/// kind, and the definition keeps its own.
pub proof fn launched_params_are_set(
    s: SimState,
    graph: GraphId,
    node: usize,
    params: KernelParamsView,
    copy: MemcpyOp,
    fill: MemsetOp,
    host: HostNodeParams,
    event: EventId,
    id: AllocId,
)
    ensures
        s.graph_exec_kernel_set_params(graph, node, params).1 is Ok ==> launched_node_was_set(
            s,
            s.graph_exec_kernel_set_params(graph, node, params).0,
            graph,
            node,
            GpuOpView::Kernel {
                kind: params.kind,
                reads: s.resolve_bufs(params.reads)->Ok_0,
                writes: s.resolve_bufs(params.writes)->Ok_0,
                cooperative: params.cooperative,
            },
        ),
        s.graph_exec_memcpy_set_params(graph, node, copy).1 is Ok ==> launched_node_was_set(
            s,
            s.graph_exec_memcpy_set_params(graph, node, copy).0,
            graph,
            node,
            GpuOpView::Memcpy(copy),
        ),
        s.graph_exec_memset_set_params(graph, node, fill).1 is Ok ==> launched_node_was_set(
            s,
            s.graph_exec_memset_set_params(graph, node, fill).0,
            graph,
            node,
            GpuOpView::Memset(s.resolve_memset_op(fill)->Ok_0),
        ),
        s.graph_exec_host_set_params(graph, node, host).1 is Ok ==> launched_node_was_set(
            s,
            s.graph_exec_host_set_params(graph, node, host).0,
            graph,
            node,
            GpuOpView::HostFunc { fn_id: host.fn_id, user_data: host.user_data },
        ),
        s.graph_exec_free_set_params(graph, node, id).1 is Ok ==> launched_node_was_set(
            s,
            s.graph_exec_free_set_params(graph, node, id).0,
            graph,
            node,
            GpuOpView::Free { id },
        ),
        s.graph_exec_event_record_set_event(graph, node, event).1 is Ok ==> (
        s.graphs[s.as_exec(graph)->Ok_0].snapshot->0[node as int].kind matches
            GpuOpView::EventRecord { external, .. } && launched_node_was_set(
            s,
            s.graph_exec_event_record_set_event(graph, node, event).0,
            graph,
            node,
            GpuOpView::EventRecord { event, external },
        )),
        s.graph_exec_event_wait_set_event(graph, node, event).1 is Ok ==> (
        s.graphs[s.as_exec(graph)->Ok_0].snapshot->0[node as int].kind matches
            GpuOpView::EventWait { external, .. } && launched_node_was_set(
            s,
            s.graph_exec_event_wait_set_event(graph, node, event).0,
            graph,
            node,
            GpuOpView::EventWait { event, external },
        )),
{
}

/// A disabled node is skipped by launches and an enabled one is not; nothing else about the
/// executable changes, and it stays uploaded. A memory node cannot be disabled.
pub proof fn node_is_enabled_alone(s: SimState, graph: GraphId, node: usize, enabled: bool)
    requires
        s.graph_node_set_enabled(graph, node, enabled).1 is Ok,
    ensures
        ({
            let t = s.graph_node_set_enabled(graph, node, enabled).0;
            let id = s.as_exec(graph)->Ok_0;
            let q = s.graphs[id].snapshot->0;
            &&& t.graphs == s.graphs.insert(
                id,
                GraphView {
                    snapshot: Some(
                        q.update(node as int, StepView { enabled, ..q[node as int] }),
                    ),
                    ..s.graphs[id]
                },
            )
            &&& !(q[node as int].kind is Alloc) && !(q[node as int].kind is Free)
            &&& t.graph_node_get_enabled(graph, node) == Ok::<bool, SimError>(enabled)
        }),
{
}

/// A node that is added behind others waits for exactly those, each once and in ascending order.
pub proof fn node_is_added_behind(
    s: SimState,
    graph: GraphId,
    deps: Seq<usize>,
    params: NodeParamsView,
    y: usize,
)
    requires
        s.graph_add_node(graph, deps, params).1 is Ok,
        s.graph_add_node_kind(graph, params).0.graphs[graph].steps.len() <= usize::MAX,
        s.graph_add_node_kind(graph, params).0.graphs[graph].steps.len() > 0,
        s.graph_add_node_kind(graph, params).0.graphs[graph].steps.last().deps.len() == 0,
    ensures
        ({
            let (t, r) = s.graph_add_node(graph, deps, params);
            let steps = t.graphs[graph].steps;
            let node = r->Ok_0.node;
            &&& node == steps.len() - 1
            &&& steps[node as int].deps.contains(y) <==> deps.contains(y)
            &&& strictly_ascending(steps[node as int].deps)
            &&& !deps.contains(node)
        }),
{
    reveal(SimState::graph_bind_new_deps);
    let u = s.graph_add_node_kind(graph, params).0;
    let g = u.graphs[graph];
    let node = (g.steps.len() - 1) as usize;
    let none = g.steps[node as int].deps;
    assert(none =~= Seq::<usize>::empty());
    adding_keeps_distinct(none, deps);
    let all = with_all_new(none, deps);
    sorting_orders(all);
    sorting_keeps(all, y);
    assert(all.contains(y) <==> none.contains(y) || deps.contains(y));
    let f = |i: int| u.new_deps_ok_at(g, node, deps, i);
    lemma_ok_each(deps.len(), f);
    if deps.len() > 0 && deps.contains(node) {
        let i = choose|i: int| 0 <= i < deps.len() && deps[i] == node;
        assert(f(i) is Ok);
    }
}

} // verus!
