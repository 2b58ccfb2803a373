//! Histories of the operations in `sim::edit`.
use vstd::prelude::*;
use crate::history::{follows, graph_follows, rest_follows};
use crate::history::access::tick_follows;
use crate::history::capture::insert_graph_follows;
use crate::history::charge::add_alloc_follows;
use crate::history::params::put_def_step_follows;
use crate::history::shape::{
    edges_fit, known_is_sound, last_is_loose, new_deps_fit, planned, push_fits, removals_fit,
};
use crate::history::submit::submit_follows;
use crate::ids::{AllocId, CondId, DeviceId, EventId, GraphId, Lane, PoolId, StreamId};
use crate::kinds::batch_node;
use crate::list::{ascending, with_all_new, without};
use crate::ops::{
    BatchMemOp, GpuOpView, HostNodeParams, KernelBuf, KernelKind, KernelParamsView, MemcpyOp,
    MemsetOp, NodeParamsView, Place, WaitValueCmp,
};
use crate::sim::SimState;
use crate::spans::memcpy_2d_check;
use crate::state::{AllocView, Cond, GraphView, NextIds, StepView};

verus! {

/// [`Sim::graph_push`] continues the history.
pub proof fn graph_push_follows(
    z: SimState,
    s0: SimState,
    graph: GraphId,
    on: Lane,
    kind: GpuOpView,
)
    requires
        follows(z, s0),
    ensures
        follows(z, s0.graph_push(graph, on, kind).0),
        s0.graph_push(graph, on, kind).1 is Ok && planned(z, s0.graph_push(graph, on, kind).0) && s0.graph_push(graph, on, kind).0.graphs.contains_key(graph) && s0.graph_push(graph, on, kind).0.graphs[graph].steps.len() <= usize::MAX ==> last_is_loose(
            s0.graph_push(graph, on, kind).0.graphs[graph].steps,
        ),
{
    reveal(SimState::graph_push);
    let s = s0;
    let priority = s.snap_priority(on.0, on.1);
    match s.snap_mem_sync(on.0, on.1, kind) {
        Err(e) => {},
        Ok((domain, map)) => {
            let attrs = s.node_attrs(priority, domain, map);
            let step = StepView {
                device: on.0,
                stream: on.1,
                kind,
                deps: Seq::empty(),
                enabled: true,
                destroyed: false,
                attrs,
            };
            match s.graph_ref(graph) {
                Err(e) => {},
                Ok(g) => {
                    let g = GraphView { steps: g.steps.push(step), ..g };
                    push_fits(z, s, graph, step);
                    known_is_sound(z, s, graph);
                    graph_follows(z, s, graph, g);
                },
            }
        },
    }
}

/// [`Sim::graph_add_node`] continues the history.
pub proof fn graph_add_node_follows(
    z: SimState,
    s0: SimState,
    graph: GraphId,
    deps: Seq<usize>,
    params: NodeParamsView,
)
    requires
        follows(z, s0),
    ensures
        follows(z, s0.graph_add_node(graph, deps, params).0),
{
    let s = s0;
    match s.deps_in_range(graph, deps) {
        Err(e) => {},
        Ok(_v) => {
            graph_add_node_kind_follows(z, s, graph, params);
            match s.graph_add_node_kind(graph, params) {
                (s, Err(e)) => {},
                (s, Ok(alloc)) => match s.graph_len(graph) {
                    Err(e) => {},
                    Ok(len) => {
                        let node = len.saturating_sub(1);
                        graph_bind_new_deps_follows(z, s, graph, node, deps);
                    },
                },
            }
        },
    }
}

/// [`Sim::graph_add_node_kind`] continues the history.
pub proof fn graph_add_node_kind_follows(
    z: SimState,
    s0: SimState,
    graph: GraphId,
    params: NodeParamsView,
)
    requires
        follows(z, s0),
    ensures
        follows(z, s0.graph_add_node_kind(graph, params).0),
        s0.graph_add_node_kind(graph, params).1 is Ok && planned(z, s0.graph_add_node_kind(graph, params).0) && s0.graph_add_node_kind(graph, params).0.graphs.contains_key(graph) && s0.graph_add_node_kind(graph, params).0.graphs[graph].steps.len() <= usize::MAX ==> last_is_loose(
            s0.graph_add_node_kind(graph, params).0.graphs[graph].steps,
        ),
{
    reveal(SimState::graph_add_node_kind);
    let s = s0;
    match params {
        NodeParamsView::Kernel(p) => {
            graph_add_kernel_params_follows(z, s, graph, p);
        },
        NodeParamsView::Memcpy(op) => {
            graph_add_memcpy_follows(z, s, graph, op);
        },
        NodeParamsView::Memset(op) => {
            graph_add_memset_op_follows(z, s, graph, op);
        },
        NodeParamsView::Host(p) => {
            graph_add_host_func_params_follows(z, s, graph, p);
        },
        NodeParamsView::Empty => {
            graph_add_empty_follows(z, s, graph);
        },
        NodeParamsView::EventRecord { event, external } => {
            graph_add_event_record_follows(z, s, graph, event, external);
        },
        NodeParamsView::EventWait { event, external } => {
            graph_add_event_wait_follows(z, s, graph, event, external);
        },
        NodeParamsView::ChildGraph(child) => {
            graph_add_child_follows(z, s, graph, child);
        },
        NodeParamsView::Alloc { bytes } => {
            graph_add_alloc_follows(z, s, graph, bytes);
        },
        NodeParamsView::Free(id) => {
            graph_add_free_follows(z, s, graph, id);
        },
        NodeParamsView::BatchMemOp(ops) => {
            graph_add_batch_mem_op_follows(z, s, graph, ops);
        },
    }
}

/// [`Sim::graph_bind_new_deps`] continues the history.
pub proof fn graph_bind_new_deps_follows(
    z: SimState,
    s0: SimState,
    graph: GraphId,
    node: usize,
    deps: Seq<usize>,
)
    requires
        follows(z, s0),
        planned(z, s0) && s0.graphs.contains_key(graph) && node < s0.graphs[graph].steps.len() <= usize::MAX ==> node + 1 == s0.graphs[graph].steps.len() && last_is_loose(
            s0.graphs[graph].steps,
        ),
    ensures
        follows(z, s0.graph_bind_new_deps(graph, node, deps).0),
{
    reveal(SimState::graph_bind_new_deps);
    let s = s0;
    if !(deps.len() == 0) {
        match s.graph_ref(graph) {
            Err(e) => {},
            Ok(g) => match s.new_deps_ok(g, node, deps) {
                Err(e) => {},
                Ok(_v) => match g.def_node(node) {
                    Err(e) => {},
                    Ok(v1) => {
                        let step = v1;
                        let more = deps;
                        let all = step.deps;
                        let all = with_all_new(all, more);
                        let all = ascending(all);
                        let step = StepView { deps: all, ..step };
                        new_deps_fit(z, s, graph, node, deps);
                        put_def_step_follows(z, s, graph, node, step);
                    },
                },
            },
        }
    }
}

/// [`Sim::graph_add_kernel_params`] continues the history.
pub proof fn graph_add_kernel_params_follows(
    z: SimState,
    s0: SimState,
    graph: GraphId,
    params: KernelParamsView,
)
    requires
        follows(z, s0),
    ensures
        follows(z, s0.graph_add_kernel_params(graph, params).0),
        s0.graph_add_kernel_params(graph, params).1 is Ok && planned(z, s0.graph_add_kernel_params(graph, params).0) && s0.graph_add_kernel_params(graph, params).0.graphs.contains_key(graph) && s0.graph_add_kernel_params(graph, params).0.graphs[graph].steps.len() <= usize::MAX ==> last_is_loose(
            s0.graph_add_kernel_params(graph, params).0.graphs[graph].steps,
        ),
{
    let s = s0;
    match s.graph_origin_for_add(graph) {
        Err(e) => {},
        Ok(on) => if params.cooperative {
            match s.require_cooperative(on.0) {
                Err(e) => {},
                Ok(_v) => match s.kernel_node(params) {
                    Err(e) => {},
                    Ok(kind) => {
                        graph_push_follows(z, s, graph, on, kind);
                    },
                },
            }
        } else {
            match s.kernel_node(params) {
                Err(e) => {},
                Ok(kind) => {
                    graph_push_follows(z, s, graph, on, kind);
                },
            }
        },
    }
}

/// [`Sim::graph_add_kernel`] continues the history.
pub proof fn graph_add_kernel_follows(
    z: SimState,
    s0: SimState,
    graph: GraphId,
    kind: KernelKind,
    reads: Seq<AllocId>,
    writes: Seq<AllocId>,
)
    requires
        follows(z, s0),
    ensures
        follows(z, s0.graph_add_kernel(graph, kind, reads, writes).0),
{
    let s = s0;
    graph_add_kernel_node_follows(z, s, graph, kind, reads, writes, false);
}

/// [`Sim::graph_add_cooperative_kernel`] continues the history.
pub proof fn graph_add_cooperative_kernel_follows(
    z: SimState,
    s0: SimState,
    graph: GraphId,
    kind: KernelKind,
    reads: Seq<AllocId>,
    writes: Seq<AllocId>,
)
    requires
        follows(z, s0),
    ensures
        follows(z, s0.graph_add_cooperative_kernel(graph, kind, reads, writes).0),
{
    let s = s0;
    graph_add_kernel_node_follows(z, s, graph, kind, reads, writes, true);
}

/// [`Sim::graph_add_kernel_node`] continues the history.
pub proof fn graph_add_kernel_node_follows(
    z: SimState,
    s0: SimState,
    graph: GraphId,
    kind: KernelKind,
    reads: Seq<AllocId>,
    writes: Seq<AllocId>,
    cooperative: bool,
)
    requires
        follows(z, s0),
    ensures
        follows(z, s0.graph_add_kernel_node(graph, kind, reads, writes, cooperative).0),
{
    let s = s0;
    let params = KernelParamsView {
        kind,
        reads: s.whole_bufs(reads),
        writes: s.whole_bufs(writes),
        cooperative,
    };
    graph_add_kernel_params_follows(z, s, graph, params);
}

/// [`Sim::graph_add_memcpy`] continues the history.
pub proof fn graph_add_memcpy_follows(z: SimState, s0: SimState, graph: GraphId, op: MemcpyOp)
    requires
        follows(z, s0),
    ensures
        follows(z, s0.graph_add_memcpy(graph, op).0),
        s0.graph_add_memcpy(graph, op).1 is Ok && planned(z, s0.graph_add_memcpy(graph, op).0) && s0.graph_add_memcpy(graph, op).0.graphs.contains_key(graph) && s0.graph_add_memcpy(graph, op).0.graphs[graph].steps.len() <= usize::MAX ==> last_is_loose(
            s0.graph_add_memcpy(graph, op).0.graphs[graph].steps,
        ),
{
    let s = s0;
    match s.graph_origin_for_add(graph) {
        Err(e) => {},
        Ok(on) => match s.alloc_ref(op.alloc) {
            Err(e) => {},
            Ok(_a) => {
                if !(op.src.is_pageable() || op.dst.is_pageable()) {
                    match memcpy_2d_check(op) {
                        Err(e) => {},
                        Ok(_v) => {
                            graph_push_follows(z, s, graph, on, GpuOpView::Memcpy(op));
                        },
                    }
                }
            },
        },
    }
}

/// [`Sim::graph_add_memset_op`] continues the history.
pub proof fn graph_add_memset_op_follows(z: SimState, s0: SimState, graph: GraphId, op: MemsetOp)
    requires
        follows(z, s0),
    ensures
        follows(z, s0.graph_add_memset_op(graph, op).0),
        s0.graph_add_memset_op(graph, op).1 is Ok && planned(z, s0.graph_add_memset_op(graph, op).0) && s0.graph_add_memset_op(graph, op).0.graphs.contains_key(graph) && s0.graph_add_memset_op(graph, op).0.graphs[graph].steps.len() <= usize::MAX ==> last_is_loose(
            s0.graph_add_memset_op(graph, op).0.graphs[graph].steps,
        ),
{
    let s = s0;
    match s.graph_origin_for_add(graph) {
        Err(e) => {},
        Ok(on) => match s.resolve_memset_op(op) {
            Err(e) => {},
            Ok(full) => {
                graph_push_follows(z, s, graph, on, GpuOpView::Memset(full));
            },
        },
    }
}

/// [`Sim::graph_add_host_func_params`] continues the history.
pub proof fn graph_add_host_func_params_follows(
    z: SimState,
    s0: SimState,
    graph: GraphId,
    params: HostNodeParams,
)
    requires
        follows(z, s0),
    ensures
        follows(z, s0.graph_add_host_func_params(graph, params).0),
        s0.graph_add_host_func_params(graph, params).1 is Ok && planned(z, s0.graph_add_host_func_params(graph, params).0) && s0.graph_add_host_func_params(graph, params).0.graphs.contains_key(graph) && s0.graph_add_host_func_params(graph, params).0.graphs[graph].steps.len() <= usize::MAX ==> last_is_loose(
            s0.graph_add_host_func_params(graph, params).0.graphs[graph].steps,
        ),
{
    let s = s0;
    match s.graph_origin_for_add(graph) {
        Err(e) => {},
        Ok(on) => {
            graph_push_follows(
                z,
                s,
                graph,
                on,
                GpuOpView::HostFunc { fn_id: params.fn_id, user_data: params.user_data },
            );
        },
    }
}

/// [`Sim::graph_add_empty`] continues the history.
pub proof fn graph_add_empty_follows(z: SimState, s0: SimState, graph: GraphId)
    requires
        follows(z, s0),
    ensures
        follows(z, s0.graph_add_empty(graph).0),
        s0.graph_add_empty(graph).1 is Ok && planned(z, s0.graph_add_empty(graph).0) && s0.graph_add_empty(graph).0.graphs.contains_key(graph) && s0.graph_add_empty(graph).0.graphs[graph].steps.len() <= usize::MAX ==> last_is_loose(
            s0.graph_add_empty(graph).0.graphs[graph].steps,
        ),
{
    let s = s0;
    match s.graph_origin_for_add(graph) {
        Err(e) => {},
        Ok(on) => {
            graph_push_follows(z, s, graph, on, GpuOpView::Empty);
        },
    }
}

/// [`Sim::graph_add_event_record`] continues the history.
pub proof fn graph_add_event_record_follows(
    z: SimState,
    s0: SimState,
    graph: GraphId,
    event: EventId,
    external: bool,
)
    requires
        follows(z, s0),
    ensures
        follows(z, s0.graph_add_event_record(graph, event, external).0),
        s0.graph_add_event_record(graph, event, external).1 is Ok && planned(z, s0.graph_add_event_record(graph, event, external).0) && s0.graph_add_event_record(graph, event, external).0.graphs.contains_key(graph) && s0.graph_add_event_record(graph, event, external).0.graphs[graph].steps.len() <= usize::MAX ==> last_is_loose(
            s0.graph_add_event_record(graph, event, external).0.graphs[graph].steps,
        ),
{
    let s = s0;
    match s.graph_origin_for_add(graph) {
        Err(e) => {},
        Ok(on) => {
            if !(!s.events.contains_key(event)) {
                graph_push_follows(z, s, graph, on, GpuOpView::EventRecord { event, external });
            }
        },
    }
}

/// [`Sim::graph_add_event_wait`] continues the history.
pub proof fn graph_add_event_wait_follows(
    z: SimState,
    s0: SimState,
    graph: GraphId,
    event: EventId,
    external: bool,
)
    requires
        follows(z, s0),
    ensures
        follows(z, s0.graph_add_event_wait(graph, event, external).0),
        s0.graph_add_event_wait(graph, event, external).1 is Ok && planned(z, s0.graph_add_event_wait(graph, event, external).0) && s0.graph_add_event_wait(graph, event, external).0.graphs.contains_key(graph) && s0.graph_add_event_wait(graph, event, external).0.graphs[graph].steps.len() <= usize::MAX ==> last_is_loose(
            s0.graph_add_event_wait(graph, event, external).0.graphs[graph].steps,
        ),
{
    let s = s0;
    match s.graph_origin_for_add(graph) {
        Err(e) => {},
        Ok(on) => {
            if !(!s.events.contains_key(event)) {
                graph_push_follows(z, s, graph, on, GpuOpView::EventWait { event, external });
            }
        },
    }
}

/// [`Sim::graph_add_free`] continues the history.
pub proof fn graph_add_free_follows(z: SimState, s0: SimState, graph: GraphId, id: AllocId)
    requires
        follows(z, s0),
    ensures
        follows(z, s0.graph_add_free(graph, id).0),
        s0.graph_add_free(graph, id).1 is Ok && planned(z, s0.graph_add_free(graph, id).0) && s0.graph_add_free(graph, id).0.graphs.contains_key(graph) && s0.graph_add_free(graph, id).0.graphs[graph].steps.len() <= usize::MAX ==> last_is_loose(
            s0.graph_add_free(graph, id).0.graphs[graph].steps,
        ),
{
    let s = s0;
    match s.graph_origin_for_add(graph) {
        Err(e) => {},
        Ok(on) => match s.alloc_ref(id) {
            Err(e) => {},
            Ok(_a) => {
                graph_push_follows(z, s, graph, on, GpuOpView::Free { id });
            },
        },
    }
}

/// [`Sim::graph_add_child`] continues the history.
pub proof fn graph_add_child_follows(z: SimState, s0: SimState, graph: GraphId, child: GraphId)
    requires
        follows(z, s0),
    ensures
        follows(z, s0.graph_add_child(graph, child).0),
        s0.graph_add_child(graph, child).1 is Ok && planned(z, s0.graph_add_child(graph, child).0) && s0.graph_add_child(graph, child).0.graphs.contains_key(graph) && s0.graph_add_child(graph, child).0.graphs[graph].steps.len() <= usize::MAX ==> last_is_loose(
            s0.graph_add_child(graph, child).0.graphs[graph].steps,
        ),
{
    let s = s0;
    match s.graph_origin_for_add(graph) {
        Err(e) => {},
        Ok(on) => {
            if !(child == graph) {
                match s.child_usable(child, on.0) {
                    Err(e) => {},
                    Ok(_v) => {
                        graph_push_follows(z, s, graph, on, GpuOpView::ChildGraph { graph: child });
                    },
                }
            }
        },
    }
}

/// [`Sim::graph_add_memcpy_1d`] continues the history.
pub proof fn graph_add_memcpy_1d_follows(
    z: SimState,
    s0: SimState,
    graph: GraphId,
    src: Place,
    dst: Place,
    alloc: AllocId,
    bytes: u64,
)
    requires
        follows(z, s0),
    ensures
        follows(z, s0.graph_add_memcpy_1d(graph, src, dst, alloc, bytes).0),
{
    let s = s0;
    graph_add_memcpy_follows(z, s, graph, MemcpyOp::packed_1d(src, dst, alloc, bytes));
}

/// [`Sim::graph_add_memset`] continues the history.
pub proof fn graph_add_memset_follows(z: SimState, s0: SimState, graph: GraphId, buf: KernelBuf)
    requires
        follows(z, s0),
    ensures
        follows(z, s0.graph_add_memset(graph, buf).0),
{
    let s = s0;
    graph_add_memset_op_follows(z, s, graph, MemsetOp::from_buf(buf));
}

/// [`Sim::graph_add_host_func`] continues the history.
pub proof fn graph_add_host_func_follows(z: SimState, s0: SimState, graph: GraphId)
    requires
        follows(z, s0),
    ensures
        follows(z, s0.graph_add_host_func(graph).0),
{
    let s = s0;
    graph_add_host_func_params_follows(z, s, graph, HostNodeParams { fn_id: 0, user_data: 0 });
}

/// [`Sim::graph_add_alloc`] continues the history.
pub proof fn graph_add_alloc_follows(z: SimState, s0: SimState, graph: GraphId, bytes: u64)
    requires
        follows(z, s0),
    ensures
        follows(z, s0.graph_add_alloc(graph, bytes).0),
        s0.graph_add_alloc(graph, bytes).1 is Ok && planned(z, s0.graph_add_alloc(graph, bytes).0) && s0.graph_add_alloc(graph, bytes).0.graphs.contains_key(graph) && s0.graph_add_alloc(graph, bytes).0.graphs[graph].steps.len() <= usize::MAX ==> last_is_loose(
            s0.graph_add_alloc(graph, bytes).0.graphs[graph].steps,
        ),
{
    let s = s0;
    match s.graph_origin_for_add(graph) {
        Err(e) => {},
        Ok(on) => {
            if !(bytes == 0) {
                match s.graph_pool(on.0) {
                    Err(e) => {},
                    Ok(pool) => {
                        insert_pool_alloc_follows(z, s, pool, bytes);
                        let (s, id) = s.insert_pool_alloc(pool, bytes);
                        graph_push_follows(z, s, graph, on, GpuOpView::Alloc { id, bytes });
                        match s.graph_push(graph, on, GpuOpView::Alloc { id, bytes }) {
                            (s, Err(e)) => {},
                            (s, Ok(_v)) => {
                                let owned = s.allocs_of(graph);
                                let owned = owned.push(id);
                                rest_follows(
                                    z,
                                    s,
                                    SimState {
                                        graph_allocs: s.graph_allocs.insert(graph, owned),
                                        ..s
                                    },
                                );
                            },
                        }
                    },
                }
            }
        },
    }
}

/// [`Sim::insert_pool_alloc`] continues the history.
pub proof fn insert_pool_alloc_follows(z: SimState, s0: SimState, pool: PoolId, bytes: u64)
    requires
        follows(z, s0),
    ensures
        follows(z, s0.insert_pool_alloc(pool, bytes).0),
{
    let s = s0;
    let a = AllocView::blank(bytes);
    let a = AllocView { pool: Some(pool), ..a };
    add_alloc_follows(z, s, a);
}

/// [`Sim::graph_conditional_create`] continues the history.
pub proof fn graph_conditional_create_follows(
    z: SimState,
    s0: SimState,
    graph: GraphId,
    default: u32,
)
    requires
        follows(z, s0),
    ensures
        follows(z, s0.graph_conditional_create(graph, default).0),
{
    let s = s0;
    match s.fail_if_capturing("cannot capture conditional create") {
        Err(e) => {},
        Ok(_v) => match s.graph_ref(graph) {
            Err(e) => {},
            Ok(g) => {
                if !(g.instantiated) {
                    match s.profile.gpu(g.origin.0) {
                        Err(e) => {},
                        Ok(_gpu) => {
                            let id = CondId(s.next.cond);
                            assert(
                                follows(
                                    z,
                                    SimState {
                                        next: NextIds {
                                            cond: s.next.cond.saturating_add(1),
                                            ..s.next
                                        },
                                        ..s
                                    },
                                )
                            ) by {
                                reveal(follows);
                            }
                            let s = SimState {
                                next: NextIds { cond: s.next.cond.saturating_add(1), ..s.next },
                                ..s
                            };
                            assert(
                                follows(
                                    z,
                                    SimState {
                                        conds: s.conds.insert(
                                            id,
                                            Cond { graph, default, value: default },
                                        ),
                                        ..s
                                    },
                                )
                            ) by {
                                reveal(follows);
                            }
                            let s = SimState {
                                conds: s.conds.insert(id, Cond { graph, default, value: default }),
                                ..s
                            };
                            tick_follows(z, s, 1);
                        },
                    }
                }
            },
        },
    }
}

/// [`Sim::graph_add_if`] continues the history.
pub proof fn graph_add_if_follows(z: SimState, s0: SimState, graph: GraphId, handle: CondId)
    requires
        follows(z, s0),
    ensures
        follows(z, s0.graph_add_if(graph, handle).0),
{
    let s = s0;
    match s.graph_origin_for_add(graph) {
        Err(e) => {},
        Ok(on) => match s.require_cond_on_graph(handle, graph) {
            Err(e) => {},
            Ok(_v) => {
                insert_graph_follows(z, s, on.0, on.1);
                let (s, body) = s.insert_graph(on.0, on.1);
                graph_push_follows(z, s, graph, on, GpuOpView::If { handle, body });
            },
        },
    }
}

/// [`Sim::graph_add_while`] continues the history.
pub proof fn graph_add_while_follows(z: SimState, s0: SimState, graph: GraphId, handle: CondId)
    requires
        follows(z, s0),
    ensures
        follows(z, s0.graph_add_while(graph, handle).0),
{
    let s = s0;
    match s.graph_origin_for_add(graph) {
        Err(e) => {},
        Ok(on) => match s.require_cond_on_graph(handle, graph) {
            Err(e) => {},
            Ok(_v) => {
                insert_graph_follows(z, s, on.0, on.1);
                let (s, body) = s.insert_graph(on.0, on.1);
                graph_push_follows(z, s, graph, on, GpuOpView::While { handle, body });
            },
        },
    }
}

/// [`Sim::insert_graphs`] continues the history.
pub proof fn insert_graphs_follows(z: SimState, s0: SimState, on: Lane, n: usize)
    requires
        follows(z, s0),
    ensures
        follows(z, s0.insert_graphs(on, n).0),
{
    let s = s0;
    let out = Seq::empty();
    insert_graphs_from_follows(z, s, on, n, out, 0);
}

/// [`Sim::insert_graphs`] continues the history, from position `i` on.
pub proof fn insert_graphs_from_follows(
    z: SimState,
    s0: SimState,
    on: Lane,
    n: usize,
    out: Seq<GraphId>,
    i: int,
)
    requires
        follows(z, s0),
    ensures
        follows(z, s0.insert_graphs_from(on, n, out, i).0),
    decreases n - i,
{
    let s = s0;
    if 0 <= i < n {
        insert_graph_follows(z, s, on.0, on.1);
        let (s, id) = s.insert_graph(on.0, on.1);
        let out = out.push(id);
        insert_graphs_from_follows(z, s, on, n, out, i + 1);
    }
}

/// [`Sim::graph_add_switch`] continues the history.
pub proof fn graph_add_switch_follows(
    z: SimState,
    s0: SimState,
    graph: GraphId,
    handle: CondId,
    n: u32,
)
    requires
        follows(z, s0),
    ensures
        follows(z, s0.graph_add_switch(graph, handle, n).0),
{
    let s = s0;
    if !(n == 0 || n > 64) {
        match s.graph_origin_for_add(graph) {
            Err(e) => {},
            Ok(on) => match s.require_cond_on_graph(handle, graph) {
                Err(e) => {},
                Ok(_v) => {
                    insert_graphs_follows(z, s, on, n as usize);
                    let (s, bodies) = s.insert_graphs(on, n as usize);
                    graph_push_follows(z, s, graph, on, GpuOpView::Switch { handle, bodies });
                },
            },
        }
    }
}

/// [`Sim::set_conditional`] continues the history.
pub proof fn set_conditional_follows(
    z: SimState,
    s0: SimState,
    device: DeviceId,
    handle: CondId,
    value: u32,
    stream: StreamId,
)
    requires
        follows(z, s0),
    ensures
        follows(z, s0.set_conditional(device, handle, value, stream).0),
{
    let s = s0;
    if !(!s.conds.contains_key(handle)) {
        submit_follows(z, s, device, stream, GpuOpView::SetConditional { handle, value });
    }
}

/// [`Sim::graph_add_write_value64`] continues the history.
pub proof fn graph_add_write_value64_follows(
    z: SimState,
    s0: SimState,
    graph: GraphId,
    id: AllocId,
    offset: u64,
    value: u64,
)
    requires
        follows(z, s0),
    ensures
        follows(z, s0.graph_add_write_value64(graph, id, offset, value).0),
{
    let s = s0;
    graph_add_batch_item_follows(
        z,
        s,
        graph,
        BatchMemOp::Write { id, offset, value, bits32: false },
    );
}

/// [`Sim::graph_add_write_value32`] continues the history.
pub proof fn graph_add_write_value32_follows(
    z: SimState,
    s0: SimState,
    graph: GraphId,
    id: AllocId,
    offset: u64,
    value: u64,
)
    requires
        follows(z, s0),
    ensures
        follows(z, s0.graph_add_write_value32(graph, id, offset, value).0),
{
    let s = s0;
    graph_add_batch_item_follows(
        z,
        s,
        graph,
        BatchMemOp::Write { id, offset, value, bits32: true },
    );
}

/// [`Sim::graph_add_wait_value64`] continues the history.
pub proof fn graph_add_wait_value64_follows(
    z: SimState,
    s0: SimState,
    graph: GraphId,
    id: AllocId,
    offset: u64,
    value: u64,
    cmp: WaitValueCmp,
)
    requires
        follows(z, s0),
    ensures
        follows(z, s0.graph_add_wait_value64(graph, id, offset, value, cmp).0),
{
    let s = s0;
    graph_add_batch_item_follows(
        z,
        s,
        graph,
        BatchMemOp::Wait { id, offset, value, bits32: false, cmp },
    );
}

/// [`Sim::graph_add_wait_value32`] continues the history.
pub proof fn graph_add_wait_value32_follows(
    z: SimState,
    s0: SimState,
    graph: GraphId,
    id: AllocId,
    offset: u64,
    value: u64,
    cmp: WaitValueCmp,
)
    requires
        follows(z, s0),
    ensures
        follows(z, s0.graph_add_wait_value32(graph, id, offset, value, cmp).0),
{
    let s = s0;
    graph_add_batch_item_follows(
        z,
        s,
        graph,
        BatchMemOp::Wait { id, offset, value, bits32: true, cmp },
    );
}

/// [`Sim::graph_add_batch_mem_op`] continues the history.
pub proof fn graph_add_batch_mem_op_follows(
    z: SimState,
    s0: SimState,
    graph: GraphId,
    ops: Seq<BatchMemOp>,
)
    requires
        follows(z, s0),
    ensures
        follows(z, s0.graph_add_batch_mem_op(graph, ops).0),
        s0.graph_add_batch_mem_op(graph, ops).1 is Ok && planned(z, s0.graph_add_batch_mem_op(graph, ops).0) && s0.graph_add_batch_mem_op(graph, ops).0.graphs.contains_key(graph) && s0.graph_add_batch_mem_op(graph, ops).0.graphs[graph].steps.len() <= usize::MAX ==> last_is_loose(
            s0.graph_add_batch_mem_op(graph, ops).0.graphs[graph].steps,
        ),
{
    let s = s0;
    match s.check_batch_mem_ops(ops) {
        Err(e) => {},
        Ok(_v) => match s.graph_origin_for_add(graph) {
            Err(e) => {},
            Ok(on) => {
                graph_push_follows(z, s, graph, on, GpuOpView::BatchMem { ops });
            },
        },
    }
}

/// [`Sim::graph_add_batch_item`] continues the history.
pub proof fn graph_add_batch_item_follows(z: SimState, s0: SimState, graph: GraphId, op: BatchMemOp)
    requires
        follows(z, s0),
    ensures
        follows(z, s0.graph_add_batch_item(graph, op).0),
{
    let s = s0;
    match s.graph_origin_for_add(graph) {
        Err(e) => {},
        Ok(on) => match s.check_batch_mem(op) {
            Err(e) => {},
            Ok(_v) => {
                graph_push_follows(z, s, graph, on, batch_node(op));
            },
        },
    }
}

/// [`Sim::graph_add_dependencies`] continues the history.
pub proof fn graph_add_dependencies_follows(
    z: SimState,
    s0: SimState,
    graph: GraphId,
    from: usize,
    to: usize,
)
    requires
        follows(z, s0),
    ensures
        follows(z, s0.graph_add_dependencies(graph, from, to).0),
{
    let s = s0;
    let edges = seq![(from, to)];
    graph_add_dependencies_n_follows(z, s, graph, edges);
}

/// [`Sim::graph_add_dependencies_n`] continues the history.
pub proof fn graph_add_dependencies_n_follows(
    z: SimState,
    s0: SimState,
    graph: GraphId,
    edges: Seq<(usize, usize)>,
)
    requires
        follows(z, s0),
    ensures
        follows(z, s0.graph_add_dependencies_n(graph, edges).0),
{
    let s = s0;
    match s.graph_origin_for_add(graph) {
        Err(e) => {},
        Ok(_origin) => match s.graph_ref(graph) {
            Err(e) => {},
            Ok(g) => match s.with_edges(g.steps, edges) {
                Err(e) => {},
                Ok(steps) => {
                    if !(edges.len() == 0) {
                        match s.graph_ref(graph) {
                            Err(e) => {},
                            Ok(h) => {
                                let h = GraphView { steps: steps, ..h };
                                edges_fit(z, s, graph, edges);
                                known_is_sound(z, s, graph);
                                graph_follows(z, s, graph, h);
                            },
                        }
                    }
                },
            },
        },
    }
}

/// [`Sim::graph_remove_dependencies`] continues the history.
pub proof fn graph_remove_dependencies_follows(
    z: SimState,
    s0: SimState,
    graph: GraphId,
    from: usize,
    to: usize,
)
    requires
        follows(z, s0),
    ensures
        follows(z, s0.graph_remove_dependencies(graph, from, to).0),
{
    let s = s0;
    let edges = seq![(from, to)];
    graph_remove_dependencies_n_follows(z, s, graph, edges);
}

/// [`Sim::graph_remove_dependencies_n`] continues the history.
pub proof fn graph_remove_dependencies_n_follows(
    z: SimState,
    s0: SimState,
    graph: GraphId,
    edges: Seq<(usize, usize)>,
)
    requires
        follows(z, s0),
    ensures
        follows(z, s0.graph_remove_dependencies_n(graph, edges).0),
{
    let s = s0;
    match s.fail_if_capturing("cannot remove graph dependencies during capture") {
        Err(e) => {},
        Ok(_v) => match s.graph_ref(graph) {
            Err(e) => {},
            Ok(g) => {
                if !(g.instantiated) {
                    match s.edges_ok(g.steps, edges) {
                        Err(e) => {},
                        Ok(_v) => {
                            if !(edges.len() == 0) {
                                let steps = s.without_edges(g.steps, edges);
                                match s.graph_ref(graph) {
                                    Err(e) => {},
                                    Ok(h) => {
                                        let h = GraphView { steps: steps, ..h };
                                        removals_fit(z, s, graph, edges, 0);
                                        known_is_sound(z, s, graph);
                                        graph_follows(z, s, graph, h);
                                    },
                                }
                            }
                        },
                    }
                }
            },
        },
    }
}

/// [`Sim::graph_destroy_node`] continues the history.
pub proof fn graph_destroy_node_follows(z: SimState, s0: SimState, graph: GraphId, node: usize)
    requires
        follows(z, s0),
    ensures
        follows(z, s0.graph_destroy_node(graph, node).0),
{
    let s = s0;
    match s.fail_if_capturing("cannot destroy graph node during capture") {
        Err(e) => {},
        Ok(_v) => match s.graph_ref(graph) {
            Err(e) => {},
            Ok(g) => {
                if !(g.instantiated) {
                    match g.def_node(node) {
                        Err(e) => {},
                        Ok(step) => {
                            let alloc = match step.kind {
                                GpuOpView::Alloc { id, bytes: _size } => Some(id),
                                _ => None,
                            };
                            let steps = s.without_node(g.steps, node);
                            match s.graph_ref(graph) {
                                Err(e) => {},
                                Ok(h) => {
                                    let h = GraphView { steps: steps, ..h };
                                    removals_fit(z, s, graph, Seq::empty(), node);
                                    known_is_sound(z, s, graph);
                                    graph_follows(z, s, graph, h);
                                    let s = SimState { graphs: s.graphs.insert(graph, h), ..s };
                                    disown_follows(z, s, graph, alloc);
                                },
                            }
                        },
                    }
                }
            },
        },
    }
}

/// [`Sim::disown`] continues the history.
pub proof fn disown_follows(z: SimState, s0: SimState, graph: GraphId, alloc: Option<AllocId>)
    requires
        follows(z, s0),
    ensures
        follows(z, s0.disown(graph, alloc)),
{
    let s = s0;
    match alloc {
        Some(id) => {
            if s.graph_allocs.contains_key(graph) {
                let owned = s.allocs_of(graph);
                let owned = without(owned, id);
                rest_follows(
                    z,
                    s,
                    SimState { graph_allocs: s.graph_allocs.insert(graph, owned), ..s },
                );
            }
        },
        _ => {},
    }
}

} // verus!
