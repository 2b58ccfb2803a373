//! Histories of the operations in `sim::params`.
use vstd::prelude::*;
use crate::history::{follows, graph_follows, time_follows};
use crate::history::access::tick_follows;
use crate::history::shape::{known_is_sound, node_fits, node_stays_sound, planned};
use crate::ids::{AllocId, DeviceId, EventId, GraphId};
use crate::num::max_u64;
use crate::ops::{
    BatchMemOp, GpuOpView, HostNodeParams, KernelParamsView, MemcpyOp, MemsetOp, NodeParamsView,
    Place,
};
use crate::sim::SimState;
use crate::state::{GraphView, StepView};

verus! {

/// [`Sim::put_def_step`] continues the history.
pub proof fn put_def_step_follows(
    z: SimState,
    s0: SimState,
    graph: GraphId,
    node: usize,
    step: StepView,
)
    requires
        follows(z, s0),
        planned(z, s0) && s0.graphs.contains_key(graph) ==> node_fits(
            s0.profile,
            s0.graphs[graph].steps,
            node,
            step,
        ),
    ensures
        follows(z, s0.put_def_step(graph, node, step)),
{
    if s0.graphs.contains_key(graph) && node < s0.graphs[graph].steps.len() {
        let g = s0.graphs[graph];
        let after = GraphView { steps: g.steps.update(node as int, step), ..g };
        known_is_sound(z, s0, graph);
        if planned(z, s0) {
            node_stays_sound(s0.profile, g.steps, node, step);
        }
        graph_follows(z, s0, graph, after);
    }
}

/// [`Sim::put_exec_step`] continues the history.
pub proof fn put_exec_step_follows(
    z: SimState,
    s0: SimState,
    graph: GraphId,
    node: usize,
    step: StepView,
    uploaded: bool,
)
    requires
        follows(z, s0),
        planned(z, s0) && s0.graphs.contains_key(graph) && s0.graphs[graph].snapshot is Some ==> node_fits(
            s0.profile,
            s0.graphs[graph].snapshot->0,
            node,
            step,
        ),
    ensures
        follows(z, s0.put_exec_step(graph, node, step, uploaded).0),
{
    match s0.graphs.get(graph) {
        None => {},
        Some(g) => match g.snapshot {
            None => {},
            Some(steps) => {
                if !(!g.instantiated) {
                    if !(node >= steps.len()) {
                        let after = GraphView {
                            snapshot: Some(steps.update(node as int, step)),
                            uploaded,
                            ..g
                        };
                        known_is_sound(z, s0, graph);
                        if planned(z, s0) {
                            node_stays_sound(s0.profile, steps, node, step);
                        }
                        graph_follows(z, s0, graph, after);
                    }
                }
            },
        },
    }
}

/// [`Sim::set_def_kind`] continues the history.
pub proof fn set_def_kind_follows(
    z: SimState,
    s0: SimState,
    graph: GraphId,
    node: usize,
    kind: GpuOpView,
)
    requires
        follows(z, s0),
    ensures
        follows(z, s0.set_def_kind(graph, node, kind).0),
{
    let s = s0;
    match s.graph_def_step(graph, node) {
        Err(e) => {},
        Ok(v1) => {
            let step = v1;
            match s.profile.gpu(step.device) {
                Err(e) => {},
                Ok(_gpu) => {
                    tick_follows(z, s, 1);
                    let s = s.tick(1);
                    let step = StepView { kind: kind, ..step };
                    put_def_step_follows(z, s, graph, node, step);
                },
            }
        },
    }
}

/// [`Sim::pay_set_params`] continues the history.
pub proof fn pay_set_params_follows(z: SimState, s0: SimState, device: DeviceId)
    requires
        follows(z, s0),
    ensures
        follows(z, s0.pay_set_params(device).0),
{
    let s = s0;
    match s.profile.gpu(device) {
        Err(e) => {},
        Ok(gpu) => {
            let ns = max_u64(gpu.graph_set_params_ns, 1);
            time_follows(z, s, ns);
        },
    }
}

/// [`Sim::set_exec_kind`] continues the history.
pub proof fn set_exec_kind_follows(
    z: SimState,
    s0: SimState,
    id: GraphId,
    node: usize,
    kind: GpuOpView,
)
    requires
        follows(z, s0),
    ensures
        follows(z, s0.set_exec_kind(id, node, kind).0),
{
    let s = s0;
    match s.current_step(id, node) {
        Err(e) => {},
        Ok(v1) => {
            let step = v1;
            pay_set_params_follows(z, s, step.device);
            match s.pay_set_params(step.device) {
                (s, Err(e)) => {},
                (s, Ok(_v)) => {
                    let step = StepView { kind: kind, ..step };
                    put_exec_step_follows(z, s, id, node, step, false);
                },
            }
        },
    }
}

/// [`Sim::graph_exec_kernel_set_params`] continues the history.
pub proof fn graph_exec_kernel_set_params_follows(
    z: SimState,
    s0: SimState,
    graph: GraphId,
    node: usize,
    params: KernelParamsView,
)
    requires
        follows(z, s0),
    ensures
        follows(z, s0.graph_exec_kernel_set_params(graph, node, params).0),
{
    let s = s0;
    match s.fail_if_capturing("cannot capture kernel set params") {
        Err(e) => {},
        Ok(_v) => match s.as_exec(graph) {
            Err(e) => {},
            Ok(id) => match s.graph_ref(id) {
                Err(e) => {},
                Ok(g) => match g.current_node(node) {
                    Err(e) => {},
                    Ok(v1) => {
                        let step = v1;
                        match s.kernel_params_ok(step.kind, params) {
                            Err(e) => {},
                            Ok(_v) => match s.kernel_node(params) {
                                Err(e) => {},
                                Ok(kind) => {
                                    let uploaded = g.uploaded && step.attrs.device_updatable;
                                    pay_set_params_follows(z, s, step.device);
                                    match s.pay_set_params(step.device) {
                                        (s, Err(e)) => {},
                                        (s, Ok(_v)) => {
                                            let step = StepView { kind: kind, ..step };
                                            put_exec_step_follows(z, s, id, node, step, uploaded);
                                        },
                                    }
                                },
                            },
                        }
                    },
                },
            },
        },
    }
}

/// [`Sim::graph_kernel_set_params`] continues the history.
pub proof fn graph_kernel_set_params_follows(
    z: SimState,
    s0: SimState,
    graph: GraphId,
    node: usize,
    params: KernelParamsView,
)
    requires
        follows(z, s0),
    ensures
        follows(z, s0.graph_kernel_set_params(graph, node, params).0),
{
    let s = s0;
    match s.fail_if_capturing("cannot capture kernel node set params") {
        Err(e) => {},
        Ok(_v) => match s.graph_def_step(graph, node) {
            Err(e) => {},
            Ok(step) => match s.kernel_params_ok(step.kind, params) {
                Err(e) => {},
                Ok(_v) => match s.kernel_node(params) {
                    Err(e) => {},
                    Ok(kind) => {
                        set_def_kind_follows(z, s, graph, node, kind);
                    },
                },
            },
        },
    }
}

/// [`Sim::graph_memcpy_set_params`] continues the history.
pub proof fn graph_memcpy_set_params_follows(
    z: SimState,
    s0: SimState,
    graph: GraphId,
    node: usize,
    op: MemcpyOp,
)
    requires
        follows(z, s0),
    ensures
        follows(z, s0.graph_memcpy_set_params(graph, node, op).0),
{
    let s = s0;
    match s.fail_if_capturing("cannot capture memcpy node set params") {
        Err(e) => {},
        Ok(_v) => {
            if !(op.src.is_pageable() || op.dst.is_pageable()) {
                match s.graph_def_step(graph, node) {
                    Err(e) => {},
                    Ok(step) => {
                        if !(!(match step.kind { GpuOpView::Memcpy(_) => true, _ => false })) {
                            match s.memcpy_precheck(op) {
                                Err(e) => {},
                                Ok(_v) => {
                                    set_def_kind_follows(z, s, graph, node, GpuOpView::Memcpy(op));
                                },
                            }
                        }
                    },
                }
            }
        },
    }
}

/// [`Sim::graph_exec_memcpy_set_params`] continues the history.
pub proof fn graph_exec_memcpy_set_params_follows(
    z: SimState,
    s0: SimState,
    graph: GraphId,
    node: usize,
    op: MemcpyOp,
)
    requires
        follows(z, s0),
    ensures
        follows(z, s0.graph_exec_memcpy_set_params(graph, node, op).0),
{
    let s = s0;
    match s.fail_if_capturing("cannot capture memcpy set params") {
        Err(e) => {},
        Ok(_v) => {
            if !(op.src.is_pageable() || op.dst.is_pageable()) {
                match s.as_exec(graph) {
                    Err(e) => {},
                    Ok(id) => match s.current_step(id, node) {
                        Err(e) => {},
                        Ok(step) => {
                            if !(!(match step.kind { GpuOpView::Memcpy(_) => true, _ => false })) {
                                match s.memcpy_precheck(op) {
                                    Err(e) => {},
                                    Ok(_v) => {
                                        set_exec_kind_follows(
                                            z,
                                            s,
                                            id,
                                            node,
                                            GpuOpView::Memcpy(op),
                                        );
                                    },
                                }
                            }
                        },
                    },
                }
            }
        },
    }
}

/// [`Sim::graph_memcpy_set_params_1d`] continues the history.
pub proof fn graph_memcpy_set_params_1d_follows(
    z: SimState,
    s0: SimState,
    graph: GraphId,
    node: usize,
    src: Place,
    dst: Place,
    alloc: AllocId,
    bytes: u64,
)
    requires
        follows(z, s0),
    ensures
        follows(z, s0.graph_memcpy_set_params_1d(graph, node, src, dst, alloc, bytes).0),
{
    let s = s0;
    let op = MemcpyOp::packed_1d(src, dst, alloc, bytes);
    graph_memcpy_set_params_follows(z, s, graph, node, op);
}

/// [`Sim::graph_exec_memcpy_set_params_1d`] continues the history.
pub proof fn graph_exec_memcpy_set_params_1d_follows(
    z: SimState,
    s0: SimState,
    graph: GraphId,
    node: usize,
    src: Place,
    dst: Place,
    alloc: AllocId,
    bytes: u64,
)
    requires
        follows(z, s0),
    ensures
        follows(z, s0.graph_exec_memcpy_set_params_1d(graph, node, src, dst, alloc, bytes).0),
{
    let s = s0;
    let op = MemcpyOp::packed_1d(src, dst, alloc, bytes);
    graph_exec_memcpy_set_params_follows(z, s, graph, node, op);
}

/// [`Sim::graph_memset_set_params`] continues the history.
pub proof fn graph_memset_set_params_follows(
    z: SimState,
    s0: SimState,
    graph: GraphId,
    node: usize,
    op: MemsetOp,
)
    requires
        follows(z, s0),
    ensures
        follows(z, s0.graph_memset_set_params(graph, node, op).0),
{
    let s = s0;
    match s.fail_if_capturing("cannot capture memset node set params") {
        Err(e) => {},
        Ok(_v) => match s.graph_def_step(graph, node) {
            Err(e) => {},
            Ok(step) => {
                if !(!(match step.kind { GpuOpView::Memset(_) => true, _ => false })) {
                    match s.resolve_memset_op(op) {
                        Err(e) => {},
                        Ok(full) => {
                            set_def_kind_follows(z, s, graph, node, GpuOpView::Memset(full));
                        },
                    }
                }
            },
        },
    }
}

/// [`Sim::graph_exec_memset_set_params`] continues the history.
pub proof fn graph_exec_memset_set_params_follows(
    z: SimState,
    s0: SimState,
    graph: GraphId,
    node: usize,
    op: MemsetOp,
)
    requires
        follows(z, s0),
    ensures
        follows(z, s0.graph_exec_memset_set_params(graph, node, op).0),
{
    let s = s0;
    match s.fail_if_capturing("cannot capture memset set params") {
        Err(e) => {},
        Ok(_v) => match s.as_exec(graph) {
            Err(e) => {},
            Ok(id) => match s.current_step(id, node) {
                Err(e) => {},
                Ok(step) => {
                    if !(!(match step.kind { GpuOpView::Memset(_) => true, _ => false })) {
                        match s.resolve_memset_op(op) {
                            Err(e) => {},
                            Ok(full) => {
                                set_exec_kind_follows(z, s, id, node, GpuOpView::Memset(full));
                            },
                        }
                    }
                },
            },
        },
    }
}

/// [`Sim::graph_host_set_params`] continues the history.
pub proof fn graph_host_set_params_follows(
    z: SimState,
    s0: SimState,
    graph: GraphId,
    node: usize,
    params: HostNodeParams,
)
    requires
        follows(z, s0),
    ensures
        follows(z, s0.graph_host_set_params(graph, node, params).0),
{
    let s = s0;
    match s.fail_if_capturing("cannot capture host node set params") {
        Err(e) => {},
        Ok(_v) => match s.graph_def_step(graph, node) {
            Err(e) => {},
            Ok(step) => {
                if !(!(match step.kind { GpuOpView::HostFunc { .. } => true, _ => false })) {
                    set_def_kind_follows(
                        z,
                        s,
                        graph,
                        node,
                        GpuOpView::HostFunc { fn_id: params.fn_id, user_data: params.user_data },
                    );
                }
            },
        },
    }
}

/// [`Sim::graph_exec_host_set_params`] continues the history.
pub proof fn graph_exec_host_set_params_follows(
    z: SimState,
    s0: SimState,
    graph: GraphId,
    node: usize,
    params: HostNodeParams,
)
    requires
        follows(z, s0),
    ensures
        follows(z, s0.graph_exec_host_set_params(graph, node, params).0),
{
    let s = s0;
    match s.fail_if_capturing("cannot capture host set params") {
        Err(e) => {},
        Ok(_v) => match s.as_exec(graph) {
            Err(e) => {},
            Ok(id) => match s.current_step(id, node) {
                Err(e) => {},
                Ok(step) => {
                    if !(!(match step.kind { GpuOpView::HostFunc { .. } => true, _ => false })) {
                        set_exec_kind_follows(
                            z,
                            s,
                            id,
                            node,
                            GpuOpView::HostFunc {
                                fn_id: params.fn_id,
                                user_data: params.user_data,
                            },
                        );
                    }
                },
            },
        },
    }
}

/// [`Sim::graph_free_set_params`] continues the history.
pub proof fn graph_free_set_params_follows(
    z: SimState,
    s0: SimState,
    graph: GraphId,
    node: usize,
    alloc: AllocId,
)
    requires
        follows(z, s0),
    ensures
        follows(z, s0.graph_free_set_params(graph, node, alloc).0),
{
    let s = s0;
    match s.fail_if_capturing("cannot capture mem free node set params") {
        Err(e) => {},
        Ok(_v) => match s.alloc_ref(alloc) {
            Err(e) => {},
            Ok(_a) => match s.graph_def_step(graph, node) {
                Err(e) => {},
                Ok(step) => {
                    if !(!(match step.kind { GpuOpView::Free { .. } => true, _ => false })) {
                        set_def_kind_follows(z, s, graph, node, GpuOpView::Free { id: alloc });
                    }
                },
            },
        },
    }
}

/// [`Sim::graph_exec_free_set_params`] continues the history.
pub proof fn graph_exec_free_set_params_follows(
    z: SimState,
    s0: SimState,
    graph: GraphId,
    node: usize,
    alloc: AllocId,
)
    requires
        follows(z, s0),
    ensures
        follows(z, s0.graph_exec_free_set_params(graph, node, alloc).0),
{
    let s = s0;
    match s.fail_if_capturing("cannot capture mem free node set params") {
        Err(e) => {},
        Ok(_v) => match s.alloc_ref(alloc) {
            Err(e) => {},
            Ok(_a) => match s.as_exec(graph) {
                Err(e) => {},
                Ok(id) => match s.current_step(id, node) {
                    Err(e) => {},
                    Ok(step) => {
                        if !(!(match step.kind { GpuOpView::Free { .. } => true, _ => false })) {
                            set_exec_kind_follows(z, s, id, node, GpuOpView::Free { id: alloc });
                        }
                    },
                },
            },
        },
    }
}

/// [`Sim::graph_def_event_set`] continues the history.
pub proof fn graph_def_event_set_follows(
    z: SimState,
    s0: SimState,
    graph: GraphId,
    node: usize,
    event: EventId,
    record: bool,
)
    requires
        follows(z, s0),
    ensures
        follows(z, s0.graph_def_event_set(graph, node, event, record).0),
{
    let s = s0;
    match s.event_set_ok(event, record) {
        Err(e) => {},
        Ok(_v) => match s.graph_def_step(graph, node) {
            Err(e) => {},
            Ok(step) => match s.event_node(step.kind, event, record) {
                Err(e) => {},
                Ok(kind) => {
                    set_def_kind_follows(z, s, graph, node, kind);
                },
            },
        },
    }
}

/// [`Sim::graph_exec_event_set`] continues the history.
pub proof fn graph_exec_event_set_follows(
    z: SimState,
    s0: SimState,
    graph: GraphId,
    node: usize,
    event: EventId,
    record: bool,
)
    requires
        follows(z, s0),
    ensures
        follows(z, s0.graph_exec_event_set(graph, node, event, record).0),
{
    let s = s0;
    match s.event_set_ok(event, record) {
        Err(e) => {},
        Ok(_v) => match s.as_exec(graph) {
            Err(e) => {},
            Ok(id) => match s.current_step(id, node) {
                Err(e) => {},
                Ok(step) => match s.event_node(step.kind, event, record) {
                    Err(e) => {},
                    Ok(kind) => {
                        set_exec_kind_follows(z, s, id, node, kind);
                    },
                },
            },
        },
    }
}

/// [`Sim::graph_event_record_set_event`] continues the history.
pub proof fn graph_event_record_set_event_follows(
    z: SimState,
    s0: SimState,
    graph: GraphId,
    node: usize,
    event: EventId,
)
    requires
        follows(z, s0),
    ensures
        follows(z, s0.graph_event_record_set_event(graph, node, event).0),
{
    let s = s0;
    graph_def_event_set_follows(z, s, graph, node, event, true);
}

/// [`Sim::graph_event_wait_set_event`] continues the history.
pub proof fn graph_event_wait_set_event_follows(
    z: SimState,
    s0: SimState,
    graph: GraphId,
    node: usize,
    event: EventId,
)
    requires
        follows(z, s0),
    ensures
        follows(z, s0.graph_event_wait_set_event(graph, node, event).0),
{
    let s = s0;
    graph_def_event_set_follows(z, s, graph, node, event, false);
}

/// [`Sim::graph_exec_event_record_set_event`] continues the history.
pub proof fn graph_exec_event_record_set_event_follows(
    z: SimState,
    s0: SimState,
    graph: GraphId,
    node: usize,
    event: EventId,
)
    requires
        follows(z, s0),
    ensures
        follows(z, s0.graph_exec_event_record_set_event(graph, node, event).0),
{
    let s = s0;
    graph_exec_event_set_follows(z, s, graph, node, event, true);
}

/// [`Sim::graph_exec_event_wait_set_event`] continues the history.
pub proof fn graph_exec_event_wait_set_event_follows(
    z: SimState,
    s0: SimState,
    graph: GraphId,
    node: usize,
    event: EventId,
)
    requires
        follows(z, s0),
    ensures
        follows(z, s0.graph_exec_event_wait_set_event(graph, node, event).0),
{
    let s = s0;
    graph_exec_event_set_follows(z, s, graph, node, event, false);
}

/// [`Sim::graph_child_set_params`] continues the history.
pub proof fn graph_child_set_params_follows(
    z: SimState,
    s0: SimState,
    graph: GraphId,
    node: usize,
    child: GraphId,
)
    requires
        follows(z, s0),
    ensures
        follows(z, s0.graph_child_set_params(graph, node, child).0),
{
    let s = s0;
    match s.fail_if_capturing("cannot capture child graph node set params") {
        Err(e) => {},
        Ok(_v) => {
            if !(child == graph) {
                match s.graph_def_step(graph, node) {
                    Err(e) => {},
                    Ok(step) => {
                        if !(
                            !(match step.kind { GpuOpView::ChildGraph { .. } => true, _ => false })
                        ) {
                            match s.child_usable(child, step.device) {
                                Err(e) => {},
                                Ok(_v) => match s.graph_tree_contains(child, graph) {
                                    Err(e) => {},
                                    Ok(v1) => {
                                        if !(v1) {
                                            set_def_kind_follows(
                                                z,
                                                s,
                                                graph,
                                                node,
                                                GpuOpView::ChildGraph { graph: child },
                                            );
                                        }
                                    },
                                },
                            }
                        }
                    },
                }
            }
        },
    }
}

/// [`Sim::graph_exec_child_set_params`] continues the history.
pub proof fn graph_exec_child_set_params_follows(
    z: SimState,
    s0: SimState,
    graph: GraphId,
    node: usize,
    child: GraphId,
)
    requires
        follows(z, s0),
    ensures
        follows(z, s0.graph_exec_child_set_params(graph, node, child).0),
{
    let s = s0;
    match s.fail_if_capturing("cannot capture child set params") {
        Err(e) => {},
        Ok(_v) => {
            if !(child == graph) {
                match s.as_exec(graph) {
                    Err(e) => {},
                    Ok(id) => {
                        if !(child == id) {
                            match s.current_step(id, node) {
                                Err(e) => {},
                                Ok(step) => match step.kind {
                                    GpuOpView::ChildGraph { graph: before } => match s.child_exec_for(
                                        id,
                                        before,
                                        child,
                                        step.device,
                                    ) {
                                        Err(e) => {},
                                        Ok(child_id) => {
                                            set_exec_kind_follows(
                                                z,
                                                s,
                                                id,
                                                node,
                                                GpuOpView::ChildGraph { graph: child_id },
                                            );
                                        },
                                    },
                                    _ => {},
                                },
                            }
                        }
                    },
                }
            }
        },
    }
}

/// [`Sim::set_batch_mem_ops`] continues the history.
pub proof fn set_batch_mem_ops_follows(
    z: SimState,
    s0: SimState,
    graph: GraphId,
    node: usize,
    ops: Seq<BatchMemOp>,
)
    requires
        follows(z, s0),
    ensures
        follows(z, s0.set_batch_mem_ops(graph, node, ops).0),
{
    let s = s0;
    match s.fail_if_capturing("cannot capture batch mem op node set params") {
        Err(e) => {},
        Ok(_v) => match s.check_batch_mem_ops(ops) {
            Err(e) => {},
            Ok(_v) => match s.graph_def_step(graph, node) {
                Err(e) => {},
                Ok(step) => match step.kind.batch_ops_set_params_kind(ops) {
                    Err(e) => {},
                    Ok(kind) => {
                        set_def_kind_follows(z, s, graph, node, kind);
                    },
                },
            },
        },
    }
}

/// [`Sim::set_exec_batch_mem_ops`] continues the history.
pub proof fn set_exec_batch_mem_ops_follows(
    z: SimState,
    s0: SimState,
    graph: GraphId,
    node: usize,
    ops: Seq<BatchMemOp>,
)
    requires
        follows(z, s0),
    ensures
        follows(z, s0.set_exec_batch_mem_ops(graph, node, ops).0),
{
    reveal(SimState::set_exec_batch_mem_ops);
    let s = s0;
    match s.fail_if_capturing("cannot capture batch mem op set params") {
        Err(e) => {},
        Ok(_v) => match s.check_batch_mem_ops(ops) {
            Err(e) => {},
            Ok(_v) => match s.as_exec(graph) {
                Err(e) => {},
                Ok(id) => match s.current_step(id, node) {
                    Err(e) => {},
                    Ok(step) => match step.kind.batch_ops_set_params_kind(ops) {
                        Err(e) => {},
                        Ok(kind) => {
                            set_exec_kind_follows(z, s, id, node, kind);
                        },
                    },
                },
            },
        },
    }
}

/// [`Sim::graph_batch_mem_op_set_params`] continues the history.
pub proof fn graph_batch_mem_op_set_params_follows(
    z: SimState,
    s0: SimState,
    graph: GraphId,
    node: usize,
    op: BatchMemOp,
)
    requires
        follows(z, s0),
    ensures
        follows(z, s0.graph_batch_mem_op_set_params(graph, node, op).0),
{
    let s = s0;
    let ops = seq![op];
    set_batch_mem_ops_follows(z, s, graph, node, ops);
}

/// [`Sim::graph_batch_mem_ops_set_params`] continues the history.
pub proof fn graph_batch_mem_ops_set_params_follows(
    z: SimState,
    s0: SimState,
    graph: GraphId,
    node: usize,
    ops: Seq<BatchMemOp>,
)
    requires
        follows(z, s0),
    ensures
        follows(z, s0.graph_batch_mem_ops_set_params(graph, node, ops).0),
{
    let s = s0;
    set_batch_mem_ops_follows(z, s, graph, node, ops);
}

/// [`Sim::graph_exec_batch_mem_op_set_params`] continues the history.
pub proof fn graph_exec_batch_mem_op_set_params_follows(
    z: SimState,
    s0: SimState,
    graph: GraphId,
    node: usize,
    op: BatchMemOp,
)
    requires
        follows(z, s0),
    ensures
        follows(z, s0.graph_exec_batch_mem_op_set_params(graph, node, op).0),
{
    let s = s0;
    let ops = seq![op];
    set_exec_batch_mem_ops_follows(z, s, graph, node, ops);
}

/// [`Sim::graph_exec_batch_mem_ops_set_params`] continues the history.
pub proof fn graph_exec_batch_mem_ops_set_params_follows(
    z: SimState,
    s0: SimState,
    graph: GraphId,
    node: usize,
    ops: Seq<BatchMemOp>,
)
    requires
        follows(z, s0),
    ensures
        follows(z, s0.graph_exec_batch_mem_ops_set_params(graph, node, ops).0),
{
    let s = s0;
    set_exec_batch_mem_ops_follows(z, s, graph, node, ops);
}

/// [`Sim::graph_node_set_params`] continues the history.
pub proof fn graph_node_set_params_follows(
    z: SimState,
    s0: SimState,
    graph: GraphId,
    node: usize,
    params: NodeParamsView,
)
    requires
        follows(z, s0),
    ensures
        follows(z, s0.graph_node_set_params(graph, node, params).0),
{
    let s = s0;
    match params {
        NodeParamsView::Kernel(p) => {
            graph_kernel_set_params_follows(z, s, graph, node, p);
        },
        NodeParamsView::Memcpy(op) => {
            graph_memcpy_set_params_follows(z, s, graph, node, op);
        },
        NodeParamsView::Memset(op) => {
            graph_memset_set_params_follows(z, s, graph, node, op);
        },
        NodeParamsView::Host(p) => {
            graph_host_set_params_follows(z, s, graph, node, p);
        },
        NodeParamsView::Empty => {},
        NodeParamsView::EventRecord { event, external: _flag } => {
            graph_event_record_set_event_follows(z, s, graph, node, event);
        },
        NodeParamsView::EventWait { event, external: _flag } => {
            graph_event_wait_set_event_follows(z, s, graph, node, event);
        },
        NodeParamsView::ChildGraph(child) => {
            graph_child_set_params_follows(z, s, graph, node, child);
        },
        NodeParamsView::Alloc { bytes: _size } => {},
        NodeParamsView::Free(id) => {
            graph_free_set_params_follows(z, s, graph, node, id);
        },
        NodeParamsView::BatchMemOp(ops) => {
            graph_batch_mem_ops_set_params_follows(z, s, graph, node, ops);
        },
    }
}

/// [`Sim::graph_exec_node_set_params`] continues the history.
pub proof fn graph_exec_node_set_params_follows(
    z: SimState,
    s0: SimState,
    graph: GraphId,
    node: usize,
    params: NodeParamsView,
)
    requires
        follows(z, s0),
    ensures
        follows(z, s0.graph_exec_node_set_params(graph, node, params).0),
{
    let s = s0;
    match params {
        NodeParamsView::Kernel(p) => {
            graph_exec_kernel_set_params_follows(z, s, graph, node, p);
        },
        NodeParamsView::Memcpy(op) => {
            graph_exec_memcpy_set_params_follows(z, s, graph, node, op);
        },
        NodeParamsView::Memset(op) => {
            graph_exec_memset_set_params_follows(z, s, graph, node, op);
        },
        NodeParamsView::Host(p) => {
            graph_exec_host_set_params_follows(z, s, graph, node, p);
        },
        NodeParamsView::Empty => {},
        NodeParamsView::EventRecord { event, external: _flag } => {
            graph_exec_event_record_set_event_follows(z, s, graph, node, event);
        },
        NodeParamsView::EventWait { event, external: _flag } => {
            graph_exec_event_wait_set_event_follows(z, s, graph, node, event);
        },
        NodeParamsView::ChildGraph(child) => {
            graph_exec_child_set_params_follows(z, s, graph, node, child);
        },
        NodeParamsView::Alloc { bytes: _size } => {},
        NodeParamsView::Free(id) => {
            graph_exec_free_set_params_follows(z, s, graph, node, id);
        },
        NodeParamsView::BatchMemOp(ops) => {
            graph_exec_batch_mem_ops_set_params_follows(z, s, graph, node, ops);
        },
    }
}

/// [`Sim::graph_node_set_enabled`] continues the history.
pub proof fn graph_node_set_enabled_follows(
    z: SimState,
    s0: SimState,
    graph: GraphId,
    node: usize,
    enabled: bool,
)
    requires
        follows(z, s0),
    ensures
        follows(z, s0.graph_node_set_enabled(graph, node, enabled).0),
{
    let s = s0;
    match s.fail_if_capturing("cannot capture node set enabled") {
        Err(e) => {},
        Ok(_v) => match s.as_exec(graph) {
            Err(e) => {},
            Ok(id) => match s.graph_ref(id) {
                Err(e) => {},
                Ok(g) => {
                    let uploaded = g.uploaded;
                    match g.current_node(node) {
                        Err(e) => {},
                        Ok(v1) => {
                            let step = v1;
                            if !(step.kind.is_mem_node()) {
                                pay_set_params_follows(z, s, step.device);
                                match s.pay_set_params(step.device) {
                                    (s, Err(e)) => {},
                                    (s, Ok(_v)) => {
                                        let step = StepView { enabled: enabled, ..step };
                                        put_exec_step_follows(z, s, id, node, step, uploaded);
                                    },
                                }
                            }
                        },
                    }
                },
            },
        },
    }
}

} // verus!
