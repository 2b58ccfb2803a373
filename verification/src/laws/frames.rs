//! What operations leave as it is.
use vstd::prelude::*;
use crate::error::invalid;
use crate::ids::{
    AllocId, CondId, DeviceId, EventId, GraphId, Lane, MemHandleId, OpId, Piece, PoolId, StreamId,
    UserObjectId,
};
use crate::list::{with_new, without};
use crate::ops::{
    AccessPolicyWindow, BatchMemOp, GpuOpView, KernelBuf, KernelKind, LaunchCompletionEvent,
    MemAttach, MemcpyOp, MemsetOp, Place, ProgrammaticEvent,
};
use crate::sim::SimState;
use crate::sim::launch::{alloc_graph_worker, WalkView};
use crate::state::{
    AllocView, Cond, CondPred, GpuRtView, GraphView, LaunchCost, MemHandle, NextIds, NodeAttrs,
    OpView, PoolView, StepView, UserObjectView,
};
use crate::table::{order_of, vacant};
use crate::topo::launch_order;

verus! {

/// [`Sim::refund_hbm`] leaves the graphs as they are.
pub proof fn refund_hbm_keeps_graphs(s0: SimState, device: DeviceId, bytes: u64)
    ensures
        s0.refund_hbm(device, bytes).0.graphs == s0.graphs,
{
}

/// [`Sim::pool_release`] leaves the graphs as they are.
pub proof fn pool_release_keeps_graphs(s0: SimState, pool: PoolId, bytes: u64)
    ensures
        s0.pool_release(pool, bytes).0.graphs == s0.graphs,
{
    reveal(SimState::pool_release);
    let s = s0;
    match s.pool_root(pool) {
        Err(e) => {},
        Ok(root) => match s.pool_ref(root) {
            Err(e) => {},
            Ok(p0) => {
                let device = p0.device;
                let threshold = p0.release_threshold;
                let cached = p0.cached.saturating_add(bytes);
                let live = p0.live.saturating_sub(bytes);
                match s.pool_ref(root) {
                    Err(e) => {},
                    Ok(p) => {
                        let p = PoolView {
                            live: live,
                            cached: if cached > threshold { threshold } else { cached },
                            ..p
                        };
                        let s = SimState { pools: s.pools.insert(root, p), ..s };
                        if cached > threshold {
                            refund_hbm_keeps_graphs(s, device, cached.saturating_sub(threshold));
                        }
                    },
                }
            },
        },
    }
}

/// [`Sim::refund_device`] leaves the graphs as they are.
pub proof fn refund_device_keeps_graphs(s0: SimState, device: DeviceId, alloc: AllocId, bytes: u64)
    ensures
        s0.refund_device(device, alloc, bytes).0.graphs == s0.graphs,
{
    let s = s0;
    match s.alloc_ref(alloc) {
        Err(e) => {},
        Ok(a) => match a.pool {
            Some(p) => match s.pool_ref(p) {
                Err(e) => {},
                Ok(owner) => if owner.device == device {
                    pool_release_keeps_graphs(s, p, bytes);
                } else {
                    refund_hbm_keeps_graphs(s, device, bytes);
                },
            },
            None => {
                refund_hbm_keeps_graphs(s, device, bytes);
            },
        },
    }
}

/// [`Sim::add_alloc`] leaves the graphs as they are.
pub proof fn add_alloc_keeps_graphs(s0: SimState, a: AllocView)
    ensures
        s0.add_alloc(a).0.graphs == s0.graphs,
{
}

/// [`Sim::clear_mailbox`] leaves the graphs as they are.
pub proof fn clear_mailbox_keeps_graphs(s0: SimState, id: AllocId)
    ensures
        s0.clear_mailbox(id).graphs == s0.graphs,
{
}

/// [`Sim::build_clones`] leaves the graphs as they are.
pub proof fn build_clones_keeps_graphs(
    s0: SimState,
    order: Seq<GraphId>,
    remap: Map<GraphId, GraphId>,
)
    ensures
        s0.build_clones(order, remap).0.graphs == s0.graphs,
{
    let s = s0;
    let built = Seq::empty();
    build_clones_from_keeps_graphs(s, order, remap, built, 0);
}

/// [`Sim::build_clones`] leaves the graphs as they are.
pub proof fn build_clones_from_keeps_graphs(
    s0: SimState,
    order: Seq<GraphId>,
    remap: Map<GraphId, GraphId>,
    built: Seq<Seq<StepView>>,
    i: int,
)
    ensures
        s0.build_clones_from(order, remap, built, i).0.graphs == s0.graphs,
    decreases order.len() - i,
{
    let s = s0;
    if 0 <= i < order.len() {
        match s.graph_ref(order[i]) {
            Err(e) => {},
            Ok(g) => match s.remap_nested_graphs(g.steps, remap) {
                Err(e) => {},
                Ok(raw) => match s.clone_id(remap, order[i]) {
                    Err(e) => {},
                    Ok(id) => {
                        clone_mem_alloc_nodes_keeps_graphs(s, order[i], id, raw);
                        match s.clone_mem_alloc_nodes(order[i], id, raw) {
                            (s, Err(e)) => {},
                            (s, Ok(steps)) => {
                                let built = built.push(steps);
                                build_clones_from_keeps_graphs(s, order, remap, built, i + 1);
                            },
                        }
                    },
                },
            },
        }
    }
}

/// [`Sim::note_clones`] leaves the graphs as they are.
pub proof fn note_clones_keeps_graphs(s0: SimState, remap: Map<GraphId, GraphId>)
    ensures
        s0.note_clones(remap).graphs == s0.graphs,
{
    let s = s0;
    note_clones_from_keeps_graphs(s, remap, 0);
}

/// [`Sim::note_clones`] leaves the graphs as they are.
pub proof fn note_clones_from_keeps_graphs(s0: SimState, remap: Map<GraphId, GraphId>, i: int)
    ensures
        s0.note_clones_from(remap, i).graphs == s0.graphs,
    decreases order_of(remap.dom()).len() - i,
{
    let s = s0;
    if 0 <= i < order_of(remap.dom()).len() {
        let src = order_of(remap.dom())[i];
        let id = remap[order_of(remap.dom())[i]];
        let s = SimState { clone_of: s.clone_of.insert(id, src), ..s };
        note_clones_from_keeps_graphs(s, remap, i + 1);
    }
}

/// [`Sim::number_conds`] leaves the graphs as they are.
pub proof fn number_conds_keeps_graphs(
    s0: SimState,
    conds: Seq<(CondId, Cond)>,
    remap: Map<GraphId, GraphId>,
)
    ensures
        s0.number_conds(conds, remap).0.graphs == s0.graphs,
{
    let s = s0;
    let renamed = Map::empty();
    number_conds_from_keeps_graphs(s, conds, remap, renamed, 0);
}

/// [`Sim::number_conds`] leaves the graphs as they are.
pub proof fn number_conds_from_keeps_graphs(
    s0: SimState,
    conds: Seq<(CondId, Cond)>,
    remap: Map<GraphId, GraphId>,
    renamed: Map<CondId, CondId>,
    i: int,
)
    ensures
        s0.number_conds_from(conds, remap, renamed, i).0.graphs == s0.graphs,
    decreases conds.len() - i,
{
    let s = s0;
    if 0 <= i < conds.len() {
        let c = conds[i].1;
        match s.clone_id(remap, c.graph) {
            Err(e) => {},
            Ok(graph) => {
                let id = CondId(s.next.cond);
                let s = SimState {
                    next: NextIds { cond: s.next.cond.saturating_add(1), ..s.next },
                    ..s
                };
                let renamed = renamed.insert(conds[i].0, id);
                let s = SimState {
                    conds: s.conds.insert(id, Cond { graph, default: c.default, value: c.value }),
                    ..s
                };
                number_conds_from_keeps_graphs(s, conds, remap, renamed, i + 1);
            },
        }
    }
}

/// [`Sim::fork_alloc`] leaves the graphs as they are.
pub proof fn fork_alloc_keeps_graphs(s0: SimState, src: AllocId)
    ensures
        s0.fork_alloc(src).0.graphs == s0.graphs,
{
    let s = s0;
    match s.alloc_ref(src) {
        Err(e) => {},
        Ok(a) => {
            let bytes = a.bytes;
            let pool = a.pool;
            let b = AllocView::blank(bytes);
            let b = AllocView { pool: pool, ..b };
            add_alloc_keeps_graphs(s, b);
        },
    }
}

/// [`Sim::fork_allocs`] leaves the graphs as they are.
pub proof fn fork_allocs_keeps_graphs(s0: SimState, ids: Seq<AllocId>)
    ensures
        s0.fork_allocs(ids).0.graphs == s0.graphs,
{
    let s = s0;
    let out = Seq::empty();
    fork_allocs_from_keeps_graphs(s, ids, out, 0);
}

/// [`Sim::fork_allocs`] leaves the graphs as they are.
pub proof fn fork_allocs_from_keeps_graphs(
    s0: SimState,
    ids: Seq<AllocId>,
    out: Seq<AllocId>,
    i: int,
)
    ensures
        s0.fork_allocs_from(ids, out, i).0.graphs == s0.graphs,
    decreases ids.len() - i,
{
    let s = s0;
    if 0 <= i < ids.len() {
        fork_alloc_keeps_graphs(s, ids[i]);
        match s.fork_alloc(ids[i]) {
            (s, Err(e)) => {},
            (s, Ok(id)) => {
                let out = out.push(id);
                fork_allocs_from_keeps_graphs(s, ids, out, i + 1);
            },
        }
    }
}

/// [`Sim::clone_mem_alloc_nodes`] leaves the graphs as they are.
pub proof fn clone_mem_alloc_nodes_keeps_graphs(
    s0: SimState,
    src: GraphId,
    dst: GraphId,
    steps: Seq<StepView>,
)
    ensures
        s0.clone_mem_alloc_nodes(src, dst, steps).0.graphs == s0.graphs,
{
    let s = s0;
    let before = s.allocs_of(src);
    if !(before.len() == 0) {
        fork_allocs_keeps_graphs(s, before);
    }
}

/// [`Sim::refund_devices`] leaves the graphs as they are.
pub proof fn refund_devices_keeps_graphs(
    s0: SimState,
    devices: Seq<DeviceId>,
    id: AllocId,
    bytes: u64,
)
    ensures
        s0.refund_devices(devices, id, bytes).0.graphs == s0.graphs,
{
    let s = s0;
    refund_devices_from_keeps_graphs(s, devices, id, bytes, 0);
}

/// [`Sim::refund_devices`] leaves the graphs as they are.
pub proof fn refund_devices_from_keeps_graphs(
    s0: SimState,
    devices: Seq<DeviceId>,
    id: AllocId,
    bytes: u64,
    i: int,
)
    ensures
        s0.refund_devices_from(devices, id, bytes, i).0.graphs == s0.graphs,
    decreases devices.len() - i,
{
    let s = s0;
    if 0 <= i < devices.len() {
        refund_device_keeps_graphs(s, devices[i], id, bytes);
        match s.refund_device(devices[i], id, bytes) {
            (s, Err(e)) => {},
            (s, Ok(_v)) => {
                refund_devices_from_keeps_graphs(s, devices, id, bytes, i + 1);
            },
        }
    }
}

/// [`Sim::release_graph_alloc`] leaves the graphs as they are.
pub proof fn release_graph_alloc_keeps_graphs(s0: SimState, id: AllocId)
    ensures
        s0.release_graph_alloc(id).0.graphs == s0.graphs,
{
    reveal(SimState::release_graph_alloc);
    let s = s0;
    match s.allocs.get(id) {
        None => {},
        Some(a) => {
            if !(!a.live) {
                let bytes = a.bytes;
                let devices = a.devices;
                refund_devices_keeps_graphs(s, devices, id, bytes);
                match s.refund_devices(devices, id, bytes) {
                    (s, Err(e)) => {},
                    (s, Ok(_v)) => match s.alloc_ref(id) {
                        Err(e) => {},
                        Ok(b) => {
                            let b = AllocView { devices: Seq::empty(), live: false, ..b };
                            let s = SimState { allocs: s.allocs.insert(id, b), ..s };
                            clear_mailbox_keeps_graphs(s, id);
                        },
                    },
                }
            }
        },
    }
}

/// [`Sim::release_graph_allocs`] leaves the graphs as they are.
pub proof fn release_graph_allocs_keeps_graphs(s0: SimState, graph: GraphId)
    ensures
        s0.release_graph_allocs(graph).0.graphs == s0.graphs,
{
    let s = s0;
    let ids = s.allocs_of(graph);
    let s = SimState { graph_allocs: s.graph_allocs.remove(graph), ..s };
    release_graph_allocs_from_keeps_graphs(s, ids, 0);
}

/// [`Sim::release_graph_allocs`] leaves the graphs as they are.
pub proof fn release_graph_allocs_from_keeps_graphs(s0: SimState, ids: Seq<AllocId>, i: int)
    ensures
        s0.release_graph_allocs_from(ids, i).0.graphs == s0.graphs,
    decreases ids.len() - i,
{
    let s = s0;
    if 0 <= i < ids.len() {
        release_graph_alloc_keeps_graphs(s, ids[i]);
        match s.release_graph_alloc(ids[i]) {
            (s, Err(e)) => {},
            (s, Ok(_v)) => {
                release_graph_allocs_from_keeps_graphs(s, ids, i + 1);
            },
        }
    }
}

/// [`Sim::ensure_event`] leaves the graphs as they are.
pub proof fn ensure_event_keeps_graphs(s0: SimState, event: EventId)
    ensures
        s0.ensure_event(event).graphs == s0.graphs,
{
}

/// [`Sim::graph_release_user_object_inner`] leaves the graphs as they are.
pub proof fn graph_release_user_object_inner_keeps_graphs(
    s0: SimState,
    graph: GraphId,
    object: UserObjectId,
    count: u32,
)
    ensures
        s0.graph_release_user_object_inner(graph, object, count).0.graphs == s0.graphs,
{
    reveal(SimState::graph_release_user_object_inner);
    let s = s0;
    match s.user_object(object) {
        Err(e) => {},
        Ok(_known) => {
            let held = s.held_by(graph, object);
            if !(count > held) {
                let next = held.saturating_sub(count);
                match s.user_object(object) {
                    Err(e) => {},
                    Ok(obj) => {
                        let (obj, s) = if next == 0 {
                            let obj = UserObjectView { graphs: obj.graphs.remove(graph), ..obj };
                            let s = SimState {
                                user_objects: s.user_objects.insert(object, obj),
                                ..s
                            };
                            (obj, s)
                        } else {
                            let obj = UserObjectView {
                                graphs: obj.graphs.insert(graph, next),
                                ..obj
                            };
                            let s = SimState {
                                user_objects: s.user_objects.insert(object, obj),
                                ..s
                            };
                            (obj, s)
                        };
                        maybe_destroy_user_object_keeps_graphs(s, object);
                    },
                }
            }
        },
    }
}

/// [`Sim::release_user_objects_for_graph`] leaves the graphs as they are.
pub proof fn release_user_objects_for_graph_keeps_graphs(s0: SimState, graph: GraphId)
    ensures
        s0.release_user_objects_for_graph(graph).graphs == s0.graphs,
{
    let s = s0;
    let ids = s.objects_of(graph);
    release_user_objects_for_graph_from_keeps_graphs(s, graph, ids, 0);
}

/// [`Sim::release_user_objects_for_graph`] leaves the graphs as they are.
pub proof fn release_user_objects_for_graph_from_keeps_graphs(
    s0: SimState,
    graph: GraphId,
    ids: Seq<(UserObjectId, u32)>,
    i: int,
)
    ensures
        s0.release_user_objects_for_graph_from(graph, ids, i).graphs == s0.graphs,
    decreases ids.len() - i,
{
    let s = s0;
    if 0 <= i < ids.len() {
        graph_release_user_object_inner_keeps_graphs(s, graph, ids[i].0, ids[i].1);
        let s = s.graph_release_user_object_inner(graph, ids[i].0, ids[i].1).0;
        release_user_objects_for_graph_from_keeps_graphs(s, graph, ids, i + 1);
    }
}

/// [`Sim::maybe_destroy_user_object`] leaves the graphs as they are.
pub proof fn maybe_destroy_user_object_keeps_graphs(s0: SimState, object: UserObjectId)
    ensures
        s0.maybe_destroy_user_object(object).graphs == s0.graphs,
{
}

/// [`Sim::capture_event`] leaves the graphs as they are.
pub proof fn capture_event_keeps_graphs(s0: SimState, event: EventId)
    ensures
        s0.capture_event(event).graphs == s0.graphs,
{
}

/// [`Sim::capture_events`] leaves the graphs as they are.
pub proof fn capture_events_keeps_graphs(s0: SimState, kind: GpuOpView)
    ensures
        s0.capture_events(kind).graphs == s0.graphs,
{
    reveal(SimState::capture_events);
    let s = s0;
    match kind {
        GpuOpView::EventRecord { event, external } => {
            if !external {
                capture_event_keeps_graphs(s, event);
            }
        },
        _ => {},
    }
    let s = match kind {
        GpuOpView::EventRecord { event, external } => {
            let s = if !external {
                let s = s.capture_event(event);
                s
            } else {
                s
            };
            s
        },
        _ => s,
    };
    match s.enq.programmatic_event {
        Some(pe) => {
            ensure_event_keeps_graphs(s, pe.event);
            let s = s.ensure_event(pe.event);
            if !pe.external {
                capture_event_keeps_graphs(s, pe.event);
            }
        },
        _ => {},
    }
    let s = match s.enq.programmatic_event {
        Some(pe) => {
            let s = s.ensure_event(pe.event);
            let s = if !pe.external {
                let s = s.capture_event(pe.event);
                s
            } else {
                s
            };
            s
        },
        _ => s,
    };
    match s.enq.launch_completion {
        Some(lc) => {
            ensure_event_keeps_graphs(s, lc.event);
            let s = s.ensure_event(lc.event);
            if !lc.external {
                capture_event_keeps_graphs(s, lc.event);
            }
        },
        _ => {},
    }
}

/// [`Sim::take_pending`] leaves the graphs as they are.
pub proof fn take_pending_keeps_graphs(s0: SimState, device: DeviceId, stream: StreamId)
    ensures
        s0.take_pending(device, stream).0.graphs == s0.graphs,
{
}

/// [`Sim::merge_capture_pending`] leaves the graphs as they are.
pub proof fn merge_capture_pending_keeps_graphs(
    s0: SimState,
    device: DeviceId,
    stream: StreamId,
    first: Seq<usize>,
)
    ensures
        s0.merge_capture_pending(device, stream, first).0.graphs == s0.graphs,
{
    reveal(SimState::merge_capture_pending);
    let s = s0;
    take_pending_keeps_graphs(s, device, stream);
}

/// [`Sim::ensure_event`] leaves the operations as they are.
pub proof fn ensure_event_keeps_ops(s0: SimState, event: EventId)
    ensures
        s0.ensure_event(event).ops == s0.ops,
{
}

/// [`Sim::take_op_id`] leaves the operations as they are.
pub proof fn take_op_id_keeps_ops(s0: SimState)
    ensures
        s0.take_op_id().0.ops == s0.ops,
{
}

/// [`Sim::capture_event`] leaves the operations as they are.
pub proof fn capture_event_keeps_ops(s0: SimState, event: EventId)
    ensures
        s0.capture_event(event).ops == s0.ops,
{
}

/// [`Sim::capture_events`] leaves the operations as they are.
pub proof fn capture_events_keeps_ops(s0: SimState, kind: GpuOpView)
    ensures
        s0.capture_events(kind).ops == s0.ops,
{
    reveal(SimState::capture_events);
    let s = s0;
    match kind {
        GpuOpView::EventRecord { event, external } => {
            if !external {
                capture_event_keeps_ops(s, event);
            }
        },
        _ => {},
    }
    let s = match kind {
        GpuOpView::EventRecord { event, external } => {
            let s = if !external {
                let s = s.capture_event(event);
                s
            } else {
                s
            };
            s
        },
        _ => s,
    };
    match s.enq.programmatic_event {
        Some(pe) => {
            ensure_event_keeps_ops(s, pe.event);
            let s = s.ensure_event(pe.event);
            if !pe.external {
                capture_event_keeps_ops(s, pe.event);
            }
        },
        _ => {},
    }
    let s = match s.enq.programmatic_event {
        Some(pe) => {
            let s = s.ensure_event(pe.event);
            let s = if !pe.external {
                let s = s.capture_event(pe.event);
                s
            } else {
                s
            };
            s
        },
        _ => s,
    };
    match s.enq.launch_completion {
        Some(lc) => {
            ensure_event_keeps_ops(s, lc.event);
            let s = s.ensure_event(lc.event);
            if !lc.external {
                capture_event_keeps_ops(s, lc.event);
            }
        },
        _ => {},
    }
}

/// [`Sim::take_pending`] leaves the operations as they are.
pub proof fn take_pending_keeps_ops(s0: SimState, device: DeviceId, stream: StreamId)
    ensures
        s0.take_pending(device, stream).0.ops == s0.ops,
{
}

/// [`Sim::merge_capture_pending`] leaves the operations as they are.
pub proof fn merge_capture_pending_keeps_ops(
    s0: SimState,
    device: DeviceId,
    stream: StreamId,
    first: Seq<usize>,
)
    ensures
        s0.merge_capture_pending(device, stream, first).0.ops == s0.ops,
{
    reveal(SimState::merge_capture_pending);
    let s = s0;
    take_pending_keeps_ops(s, device, stream);
}

/// [`Sim::record_captured`] leaves the operations as they are.
pub proof fn record_captured_keeps_ops(
    s0: SimState,
    device: DeviceId,
    stream: StreamId,
    kind: GpuOpView,
)
    ensures
        s0.record_captured(device, stream, kind).0.ops == s0.ops,
{
    reveal(SimState::record_captured);
    let s = s0;
    capture_events_keeps_ops(s, kind);
    let s = s.capture_events(kind);
    let first = s.capture_step_deps(device, stream, kind);
    merge_capture_pending_keeps_ops(s, device, stream, first);
    let (s, deps) = s.merge_capture_pending(device, stream, first);
    let priority = s.snap_priority(device, stream);
    match s.snap_mem_sync(device, stream, kind) {
        Err(e) => {},
        Ok((domain, map)) => {
            let attrs = s.node_attrs(priority, domain, map);
            let step = StepView {
                device,
                stream,
                kind,
                deps,
                enabled: true,
                destroyed: false,
                attrs,
            };
            let s = SimState { capture_buf: s.capture_buf.push(step), ..s };
            take_op_id_keeps_ops(s);
        },
    }
}

/// [`Sim::ensure_event`] leaves what is in flight as it is.
pub proof fn ensure_event_keeps_running(s0: SimState, event: EventId)
    ensures
        s0.ensure_event(event).running == s0.running,
{
}

/// [`Sim::cancel_each`] leaves what is in flight as it is.
pub proof fn cancel_each_keeps_running(s0: SimState, ids: Seq<OpId>)
    ensures
        s0.cancel_each(ids).0.running == s0.running,
{
    let s = s0;
    let n = 0;
    cancel_each_from_keeps_running(s, ids, n, 0);
}

/// [`Sim::cancel_each`] leaves what is in flight as it is.
pub proof fn cancel_each_from_keeps_running(s0: SimState, ids: Seq<OpId>, n: u32, i: int)
    ensures
        s0.cancel_each_from(ids, n, i).0.running == s0.running,
    decreases ids.len() - i,
{
    let s = s0;
    if 0 <= i < ids.len() {
        let now = s.clock;
        let (n, s) = match s.ops.get(ids[i]) {
            Some(op) => {
                let op = OpView { cancelled: true, done: true, done_ns: Some(now), ..op };
                let s = SimState { ops: s.ops.insert(ids[i], op), ..s };
                let n = n.saturating_add(1);
                (n, s)
            },
            _ => (n, s),
        };
        cancel_each_from_keeps_running(s, ids, n, i + 1);
    }
}

/// [`Sim::take_op_id`] leaves what is in flight as it is.
pub proof fn take_op_id_keeps_running(s0: SimState)
    ensures
        s0.take_op_id().0.running == s0.running,
{
}

/// [`Sim::capture_event`] leaves what is in flight as it is.
pub proof fn capture_event_keeps_running(s0: SimState, event: EventId)
    ensures
        s0.capture_event(event).running == s0.running,
{
}

/// [`Sim::capture_events`] leaves what is in flight as it is.
pub proof fn capture_events_keeps_running(s0: SimState, kind: GpuOpView)
    ensures
        s0.capture_events(kind).running == s0.running,
{
    reveal(SimState::capture_events);
    let s = s0;
    match kind {
        GpuOpView::EventRecord { event, external } => {
            if !external {
                capture_event_keeps_running(s, event);
            }
        },
        _ => {},
    }
    let s = match kind {
        GpuOpView::EventRecord { event, external } => {
            let s = if !external {
                let s = s.capture_event(event);
                s
            } else {
                s
            };
            s
        },
        _ => s,
    };
    match s.enq.programmatic_event {
        Some(pe) => {
            ensure_event_keeps_running(s, pe.event);
            let s = s.ensure_event(pe.event);
            if !pe.external {
                capture_event_keeps_running(s, pe.event);
            }
        },
        _ => {},
    }
    let s = match s.enq.programmatic_event {
        Some(pe) => {
            let s = s.ensure_event(pe.event);
            let s = if !pe.external {
                let s = s.capture_event(pe.event);
                s
            } else {
                s
            };
            s
        },
        _ => s,
    };
    match s.enq.launch_completion {
        Some(lc) => {
            ensure_event_keeps_running(s, lc.event);
            let s = s.ensure_event(lc.event);
            if !lc.external {
                capture_event_keeps_running(s, lc.event);
            }
        },
        _ => {},
    }
}

/// [`Sim::take_pending`] leaves what is in flight as it is.
pub proof fn take_pending_keeps_running(s0: SimState, device: DeviceId, stream: StreamId)
    ensures
        s0.take_pending(device, stream).0.running == s0.running,
{
}

/// [`Sim::merge_capture_pending`] leaves what is in flight as it is.
pub proof fn merge_capture_pending_keeps_running(
    s0: SimState,
    device: DeviceId,
    stream: StreamId,
    first: Seq<usize>,
)
    ensures
        s0.merge_capture_pending(device, stream, first).0.running == s0.running,
{
    reveal(SimState::merge_capture_pending);
    let s = s0;
    take_pending_keeps_running(s, device, stream);
}

/// [`Sim::record_captured`] leaves what is in flight as it is.
pub proof fn record_captured_keeps_running(
    s0: SimState,
    device: DeviceId,
    stream: StreamId,
    kind: GpuOpView,
)
    ensures
        s0.record_captured(device, stream, kind).0.running == s0.running,
{
    reveal(SimState::record_captured);
    let s = s0;
    capture_events_keeps_running(s, kind);
    let s = s.capture_events(kind);
    let first = s.capture_step_deps(device, stream, kind);
    merge_capture_pending_keeps_running(s, device, stream, first);
    let (s, deps) = s.merge_capture_pending(device, stream, first);
    let priority = s.snap_priority(device, stream);
    match s.snap_mem_sync(device, stream, kind) {
        Err(e) => {},
        Ok((domain, map)) => {
            let attrs = s.node_attrs(priority, domain, map);
            let step = StepView {
                device,
                stream,
                kind,
                deps,
                enabled: true,
                destroyed: false,
                attrs,
            };
            let s = SimState { capture_buf: s.capture_buf.push(step), ..s };
            take_op_id_keeps_running(s);
        },
    }
}

/// [`Sim::bump_hbm_peak`] leaves the operations, what is in flight, the numbers and the time as they are.
pub proof fn bump_hbm_peak_keeps_work(s0: SimState, device: DeviceId)
    ensures
        s0.bump_hbm_peak(device).0.ops == s0.ops,
        s0.bump_hbm_peak(device).0.running == s0.running,
        s0.bump_hbm_peak(device).0.next == s0.next,
        s0.bump_hbm_peak(device).0.clock == s0.clock,
{
}

/// [`Sim::reserve_hbm`] leaves the operations, what is in flight, the numbers and the time as they are.
pub proof fn reserve_hbm_keeps_work(s0: SimState, device: DeviceId, bytes: u64)
    ensures
        s0.reserve_hbm(device, bytes).0.ops == s0.ops,
        s0.reserve_hbm(device, bytes).0.running == s0.running,
        s0.reserve_hbm(device, bytes).0.next == s0.next,
        s0.reserve_hbm(device, bytes).0.clock == s0.clock,
{
    reveal(SimState::reserve_hbm);
    let s = s0;
    match s.profile.gpu(device) {
        Err(e) => {},
        Ok(gpu) => match s.gpu_rt(device) {
            Err(e) => {},
            Ok(rt) => {
                let used = rt.used;
                let free = gpu.hbm_bytes.saturating_sub(used);
                if !(bytes > free) {
                    match s.gpu_rt(device) {
                        Err(e) => {},
                        Ok(rt) => {
                            let s = SimState {
                                gpus: s.gpus.insert(
                                    device,
                                    GpuRtView { used: used.saturating_add(bytes), ..rt },
                                ),
                                ..s
                            };
                            bump_hbm_peak_keeps_work(s, device);
                        },
                    }
                }
            },
        },
    }
}

/// [`Sim::refund_hbm`] leaves the operations, what is in flight, the numbers and the time as they are.
pub proof fn refund_hbm_keeps_work(s0: SimState, device: DeviceId, bytes: u64)
    ensures
        s0.refund_hbm(device, bytes).0.ops == s0.ops,
        s0.refund_hbm(device, bytes).0.running == s0.running,
        s0.refund_hbm(device, bytes).0.next == s0.next,
        s0.refund_hbm(device, bytes).0.clock == s0.clock,
{
}

/// [`Sim::pool_acquire`] leaves the operations, what is in flight, the numbers and the time as they are.
pub proof fn pool_acquire_keeps_work(s0: SimState, pool: PoolId, bytes: u64)
    ensures
        s0.pool_acquire(pool, bytes).0.ops == s0.ops,
        s0.pool_acquire(pool, bytes).0.running == s0.running,
        s0.pool_acquire(pool, bytes).0.next == s0.next,
        s0.pool_acquire(pool, bytes).0.clock == s0.clock,
{
    reveal(SimState::pool_acquire);
    let s = s0;
    match s.pool_root(pool) {
        Err(e) => {},
        Ok(root) => match s.pool_ref(root) {
            Err(e) => {},
            Ok(p0) => {
                let device = p0.device;
                let cached = p0.cached;
                match s.profile.gpu(device) {
                    Err(e) => {},
                    Ok(gpu) => {
                        if !(cached >= bytes) {
                            reserve_hbm_keeps_work(s, device, bytes.saturating_sub(cached));
                        }
                    },
                }
            },
        },
    }
}

/// [`Sim::pool_release`] leaves the operations, what is in flight, the numbers and the time as they are.
pub proof fn pool_release_keeps_work(s0: SimState, pool: PoolId, bytes: u64)
    ensures
        s0.pool_release(pool, bytes).0.ops == s0.ops,
        s0.pool_release(pool, bytes).0.running == s0.running,
        s0.pool_release(pool, bytes).0.next == s0.next,
        s0.pool_release(pool, bytes).0.clock == s0.clock,
{
    reveal(SimState::pool_release);
    let s = s0;
    match s.pool_root(pool) {
        Err(e) => {},
        Ok(root) => match s.pool_ref(root) {
            Err(e) => {},
            Ok(p0) => {
                let device = p0.device;
                let threshold = p0.release_threshold;
                let cached = p0.cached.saturating_add(bytes);
                let live = p0.live.saturating_sub(bytes);
                match s.pool_ref(root) {
                    Err(e) => {},
                    Ok(p) => {
                        let p = PoolView {
                            live: live,
                            cached: if cached > threshold { threshold } else { cached },
                            ..p
                        };
                        let s = SimState { pools: s.pools.insert(root, p), ..s };
                        if cached > threshold {
                            refund_hbm_keeps_work(s, device, cached.saturating_sub(threshold));
                        }
                    },
                }
            },
        },
    }
}

/// [`Sim::refund_device`] leaves the operations, what is in flight, the numbers and the time as they are.
pub proof fn refund_device_keeps_work(s0: SimState, device: DeviceId, alloc: AllocId, bytes: u64)
    ensures
        s0.refund_device(device, alloc, bytes).0.ops == s0.ops,
        s0.refund_device(device, alloc, bytes).0.running == s0.running,
        s0.refund_device(device, alloc, bytes).0.next == s0.next,
        s0.refund_device(device, alloc, bytes).0.clock == s0.clock,
{
    let s = s0;
    match s.alloc_ref(alloc) {
        Err(e) => {},
        Ok(a) => match a.pool {
            Some(p) => match s.pool_ref(p) {
                Err(e) => {},
                Ok(owner) => if owner.device == device {
                    pool_release_keeps_work(s, p, bytes);
                } else {
                    refund_hbm_keeps_work(s, device, bytes);
                },
            },
            None => {
                refund_hbm_keeps_work(s, device, bytes);
            },
        },
    }
}

/// [`Sim::apply_mailbox_write`] leaves the operations, what is in flight, the numbers and the time as they are.
pub proof fn apply_mailbox_write_keeps_work(
    s0: SimState,
    id: AllocId,
    offset: u64,
    value: u64,
    bits32: bool,
)
    ensures
        s0.apply_mailbox_write(id, offset, value, bits32).ops == s0.ops,
        s0.apply_mailbox_write(id, offset, value, bits32).running == s0.running,
        s0.apply_mailbox_write(id, offset, value, bits32).next == s0.next,
        s0.apply_mailbox_write(id, offset, value, bits32).clock == s0.clock,
{
}

/// [`Sim::clear_mailbox`] leaves the operations, what is in flight, the numbers and the time as they are.
pub proof fn clear_mailbox_keeps_work(s0: SimState, id: AllocId)
    ensures
        s0.clear_mailbox(id).ops == s0.ops,
        s0.clear_mailbox(id).running == s0.running,
        s0.clear_mailbox(id).next == s0.next,
        s0.clear_mailbox(id).clock == s0.clock,
{
}

/// [`Sim::close_alias`] leaves the operations, what is in flight, the numbers and the time as they are.
pub proof fn close_alias_keeps_work(s0: SimState, id: AllocId)
    ensures
        s0.close_alias(id).0.ops == s0.ops,
        s0.close_alias(id).0.running == s0.running,
        s0.close_alias(id).0.next == s0.next,
        s0.close_alias(id).0.clock == s0.clock,
{
    let s = s0;
    match s.alloc_ref(id) {
        Err(e) => {},
        Ok(a) => {
            let a = AllocView { live: false, devices: Seq::empty(), ..a };
            let s = SimState { allocs: s.allocs.insert(id, a), ..s };
            clear_mailbox_keeps_work(s, id);
        },
    }
}

/// [`Sim::drop_ipc_import`] leaves the operations, what is in flight, the numbers and the time as they are.
pub proof fn drop_ipc_import_keeps_work(s0: SimState, id: AllocId)
    ensures
        s0.drop_ipc_import(id).0.ops == s0.ops,
        s0.drop_ipc_import(id).0.running == s0.running,
        s0.drop_ipc_import(id).0.next == s0.next,
        s0.drop_ipc_import(id).0.clock == s0.clock,
{
    reveal(SimState::drop_ipc_import);
    let s = s0;
    match s.alloc_ref(id) {
        Err(e) => {},
        Ok(alias) => match (
            match alias.ipc_src { Some(x) => Ok(x), None => Err(invalid("not ipc import")) }
        ) {
            Err(e) => {},
            Ok(src) => {
                if !(alias.leases > 0) {
                    match s.alloc_ref(src) {
                        Err(e) => {},
                        Ok(from) => {
                            let from = AllocView {
                                ipc_opens: from.ipc_opens.saturating_sub(1),
                                ..from
                            };
                            let s = SimState { allocs: s.allocs.insert(src, from), ..s };
                            close_alias_keeps_work(s, id);
                        },
                    }
                }
            },
        },
    }
}

/// [`Sim::drop_share_import`] leaves the operations, what is in flight, the numbers and the time as they are.
pub proof fn drop_share_import_keeps_work(s0: SimState, id: AllocId)
    ensures
        s0.drop_share_import(id).0.ops == s0.ops,
        s0.drop_share_import(id).0.running == s0.running,
        s0.drop_share_import(id).0.next == s0.next,
        s0.drop_share_import(id).0.clock == s0.clock,
{
    reveal(SimState::drop_share_import);
    let s = s0;
    match s.alloc_ref(id) {
        Err(e) => {},
        Ok(alias) => match (
            match alias.share_src { Some(x) => Ok(x), None => Err(invalid("not share import")) }
        ) {
            Err(e) => {},
            Ok(src) => {
                if !(alias.leases > 0) {
                    match s.alloc_ref(src) {
                        Err(e) => {},
                        Ok(from) => {
                            let from = AllocView {
                                share_opens: from.share_opens.saturating_sub(1),
                                ..from
                            };
                            let s = SimState { allocs: s.allocs.insert(src, from), ..s };
                            close_alias_keeps_work(s, id);
                        },
                    }
                }
            },
        },
    }
}

/// [`Sim::migrate_off_except`] leaves the operations, what is in flight, the numbers and the time as they are.
pub proof fn migrate_off_except_keeps_work(s0: SimState, alloc: AllocId, keep: DeviceId)
    ensures
        s0.migrate_off_except(alloc, keep).0.ops == s0.ops,
        s0.migrate_off_except(alloc, keep).0.running == s0.running,
        s0.migrate_off_except(alloc, keep).0.next == s0.next,
        s0.migrate_off_except(alloc, keep).0.clock == s0.clock,
{
    let s = s0;
    match s.alloc_ref(alloc) {
        Err(e) => {},
        Ok(a0) => {
            let bytes = a0.bytes;
            let holders = a0.devices;
            migrate_off_except_from_keeps_work(s, alloc, keep, bytes, holders, 0);
        },
    }
}

/// [`Sim::migrate_off_except`] leaves the operations, what is in flight, the numbers and the time as they are.
pub proof fn migrate_off_except_from_keeps_work(
    s0: SimState,
    alloc: AllocId,
    keep: DeviceId,
    bytes: u64,
    holders: Seq<DeviceId>,
    i: int,
)
    ensures
        s0.migrate_off_except_from(alloc, keep, bytes, holders, i).0.ops == s0.ops,
        s0.migrate_off_except_from(alloc, keep, bytes, holders, i).0.running == s0.running,
        s0.migrate_off_except_from(alloc, keep, bytes, holders, i).0.next == s0.next,
        s0.migrate_off_except_from(alloc, keep, bytes, holders, i).0.clock == s0.clock,
    decreases holders.len() - i,
{
    let s = s0;
    if 0 <= i < holders.len() {
        let d = holders[i];
        if d == keep {
            migrate_off_except_from_keeps_work(s, alloc, keep, bytes, holders, i + 1);
        } else {
            refund_device_keeps_work(s, d, alloc, bytes);
            match s.refund_device(d, alloc, bytes) {
                (s, Err(e)) => {},
                (s, Ok(_v)) => match s.alloc_ref(alloc) {
                    Err(e) => {},
                    Ok(a) => {
                        let a = AllocView { devices: without(a.devices, d), ..a };
                        let s = SimState { allocs: s.allocs.insert(alloc, a), ..s };
                        migrate_off_except_from_keeps_work(s, alloc, keep, bytes, holders, i + 1);
                    },
                },
            }
        }
    }
}

/// [`Sim::migrate_off_all`] leaves the operations, what is in flight, the numbers and the time as they are.
pub proof fn migrate_off_all_keeps_work(s0: SimState, alloc: AllocId)
    ensures
        s0.migrate_off_all(alloc).0.ops == s0.ops,
        s0.migrate_off_all(alloc).0.running == s0.running,
        s0.migrate_off_all(alloc).0.next == s0.next,
        s0.migrate_off_all(alloc).0.clock == s0.clock,
{
    let s = s0;
    match s.alloc_ref(alloc) {
        Err(e) => {},
        Ok(a0) => {
            let bytes = a0.bytes;
            let holders = a0.devices;
            migrate_off_all_from_keeps_work(s, alloc, bytes, holders, 0);
        },
    }
}

/// [`Sim::migrate_off_all`] leaves the operations, what is in flight, the numbers and the time as they are.
pub proof fn migrate_off_all_from_keeps_work(
    s0: SimState,
    alloc: AllocId,
    bytes: u64,
    holders: Seq<DeviceId>,
    i: int,
)
    ensures
        s0.migrate_off_all_from(alloc, bytes, holders, i).0.ops == s0.ops,
        s0.migrate_off_all_from(alloc, bytes, holders, i).0.running == s0.running,
        s0.migrate_off_all_from(alloc, bytes, holders, i).0.next == s0.next,
        s0.migrate_off_all_from(alloc, bytes, holders, i).0.clock == s0.clock,
    decreases holders.len() - i,
{
    let s = s0;
    if 0 <= i < holders.len() {
        refund_device_keeps_work(s, holders[i], alloc, bytes);
        match s.refund_device(holders[i], alloc, bytes) {
            (s, Err(e)) => {},
            (s, Ok(_v)) => {
                migrate_off_all_from_keeps_work(s, alloc, bytes, holders, i + 1);
            },
        }
    }
}

/// [`Sim::charge_replica_hbm`] leaves the operations, what is in flight, the numbers and the time as they are.
pub proof fn charge_replica_hbm_keeps_work(s0: SimState, m: MemcpyOp)
    ensures
        s0.charge_replica_hbm(m).0.ops == s0.ops,
        s0.charge_replica_hbm(m).0.running == s0.running,
        s0.charge_replica_hbm(m).0.next == s0.next,
        s0.charge_replica_hbm(m).0.clock == s0.clock,
{
    let s = s0;
    match m.dst {
        Place::Device(dst) => match s.alloc_ref(m.alloc) {
            Err(e) => {},
            Ok(a) => {
                if !(a.devices.contains(dst)) {
                    let bytes = a.bytes;
                    reserve_hbm_keeps_work(s, dst, bytes);
                }
            },
        },
        Place::Host | Place::HostPinned => {},
    }
}

/// [`Sim::finish_memcpy`] leaves the operations, what is in flight, the numbers and the time as they are.
pub proof fn finish_memcpy_keeps_work(s0: SimState, device: DeviceId, m: MemcpyOp, dma: bool)
    ensures
        s0.finish_memcpy(device, m, dma).0.ops == s0.ops,
        s0.finish_memcpy(device, m, dma).0.running == s0.running,
        s0.finish_memcpy(device, m, dma).0.next == s0.next,
        s0.finish_memcpy(device, m, dma).0.clock == s0.clock,
{
    reveal(SimState::finish_memcpy);
    let s = s0;
    if dma {
        match s.gpu_rt(device) {
            Err(e) => {},
            Ok(rt) => {
                let rt = GpuRtView { copies: rt.copies.saturating_sub(1), ..rt };
                let s = SimState { gpus: s.gpus.insert(device, rt), ..s };
                let s = SimState {
                    bytes_moved: s.bytes_moved.saturating_add(m.payload_bytes()),
                    ..s
                };
                match s.alloc_ref(m.alloc) {
                    Err(e) => {},
                    Ok(a0) => {
                        let managed = a0.managed;
                        let read_mostly = a0.read_mostly;
                        match m.dst {
                            Place::Device(dst) => match s.alloc_ref(m.alloc) {
                                Err(e) => {},
                                Ok(a) => {
                                    let a = AllocView { devices: with_new(a.devices, dst), ..a };
                                    let s = SimState { allocs: s.allocs.insert(m.alloc, a), ..s };
                                    if managed && !read_mostly {
                                        migrate_off_except_keeps_work(s, m.alloc, dst);
                                    }
                                },
                            },
                            Place::Host => {
                                if managed {
                                    migrate_off_all_keeps_work(s, m.alloc);
                                }
                            },
                            Place::HostPinned => {
                                if managed {
                                    migrate_off_all_keeps_work(s, m.alloc);
                                }
                            },
                        }
                    },
                }
            },
        }
    } else {
        match s.alloc_ref(m.alloc) {
            Err(e) => {},
            Ok(a0) => {
                let managed = a0.managed;
                let read_mostly = a0.read_mostly;
                match m.dst {
                    Place::Device(dst) => match s.alloc_ref(m.alloc) {
                        Err(e) => {},
                        Ok(a) => {
                            let a = AllocView { devices: with_new(a.devices, dst), ..a };
                            let s = SimState { allocs: s.allocs.insert(m.alloc, a), ..s };
                            if managed && !read_mostly {
                                migrate_off_except_keeps_work(s, m.alloc, dst);
                            }
                        },
                    },
                    Place::Host => {
                        if managed {
                            migrate_off_all_keeps_work(s, m.alloc);
                        }
                    },
                    Place::HostPinned => {
                        if managed {
                            migrate_off_all_keeps_work(s, m.alloc);
                        }
                    },
                }
            },
        }
    }
}

/// [`Sim::ensure_event`] leaves the operations, what is in flight, the numbers and the time as they are.
pub proof fn ensure_event_keeps_work(s0: SimState, event: EventId)
    ensures
        s0.ensure_event(event).ops == s0.ops,
        s0.ensure_event(event).running == s0.running,
        s0.ensure_event(event).next == s0.next,
        s0.ensure_event(event).clock == s0.clock,
{
}

/// [`Sim::mark_recorded`] leaves the operations, what is in flight, the numbers and the time as they are.
pub proof fn mark_recorded_keeps_work(s0: SimState, root: EventId, op: OpId)
    ensures
        s0.mark_recorded(root, op).ops == s0.ops,
        s0.mark_recorded(root, op).running == s0.running,
        s0.mark_recorded(root, op).next == s0.next,
        s0.mark_recorded(root, op).clock == s0.clock,
{
}

/// [`Sim::unlease`] leaves the operations, what is in flight, the numbers and the time as they are.
pub proof fn unlease_keeps_work(s0: SimState, id: AllocId)
    ensures
        s0.unlease(id).0.ops == s0.ops,
        s0.unlease(id).0.running == s0.running,
        s0.unlease(id).0.next == s0.next,
        s0.unlease(id).0.clock == s0.clock,
{
}

/// [`Sim::unlease_bufs`] leaves the operations, what is in flight, the numbers and the time as they are.
pub proof fn unlease_bufs_keeps_work(s0: SimState, bufs: Seq<KernelBuf>)
    ensures
        s0.unlease_bufs(bufs).0.ops == s0.ops,
        s0.unlease_bufs(bufs).0.running == s0.running,
        s0.unlease_bufs(bufs).0.next == s0.next,
        s0.unlease_bufs(bufs).0.clock == s0.clock,
{
    let s = s0;
    unlease_bufs_from_keeps_work(s, bufs, 0);
}

/// [`Sim::unlease_bufs`] leaves the operations, what is in flight, the numbers and the time as they are.
pub proof fn unlease_bufs_from_keeps_work(s0: SimState, bufs: Seq<KernelBuf>, i: int)
    ensures
        s0.unlease_bufs_from(bufs, i).0.ops == s0.ops,
        s0.unlease_bufs_from(bufs, i).0.running == s0.running,
        s0.unlease_bufs_from(bufs, i).0.next == s0.next,
        s0.unlease_bufs_from(bufs, i).0.clock == s0.clock,
    decreases bufs.len() - i,
{
    let s = s0;
    if 0 <= i < bufs.len() {
        unlease_keeps_work(s, bufs[i].id);
        match s.unlease(bufs[i].id) {
            (s, Err(e)) => {},
            (s, Ok(_v)) => {
                unlease_bufs_from_keeps_work(s, bufs, i + 1);
            },
        }
    }
}

/// [`Sim::unlease_parts`] leaves the operations, what is in flight, the numbers and the time as they are.
pub proof fn unlease_parts_keeps_work(s0: SimState, parts: Seq<(DeviceId, AllocId)>)
    ensures
        s0.unlease_parts(parts).0.ops == s0.ops,
        s0.unlease_parts(parts).0.running == s0.running,
        s0.unlease_parts(parts).0.next == s0.next,
        s0.unlease_parts(parts).0.clock == s0.clock,
{
    let s = s0;
    unlease_parts_from_keeps_work(s, parts, 0);
}

/// [`Sim::unlease_parts`] leaves the operations, what is in flight, the numbers and the time as they are.
pub proof fn unlease_parts_from_keeps_work(s0: SimState, parts: Seq<(DeviceId, AllocId)>, i: int)
    ensures
        s0.unlease_parts_from(parts, i).0.ops == s0.ops,
        s0.unlease_parts_from(parts, i).0.running == s0.running,
        s0.unlease_parts_from(parts, i).0.next == s0.next,
        s0.unlease_parts_from(parts, i).0.clock == s0.clock,
    decreases parts.len() - i,
{
    let s = s0;
    if 0 <= i < parts.len() {
        unlease_keeps_work(s, parts[i].1);
        match s.unlease(parts[i].1) {
            (s, Err(e)) => {},
            (s, Ok(_v)) => {
                unlease_parts_from_keeps_work(s, parts, i + 1);
            },
        }
    }
}

/// [`Sim::apply_mailbox_writes`] leaves the operations, what is in flight, the numbers and the time as they are.
pub proof fn apply_mailbox_writes_keeps_work(s0: SimState, writes: Seq<(AllocId, u64, u64, bool)>)
    ensures
        s0.apply_mailbox_writes(writes).ops == s0.ops,
        s0.apply_mailbox_writes(writes).running == s0.running,
        s0.apply_mailbox_writes(writes).next == s0.next,
        s0.apply_mailbox_writes(writes).clock == s0.clock,
{
    let s = s0;
    apply_mailbox_writes_from_keeps_work(s, writes, 0);
}

/// [`Sim::apply_mailbox_writes`] leaves the operations, what is in flight, the numbers and the time as they are.
pub proof fn apply_mailbox_writes_from_keeps_work(
    s0: SimState,
    writes: Seq<(AllocId, u64, u64, bool)>,
    i: int,
)
    ensures
        s0.apply_mailbox_writes_from(writes, i).ops == s0.ops,
        s0.apply_mailbox_writes_from(writes, i).running == s0.running,
        s0.apply_mailbox_writes_from(writes, i).next == s0.next,
        s0.apply_mailbox_writes_from(writes, i).clock == s0.clock,
    decreases writes.len() - i,
{
    let s = s0;
    if 0 <= i < writes.len() {
        let (id, offset, value, bits32) = writes[i];
        apply_mailbox_write_keeps_work(s, id, offset, value, bits32);
        let s = s.apply_mailbox_write(id, offset, value, bits32);
        apply_mailbox_writes_from_keeps_work(s, writes, i + 1);
    }
}

/// [`Sim::finish_kernel`] leaves the operations, what is in flight, the numbers and the time as they are.
pub proof fn finish_kernel_keeps_work(
    s0: SimState,
    id: OpId,
    device: DeviceId,
    reads: Seq<KernelBuf>,
    writes: Seq<KernelBuf>,
)
    ensures
        s0.finish_kernel(id, device, reads, writes).0.ops == s0.ops,
        s0.finish_kernel(id, device, reads, writes).0.running == s0.running,
        s0.finish_kernel(id, device, reads, writes).0.next == s0.next,
        s0.finish_kernel(id, device, reads, writes).0.clock == s0.clock,
{
    reveal(SimState::finish_kernel);
    let s = s0;
    let moved = s.multicast_write_bytes(writes);
    match s.slots_of(id) {
        Err(e) => {},
        Ok(slots) => {
            drop_compute_n_keeps_work(s, device, slots);
            match s.drop_compute_n(device, slots) {
                (s, Err(e)) => {},
                (s, Ok(_v)) => {
                    unlease_bufs_keeps_work(s, reads);
                    match s.unlease_bufs(reads) {
                        (s, Err(e)) => {},
                        (s, Ok(_v)) => {
                            unlease_bufs_keeps_work(s, writes);
                        },
                    }
                },
            }
        },
    }
}

/// [`Sim::finish_alloc`] leaves the operations, what is in flight, the numbers and the time as they are.
pub proof fn finish_alloc_keeps_work(s0: SimState, alloc: AllocId, device: DeviceId)
    ensures
        s0.finish_alloc(alloc, device).0.ops == s0.ops,
        s0.finish_alloc(alloc, device).0.running == s0.running,
        s0.finish_alloc(alloc, device).0.next == s0.next,
        s0.finish_alloc(alloc, device).0.clock == s0.clock,
{
    reveal(SimState::finish_alloc);
}

/// [`Sim::finish_memset`] leaves the operations, what is in flight, the numbers and the time as they are.
pub proof fn finish_memset_keeps_work(s0: SimState, device: DeviceId, id: AllocId)
    ensures
        s0.finish_memset(device, id).0.ops == s0.ops,
        s0.finish_memset(device, id).0.running == s0.running,
        s0.finish_memset(device, id).0.next == s0.next,
        s0.finish_memset(device, id).0.clock == s0.clock,
{
    reveal(SimState::finish_memset);
    let s = s0;
    drop_compute_keeps_work(s, device);
    match s.drop_compute(device) {
        (s, Err(e)) => {},
        (s, Ok(_v)) => {
            unlease_keeps_work(s, id);
        },
    }
}

/// [`Sim::finish_allreduce`] leaves the operations, what is in flight, the numbers and the time as they are.
pub proof fn finish_allreduce_keeps_work(
    s0: SimState,
    device: DeviceId,
    parts: Seq<(DeviceId, AllocId)>,
)
    ensures
        s0.finish_allreduce(device, parts).0.ops == s0.ops,
        s0.finish_allreduce(device, parts).0.running == s0.running,
        s0.finish_allreduce(device, parts).0.next == s0.next,
        s0.finish_allreduce(device, parts).0.clock == s0.clock,
{
    reveal(SimState::finish_allreduce);
    let s = s0;
    drop_compute_keeps_work(s, device);
    match s.drop_compute(device) {
        (s, Err(e)) => {},
        (s, Ok(_v)) => {
            unlease_parts_keeps_work(s, parts);
        },
    }
}

/// [`Sim::finish_attach`] leaves the operations, what is in flight, the numbers and the time as they are.
pub proof fn finish_attach_keeps_work(
    s0: SimState,
    alloc: AllocId,
    flags: MemAttach,
    stream: StreamId,
)
    ensures
        s0.finish_attach(alloc, flags, stream).0.ops == s0.ops,
        s0.finish_attach(alloc, flags, stream).0.running == s0.running,
        s0.finish_attach(alloc, flags, stream).0.next == s0.next,
        s0.finish_attach(alloc, flags, stream).0.clock == s0.clock,
{
    reveal(SimState::finish_attach);
}

/// [`Sim::finish_kind`] leaves the operations, what is in flight, the numbers and the time as they are.
pub proof fn finish_kind_keeps_work(
    s0: SimState,
    id: OpId,
    device: DeviceId,
    stream: StreamId,
    dma: bool,
    kind: GpuOpView,
)
    ensures
        s0.finish_kind(id, device, stream, dma, kind).0.ops == s0.ops,
        s0.finish_kind(id, device, stream, dma, kind).0.running == s0.running,
        s0.finish_kind(id, device, stream, dma, kind).0.next == s0.next,
        s0.finish_kind(id, device, stream, dma, kind).0.clock == s0.clock,
{
    reveal(SimState::finish_kind);
    let s = s0;
    match kind {
        GpuOpView::Alloc { id: alloc, bytes } => {
            finish_alloc_keeps_work(s, alloc, device);
        },
        GpuOpView::Kernel { kind: k, reads, writes, cooperative } => {
            finish_kernel_keeps_work(s, id, device, reads, writes);
        },
        GpuOpView::Memset(op) => {
            finish_memset_keeps_work(s, device, op.id);
        },
        GpuOpView::AllReduce { parts, bytes } => {
            finish_allreduce_keeps_work(s, device, parts);
        },
        GpuOpView::DeviceLaunch { graph } => {
            drop_compute_keeps_work(s, device);
        },
        GpuOpView::Memcpy(m) => {
            finish_memcpy_keeps_work(s, device, m, dma);
        },
        GpuOpView::Attach { id: alloc, flags } => {
            finish_attach_keeps_work(s, alloc, flags, stream);
        },
        _ => {
            let writes = kind.mailbox_writes();
            apply_mailbox_writes_keeps_work(s, writes);
        },
    }
}

/// [`Sim::lease_bufs`] leaves the operations, what is in flight, the numbers and the time as they are.
pub proof fn lease_bufs_keeps_work(s0: SimState, bufs: Seq<KernelBuf>)
    ensures
        s0.lease_bufs(bufs).0.ops == s0.ops,
        s0.lease_bufs(bufs).0.running == s0.running,
        s0.lease_bufs(bufs).0.next == s0.next,
        s0.lease_bufs(bufs).0.clock == s0.clock,
{
    let s = s0;
    lease_bufs_from_keeps_work(s, bufs, 0);
}

/// [`Sim::lease_bufs`] leaves the operations, what is in flight, the numbers and the time as they are.
pub proof fn lease_bufs_from_keeps_work(s0: SimState, bufs: Seq<KernelBuf>, i: int)
    ensures
        s0.lease_bufs_from(bufs, i).0.ops == s0.ops,
        s0.lease_bufs_from(bufs, i).0.running == s0.running,
        s0.lease_bufs_from(bufs, i).0.next == s0.next,
        s0.lease_bufs_from(bufs, i).0.clock == s0.clock,
    decreases bufs.len() - i,
{
    let s = s0;
    if 0 <= i < bufs.len() {
        match s.alloc_ref(bufs[i].id) {
            Err(e) => {},
            Ok(a) => {
                let a = AllocView { leases: a.leases.saturating_add(1), ..a };
                let s = SimState { allocs: s.allocs.insert(bufs[i].id, a), ..s };
                lease_bufs_from_keeps_work(s, bufs, i + 1);
            },
        }
    }
}

/// [`Sim::lease_kernel`] leaves the operations, what is in flight, the numbers and the time as they are.
pub proof fn lease_kernel_keeps_work(
    s0: SimState,
    device: DeviceId,
    reads: Seq<KernelBuf>,
    writes: Seq<KernelBuf>,
    mapped_ok: bool,
)
    ensures
        s0.lease_kernel(device, reads, writes, mapped_ok).0.ops == s0.ops,
        s0.lease_kernel(device, reads, writes, mapped_ok).0.running == s0.running,
        s0.lease_kernel(device, reads, writes, mapped_ok).0.next == s0.next,
        s0.lease_kernel(device, reads, writes, mapped_ok).0.clock == s0.clock,
{
    let s = s0;
    match s.require_bufs_on_device(device, reads, mapped_ok, true) {
        Err(e) => {},
        Ok(_v) => match s.require_bufs_on_device(device, writes, mapped_ok, false) {
            Err(e) => {},
            Ok(_v) => {
                lease_bufs_keeps_work(s, reads);
                match s.lease_bufs(reads) {
                    (s, Err(e)) => {},
                    (s, Ok(_v)) => {
                        lease_bufs_keeps_work(s, writes);
                    },
                }
            },
        },
    }
}

/// [`Sim::migrate_each`] leaves the operations, what is in flight, the numbers and the time as they are.
pub proof fn migrate_each_keeps_work(s0: SimState, ids: Seq<AllocId>, keep: DeviceId)
    ensures
        s0.migrate_each(ids, keep).0.ops == s0.ops,
        s0.migrate_each(ids, keep).0.running == s0.running,
        s0.migrate_each(ids, keep).0.next == s0.next,
        s0.migrate_each(ids, keep).0.clock == s0.clock,
{
    let s = s0;
    migrate_each_from_keeps_work(s, ids, keep, 0);
}

/// [`Sim::migrate_each`] leaves the operations, what is in flight, the numbers and the time as they are.
pub proof fn migrate_each_from_keeps_work(s0: SimState, ids: Seq<AllocId>, keep: DeviceId, i: int)
    ensures
        s0.migrate_each_from(ids, keep, i).0.ops == s0.ops,
        s0.migrate_each_from(ids, keep, i).0.running == s0.running,
        s0.migrate_each_from(ids, keep, i).0.next == s0.next,
        s0.migrate_each_from(ids, keep, i).0.clock == s0.clock,
    decreases ids.len() - i,
{
    let s = s0;
    if 0 <= i < ids.len() {
        migrate_off_except_keeps_work(s, ids[i], keep);
        match s.migrate_off_except(ids[i], keep) {
            (s, Err(e)) => {},
            (s, Ok(_v)) => {
                migrate_each_from_keeps_work(s, ids, keep, i + 1);
            },
        }
    }
}

/// [`Sim::invalidate_read_mostly_writes`] leaves the operations, what is in flight, the numbers and the time as they are.
pub proof fn invalidate_read_mostly_writes_keeps_work(
    s0: SimState,
    device: DeviceId,
    writes: Seq<KernelBuf>,
)
    ensures
        s0.invalidate_read_mostly_writes(device, writes).0.ops == s0.ops,
        s0.invalidate_read_mostly_writes(device, writes).0.running == s0.running,
        s0.invalidate_read_mostly_writes(device, writes).0.next == s0.next,
        s0.invalidate_read_mostly_writes(device, writes).0.clock == s0.clock,
{
    let s = s0;
    match s.replicated_writes(writes) {
        Err(e) => {},
        Ok(ids) => {
            let list = order_of(ids);
            migrate_each_keeps_work(s, list, device);
        },
    }
}

/// [`Sim::persist_kernel_bytes`] leaves the operations, what is in flight, the numbers and the time as they are.
pub proof fn persist_kernel_bytes_keeps_work(
    s0: SimState,
    device: DeviceId,
    window: Option<AccessPolicyWindow>,
    kind: KernelKind,
    bufs: Seq<KernelBuf>,
)
    ensures
        s0.persist_kernel_bytes(device, window, kind, bufs).0.ops == s0.ops,
        s0.persist_kernel_bytes(device, window, kind, bufs).0.running == s0.running,
        s0.persist_kernel_bytes(device, window, kind, bufs).0.next == s0.next,
        s0.persist_kernel_bytes(device, window, kind, bufs).0.clock == s0.clock,
{
    reveal(SimState::persist_kernel_bytes);
}

/// [`Sim::bill_kernel`] leaves the operations, what is in flight, the numbers and the time as they are.
pub proof fn bill_kernel_keeps_work(
    s0: SimState,
    id: OpId,
    device: DeviceId,
    stream: StreamId,
    launch: LaunchCost,
    kind: KernelKind,
    reads: Seq<KernelBuf>,
    writes: Seq<KernelBuf>,
    mem_bps: u64,
)
    ensures
        s0.bill_kernel(id, device, stream, launch, kind, reads, writes, mem_bps).0.ops == s0.ops,
        s0.bill_kernel(
            id,
            device,
            stream,
            launch,
            kind,
            reads,
            writes,
            mem_bps,
        ).0.running == s0.running,
        s0.bill_kernel(id, device, stream, launch, kind, reads, writes, mem_bps).0.next == s0.next,
        s0.bill_kernel(
            id,
            device,
            stream,
            launch,
            kind,
            reads,
            writes,
            mem_bps,
        ).0.clock == s0.clock,
{
    reveal(SimState::bill_kernel);
    let s = s0;
    lease_kernel_keeps_work(s, device, reads, writes, true);
    match s.lease_kernel(device, reads, writes, true) {
        (s, Err(e)) => {},
        (s, Ok(_v)) => {
            invalidate_read_mostly_writes_keeps_work(s, device, writes);
            match s.invalidate_read_mostly_writes(device, writes) {
                (s, Err(e)) => {},
                (s, Ok(_v)) => match s.op_ref(id) {
                    Err(e) => {},
                    Ok(row) => {
                        let window = row.attrs.access_policy;
                        let shared_mem = row.attrs.shared_mem;
                        let bufs = (reads + writes);
                        persist_kernel_bytes_keeps_work(s, device, window, kind, bufs);
                    },
                },
            }
        },
    }
}

/// [`Sim::bill_memset`] leaves the operations, what is in flight, the numbers and the time as they are.
pub proof fn bill_memset_keeps_work(
    s0: SimState,
    device: DeviceId,
    launch: LaunchCost,
    op: MemsetOp,
)
    ensures
        s0.bill_memset(device, launch, op).0.ops == s0.ops,
        s0.bill_memset(device, launch, op).0.running == s0.running,
        s0.bill_memset(device, launch, op).0.next == s0.next,
        s0.bill_memset(device, launch, op).0.clock == s0.clock,
{
    reveal(SimState::bill_memset);
    let s = s0;
    let none = Seq::empty();
    let writes = seq![KernelBuf::span(op.id, op.offset, op.extent_bytes())];
    lease_kernel_keeps_work(s, device, none, writes, false);
    match s.lease_kernel(device, none, writes, false) {
        (s, Err(e)) => {},
        (s, Ok(_v)) => {
            invalidate_read_mostly_writes_keeps_work(s, device, writes);
        },
    }
}

/// [`Sim::drop_copy`] leaves the operations, what is in flight, the numbers and the time as they are.
pub proof fn drop_copy_keeps_work(s0: SimState, device: DeviceId, alloc: AllocId, bytes: u64)
    ensures
        s0.drop_copy(device, alloc, bytes).0.ops == s0.ops,
        s0.drop_copy(device, alloc, bytes).0.running == s0.running,
        s0.drop_copy(device, alloc, bytes).0.next == s0.next,
        s0.drop_copy(device, alloc, bytes).0.clock == s0.clock,
{
    reveal(SimState::drop_copy);
    let s = s0;
    refund_device_keeps_work(s, device, alloc, bytes);
    match s.refund_device(device, alloc, bytes) {
        (s, Err(e)) => {},
        (s, Ok(_v)) => match s.alloc_ref(alloc) {
            Err(e) => {},
            Ok(a) => {
                let a = AllocView { devices: without(a.devices, device), ..a };
                let gone = a.devices.len() == 0 && !a.host_pinned;
                let a = AllocView { live: a.live && !gone, ..a };
                let s = SimState { allocs: s.allocs.insert(alloc, a), ..s };
                if gone {
                    clear_mailbox_keeps_work(s, alloc);
                }
            },
        },
    }
}

/// [`Sim::lease_parts`] leaves the operations, what is in flight, the numbers and the time as they are.
pub proof fn lease_parts_keeps_work(s0: SimState, parts: Seq<(DeviceId, AllocId)>)
    ensures
        s0.lease_parts(parts).0.ops == s0.ops,
        s0.lease_parts(parts).0.running == s0.running,
        s0.lease_parts(parts).0.next == s0.next,
        s0.lease_parts(parts).0.clock == s0.clock,
{
    let s = s0;
    lease_parts_from_keeps_work(s, parts, 0);
}

/// [`Sim::lease_parts`] leaves the operations, what is in flight, the numbers and the time as they are.
pub proof fn lease_parts_from_keeps_work(s0: SimState, parts: Seq<(DeviceId, AllocId)>, i: int)
    ensures
        s0.lease_parts_from(parts, i).0.ops == s0.ops,
        s0.lease_parts_from(parts, i).0.running == s0.running,
        s0.lease_parts_from(parts, i).0.next == s0.next,
        s0.lease_parts_from(parts, i).0.clock == s0.clock,
    decreases parts.len() - i,
{
    let s = s0;
    if 0 <= i < parts.len() {
        match s.alloc_ref(parts[i].1) {
            Err(e) => {},
            Ok(a) => {
                let a = AllocView { leases: a.leases.saturating_add(1), ..a };
                let s = SimState { allocs: s.allocs.insert(parts[i].1, a), ..s };
                lease_parts_from_keeps_work(s, parts, i + 1);
            },
        }
    }
}

/// [`Sim::take_compute`] leaves the operations, what is in flight, the numbers and the time as they are.
pub proof fn take_compute_keeps_work(s0: SimState, device: DeviceId)
    ensures
        s0.take_compute(device).0.ops == s0.ops,
        s0.take_compute(device).0.running == s0.running,
        s0.take_compute(device).0.next == s0.next,
        s0.take_compute(device).0.clock == s0.clock,
{
    let s = s0;
    take_compute_n_keeps_work(s, device, 1);
}

/// [`Sim::take_compute_n`] leaves the operations, what is in flight, the numbers and the time as they are.
pub proof fn take_compute_n_keeps_work(s0: SimState, device: DeviceId, n: u8)
    ensures
        s0.take_compute_n(device, n).0.ops == s0.ops,
        s0.take_compute_n(device, n).0.running == s0.running,
        s0.take_compute_n(device, n).0.next == s0.next,
        s0.take_compute_n(device, n).0.clock == s0.clock,
{
    reveal(SimState::take_compute_n);
}

/// [`Sim::drop_compute`] leaves the operations, what is in flight, the numbers and the time as they are.
pub proof fn drop_compute_keeps_work(s0: SimState, device: DeviceId)
    ensures
        s0.drop_compute(device).0.ops == s0.ops,
        s0.drop_compute(device).0.running == s0.running,
        s0.drop_compute(device).0.next == s0.next,
        s0.drop_compute(device).0.clock == s0.clock,
{
    let s = s0;
    drop_compute_n_keeps_work(s, device, 1);
}

/// [`Sim::drop_compute_n`] leaves the operations, what is in flight, the numbers and the time as they are.
pub proof fn drop_compute_n_keeps_work(s0: SimState, device: DeviceId, n: u8)
    ensures
        s0.drop_compute_n(device, n).0.ops == s0.ops,
        s0.drop_compute_n(device, n).0.running == s0.running,
        s0.drop_compute_n(device, n).0.next == s0.next,
        s0.drop_compute_n(device, n).0.clock == s0.clock,
{
}

/// [`Sim::ensure_launch_events`] leaves the operations, what is in flight, the numbers and the time as they are.
pub proof fn ensure_launch_events_keeps_work(s0: SimState)
    ensures
        s0.ensure_launch_events().ops == s0.ops,
        s0.ensure_launch_events().running == s0.running,
        s0.ensure_launch_events().next == s0.next,
        s0.ensure_launch_events().clock == s0.clock,
{
    let s = s0;
    match s.enq.programmatic_event {
        Some(pe) => {
            ensure_event_keeps_work(s, pe.event);
        },
        _ => {},
    }
    let s = match s.enq.programmatic_event {
        Some(pe) => {
            let s = s.ensure_event(pe.event);
            s
        },
        _ => s,
    };
    match s.enq.launch_completion {
        Some(lc) => {
            ensure_event_keeps_work(s, lc.event);
        },
        _ => {},
    }
}

/// [`Sim::mark_launch_events`] leaves the operations, what is in flight, the numbers and the time as they are.
pub proof fn mark_launch_events_keeps_work(
    s0: SimState,
    pde: Option<ProgrammaticEvent>,
    lce: Option<LaunchCompletionEvent>,
    id: OpId,
)
    ensures
        s0.mark_launch_events(pde, lce, id).ops == s0.ops,
        s0.mark_launch_events(pde, lce, id).running == s0.running,
        s0.mark_launch_events(pde, lce, id).next == s0.next,
        s0.mark_launch_events(pde, lce, id).clock == s0.clock,
{
    let s = s0;
    match pde {
        Some(pe) => {
            let root = s.event_root(pe.event);
            mark_recorded_keeps_work(s, root, id);
        },
        _ => {},
    }
    let s = match pde {
        Some(pe) => {
            let root = s.event_root(pe.event);
            let s = s.mark_recorded(root, id);
            s
        },
        _ => s,
    };
    match lce {
        Some(lc) => {
            let root = s.event_root(lc.event);
            mark_recorded_keeps_work(s, root, id);
        },
        _ => {},
    }
}

/// [`Sim::bump_hbm_peak`] takes no time.
pub proof fn bump_hbm_peak_keeps_clock(s0: SimState, device: DeviceId)
    ensures
        s0.bump_hbm_peak(device).0.clock == s0.clock,
{
}

/// [`Sim::reserve_hbm`] takes no time.
pub proof fn reserve_hbm_keeps_clock(s0: SimState, device: DeviceId, bytes: u64)
    ensures
        s0.reserve_hbm(device, bytes).0.clock == s0.clock,
{
    reveal(SimState::reserve_hbm);
    let s = s0;
    match s.profile.gpu(device) {
        Err(e) => {},
        Ok(gpu) => match s.gpu_rt(device) {
            Err(e) => {},
            Ok(rt) => {
                let used = rt.used;
                let free = gpu.hbm_bytes.saturating_sub(used);
                if !(bytes > free) {
                    match s.gpu_rt(device) {
                        Err(e) => {},
                        Ok(rt) => {
                            let s = SimState {
                                gpus: s.gpus.insert(
                                    device,
                                    GpuRtView { used: used.saturating_add(bytes), ..rt },
                                ),
                                ..s
                            };
                            bump_hbm_peak_keeps_clock(s, device);
                        },
                    }
                }
            },
        },
    }
}

/// [`Sim::refund_hbm`] takes no time.
pub proof fn refund_hbm_keeps_clock(s0: SimState, device: DeviceId, bytes: u64)
    ensures
        s0.refund_hbm(device, bytes).0.clock == s0.clock,
{
}

/// [`Sim::pool_acquire`] takes no time.
pub proof fn pool_acquire_keeps_clock(s0: SimState, pool: PoolId, bytes: u64)
    ensures
        s0.pool_acquire(pool, bytes).0.clock == s0.clock,
{
    reveal(SimState::pool_acquire);
    let s = s0;
    match s.pool_root(pool) {
        Err(e) => {},
        Ok(root) => match s.pool_ref(root) {
            Err(e) => {},
            Ok(p0) => {
                let device = p0.device;
                let cached = p0.cached;
                match s.profile.gpu(device) {
                    Err(e) => {},
                    Ok(gpu) => {
                        if !(cached >= bytes) {
                            reserve_hbm_keeps_clock(s, device, bytes.saturating_sub(cached));
                        }
                    },
                }
            },
        },
    }
}

/// [`Sim::pool_release`] takes no time.
pub proof fn pool_release_keeps_clock(s0: SimState, pool: PoolId, bytes: u64)
    ensures
        s0.pool_release(pool, bytes).0.clock == s0.clock,
{
    reveal(SimState::pool_release);
    let s = s0;
    match s.pool_root(pool) {
        Err(e) => {},
        Ok(root) => match s.pool_ref(root) {
            Err(e) => {},
            Ok(p0) => {
                let device = p0.device;
                let threshold = p0.release_threshold;
                let cached = p0.cached.saturating_add(bytes);
                let live = p0.live.saturating_sub(bytes);
                match s.pool_ref(root) {
                    Err(e) => {},
                    Ok(p) => {
                        let p = PoolView {
                            live: live,
                            cached: if cached > threshold { threshold } else { cached },
                            ..p
                        };
                        let s = SimState { pools: s.pools.insert(root, p), ..s };
                        if cached > threshold {
                            refund_hbm_keeps_clock(s, device, cached.saturating_sub(threshold));
                        }
                    },
                }
            },
        },
    }
}

/// [`Sim::refund_device`] takes no time.
pub proof fn refund_device_keeps_clock(s0: SimState, device: DeviceId, alloc: AllocId, bytes: u64)
    ensures
        s0.refund_device(device, alloc, bytes).0.clock == s0.clock,
{
    let s = s0;
    match s.alloc_ref(alloc) {
        Err(e) => {},
        Ok(a) => match a.pool {
            Some(p) => match s.pool_ref(p) {
                Err(e) => {},
                Ok(owner) => if owner.device == device {
                    pool_release_keeps_clock(s, p, bytes);
                } else {
                    refund_hbm_keeps_clock(s, device, bytes);
                },
            },
            None => {
                refund_hbm_keeps_clock(s, device, bytes);
            },
        },
    }
}

/// [`Sim::apply_mailbox_write`] takes no time.
pub proof fn apply_mailbox_write_keeps_clock(
    s0: SimState,
    id: AllocId,
    offset: u64,
    value: u64,
    bits32: bool,
)
    ensures
        s0.apply_mailbox_write(id, offset, value, bits32).clock == s0.clock,
{
}

/// [`Sim::clear_mailbox`] takes no time.
pub proof fn clear_mailbox_keeps_clock(s0: SimState, id: AllocId)
    ensures
        s0.clear_mailbox(id).clock == s0.clock,
{
}

/// [`Sim::close_alias`] takes no time.
pub proof fn close_alias_keeps_clock(s0: SimState, id: AllocId)
    ensures
        s0.close_alias(id).0.clock == s0.clock,
{
    let s = s0;
    match s.alloc_ref(id) {
        Err(e) => {},
        Ok(a) => {
            let a = AllocView { live: false, devices: Seq::empty(), ..a };
            let s = SimState { allocs: s.allocs.insert(id, a), ..s };
            clear_mailbox_keeps_clock(s, id);
        },
    }
}

/// [`Sim::drop_ipc_import`] takes no time.
pub proof fn drop_ipc_import_keeps_clock(s0: SimState, id: AllocId)
    ensures
        s0.drop_ipc_import(id).0.clock == s0.clock,
{
    reveal(SimState::drop_ipc_import);
    let s = s0;
    match s.alloc_ref(id) {
        Err(e) => {},
        Ok(alias) => match (
            match alias.ipc_src { Some(x) => Ok(x), None => Err(invalid("not ipc import")) }
        ) {
            Err(e) => {},
            Ok(src) => {
                if !(alias.leases > 0) {
                    match s.alloc_ref(src) {
                        Err(e) => {},
                        Ok(from) => {
                            let from = AllocView {
                                ipc_opens: from.ipc_opens.saturating_sub(1),
                                ..from
                            };
                            let s = SimState { allocs: s.allocs.insert(src, from), ..s };
                            close_alias_keeps_clock(s, id);
                        },
                    }
                }
            },
        },
    }
}

/// [`Sim::drop_share_import`] takes no time.
pub proof fn drop_share_import_keeps_clock(s0: SimState, id: AllocId)
    ensures
        s0.drop_share_import(id).0.clock == s0.clock,
{
    reveal(SimState::drop_share_import);
    let s = s0;
    match s.alloc_ref(id) {
        Err(e) => {},
        Ok(alias) => match (
            match alias.share_src { Some(x) => Ok(x), None => Err(invalid("not share import")) }
        ) {
            Err(e) => {},
            Ok(src) => {
                if !(alias.leases > 0) {
                    match s.alloc_ref(src) {
                        Err(e) => {},
                        Ok(from) => {
                            let from = AllocView {
                                share_opens: from.share_opens.saturating_sub(1),
                                ..from
                            };
                            let s = SimState { allocs: s.allocs.insert(src, from), ..s };
                            close_alias_keeps_clock(s, id);
                        },
                    }
                }
            },
        },
    }
}

/// [`Sim::migrate_off_except`] takes no time.
pub proof fn migrate_off_except_keeps_clock(s0: SimState, alloc: AllocId, keep: DeviceId)
    ensures
        s0.migrate_off_except(alloc, keep).0.clock == s0.clock,
{
    let s = s0;
    match s.alloc_ref(alloc) {
        Err(e) => {},
        Ok(a0) => {
            let bytes = a0.bytes;
            let holders = a0.devices;
            migrate_off_except_from_keeps_clock(s, alloc, keep, bytes, holders, 0);
        },
    }
}

/// [`Sim::migrate_off_except`] takes no time.
pub proof fn migrate_off_except_from_keeps_clock(
    s0: SimState,
    alloc: AllocId,
    keep: DeviceId,
    bytes: u64,
    holders: Seq<DeviceId>,
    i: int,
)
    ensures
        s0.migrate_off_except_from(alloc, keep, bytes, holders, i).0.clock == s0.clock,
    decreases holders.len() - i,
{
    let s = s0;
    if 0 <= i < holders.len() {
        let d = holders[i];
        if d == keep {
            migrate_off_except_from_keeps_clock(s, alloc, keep, bytes, holders, i + 1);
        } else {
            refund_device_keeps_clock(s, d, alloc, bytes);
            match s.refund_device(d, alloc, bytes) {
                (s, Err(e)) => {},
                (s, Ok(_v)) => match s.alloc_ref(alloc) {
                    Err(e) => {},
                    Ok(a) => {
                        let a = AllocView { devices: without(a.devices, d), ..a };
                        let s = SimState { allocs: s.allocs.insert(alloc, a), ..s };
                        migrate_off_except_from_keeps_clock(s, alloc, keep, bytes, holders, i + 1);
                    },
                },
            }
        }
    }
}

/// [`Sim::migrate_off_all`] takes no time.
pub proof fn migrate_off_all_keeps_clock(s0: SimState, alloc: AllocId)
    ensures
        s0.migrate_off_all(alloc).0.clock == s0.clock,
{
    let s = s0;
    match s.alloc_ref(alloc) {
        Err(e) => {},
        Ok(a0) => {
            let bytes = a0.bytes;
            let holders = a0.devices;
            migrate_off_all_from_keeps_clock(s, alloc, bytes, holders, 0);
        },
    }
}

/// [`Sim::migrate_off_all`] takes no time.
pub proof fn migrate_off_all_from_keeps_clock(
    s0: SimState,
    alloc: AllocId,
    bytes: u64,
    holders: Seq<DeviceId>,
    i: int,
)
    ensures
        s0.migrate_off_all_from(alloc, bytes, holders, i).0.clock == s0.clock,
    decreases holders.len() - i,
{
    let s = s0;
    if 0 <= i < holders.len() {
        refund_device_keeps_clock(s, holders[i], alloc, bytes);
        match s.refund_device(holders[i], alloc, bytes) {
            (s, Err(e)) => {},
            (s, Ok(_v)) => {
                migrate_off_all_from_keeps_clock(s, alloc, bytes, holders, i + 1);
            },
        }
    }
}

/// [`Sim::charge_replica_hbm`] takes no time.
pub proof fn charge_replica_hbm_keeps_clock(s0: SimState, m: MemcpyOp)
    ensures
        s0.charge_replica_hbm(m).0.clock == s0.clock,
{
    let s = s0;
    match m.dst {
        Place::Device(dst) => match s.alloc_ref(m.alloc) {
            Err(e) => {},
            Ok(a) => {
                if !(a.devices.contains(dst)) {
                    let bytes = a.bytes;
                    reserve_hbm_keeps_clock(s, dst, bytes);
                }
            },
        },
        Place::Host | Place::HostPinned => {},
    }
}

/// [`Sim::finish_memcpy`] takes no time.
pub proof fn finish_memcpy_keeps_clock(s0: SimState, device: DeviceId, m: MemcpyOp, dma: bool)
    ensures
        s0.finish_memcpy(device, m, dma).0.clock == s0.clock,
{
    reveal(SimState::finish_memcpy);
    let s = s0;
    if dma {
        match s.gpu_rt(device) {
            Err(e) => {},
            Ok(rt) => {
                let rt = GpuRtView { copies: rt.copies.saturating_sub(1), ..rt };
                let s = SimState { gpus: s.gpus.insert(device, rt), ..s };
                let s = SimState {
                    bytes_moved: s.bytes_moved.saturating_add(m.payload_bytes()),
                    ..s
                };
                match s.alloc_ref(m.alloc) {
                    Err(e) => {},
                    Ok(a0) => {
                        let managed = a0.managed;
                        let read_mostly = a0.read_mostly;
                        match m.dst {
                            Place::Device(dst) => match s.alloc_ref(m.alloc) {
                                Err(e) => {},
                                Ok(a) => {
                                    let a = AllocView { devices: with_new(a.devices, dst), ..a };
                                    let s = SimState { allocs: s.allocs.insert(m.alloc, a), ..s };
                                    if managed && !read_mostly {
                                        migrate_off_except_keeps_clock(s, m.alloc, dst);
                                    }
                                },
                            },
                            Place::Host => {
                                if managed {
                                    migrate_off_all_keeps_clock(s, m.alloc);
                                }
                            },
                            Place::HostPinned => {
                                if managed {
                                    migrate_off_all_keeps_clock(s, m.alloc);
                                }
                            },
                        }
                    },
                }
            },
        }
    } else {
        match s.alloc_ref(m.alloc) {
            Err(e) => {},
            Ok(a0) => {
                let managed = a0.managed;
                let read_mostly = a0.read_mostly;
                match m.dst {
                    Place::Device(dst) => match s.alloc_ref(m.alloc) {
                        Err(e) => {},
                        Ok(a) => {
                            let a = AllocView { devices: with_new(a.devices, dst), ..a };
                            let s = SimState { allocs: s.allocs.insert(m.alloc, a), ..s };
                            if managed && !read_mostly {
                                migrate_off_except_keeps_clock(s, m.alloc, dst);
                            }
                        },
                    },
                    Place::Host => {
                        if managed {
                            migrate_off_all_keeps_clock(s, m.alloc);
                        }
                    },
                    Place::HostPinned => {
                        if managed {
                            migrate_off_all_keeps_clock(s, m.alloc);
                        }
                    },
                }
            },
        }
    }
}

/// [`Sim::ensure_event`] takes no time.
pub proof fn ensure_event_keeps_clock(s0: SimState, event: EventId)
    ensures
        s0.ensure_event(event).clock == s0.clock,
{
}

/// [`Sim::mark_recorded`] takes no time.
pub proof fn mark_recorded_keeps_clock(s0: SimState, root: EventId, op: OpId)
    ensures
        s0.mark_recorded(root, op).clock == s0.clock,
{
}

/// [`Sim::free_each`] takes no time.
pub proof fn free_each_keeps_clock(
    s0: SimState,
    device: DeviceId,
    stream: StreamId,
    ids: Seq<AllocId>,
)
    ensures
        s0.free_each(device, stream, ids).0.clock == s0.clock,
{
    let s = s0;
    free_each_from_keeps_clock(s, device, stream, ids, 0);
}

/// [`Sim::free_each`] takes no time.
pub proof fn free_each_from_keeps_clock(
    s0: SimState,
    device: DeviceId,
    stream: StreamId,
    ids: Seq<AllocId>,
    i: int,
)
    ensures
        s0.free_each_from(device, stream, ids, i).0.clock == s0.clock,
    decreases ids.len() - i,
{
    let s = s0;
    if 0 <= i < ids.len() {
        let live = match s.allocs.get(ids[i]) {
            Some(a) => a.live && a.devices.contains(device),
            None => false,
        };
        if !live {
            free_each_from_keeps_clock(s, device, stream, ids, i + 1);
        } else {
            submit_launch_keeps_clock(
                s,
                device,
                stream,
                GpuOpView::Free { id: ids[i] },
                LaunchCost::GraphBody,
            );
            match s.submit_launch(
                device,
                stream,
                GpuOpView::Free { id: ids[i] },
                LaunchCost::GraphBody,
            ) {
                (s, Err(e)) => {},
                (s, Ok(_v)) => {
                    free_each_from_keeps_clock(s, device, stream, ids, i + 1);
                },
            }
        }
    }
}

/// [`Sim::enqueue_auto_frees`] takes no time.
pub proof fn enqueue_auto_frees_keeps_clock(s0: SimState, graph: GraphId, stream: StreamId)
    ensures
        s0.enqueue_auto_frees(graph, stream).0.clock == s0.clock,
{
    let s = s0;
    match s.graph_ref(graph) {
        Err(e) => {},
        Ok(g) => {
            if !(!g.auto_free_on_launch) {
                let device = g.origin.0;
                let ids = s.graph_mem_ids(graph);
                free_each_keeps_clock(s, device, stream, ids);
            }
        },
    }
}

/// [`Sim::load_enq`] takes no time.
pub proof fn load_enq_keeps_clock(s0: SimState, graph: GraphId, a: NodeAttrs)
    ensures
        s0.load_enq(graph, a).clock == s0.clock,
{
    reveal(SimState::load_enq);
}

/// [`Sim::bind_graph_worker`] takes no time.
pub proof fn bind_graph_worker_keeps_clock(
    s0: SimState,
    device: DeviceId,
    launch: StreamId,
    worker: StreamId,
)
    ensures
        s0.bind_graph_worker(device, launch, worker).clock == s0.clock,
{
    reveal(SimState::bind_graph_worker);
}

/// [`Sim::graph_exec_stream`] takes no time.
pub proof fn graph_exec_stream_keeps_clock(
    s0: SimState,
    origin: Lane,
    launch: StreamId,
    device: DeviceId,
    own: StreamId,
    deps: Seq<usize>,
    w: WalkView,
)
    ensures
        s0.graph_exec_stream(origin, launch, device, own, deps, w).0.clock == s0.clock,
{
    reveal(SimState::graph_exec_stream);
    let s = s0;
    if !(Lane(device, own) != origin) {
        let behind = if deps.len() == 1 { w.stream_of(deps[0]) } else { None };
        match behind {
            Some(on) => {
                bind_graph_worker_keeps_clock(s, device, launch, on);
            },
            None => {
                let (on, worker) = if !w.any_stream() && deps.len() == 0 {
                    (launch, w.worker)
                } else {
                    alloc_graph_worker(launch, w.worker)
                };
                bind_graph_worker_keeps_clock(s, device, launch, on);
            },
        }
    }
}

/// [`Sim::pop_pred`] takes no time.
pub proof fn pop_pred_keeps_clock(s0: SimState)
    ensures
        s0.pop_pred().clock == s0.clock,
{
}

/// [`Sim::submit_tick`] takes no time.
pub proof fn submit_tick_keeps_clock(
    s0: SimState,
    device: DeviceId,
    on: StreamId,
    handle: CondId,
    body: GraphId,
    iter: u32,
    wait: Seq<OpId>,
)
    ensures
        s0.submit_tick(device, on, handle, body, iter, wait).0.clock == s0.clock,
{
    reveal(SimState::submit_tick);
    let s = s0;
    let body_tail = s.tail_of(Lane(device, on));
    let s = SimState { enqueue_preds: s.enqueue_preds.push(CondPred::Nonzero(handle)), ..s };
    submit_launch_keeps_clock(
        s,
        device,
        on,
        GpuOpView::WhileTick { handle, body, iter },
        LaunchCost::GraphBody,
    );
    let (s, tick) = s.submit_launch(
        device,
        on,
        GpuOpView::WhileTick { handle, body, iter },
        LaunchCost::GraphBody,
    );
    pop_pred_keeps_clock(s);
    let s = s.pop_pred();
    match tick {
        Err(e) => {},
        Ok(id) => {
            add_op_deps_keeps_clock(s, id, wait);
            let s = s.add_op_deps(id, wait);
            match body_tail {
                Some(t) => {
                    if t != id {
                        add_op_dep_keeps_clock(s, id, t);
                    }
                },
                _ => {},
            }
        },
    }
}

/// [`Sim::link_event_wait`] takes no time.
pub proof fn link_event_wait_keeps_clock(s0: SimState, id: OpId, kind: GpuOpView, w: WalkView)
    ensures
        s0.link_event_wait(id, kind, w).clock == s0.clock,
{
    let s = s0;
    match kind {
        GpuOpView::EventWait { event, external } => {
            let root = s.event_root(event);
            let rec = if external {
                s.event_recorded_by(root)
            } else {
                (match w.rec_ops.get(root) { Some(x) => Some(x), None => None, })
            };
            match rec {
                Some(r) => {
                    add_op_dep_keeps_clock(s, id, r);
                },
                _ => {},
            }
        },
        _ => {},
    }
}

/// [`Sim::enqueue_plain`] takes no time.
pub proof fn enqueue_plain_keeps_clock(
    s0: SimState,
    step: StepView,
    on: StreamId,
    stream: StreamId,
    idx: usize,
    wait: Seq<OpId>,
    w0: WalkView,
)
    ensures
        s0.enqueue_plain(step, on, stream, idx, wait, w0).0.clock == s0.clock,
{
    reveal(SimState::enqueue_plain);
    let s = s0;
    let w = w0;
    let launch = if w.head { LaunchCost::GraphHead } else { LaunchCost::GraphBody };
    let w = WalkView { head: false, ..w };
    submit_launch_keeps_clock(s, step.device, on, step.kind, launch);
    match s.submit_launch(step.device, on, step.kind, launch) {
        (s, Err(e)) => {},
        (s, Ok(id)) => {
            add_op_deps_keeps_clock(s, id, wait);
            let s = s.add_op_deps(id, wait);
            let w = match s.recorded_event(step.kind, step.attrs) {
                Some(event) => {
                    let w = WalkView { rec_ops: w.rec_ops.insert(s.event_root(event), id), ..w };
                    w
                },
                _ => w,
            };
            link_event_wait_keeps_clock(s, id, step.kind, w);
        },
    }
}

/// [`Sim::enqueue_pred_graph`] takes no time.
pub proof fn enqueue_pred_graph_keeps_clock(
    s0: SimState,
    pred: CondPred,
    body: GraphId,
    stream: StreamId,
    head: bool,
    stack: Seq<GraphId>,
    wait: Seq<OpId>,
    fuel: usize,
)
    ensures
        s0.enqueue_pred_graph(pred, body, stream, head, stack, wait, fuel).0.clock == s0.clock,
    decreases fuel, 3int, 0int,
{
    let s = s0;
    let s = SimState { enqueue_preds: s.enqueue_preds.push(pred), ..s };
    enqueue_graph_keeps_clock(s, body, stream, head, stack, wait, fuel);
    let (s, nested) = s.enqueue_graph(body, stream, head, stack, wait, fuel);
    pop_pred_keeps_clock(s);
}

/// [`Sim::enqueue_branches`] takes no time.
pub proof fn enqueue_branches_keeps_clock(
    s0: SimState,
    handle: CondId,
    bodies: Seq<GraphId>,
    on: StreamId,
    stack: Seq<GraphId>,
    wait: Seq<OpId>,
    fuel: usize,
    w0: WalkView,
)
    ensures
        s0.enqueue_branches(handle, bodies, on, stack, wait, fuel, w0).0.clock == s0.clock,
    decreases fuel, 5int, 0int,
{
    let s = s0;
    let w = w0;
    enqueue_branches_from_keeps_clock(s, handle, bodies, on, stack, wait, fuel, w, 0);
}

/// [`Sim::enqueue_branches`] takes no time.
pub proof fn enqueue_branches_from_keeps_clock(
    s0: SimState,
    handle: CondId,
    bodies: Seq<GraphId>,
    on: StreamId,
    stack: Seq<GraphId>,
    wait: Seq<OpId>,
    fuel: usize,
    w: WalkView,
    i: int,
)
    ensures
        s0.enqueue_branches_from(handle, bodies, on, stack, wait, fuel, w, i).0.clock == s0.clock,
    decreases fuel, 4int, bodies.len() - i,
{
    let s = s0;
    if 0 <= i < bodies.len() {
        if !((i as usize)as u64 > 0xFFFF_FFFF) {
            let branch = (i as usize)as u32;
            match s.resolved_graph(bodies[i]) {
                Err(e) => {},
                Ok(body) => {
                    enqueue_pred_graph_keeps_clock(
                        s,
                        CondPred::Equals(handle, branch),
                        body,
                        on,
                        w.head,
                        stack,
                        wait,
                        fuel,
                    );
                    match s.enqueue_pred_graph(
                        CondPred::Equals(handle, branch),
                        body,
                        on,
                        w.head,
                        stack,
                        wait,
                        fuel,
                    ) {
                        (s, Err(e)) => {},
                        (s, Ok(add)) => {
                            let w = WalkView { head: false, ..w };
                            let w = WalkView { n: w.n.saturating_add(add), ..w };
                            enqueue_branches_from_keeps_clock(
                                s,
                                handle,
                                bodies,
                                on,
                                stack,
                                wait,
                                fuel,
                                w,
                                i + 1,
                            );
                        },
                    }
                },
            }
        }
    }
}

/// [`Sim::enqueue_step`] takes no time.
pub proof fn enqueue_step_keeps_clock(
    s0: SimState,
    graph: GraphId,
    origin: Lane,
    stream: StreamId,
    step: StepView,
    idx: usize,
    extra_wait: Seq<OpId>,
    launch_tail: Option<OpId>,
    stack: Seq<GraphId>,
    fuel: usize,
    w0: WalkView,
)
    ensures
        s0.enqueue_step(
            graph,
            origin,
            stream,
            step,
            idx,
            extra_wait,
            launch_tail,
            stack,
            fuel,
            w0,
        ).0.clock == s0.clock,
    decreases fuel, 0int, 0int,
{
    let s = s0;
    if !(fuel == 0) {
        load_enq_keeps_clock(s, graph, step.attrs);
        let s = s.load_enq(graph, step.attrs);
        match w0.node_waits(step.deps, extra_wait, launch_tail) {
            Err(e) => {},
            Ok(wait) => {
                graph_exec_stream_keeps_clock(
                    s,
                    origin,
                    stream,
                    step.device,
                    step.stream,
                    step.deps,
                    w0,
                );
                let (s, (on, worker)) = s.graph_exec_stream(
                    origin,
                    stream,
                    step.device,
                    step.stream,
                    step.deps,
                    w0,
                );
                let w = w0.with_stream(idx, on, worker);
                if !(step.destroyed) {
                    if !(!step.enabled) {
                        match step.kind {
                            GpuOpView::ChildGraph { graph: child } => match s.resolved_graph(child) {
                                Err(e) => {},
                                Ok(body) => {
                                    enqueue_graph_keeps_clock(
                                        s,
                                        body,
                                        on,
                                        w.head,
                                        stack,
                                        wait,
                                        fuel.saturating_sub(1),
                                    );
                                },
                            },
                            GpuOpView::If { handle, body } => match s.resolved_graph(body) {
                                Err(e) => {},
                                Ok(b) => {
                                    enqueue_pred_graph_keeps_clock(
                                        s,
                                        CondPred::Nonzero(handle),
                                        b,
                                        on,
                                        w.head,
                                        stack,
                                        wait,
                                        fuel.saturating_sub(1),
                                    );
                                },
                            },
                            GpuOpView::While { handle, body } => match s.resolved_graph(body) {
                                Err(e) => {},
                                Ok(b) => {
                                    enqueue_pred_graph_keeps_clock(
                                        s,
                                        CondPred::Nonzero(handle),
                                        b,
                                        on,
                                        w.head,
                                        stack,
                                        wait,
                                        fuel.saturating_sub(1),
                                    );
                                    match s.enqueue_pred_graph(
                                        CondPred::Nonzero(handle),
                                        b,
                                        on,
                                        w.head,
                                        stack,
                                        wait,
                                        fuel.saturating_sub(1),
                                    ) {
                                        (s, Err(e)) => {},
                                        (s, Ok(add)) => {
                                            submit_tick_keeps_clock(
                                                s,
                                                step.device,
                                                on,
                                                handle,
                                                b,
                                                1,
                                                wait,
                                            );
                                        },
                                    }
                                },
                            },
                            GpuOpView::Switch { handle, bodies } => {
                                enqueue_branches_keeps_clock(
                                    s,
                                    handle,
                                    bodies,
                                    on,
                                    stack,
                                    wait,
                                    fuel.saturating_sub(1),
                                    w,
                                );
                            },
                            _ => {
                                enqueue_plain_keeps_clock(s, step, on, stream, idx, wait, w);
                            },
                        }
                    }
                }
            },
        }
    }
}

/// [`Sim::add_joins`] takes no time.
pub proof fn add_joins_keeps_clock(s0: SimState, lane: Lane, joins: Seq<OpId>)
    ensures
        s0.add_joins(lane, joins).clock == s0.clock,
{
}

/// [`Sim::enqueue_graph`] takes no time.
pub proof fn enqueue_graph_keeps_clock(
    s0: SimState,
    graph: GraphId,
    stream: StreamId,
    head: bool,
    stack: Seq<GraphId>,
    extra_wait: Seq<OpId>,
    fuel: usize,
)
    ensures
        s0.enqueue_graph(graph, stream, head, stack, extra_wait, fuel).0.clock == s0.clock,
    decreases fuel, 2int, 0int,
{
    let s = s0;
    if !(stack.contains(graph) || fuel == 0) {
        let inner = stack;
        let inner = inner.push(graph);
        enqueue_auto_frees_keeps_clock(s, graph, stream);
        match s.enqueue_auto_frees(graph, stream) {
            (s, Err(e)) => {},
            (s, Ok(_v)) => match s.graph_ref(graph) {
                Err(e) => {},
                Ok(g) => {
                    let origin = g.origin;
                    let steps = g.current();
                    match launch_order(steps) {
                        Err(e) => {},
                        Ok(order) => {
                            let launch_tail = s.tail_of(Lane(origin.0, stream));
                            let w = WalkView::start((steps.len()as usize), head);
                            enqueue_graph_from_keeps_clock(
                                s,
                                graph,
                                stream,
                                extra_wait,
                                fuel,
                                inner,
                                origin,
                                steps,
                                order,
                                launch_tail,
                                w,
                                0,
                            );
                        },
                    }
                },
            },
        }
    }
}

/// [`Sim::enqueue_graph`] takes no time.
pub proof fn enqueue_graph_from_keeps_clock(
    s0: SimState,
    graph: GraphId,
    stream: StreamId,
    extra_wait: Seq<OpId>,
    fuel: usize,
    inner: Seq<GraphId>,
    origin: Lane,
    steps: Seq<StepView>,
    order: Seq<usize>,
    launch_tail: Option<OpId>,
    w: WalkView,
    i: int,
)
    ensures
        s0.enqueue_graph_from(
            graph,
            stream,
            extra_wait,
            fuel,
            inner,
            origin,
            steps,
            order,
            launch_tail,
            w,
            i,
        ).0.clock == s0.clock,
    decreases fuel, 1int, order.len() - i,
{
    let s = s0;
    if 0 <= i < order.len() {
        let idx = order[i];
        if !(idx >= steps.len()) {
            enqueue_step_keeps_clock(
                s,
                graph,
                origin,
                stream,
                steps[idx as int],
                idx,
                extra_wait,
                launch_tail,
                inner,
                fuel,
                w,
            );
            match s.enqueue_step(
                graph,
                origin,
                stream,
                steps[idx as int],
                idx,
                extra_wait,
                launch_tail,
                inner,
                fuel,
                w,
            ) {
                (s, Err(e)) => {},
                (s, Ok(v1)) => {
                    let w = v1;
                    enqueue_graph_from_keeps_clock(
                        s,
                        graph,
                        stream,
                        extra_wait,
                        fuel,
                        inner,
                        origin,
                        steps,
                        order,
                        launch_tail,
                        w,
                        i + 1,
                    );
                },
            }
        }
    } else if w.joins.len() > 0 {
        add_joins_keeps_clock(s, Lane(origin.0, stream), w.joins);
    }
}

/// [`Sim::enqueue_root`] takes no time.
pub proof fn enqueue_root_keeps_clock(
    s0: SimState,
    graph: GraphId,
    stream: StreamId,
    head: bool,
    wait: Seq<OpId>,
)
    ensures
        s0.enqueue_root(graph, stream, head, wait).0.clock == s0.clock,
{
    reveal(SimState::enqueue_root);
    let s = s0;
    let none = Seq::empty();
    let fuel = s.tree_fuel();
    enqueue_graph_keeps_clock(s, graph, stream, head, none, wait, fuel);
}

/// [`Sim::note_start`] takes no time.
pub proof fn note_start_keeps_clock(s0: SimState, id: OpId)
    ensures
        s0.note_start(id).clock == s0.clock,
{
}

/// [`Sim::start_each`] takes no time.
pub proof fn start_each_keeps_clock(s0: SimState, ids: Seq<OpId>)
    ensures
        s0.start_each(ids).0.clock == s0.clock,
{
    let s = s0;
    let started = false;
    start_each_from_keeps_clock(s, ids, started, 0);
}

/// [`Sim::start_each`] takes no time.
pub proof fn start_each_from_keeps_clock(s0: SimState, ids: Seq<OpId>, started: bool, i: int)
    ensures
        s0.start_each_from(ids, started, i).0.clock == s0.clock,
    decreases ids.len() - i,
{
    let s = s0;
    if 0 <= i < ids.len() {
        try_start_keeps_clock(s, ids[i]);
        match s.try_start(ids[i]) {
            (s, Err(e)) => {},
            (s, Ok(ok)) => {
                if ok {
                    note_start_keeps_clock(s, ids[i]);
                }
                let (s, started) = if ok {
                    let s = s.note_start(ids[i]);
                    let started = true;
                    (s, started)
                } else {
                    (s, started)
                };
                start_each_from_keeps_clock(s, ids, started, i + 1);
            },
        }
    }
}

/// [`Sim::schedule_rounds`] takes no time.
pub proof fn schedule_rounds_keeps_clock(s0: SimState, rounds: nat)
    ensures
        s0.schedule_rounds(rounds).0.clock == s0.clock,
    decreases rounds,
{
    start_each_keeps_clock(s0, s0.candidates());
    match s0.start_each(s0.candidates()) {
        (s, Err(e)) => {},
        (s, Ok(started)) => {
            if !(!started) {
                if !(rounds == 0) {
                    schedule_rounds_keeps_clock(s, (rounds - 1)as nat);
                }
            }
        },
    }
}

/// [`Sim::schedule`] takes no time.
pub proof fn schedule_keeps_clock(s0: SimState)
    ensures
        s0.schedule().0.clock == s0.clock,
{
    reveal(SimState::schedule);
    schedule_rounds_keeps_clock(s0, u64::MAX as nat);
}

/// [`Sim::start_ready`] takes no time.
pub proof fn start_ready_keeps_clock(s0: SimState)
    ensures
        s0.start_ready().0.clock == s0.clock,
{
    let s = s0;
    schedule_keeps_clock(s);
}

/// [`Sim::drop_running`] takes no time.
pub proof fn drop_running_keeps_clock(s0: SimState, id: OpId)
    ensures
        s0.drop_running(id).clock == s0.clock,
{
}

/// [`Sim::bump_graph_mem_high`] takes no time.
pub proof fn bump_graph_mem_high_keeps_clock(s0: SimState, device: DeviceId)
    ensures
        s0.bump_graph_mem_high(device).0.clock == s0.clock,
{
}

/// [`Sim::bump_graph_mem_from_op`] takes no time.
pub proof fn bump_graph_mem_from_op_keeps_clock(s0: SimState, device: DeviceId, kind: GpuOpView)
    ensures
        s0.bump_graph_mem_from_op(device, kind).0.clock == s0.clock,
{
    let s = s0;
    let alloc = match kind {
        GpuOpView::Alloc { id, bytes } => Some(id),
        GpuOpView::Free { id } => Some(id),
        _ => None,
    };
    match alloc {
        Some(id) => {
            if s.is_graph_alloc(id) {
                bump_graph_mem_high_keeps_clock(s, device);
            }
        },
        None => {},
    }
}

/// [`Sim::unlease`] takes no time.
pub proof fn unlease_keeps_clock(s0: SimState, id: AllocId)
    ensures
        s0.unlease(id).0.clock == s0.clock,
{
}

/// [`Sim::unlease_bufs`] takes no time.
pub proof fn unlease_bufs_keeps_clock(s0: SimState, bufs: Seq<KernelBuf>)
    ensures
        s0.unlease_bufs(bufs).0.clock == s0.clock,
{
    let s = s0;
    unlease_bufs_from_keeps_clock(s, bufs, 0);
}

/// [`Sim::unlease_bufs`] takes no time.
pub proof fn unlease_bufs_from_keeps_clock(s0: SimState, bufs: Seq<KernelBuf>, i: int)
    ensures
        s0.unlease_bufs_from(bufs, i).0.clock == s0.clock,
    decreases bufs.len() - i,
{
    let s = s0;
    if 0 <= i < bufs.len() {
        unlease_keeps_clock(s, bufs[i].id);
        match s.unlease(bufs[i].id) {
            (s, Err(e)) => {},
            (s, Ok(_v)) => {
                unlease_bufs_from_keeps_clock(s, bufs, i + 1);
            },
        }
    }
}

/// [`Sim::unlease_parts`] takes no time.
pub proof fn unlease_parts_keeps_clock(s0: SimState, parts: Seq<(DeviceId, AllocId)>)
    ensures
        s0.unlease_parts(parts).0.clock == s0.clock,
{
    let s = s0;
    unlease_parts_from_keeps_clock(s, parts, 0);
}

/// [`Sim::unlease_parts`] takes no time.
pub proof fn unlease_parts_from_keeps_clock(s0: SimState, parts: Seq<(DeviceId, AllocId)>, i: int)
    ensures
        s0.unlease_parts_from(parts, i).0.clock == s0.clock,
    decreases parts.len() - i,
{
    let s = s0;
    if 0 <= i < parts.len() {
        unlease_keeps_clock(s, parts[i].1);
        match s.unlease(parts[i].1) {
            (s, Err(e)) => {},
            (s, Ok(_v)) => {
                unlease_parts_from_keeps_clock(s, parts, i + 1);
            },
        }
    }
}

/// [`Sim::apply_mailbox_writes`] takes no time.
pub proof fn apply_mailbox_writes_keeps_clock(s0: SimState, writes: Seq<(AllocId, u64, u64, bool)>)
    ensures
        s0.apply_mailbox_writes(writes).clock == s0.clock,
{
    let s = s0;
    apply_mailbox_writes_from_keeps_clock(s, writes, 0);
}

/// [`Sim::apply_mailbox_writes`] takes no time.
pub proof fn apply_mailbox_writes_from_keeps_clock(
    s0: SimState,
    writes: Seq<(AllocId, u64, u64, bool)>,
    i: int,
)
    ensures
        s0.apply_mailbox_writes_from(writes, i).clock == s0.clock,
    decreases writes.len() - i,
{
    let s = s0;
    if 0 <= i < writes.len() {
        let (id, offset, value, bits32) = writes[i];
        apply_mailbox_write_keeps_clock(s, id, offset, value, bits32);
        let s = s.apply_mailbox_write(id, offset, value, bits32);
        apply_mailbox_writes_from_keeps_clock(s, writes, i + 1);
    }
}

/// [`Sim::finish_kernel`] takes no time.
pub proof fn finish_kernel_keeps_clock(
    s0: SimState,
    id: OpId,
    device: DeviceId,
    reads: Seq<KernelBuf>,
    writes: Seq<KernelBuf>,
)
    ensures
        s0.finish_kernel(id, device, reads, writes).0.clock == s0.clock,
{
    reveal(SimState::finish_kernel);
    let s = s0;
    let moved = s.multicast_write_bytes(writes);
    match s.slots_of(id) {
        Err(e) => {},
        Ok(slots) => {
            drop_compute_n_keeps_clock(s, device, slots);
            match s.drop_compute_n(device, slots) {
                (s, Err(e)) => {},
                (s, Ok(_v)) => {
                    unlease_bufs_keeps_clock(s, reads);
                    match s.unlease_bufs(reads) {
                        (s, Err(e)) => {},
                        (s, Ok(_v)) => {
                            unlease_bufs_keeps_clock(s, writes);
                        },
                    }
                },
            }
        },
    }
}

/// [`Sim::finish_alloc`] takes no time.
pub proof fn finish_alloc_keeps_clock(s0: SimState, alloc: AllocId, device: DeviceId)
    ensures
        s0.finish_alloc(alloc, device).0.clock == s0.clock,
{
    reveal(SimState::finish_alloc);
}

/// [`Sim::finish_memset`] takes no time.
pub proof fn finish_memset_keeps_clock(s0: SimState, device: DeviceId, id: AllocId)
    ensures
        s0.finish_memset(device, id).0.clock == s0.clock,
{
    reveal(SimState::finish_memset);
    let s = s0;
    drop_compute_keeps_clock(s, device);
    match s.drop_compute(device) {
        (s, Err(e)) => {},
        (s, Ok(_v)) => {
            unlease_keeps_clock(s, id);
        },
    }
}

/// [`Sim::finish_allreduce`] takes no time.
pub proof fn finish_allreduce_keeps_clock(
    s0: SimState,
    device: DeviceId,
    parts: Seq<(DeviceId, AllocId)>,
)
    ensures
        s0.finish_allreduce(device, parts).0.clock == s0.clock,
{
    reveal(SimState::finish_allreduce);
    let s = s0;
    drop_compute_keeps_clock(s, device);
    match s.drop_compute(device) {
        (s, Err(e)) => {},
        (s, Ok(_v)) => {
            unlease_parts_keeps_clock(s, parts);
        },
    }
}

/// [`Sim::finish_attach`] takes no time.
pub proof fn finish_attach_keeps_clock(
    s0: SimState,
    alloc: AllocId,
    flags: MemAttach,
    stream: StreamId,
)
    ensures
        s0.finish_attach(alloc, flags, stream).0.clock == s0.clock,
{
    reveal(SimState::finish_attach);
}

/// [`Sim::finish_kind`] takes no time.
pub proof fn finish_kind_keeps_clock(
    s0: SimState,
    id: OpId,
    device: DeviceId,
    stream: StreamId,
    dma: bool,
    kind: GpuOpView,
)
    ensures
        s0.finish_kind(id, device, stream, dma, kind).0.clock == s0.clock,
{
    reveal(SimState::finish_kind);
    let s = s0;
    match kind {
        GpuOpView::Alloc { id: alloc, bytes } => {
            finish_alloc_keeps_clock(s, alloc, device);
        },
        GpuOpView::Kernel { kind: k, reads, writes, cooperative } => {
            finish_kernel_keeps_clock(s, id, device, reads, writes);
        },
        GpuOpView::Memset(op) => {
            finish_memset_keeps_clock(s, device, op.id);
        },
        GpuOpView::AllReduce { parts, bytes } => {
            finish_allreduce_keeps_clock(s, device, parts);
        },
        GpuOpView::DeviceLaunch { graph } => {
            drop_compute_keeps_clock(s, device);
        },
        GpuOpView::Memcpy(m) => {
            finish_memcpy_keeps_clock(s, device, m, dma);
        },
        GpuOpView::Attach { id: alloc, flags } => {
            finish_attach_keeps_clock(s, alloc, flags, stream);
        },
        _ => {
            let writes = kind.mailbox_writes();
            apply_mailbox_writes_keeps_clock(s, writes);
        },
    }
}

/// [`Sim::finish_op`] takes no time.
pub proof fn finish_op_keeps_clock(s0: SimState, id: OpId)
    ensures
        s0.finish_op(id).clock == s0.clock,
{
}

/// [`Sim::finish_device_launch`] takes no time.
pub proof fn finish_device_launch_keeps_clock(
    s0: SimState,
    id: OpId,
    device: DeviceId,
    stream: StreamId,
    kind: GpuOpView,
)
    ensures
        s0.finish_device_launch(id, device, stream, kind).0.clock == s0.clock,
{
    reveal(SimState::finish_device_launch);
    let s = s0;
    match kind {
        GpuOpView::DeviceLaunch { graph } => {
            reset_graph_tree_conds_keeps_clock(s, graph);
            let s = s.reset_graph_tree_conds(graph);
            let wait = seq![id];
            enqueue_root_keeps_clock(s, graph, stream, false, wait);
        },
        _ => {},
    }
}

/// [`Sim::continue_while`] takes no time.
pub proof fn continue_while_keeps_clock(
    s0: SimState,
    id: OpId,
    device: DeviceId,
    stream: StreamId,
    kind: GpuOpView,
)
    ensures
        s0.continue_while(id, device, stream, kind).0.clock == s0.clock,
{
    reveal(SimState::continue_while);
    let s = s0;
    match kind {
        GpuOpView::WhileTick { handle, body, iter } => match s.conds.get(handle) {
            Some(c) => {
                let value = c.value;
                if !(value == 0) {
                    if !(iter >= 64) {
                        let wait = seq![id];
                        let none = Seq::empty();
                        let fuel = s.tree_fuel();
                        enqueue_pred_graph_keeps_clock(
                            s,
                            CondPred::Nonzero(handle),
                            body,
                            stream,
                            false,
                            none,
                            wait,
                            fuel,
                        );
                        match s.enqueue_pred_graph(
                            CondPred::Nonzero(handle),
                            body,
                            stream,
                            false,
                            none,
                            wait,
                            fuel,
                        ) {
                            (s, Err(e)) => {},
                            (s, Ok(_n)) => {
                                submit_tick_keeps_clock(
                                    s,
                                    device,
                                    stream,
                                    handle,
                                    body,
                                    iter.saturating_add(1),
                                    wait,
                                );
                            },
                        }
                    }
                }
            },
            None => {},
        },
        _ => {},
    }
}

/// [`Sim::complete`] takes no time.
pub proof fn complete_keeps_clock(s0: SimState, id: OpId)
    ensures
        s0.complete(id).0.clock == s0.clock,
{
    reveal(SimState::complete);
    let s = s0;
    let dma = s.on_link(id);
    drop_running_keeps_clock(s, id);
    let s = s.drop_running(id);
    match (match s.ops.get(id) { Some(x) => Ok(x), None => Err(invalid("complete unknown op")) }) {
        Err(e) => {},
        Ok(op) => {
            let device = op.device;
            let stream = op.stream;
            let kind = op.kind;
            if op.skipped {
                finish_op_keeps_clock(s, id);
            } else {
                finish_kind_keeps_clock(s, id, device, stream, dma, kind);
                match s.finish_kind(id, device, stream, dma, kind) {
                    (s, Err(e)) => {},
                    (s, Ok(_v)) => {
                        finish_op_keeps_clock(s, id);
                        let s = s.finish_op(id);
                        bump_graph_mem_from_op_keeps_clock(s, device, kind);
                        match s.bump_graph_mem_from_op(device, kind) {
                            (s, Err(e)) => {},
                            (s, Ok(_v)) => {
                                finish_device_launch_keeps_clock(s, id, device, stream, kind);
                                match s.finish_device_launch(id, device, stream, kind) {
                                    (s, Err(e)) => {},
                                    (s, Ok(_v)) => {
                                        continue_while_keeps_clock(s, id, device, stream, kind);
                                    },
                                }
                            },
                        }
                    },
                }
            }
        },
    }
}

/// [`Sim::run_solo`] takes no time.
pub proof fn run_solo_keeps_clock(s0: SimState, op: OpId, ns: u64)
    ensures
        s0.run_solo(op, ns).clock == s0.clock,
{
}

/// [`Sim::inject_fault_memcpy`] takes no time.
pub proof fn inject_fault_memcpy_keeps_clock(
    s0: SimState,
    kernel: OpId,
    device: DeviceId,
    alloc: AllocId,
    deps: Seq<OpId>,
)
    ensures
        s0.inject_fault_memcpy(kernel, device, alloc, deps).0.clock == s0.clock,
{
    reveal(SimState::inject_fault_memcpy);
    let s = s0;
    match s.op_ref(kernel) {
        Err(e) => {},
        Ok(row) => {
            let stream = row.stream;
            let priority = row.attrs.priority;
            match s.managed_move_src(alloc, Some(device)) {
                Err(e) => {},
                Ok((bytes, src)) => {
                    let attrs = s.fault_attrs(priority);
                    take_op_id_keeps_clock(s);
                    let (s, id) = s.take_op_id();
                    let op = OpView {
                        device,
                        stream,
                        kind: GpuOpView::Memcpy(
                            MemcpyOp::packed_1d(src, Place::Device(device), alloc, bytes),
                        ),
                        deps,
                        done: false,
                        cancelled: false,
                        launch: LaunchCost::Kernel,
                        submit_ns: s.clock,
                        start_ns: None,
                        done_ns: None,
                        preds: Seq::empty(),
                        skipped: false,
                        attrs,
                        pdl_trigger_ns: None,
                        domain_fence_paid: false,
                    };
                    let s = SimState { ops: s.ops.insert(id, op), ..s };
                    add_op_dep_keeps_clock(s, kernel, id);
                },
            }
        },
    }
}

/// [`Sim::inject_faults`] takes no time.
pub proof fn inject_faults_keeps_clock(
    s0: SimState,
    kernel: OpId,
    device: DeviceId,
    wait: Seq<AllocId>,
    deps: Seq<OpId>,
)
    ensures
        s0.inject_faults(kernel, device, wait, deps).0.clock == s0.clock,
{
    let s = s0;
    inject_faults_from_keeps_clock(s, kernel, device, wait, deps, 0);
}

/// [`Sim::inject_faults`] takes no time.
pub proof fn inject_faults_from_keeps_clock(
    s0: SimState,
    kernel: OpId,
    device: DeviceId,
    wait: Seq<AllocId>,
    deps: Seq<OpId>,
    i: int,
)
    ensures
        s0.inject_faults_from(kernel, device, wait, deps, i).0.clock == s0.clock,
    decreases wait.len() - i,
{
    let s = s0;
    if 0 <= i < wait.len() {
        inject_fault_memcpy_keeps_clock(s, kernel, device, wait[i], deps);
        match s.inject_fault_memcpy(kernel, device, wait[i], deps) {
            (s, Err(e)) => {},
            (s, Ok(_v)) => {
                inject_faults_from_keeps_clock(s, kernel, device, wait, deps, i + 1);
            },
        }
    }
}

/// [`Sim::inject_managed_faults`] takes no time.
pub proof fn inject_managed_faults_keeps_clock(
    s0: SimState,
    kernel: OpId,
    device: DeviceId,
    reads: Seq<KernelBuf>,
    writes: Seq<KernelBuf>,
)
    ensures
        s0.inject_managed_faults(kernel, device, reads, writes).0.clock == s0.clock,
{
    let s = s0;
    match s.managed_fault_ids(device, reads, writes) {
        Err(e) => {},
        Ok(wait) => {
            if !(wait.len() == 0) {
                match s.op_ref(kernel) {
                    Err(e) => {},
                    Ok(row) => {
                        let deps = row.deps;
                        inject_faults_keeps_clock(s, kernel, device, wait, deps);
                    },
                }
            }
        },
    }
}

/// [`Sim::lease_bufs`] takes no time.
pub proof fn lease_bufs_keeps_clock(s0: SimState, bufs: Seq<KernelBuf>)
    ensures
        s0.lease_bufs(bufs).0.clock == s0.clock,
{
    let s = s0;
    lease_bufs_from_keeps_clock(s, bufs, 0);
}

/// [`Sim::lease_bufs`] takes no time.
pub proof fn lease_bufs_from_keeps_clock(s0: SimState, bufs: Seq<KernelBuf>, i: int)
    ensures
        s0.lease_bufs_from(bufs, i).0.clock == s0.clock,
    decreases bufs.len() - i,
{
    let s = s0;
    if 0 <= i < bufs.len() {
        match s.alloc_ref(bufs[i].id) {
            Err(e) => {},
            Ok(a) => {
                let a = AllocView { leases: a.leases.saturating_add(1), ..a };
                let s = SimState { allocs: s.allocs.insert(bufs[i].id, a), ..s };
                lease_bufs_from_keeps_clock(s, bufs, i + 1);
            },
        }
    }
}

/// [`Sim::lease_kernel`] takes no time.
pub proof fn lease_kernel_keeps_clock(
    s0: SimState,
    device: DeviceId,
    reads: Seq<KernelBuf>,
    writes: Seq<KernelBuf>,
    mapped_ok: bool,
)
    ensures
        s0.lease_kernel(device, reads, writes, mapped_ok).0.clock == s0.clock,
{
    let s = s0;
    match s.require_bufs_on_device(device, reads, mapped_ok, true) {
        Err(e) => {},
        Ok(_v) => match s.require_bufs_on_device(device, writes, mapped_ok, false) {
            Err(e) => {},
            Ok(_v) => {
                lease_bufs_keeps_clock(s, reads);
                match s.lease_bufs(reads) {
                    (s, Err(e)) => {},
                    (s, Ok(_v)) => {
                        lease_bufs_keeps_clock(s, writes);
                    },
                }
            },
        },
    }
}

/// [`Sim::migrate_each`] takes no time.
pub proof fn migrate_each_keeps_clock(s0: SimState, ids: Seq<AllocId>, keep: DeviceId)
    ensures
        s0.migrate_each(ids, keep).0.clock == s0.clock,
{
    let s = s0;
    migrate_each_from_keeps_clock(s, ids, keep, 0);
}

/// [`Sim::migrate_each`] takes no time.
pub proof fn migrate_each_from_keeps_clock(s0: SimState, ids: Seq<AllocId>, keep: DeviceId, i: int)
    ensures
        s0.migrate_each_from(ids, keep, i).0.clock == s0.clock,
    decreases ids.len() - i,
{
    let s = s0;
    if 0 <= i < ids.len() {
        migrate_off_except_keeps_clock(s, ids[i], keep);
        match s.migrate_off_except(ids[i], keep) {
            (s, Err(e)) => {},
            (s, Ok(_v)) => {
                migrate_each_from_keeps_clock(s, ids, keep, i + 1);
            },
        }
    }
}

/// [`Sim::invalidate_read_mostly_writes`] takes no time.
pub proof fn invalidate_read_mostly_writes_keeps_clock(
    s0: SimState,
    device: DeviceId,
    writes: Seq<KernelBuf>,
)
    ensures
        s0.invalidate_read_mostly_writes(device, writes).0.clock == s0.clock,
{
    let s = s0;
    match s.replicated_writes(writes) {
        Err(e) => {},
        Ok(ids) => {
            let list = order_of(ids);
            migrate_each_keeps_clock(s, list, device);
        },
    }
}

/// [`Sim::persist_kernel_bytes`] takes no time.
pub proof fn persist_kernel_bytes_keeps_clock(
    s0: SimState,
    device: DeviceId,
    window: Option<AccessPolicyWindow>,
    kind: KernelKind,
    bufs: Seq<KernelBuf>,
)
    ensures
        s0.persist_kernel_bytes(device, window, kind, bufs).0.clock == s0.clock,
{
    reveal(SimState::persist_kernel_bytes);
}

/// [`Sim::bill_kernel`] takes no time.
pub proof fn bill_kernel_keeps_clock(
    s0: SimState,
    id: OpId,
    device: DeviceId,
    stream: StreamId,
    launch: LaunchCost,
    kind: KernelKind,
    reads: Seq<KernelBuf>,
    writes: Seq<KernelBuf>,
    mem_bps: u64,
)
    ensures
        s0.bill_kernel(
            id,
            device,
            stream,
            launch,
            kind,
            reads,
            writes,
            mem_bps,
        ).0.clock == s0.clock,
{
    reveal(SimState::bill_kernel);
    let s = s0;
    lease_kernel_keeps_clock(s, device, reads, writes, true);
    match s.lease_kernel(device, reads, writes, true) {
        (s, Err(e)) => {},
        (s, Ok(_v)) => {
            invalidate_read_mostly_writes_keeps_clock(s, device, writes);
            match s.invalidate_read_mostly_writes(device, writes) {
                (s, Err(e)) => {},
                (s, Ok(_v)) => match s.op_ref(id) {
                    Err(e) => {},
                    Ok(row) => {
                        let window = row.attrs.access_policy;
                        let shared_mem = row.attrs.shared_mem;
                        let bufs = (reads + writes);
                        persist_kernel_bytes_keeps_clock(s, device, window, kind, bufs);
                    },
                },
            }
        },
    }
}

/// [`Sim::start_kernel`] takes no time.
pub proof fn start_kernel_keeps_clock(
    s0: SimState,
    id: OpId,
    device: DeviceId,
    stream: StreamId,
    launch: LaunchCost,
    kind: KernelKind,
    reads: Seq<KernelBuf>,
    writes: Seq<KernelBuf>,
)
    ensures
        s0.start_kernel(id, device, stream, launch, kind, reads, writes).0.clock == s0.clock,
{
    reveal(SimState::start_kernel);
    let s = s0;
    match s.require_bufs_attached(stream, reads) {
        Err(e) => {},
        Ok(_v) => match s.require_bufs_attached(stream, writes) {
            Err(e) => {},
            Ok(_v) => if launch == LaunchCost::Kernel {
                inject_managed_faults_keeps_clock(s, id, device, reads, writes);
                match s.inject_managed_faults(id, device, reads, writes) {
                    (s, Err(e)) => {},
                    (s, Ok(fetched)) => {
                        if !(fetched) {
                            match s.slots_of(id) {
                                Err(e) => {},
                                Ok(slots) => {
                                    take_compute_n_keeps_clock(s, device, slots);
                                    match s.take_compute_n(device, slots) {
                                        (s, Err(e)) => {},
                                        (s, Ok(free)) => {
                                            if !(!free) {
                                                let bufs = (reads + writes);
                                                match s.kernel_mem_bps(device, bufs) {
                                                    Err(e) => {},
                                                    Ok(mem_bps) => {
                                                        bill_kernel_keeps_clock(
                                                            s,
                                                            id,
                                                            device,
                                                            stream,
                                                            launch,
                                                            kind,
                                                            reads,
                                                            writes,
                                                            mem_bps,
                                                        );
                                                        let (s, v1) = s.bill_kernel(
                                                            id,
                                                            device,
                                                            stream,
                                                            launch,
                                                            kind,
                                                            reads,
                                                            writes,
                                                            mem_bps,
                                                        );
                                                        match v1 {
                                                            Err(e) => {
                                                                drop_compute_n_keeps_clock(
                                                                    s,
                                                                    device,
                                                                    slots,
                                                                );
                                                            },
                                                            Ok(ns) => {
                                                                run_solo_keeps_clock(s, id, ns);
                                                            },
                                                        }
                                                    },
                                                }
                                            }
                                        },
                                    }
                                },
                            }
                        }
                    },
                }
            } else {
                match s.slots_of(id) {
                    Err(e) => {},
                    Ok(slots) => {
                        take_compute_n_keeps_clock(s, device, slots);
                        match s.take_compute_n(device, slots) {
                            (s, Err(e)) => {},
                            (s, Ok(free)) => {
                                if !(!free) {
                                    let bufs = (reads + writes);
                                    match s.kernel_mem_bps(device, bufs) {
                                        Err(e) => {},
                                        Ok(mem_bps) => {
                                            bill_kernel_keeps_clock(
                                                s,
                                                id,
                                                device,
                                                stream,
                                                launch,
                                                kind,
                                                reads,
                                                writes,
                                                mem_bps,
                                            );
                                            let (s, v2) = s.bill_kernel(
                                                id,
                                                device,
                                                stream,
                                                launch,
                                                kind,
                                                reads,
                                                writes,
                                                mem_bps,
                                            );
                                            match v2 {
                                                Err(e) => {
                                                    drop_compute_n_keeps_clock(s, device, slots);
                                                },
                                                Ok(ns) => {
                                                    run_solo_keeps_clock(s, id, ns);
                                                },
                                            }
                                        },
                                    }
                                }
                            },
                        }
                    },
                }
            },
        },
    }
}

/// [`Sim::bill_memset`] takes no time.
pub proof fn bill_memset_keeps_clock(
    s0: SimState,
    device: DeviceId,
    launch: LaunchCost,
    op: MemsetOp,
)
    ensures
        s0.bill_memset(device, launch, op).0.clock == s0.clock,
{
    reveal(SimState::bill_memset);
    let s = s0;
    let none = Seq::empty();
    let writes = seq![KernelBuf::span(op.id, op.offset, op.extent_bytes())];
    lease_kernel_keeps_clock(s, device, none, writes, false);
    match s.lease_kernel(device, none, writes, false) {
        (s, Err(e)) => {},
        (s, Ok(_v)) => {
            invalidate_read_mostly_writes_keeps_clock(s, device, writes);
        },
    }
}

/// [`Sim::start_memset`] takes no time.
pub proof fn start_memset_keeps_clock(
    s0: SimState,
    id: OpId,
    device: DeviceId,
    stream: StreamId,
    launch: LaunchCost,
    op: MemsetOp,
)
    ensures
        s0.start_memset(id, device, stream, launch, op).0.clock == s0.clock,
{
    let s = s0;
    match s.require_device_attach(op.id, stream) {
        Err(e) => {},
        Ok(_v) => {
            take_compute_keeps_clock(s, device);
            match s.take_compute(device) {
                (s, Err(e)) => {},
                (s, Ok(free)) => {
                    if !(!free) {
                        bill_memset_keeps_clock(s, device, launch, op);
                        let (s, v1) = s.bill_memset(device, launch, op);
                        match v1 {
                            Err(e) => {
                                drop_compute_keeps_clock(s, device);
                            },
                            Ok(ns) => {
                                run_solo_keeps_clock(s, id, ns);
                            },
                        }
                    }
                },
            }
        },
    }
}

/// [`Sim::start_alloc`] takes no time.
pub proof fn start_alloc_keeps_clock(
    s0: SimState,
    op: OpId,
    device: DeviceId,
    alloc: AllocId,
    bytes: u64,
)
    ensures
        s0.start_alloc(op, device, alloc, bytes).0.clock == s0.clock,
{
    reveal(SimState::start_alloc);
    let s = s0;
    match s.alloc_ref(alloc) {
        Err(e) => {},
        Ok(a) => {
            let pool = a.pool;
            let already = a.live && a.devices.contains(device);
            let gpu = s.profile.gpu(device);
            match pool {
                Some(p) => if already {
                    match gpu {
                        Err(e) => {},
                        Ok(g) => {
                            let ns = g.pool_reuse_ns;
                            run_solo_keeps_clock(s, op, ns);
                        },
                    }
                } else {
                    match s.pool_ref(p) {
                        Err(e) => {},
                        Ok(owner) => {
                            if !(owner.device != device) {
                                pool_acquire_keeps_clock(s, p, bytes);
                                match s.pool_acquire(p, bytes) {
                                    (s, Err(e)) => {},
                                    (s, Ok(ns)) => {
                                        run_solo_keeps_clock(s, op, ns);
                                    },
                                }
                            }
                        },
                    }
                },
                None => if already {
                    let ns = 1;
                    run_solo_keeps_clock(s, op, ns);
                } else {
                    reserve_hbm_keeps_clock(s, device, bytes);
                    match s.reserve_hbm(device, bytes) {
                        (s, Err(e)) => {},
                        (s, Ok(_v)) => match gpu {
                            Err(e) => {},
                            Ok(g) => {
                                let ns = g.alloc_overhead_ns;
                                run_solo_keeps_clock(s, op, ns);
                            },
                        },
                    }
                },
            }
        },
    }
}

/// [`Sim::drop_copy`] takes no time.
pub proof fn drop_copy_keeps_clock(s0: SimState, device: DeviceId, alloc: AllocId, bytes: u64)
    ensures
        s0.drop_copy(device, alloc, bytes).0.clock == s0.clock,
{
    reveal(SimState::drop_copy);
    let s = s0;
    refund_device_keeps_clock(s, device, alloc, bytes);
    match s.refund_device(device, alloc, bytes) {
        (s, Err(e)) => {},
        (s, Ok(_v)) => match s.alloc_ref(alloc) {
            Err(e) => {},
            Ok(a) => {
                let a = AllocView { devices: without(a.devices, device), ..a };
                let gone = a.devices.len() == 0 && !a.host_pinned;
                let a = AllocView { live: a.live && !gone, ..a };
                let s = SimState { allocs: s.allocs.insert(alloc, a), ..s };
                if gone {
                    clear_mailbox_keeps_clock(s, alloc);
                }
            },
        },
    }
}

/// [`Sim::start_free`] takes no time.
pub proof fn start_free_keeps_clock(s0: SimState, op: OpId, device: DeviceId, alloc: AllocId)
    ensures
        s0.start_free(op, device, alloc).0.clock == s0.clock,
{
    reveal(SimState::start_free);
    let s = s0;
    match s.alloc_ref(alloc) {
        Err(e) => {},
        Ok(a) => {
            let bytes = a.bytes;
            if !(a.leases > 0) {
                if a.ipc_src.is_some() {
                    drop_ipc_import_keeps_clock(s, alloc);
                    match s.drop_ipc_import(alloc) {
                        (s, Err(e)) => {},
                        (s, Ok(_v)) => {
                            run_solo_keeps_clock(s, op, 1);
                        },
                    }
                } else if a.share_src.is_some() {
                    drop_share_import_keeps_clock(s, alloc);
                    match s.drop_share_import(alloc) {
                        (s, Err(e)) => {},
                        (s, Ok(_v)) => {
                            run_solo_keeps_clock(s, op, 1);
                        },
                    }
                } else if !(a.ipc_opens > 0) {
                    if !(a.share_opens > 0) {
                        if !(!a.live || !a.devices.contains(device)) {
                            drop_copy_keeps_clock(s, device, alloc, bytes);
                            match s.drop_copy(device, alloc, bytes) {
                                (s, Err(e)) => {},
                                (s, Ok(_v)) => {
                                    run_solo_keeps_clock(s, op, 1);
                                },
                            }
                        }
                    }
                }
            }
        },
    }
}

/// [`Sim::fail_transfer`] takes no time.
pub proof fn fail_transfer_keeps_clock(s0: SimState, id: OpId)
    ensures
        s0.fail_transfer(id).clock == s0.clock,
{
}

/// [`Sim::start_memcpy`] takes no time.
pub proof fn start_memcpy_keeps_clock(
    s0: SimState,
    id: OpId,
    device: DeviceId,
    stream: StreamId,
    launch: LaunchCost,
    m: MemcpyOp,
)
    ensures
        s0.start_memcpy(id, device, stream, launch, m).0.clock == s0.clock,
{
    reveal(SimState::start_memcpy);
    let s = s0;
    if s.fail_next_memcpy {
        fail_transfer_keeps_clock(s, id);
    } else {
        match s.require_memcpy_attach(stream, m) {
            Err(e) => {},
            Ok(_v) => match s.memcpy_precheck(m) {
                Err(e) => {},
                Ok(_v) => match s.managed_local_copy(m) {
                    Err(e) => {},
                    Ok(local) => if local {
                        run_solo_keeps_clock(s, id, 1);
                    } else {
                        match s.profile.gpu(device) {
                            Err(e) => {},
                            Ok(gp) => match s.gpu_rt(device) {
                                Err(e) => {},
                                Ok(rt0) => {
                                    if !(rt0.copies >= gp.copy_engines) {
                                        charge_replica_hbm_keeps_clock(s, m);
                                    }
                                },
                            },
                        }
                    },
                },
            },
        }
    }
}

/// [`Sim::lease_parts`] takes no time.
pub proof fn lease_parts_keeps_clock(s0: SimState, parts: Seq<(DeviceId, AllocId)>)
    ensures
        s0.lease_parts(parts).0.clock == s0.clock,
{
    let s = s0;
    lease_parts_from_keeps_clock(s, parts, 0);
}

/// [`Sim::lease_parts`] takes no time.
pub proof fn lease_parts_from_keeps_clock(s0: SimState, parts: Seq<(DeviceId, AllocId)>, i: int)
    ensures
        s0.lease_parts_from(parts, i).0.clock == s0.clock,
    decreases parts.len() - i,
{
    let s = s0;
    if 0 <= i < parts.len() {
        match s.alloc_ref(parts[i].1) {
            Err(e) => {},
            Ok(a) => {
                let a = AllocView { leases: a.leases.saturating_add(1), ..a };
                let s = SimState { allocs: s.allocs.insert(parts[i].1, a), ..s };
                lease_parts_from_keeps_clock(s, parts, i + 1);
            },
        }
    }
}

/// [`Sim::start_allreduce`] takes no time.
pub proof fn start_allreduce_keeps_clock(
    s0: SimState,
    id: OpId,
    device: DeviceId,
    parts: Seq<(DeviceId, AllocId)>,
    bytes: u64,
)
    ensures
        s0.start_allreduce(id, device, parts, bytes).0.clock == s0.clock,
{
    let s = s0;
    match s.require_parts(parts) {
        Err(e) => {},
        Ok(_v) => match s.allreduce_ns(parts, bytes) {
            Err(e) => {},
            Ok(ns) => {
                take_compute_keeps_clock(s, device);
                match s.take_compute(device) {
                    (s, Err(e)) => {},
                    (s, Ok(free)) => {
                        if !(!free) {
                            lease_parts_keeps_clock(s, parts);
                            match s.lease_parts(parts) {
                                (s, Err(e)) => {},
                                (s, Ok(_v)) => {
                                    run_solo_keeps_clock(s, id, ns);
                                },
                            }
                        }
                    },
                }
            },
        },
    }
}

/// [`Sim::start_batch_mem_ops`] takes no time.
pub proof fn start_batch_mem_ops_keeps_clock(
    s0: SimState,
    op: OpId,
    device: DeviceId,
    ops: Seq<BatchMemOp>,
)
    ensures
        s0.start_batch_mem_ops(op, device, ops).0.clock == s0.clock,
{
    let s = s0;
    match s.batch_mem_ready(device, ops) {
        Err(e) => {},
        Ok(ready) => {
            if !(!ready) {
                run_solo_keeps_clock(s, op, 1);
            }
        },
    }
}

/// [`Sim::start_device_launch`] takes no time.
pub proof fn start_device_launch_keeps_clock(s0: SimState, op: OpId, device: DeviceId)
    ensures
        s0.start_device_launch(op, device).0.clock == s0.clock,
{
    let s = s0;
    take_compute_keeps_clock(s, device);
    match s.take_compute(device) {
        (s, Err(e)) => {},
        (s, Ok(free)) => {
            if !(!free) {
                match s.profile.gpu(device) {
                    Err(e) => {},
                    Ok(gpu) => {
                        run_solo_keeps_clock(s, op, gpu.graph_launch_ns);
                    },
                }
            }
        },
    }
}

/// [`Sim::start_event_wait`] takes no time.
pub proof fn start_event_wait_keeps_clock(s0: SimState, id: OpId, event: EventId, skip_graph: bool)
    ensures
        s0.start_event_wait(id, event, skip_graph).0.clock == s0.clock,
{
    let s = s0;
    match s.event_wait_gate(event, skip_graph) {
        Err(e) => {},
        Ok(gate) => {
            if !(gate.is_none()) {
                run_solo_keeps_clock(s, id, 1);
            }
        },
    }
}

/// [`Sim::start_set_conditional`] takes no time.
pub proof fn start_set_conditional_keeps_clock(s0: SimState, id: OpId, handle: CondId, value: u32)
    ensures
        s0.start_set_conditional(id, handle, value).0.clock == s0.clock,
{
    let s = s0;
    match s.conds.get(handle) {
        None => {},
        Some(c) => {
            let c = Cond { value: value, ..c };
            let s = SimState { conds: s.conds.insert(handle, c), ..s };
            run_solo_keeps_clock(s, id, 1);
        },
    }
}

/// [`Sim::start_skipped`] takes no time.
pub proof fn start_skipped_keeps_clock(s0: SimState, id: OpId)
    ensures
        s0.start_skipped(id).clock == s0.clock,
{
    let s = s0;
    let s = match s.ops.get(id) {
        Some(op) => {
            let op = OpView { skipped: true, ..op };
            let s = SimState { ops: s.ops.insert(id, op), ..s };
            s
        },
        _ => s,
    };
    run_solo_keeps_clock(s, id, 1);
}

/// [`Sim::start_kind`] takes no time.
pub proof fn start_kind_keeps_clock(
    s0: SimState,
    id: OpId,
    device: DeviceId,
    stream: StreamId,
    launch: LaunchCost,
    kind: GpuOpView,
)
    ensures
        s0.start_kind(id, device, stream, launch, kind).0.clock == s0.clock,
{
    reveal(SimState::start_kind);
    let s = s0;
    match kind {
        GpuOpView::Alloc { id: alloc, bytes } => {
            start_alloc_keeps_clock(s, id, device, alloc, bytes);
        },
        GpuOpView::Free { id: alloc } => {
            start_free_keeps_clock(s, id, device, alloc);
        },
        GpuOpView::Kernel { kind, reads, writes, cooperative } => {
            start_kernel_keeps_clock(s, id, device, stream, launch, kind, reads, writes);
        },
        GpuOpView::Memset(op) => {
            start_memset_keeps_clock(s, id, device, stream, launch, op);
        },
        GpuOpView::HostFunc { fn_id, user_data } => match s.host_func_ns(device, launch) {
            Err(e) => {},
            Ok(ns) => {
                run_solo_keeps_clock(s, id, ns);
            },
        },
        GpuOpView::Empty | GpuOpView::Attach { .. } | GpuOpView::WhileTick { .. } => {
            run_solo_keeps_clock(s, id, 1);
        },
        GpuOpView::Memcpy(m) => {
            start_memcpy_keeps_clock(s, id, device, stream, launch, m);
        },
        GpuOpView::EventRecord { event, external } => {
            let root = s.event_root(event);
            mark_recorded_keeps_clock(s, root, id);
            let s = s.mark_recorded(root, id);
            run_solo_keeps_clock(s, id, 1);
        },
        GpuOpView::EventWait { event, external } => {
            start_event_wait_keeps_clock(s, id, event, external && launch != LaunchCost::Kernel);
        },
        GpuOpView::AllReduce { parts, bytes } => {
            start_allreduce_keeps_clock(s, id, device, parts, bytes);
        },
        GpuOpView::ChildGraph { graph } => {},
        GpuOpView::If { handle, body } => {},
        GpuOpView::While { handle, body } => {},
        GpuOpView::Switch { handle, bodies } => {},
        GpuOpView::SetConditional { handle, value } => {
            start_set_conditional_keeps_clock(s, id, handle, value);
        },
        GpuOpView::WriteValue { id: alloc, offset, value, bits32 } => {
            let ops = seq![BatchMemOp::Write { id: alloc, offset, value, bits32 }];
            start_batch_mem_ops_keeps_clock(s, id, device, ops);
        },
        GpuOpView::WaitValue { id: alloc, offset, value, bits32, cmp } => {
            let ops = seq![BatchMemOp::Wait { id: alloc, offset, value, bits32, cmp }];
            start_batch_mem_ops_keeps_clock(s, id, device, ops);
        },
        GpuOpView::BatchMem { ops } => {
            start_batch_mem_ops_keeps_clock(s, id, device, ops);
        },
        GpuOpView::DeviceLaunch { graph } => {
            start_device_launch_keeps_clock(s, id, device);
        },
    }
}

/// [`Sim::try_start`] takes no time.
pub proof fn try_start_keeps_clock(s0: SimState, id: OpId)
    ensures
        s0.try_start(id).0.clock == s0.clock,
{
    reveal(SimState::try_start);
    let s = s0;
    match s.op_ref(id) {
        Err(e) => {},
        Ok(op) => {
            let device = op.device;
            let stream = op.stream;
            let launch = op.launch;
            let kind = op.kind;
            if !(s.unavailable.contains(device)) {
                if s.cond_skip(op.preds) {
                    start_skipped_keeps_clock(s, id);
                } else {
                    start_kind_keeps_clock(s, id, device, stream, launch, kind);
                }
            }
        },
    }
}

/// [`Sim::take_compute`] takes no time.
pub proof fn take_compute_keeps_clock(s0: SimState, device: DeviceId)
    ensures
        s0.take_compute(device).0.clock == s0.clock,
{
    let s = s0;
    take_compute_n_keeps_clock(s, device, 1);
}

/// [`Sim::take_compute_n`] takes no time.
pub proof fn take_compute_n_keeps_clock(s0: SimState, device: DeviceId, n: u8)
    ensures
        s0.take_compute_n(device, n).0.clock == s0.clock,
{
    reveal(SimState::take_compute_n);
}

/// [`Sim::drop_compute`] takes no time.
pub proof fn drop_compute_keeps_clock(s0: SimState, device: DeviceId)
    ensures
        s0.drop_compute(device).0.clock == s0.clock,
{
    let s = s0;
    drop_compute_n_keeps_clock(s, device, 1);
}

/// [`Sim::drop_compute_n`] takes no time.
pub proof fn drop_compute_n_keeps_clock(s0: SimState, device: DeviceId, n: u8)
    ensures
        s0.drop_compute_n(device, n).0.clock == s0.clock,
{
}

/// [`Sim::add_op_dep`] takes no time.
pub proof fn add_op_dep_keeps_clock(s0: SimState, id: OpId, dep: OpId)
    ensures
        s0.add_op_dep(id, dep).clock == s0.clock,
{
}

/// [`Sim::add_op_deps`] takes no time.
pub proof fn add_op_deps_keeps_clock(s0: SimState, id: OpId, deps: Seq<OpId>)
    ensures
        s0.add_op_deps(id, deps).clock == s0.clock,
{
    let s = s0;
    add_op_deps_from_keeps_clock(s, id, deps, 0);
}

/// [`Sim::add_op_deps`] takes no time.
pub proof fn add_op_deps_from_keeps_clock(s0: SimState, id: OpId, deps: Seq<OpId>, i: int)
    ensures
        s0.add_op_deps_from(id, deps, i).clock == s0.clock,
    decreases deps.len() - i,
{
    let s = s0;
    if 0 <= i < deps.len() {
        add_op_dep_keeps_clock(s, id, deps[i]);
        let s = s.add_op_dep(id, deps[i]);
        add_op_deps_from_keeps_clock(s, id, deps, i + 1);
    }
}

/// [`Sim::ensure_launch_events`] takes no time.
pub proof fn ensure_launch_events_keeps_clock(s0: SimState)
    ensures
        s0.ensure_launch_events().clock == s0.clock,
{
    let s = s0;
    match s.enq.programmatic_event {
        Some(pe) => {
            ensure_event_keeps_clock(s, pe.event);
        },
        _ => {},
    }
    let s = match s.enq.programmatic_event {
        Some(pe) => {
            let s = s.ensure_event(pe.event);
            s
        },
        _ => s,
    };
    match s.enq.launch_completion {
        Some(lc) => {
            ensure_event_keeps_clock(s, lc.event);
        },
        _ => {},
    }
}

/// [`Sim::mark_launch_events`] takes no time.
pub proof fn mark_launch_events_keeps_clock(
    s0: SimState,
    pde: Option<ProgrammaticEvent>,
    lce: Option<LaunchCompletionEvent>,
    id: OpId,
)
    ensures
        s0.mark_launch_events(pde, lce, id).clock == s0.clock,
{
    let s = s0;
    match pde {
        Some(pe) => {
            let root = s.event_root(pe.event);
            mark_recorded_keeps_clock(s, root, id);
        },
        _ => {},
    }
    let s = match pde {
        Some(pe) => {
            let root = s.event_root(pe.event);
            let s = s.mark_recorded(root, id);
            s
        },
        _ => s,
    };
    match lce {
        Some(lc) => {
            let root = s.event_root(lc.event);
            mark_recorded_keeps_clock(s, root, id);
        },
        _ => {},
    }
}

/// [`Sim::take_op_id`] takes no time.
pub proof fn take_op_id_keeps_clock(s0: SimState)
    ensures
        s0.take_op_id().0.clock == s0.clock,
{
}

/// [`Sim::submit_live`] takes no time.
pub proof fn submit_live_keeps_clock(
    s0: SimState,
    device: DeviceId,
    stream: StreamId,
    kind: GpuOpView,
    launch: LaunchCost,
)
    ensures
        s0.submit_live(device, stream, kind, launch).0.clock == s0.clock,
{
    reveal(SimState::submit_live);
    let s = s0;
    match s.profile.gpu(device) {
        Err(e) => {},
        Ok(_gpu) => match s.validate_kernel_launch(device, kind) {
            Err(e) => {},
            Ok(_v) => {
                take_op_id_keeps_clock(s);
                let (s, id) = s.take_op_id();
                ensure_launch_events_keeps_clock(s);
                let s = s.ensure_launch_events();
                let deps = s.submit_deps(device, stream, kind);
                let priority = s.snap_priority(device, stream);
                match s.snap_mem_sync(device, stream, kind) {
                    Err(e) => {},
                    Ok((domain, map)) => {
                        let attrs = s.op_attrs(priority, map.physical(domain));
                        let op = OpView {
                            device,
                            stream,
                            kind,
                            deps,
                            done: false,
                            cancelled: false,
                            launch,
                            submit_ns: s.clock,
                            start_ns: None,
                            done_ns: None,
                            preds: s.enqueue_preds,
                            skipped: false,
                            attrs,
                            pdl_trigger_ns: None,
                            domain_fence_paid: false,
                        };
                        let s = SimState { ops: s.ops.insert(id, op), ..s };
                        mark_launch_events_keeps_clock(
                            s,
                            attrs.programmatic_event,
                            attrs.launch_completion,
                            id,
                        );
                    },
                }
            },
        },
    }
}

/// [`Sim::capture_event`] takes no time.
pub proof fn capture_event_keeps_clock(s0: SimState, event: EventId)
    ensures
        s0.capture_event(event).clock == s0.clock,
{
}

/// [`Sim::capture_fork`] takes no time.
pub proof fn capture_fork_keeps_clock(
    s0: SimState,
    device: DeviceId,
    stream: StreamId,
    kind: GpuOpView,
)
    ensures
        s0.capture_fork(device, stream, kind).0.clock == s0.clock,
{
    reveal(SimState::capture_fork);
}

/// [`Sim::capture_events`] takes no time.
pub proof fn capture_events_keeps_clock(s0: SimState, kind: GpuOpView)
    ensures
        s0.capture_events(kind).clock == s0.clock,
{
    reveal(SimState::capture_events);
    let s = s0;
    match kind {
        GpuOpView::EventRecord { event, external } => {
            if !external {
                capture_event_keeps_clock(s, event);
            }
        },
        _ => {},
    }
    let s = match kind {
        GpuOpView::EventRecord { event, external } => {
            let s = if !external {
                let s = s.capture_event(event);
                s
            } else {
                s
            };
            s
        },
        _ => s,
    };
    match s.enq.programmatic_event {
        Some(pe) => {
            ensure_event_keeps_clock(s, pe.event);
            let s = s.ensure_event(pe.event);
            if !pe.external {
                capture_event_keeps_clock(s, pe.event);
            }
        },
        _ => {},
    }
    let s = match s.enq.programmatic_event {
        Some(pe) => {
            let s = s.ensure_event(pe.event);
            let s = if !pe.external {
                let s = s.capture_event(pe.event);
                s
            } else {
                s
            };
            s
        },
        _ => s,
    };
    match s.enq.launch_completion {
        Some(lc) => {
            ensure_event_keeps_clock(s, lc.event);
            let s = s.ensure_event(lc.event);
            if !lc.external {
                capture_event_keeps_clock(s, lc.event);
            }
        },
        _ => {},
    }
}

/// [`Sim::take_pending`] takes no time.
pub proof fn take_pending_keeps_clock(s0: SimState, device: DeviceId, stream: StreamId)
    ensures
        s0.take_pending(device, stream).0.clock == s0.clock,
{
}

/// [`Sim::merge_capture_pending`] takes no time.
pub proof fn merge_capture_pending_keeps_clock(
    s0: SimState,
    device: DeviceId,
    stream: StreamId,
    first: Seq<usize>,
)
    ensures
        s0.merge_capture_pending(device, stream, first).0.clock == s0.clock,
{
    reveal(SimState::merge_capture_pending);
    let s = s0;
    take_pending_keeps_clock(s, device, stream);
}

/// [`Sim::record_captured`] takes no time.
pub proof fn record_captured_keeps_clock(
    s0: SimState,
    device: DeviceId,
    stream: StreamId,
    kind: GpuOpView,
)
    ensures
        s0.record_captured(device, stream, kind).0.clock == s0.clock,
{
    reveal(SimState::record_captured);
    let s = s0;
    capture_events_keeps_clock(s, kind);
    let s = s.capture_events(kind);
    let first = s.capture_step_deps(device, stream, kind);
    merge_capture_pending_keeps_clock(s, device, stream, first);
    let (s, deps) = s.merge_capture_pending(device, stream, first);
    let priority = s.snap_priority(device, stream);
    match s.snap_mem_sync(device, stream, kind) {
        Err(e) => {},
        Ok((domain, map)) => {
            let attrs = s.node_attrs(priority, domain, map);
            let step = StepView {
                device,
                stream,
                kind,
                deps,
                enabled: true,
                destroyed: false,
                attrs,
            };
            let s = SimState { capture_buf: s.capture_buf.push(step), ..s };
            take_op_id_keeps_clock(s);
        },
    }
}

/// [`Sim::submit_captured`] takes no time.
pub proof fn submit_captured_keeps_clock(
    s0: SimState,
    device: DeviceId,
    stream: StreamId,
    kind: GpuOpView,
)
    ensures
        s0.submit_captured(device, stream, kind).0.clock == s0.clock,
{
    reveal(SimState::submit_captured);
    let s = s0;
    capture_fork_keeps_clock(s, device, stream, kind);
    match s.capture_fork(device, stream, kind) {
        (s, Err(e)) => {},
        (s, Ok(_v)) => if !s.in_capture(device, stream) {
            let live = (match s.capturing { Some(c) => c.mode.live_uncaptured(), None => false, });
            if live {
                submit_live_keeps_clock(s, device, stream, kind, LaunchCost::Kernel);
            }
        } else {
            record_captured_keeps_clock(s, device, stream, kind);
        },
    }
}

/// [`Sim::submit_launch`] takes no time.
pub proof fn submit_launch_keeps_clock(
    s0: SimState,
    device: DeviceId,
    stream: StreamId,
    kind: GpuOpView,
    launch: LaunchCost,
)
    ensures
        s0.submit_launch(device, stream, kind, launch).0.clock == s0.clock,
{
    let s = s0;
    if !(s.unavailable.contains(device)) {
        if s.capturing.is_some() {
            submit_captured_keeps_clock(s, device, stream, kind);
        } else {
            submit_live_keeps_clock(s, device, stream, kind, launch);
        }
    }
}

/// [`Sim::reset_conds_of`] takes no time.
pub proof fn reset_conds_of_keeps_clock(s0: SimState, graph: GraphId)
    ensures
        s0.reset_conds_of(graph).clock == s0.clock,
{
}

/// [`Sim::reset_tree`] takes no time.
pub proof fn reset_tree_keeps_clock(s0: SimState, stack: Seq<GraphId>, seen: Seq<GraphId>)
    ensures
        s0.reset_tree(stack, seen).clock == s0.clock,
    decreases 0x1_0000_0000 - seen.len(), stack.len(),
{
    if !(stack.len() == 0) {
        if seen.contains(stack.last()) || seen.len() >= 0x1_0000_0000 {
            reset_tree_keeps_clock(s0, stack.drop_last(), seen);
        } else {
            let g = stack.last();
            reset_conds_of_keeps_clock(s0, g);
            let s = s0.reset_conds_of(g);
            reset_tree_keeps_clock(s, stack.drop_last() + s.children(g), seen.push(g));
        }
    }
}

/// [`Sim::reset_graph_tree_conds`] takes no time.
pub proof fn reset_graph_tree_conds_keeps_clock(s0: SimState, root: GraphId)
    ensures
        s0.reset_graph_tree_conds(root).clock == s0.clock,
{
    reset_tree_keeps_clock(s0, seq![root], Seq::empty());
}

/// [`Sim::number_conds`] leaves what clones were made from as it is.
pub proof fn number_conds_keeps_clone_of(
    s0: SimState,
    conds: Seq<(CondId, Cond)>,
    remap: Map<GraphId, GraphId>,
)
    ensures
        s0.number_conds(conds, remap).0.clone_of == s0.clone_of,
{
    let s = s0;
    let renamed = Map::empty();
    number_conds_from_keeps_clone_of(s, conds, remap, renamed, 0);
}

/// [`Sim::number_conds`] leaves what clones were made from as it is.
pub proof fn number_conds_from_keeps_clone_of(
    s0: SimState,
    conds: Seq<(CondId, Cond)>,
    remap: Map<GraphId, GraphId>,
    renamed: Map<CondId, CondId>,
    i: int,
)
    ensures
        s0.number_conds_from(conds, remap, renamed, i).0.clone_of == s0.clone_of,
    decreases conds.len() - i,
{
    let s = s0;
    if 0 <= i < conds.len() {
        let c = conds[i].1;
        match s.clone_id(remap, c.graph) {
            Err(e) => {},
            Ok(graph) => {
                let id = CondId(s.next.cond);
                let s = SimState {
                    next: NextIds { cond: s.next.cond.saturating_add(1), ..s.next },
                    ..s
                };
                let renamed = renamed.insert(conds[i].0, id);
                let s = SimState {
                    conds: s.conds.insert(id, Cond { graph, default: c.default, value: c.value }),
                    ..s
                };
                number_conds_from_keeps_clone_of(s, conds, remap, renamed, i + 1);
            },
        }
    }
}

/// [`Sim::clone_conditionals`] leaves what clones were made from as it is.
pub proof fn clone_conditionals_keeps_clone_of(s0: SimState, remap: Map<GraphId, GraphId>)
    ensures
        s0.clone_conditionals(remap).0.clone_of == s0.clone_of,
{
    let s = s0;
    let conds = s.conds_to_clone(remap);
    number_conds_keeps_clone_of(s, conds, remap);
    match s.number_conds(conds, remap) {
        (s, Err(e)) => {},
        (s, Ok(renamed)) => {
            if !(vacant(renamed.dom())) {
                clone_conditionals_from_keeps_clone_of(s, remap, renamed, 0);
            }
        },
    }
}

/// [`Sim::clone_conditionals`] leaves what clones were made from as it is.
pub proof fn clone_conditionals_from_keeps_clone_of(
    s0: SimState,
    remap: Map<GraphId, GraphId>,
    renamed: Map<CondId, CondId>,
    i: int,
)
    ensures
        s0.clone_conditionals_from(remap, renamed, i).0.clone_of == s0.clone_of,
    decreases order_of(remap.dom()).len() - i,
{
    let s = s0;
    if 0 <= i < order_of(remap.dom()).len() {
        let id = remap[order_of(remap.dom())[i]];
        match s.graph_ref(id) {
            Err(e) => {},
            Ok(g) => {
                let steps = s.rename_step_conds(g.steps, renamed);
                match s.graph_ref(id) {
                    Err(e) => {},
                    Ok(h) => {
                        let h = GraphView { steps: steps, ..h };
                        let s = SimState { graphs: s.graphs.insert(id, h), ..s };
                        clone_conditionals_from_keeps_clone_of(s, remap, renamed, i + 1);
                    },
                }
            },
        }
    }
}

/// [`Sim::ensure_event`] leaves the captured nodes as they are.
pub proof fn ensure_event_keeps_capture_buf(s0: SimState, event: EventId)
    ensures
        s0.ensure_event(event).capture_buf == s0.capture_buf,
{
}

/// [`Sim::capture_event`] leaves the captured nodes as they are.
pub proof fn capture_event_keeps_capture_buf(s0: SimState, event: EventId)
    ensures
        s0.capture_event(event).capture_buf == s0.capture_buf,
{
}

/// [`Sim::capture_events`] leaves the captured nodes as they are.
pub proof fn capture_events_keeps_capture_buf(s0: SimState, kind: GpuOpView)
    ensures
        s0.capture_events(kind).capture_buf == s0.capture_buf,
{
    reveal(SimState::capture_events);
    let s = s0;
    match kind {
        GpuOpView::EventRecord { event, external } => {
            if !external {
                capture_event_keeps_capture_buf(s, event);
            }
        },
        _ => {},
    }
    let s = match kind {
        GpuOpView::EventRecord { event, external } => {
            let s = if !external {
                let s = s.capture_event(event);
                s
            } else {
                s
            };
            s
        },
        _ => s,
    };
    match s.enq.programmatic_event {
        Some(pe) => {
            ensure_event_keeps_capture_buf(s, pe.event);
            let s = s.ensure_event(pe.event);
            if !pe.external {
                capture_event_keeps_capture_buf(s, pe.event);
            }
        },
        _ => {},
    }
    let s = match s.enq.programmatic_event {
        Some(pe) => {
            let s = s.ensure_event(pe.event);
            let s = if !pe.external {
                let s = s.capture_event(pe.event);
                s
            } else {
                s
            };
            s
        },
        _ => s,
    };
    match s.enq.launch_completion {
        Some(lc) => {
            ensure_event_keeps_capture_buf(s, lc.event);
            let s = s.ensure_event(lc.event);
            if !lc.external {
                capture_event_keeps_capture_buf(s, lc.event);
            }
        },
        _ => {},
    }
}

/// [`Sim::take_pending`] leaves the captured nodes as they are.
pub proof fn take_pending_keeps_capture_buf(s0: SimState, device: DeviceId, stream: StreamId)
    ensures
        s0.take_pending(device, stream).0.capture_buf == s0.capture_buf,
{
}

/// [`Sim::merge_capture_pending`] leaves the captured nodes as they are.
pub proof fn merge_capture_pending_keeps_capture_buf(
    s0: SimState,
    device: DeviceId,
    stream: StreamId,
    first: Seq<usize>,
)
    ensures
        s0.merge_capture_pending(device, stream, first).0.capture_buf == s0.capture_buf,
{
    reveal(SimState::merge_capture_pending);
    let s = s0;
    take_pending_keeps_capture_buf(s, device, stream);
}

/// [`Sim::add_alloc`] leaves the profile as it is.
pub proof fn add_alloc_keeps_profile(s0: SimState, a: AllocView)
    ensures
        s0.add_alloc(a).0.profile == s0.profile,
{
}

/// [`Sim::build_clones`] leaves the profile as it is.
pub proof fn build_clones_keeps_profile(
    s0: SimState,
    order: Seq<GraphId>,
    remap: Map<GraphId, GraphId>,
)
    ensures
        s0.build_clones(order, remap).0.profile == s0.profile,
{
    let s = s0;
    let built = Seq::empty();
    build_clones_from_keeps_profile(s, order, remap, built, 0);
}

/// [`Sim::build_clones`] leaves the profile as it is.
pub proof fn build_clones_from_keeps_profile(
    s0: SimState,
    order: Seq<GraphId>,
    remap: Map<GraphId, GraphId>,
    built: Seq<Seq<StepView>>,
    i: int,
)
    ensures
        s0.build_clones_from(order, remap, built, i).0.profile == s0.profile,
    decreases order.len() - i,
{
    let s = s0;
    if 0 <= i < order.len() {
        match s.graph_ref(order[i]) {
            Err(e) => {},
            Ok(g) => match s.remap_nested_graphs(g.steps, remap) {
                Err(e) => {},
                Ok(raw) => match s.clone_id(remap, order[i]) {
                    Err(e) => {},
                    Ok(id) => {
                        clone_mem_alloc_nodes_keeps_profile(s, order[i], id, raw);
                        match s.clone_mem_alloc_nodes(order[i], id, raw) {
                            (s, Err(e)) => {},
                            (s, Ok(steps)) => {
                                let built = built.push(steps);
                                build_clones_from_keeps_profile(s, order, remap, built, i + 1);
                            },
                        }
                    },
                },
            },
        }
    }
}

/// [`Sim::fork_alloc`] leaves the profile as it is.
pub proof fn fork_alloc_keeps_profile(s0: SimState, src: AllocId)
    ensures
        s0.fork_alloc(src).0.profile == s0.profile,
{
    let s = s0;
    match s.alloc_ref(src) {
        Err(e) => {},
        Ok(a) => {
            let bytes = a.bytes;
            let pool = a.pool;
            let b = AllocView::blank(bytes);
            let b = AllocView { pool: pool, ..b };
            add_alloc_keeps_profile(s, b);
        },
    }
}

/// [`Sim::fork_allocs`] leaves the profile as it is.
pub proof fn fork_allocs_keeps_profile(s0: SimState, ids: Seq<AllocId>)
    ensures
        s0.fork_allocs(ids).0.profile == s0.profile,
{
    let s = s0;
    let out = Seq::empty();
    fork_allocs_from_keeps_profile(s, ids, out, 0);
}

/// [`Sim::fork_allocs`] leaves the profile as it is.
pub proof fn fork_allocs_from_keeps_profile(
    s0: SimState,
    ids: Seq<AllocId>,
    out: Seq<AllocId>,
    i: int,
)
    ensures
        s0.fork_allocs_from(ids, out, i).0.profile == s0.profile,
    decreases ids.len() - i,
{
    let s = s0;
    if 0 <= i < ids.len() {
        fork_alloc_keeps_profile(s, ids[i]);
        match s.fork_alloc(ids[i]) {
            (s, Err(e)) => {},
            (s, Ok(id)) => {
                let out = out.push(id);
                fork_allocs_from_keeps_profile(s, ids, out, i + 1);
            },
        }
    }
}

/// [`Sim::clone_mem_alloc_nodes`] leaves the profile as it is.
pub proof fn clone_mem_alloc_nodes_keeps_profile(
    s0: SimState,
    src: GraphId,
    dst: GraphId,
    steps: Seq<StepView>,
)
    ensures
        s0.clone_mem_alloc_nodes(src, dst, steps).0.profile == s0.profile,
{
    let s = s0;
    let before = s.allocs_of(src);
    if !(before.len() == 0) {
        fork_allocs_keeps_profile(s, before);
    }
}

/// [`Sim::refund_hbm`] leaves the pieces of ranges as they are.
pub proof fn refund_hbm_keeps_pieces(s0: SimState, device: DeviceId, bytes: u64)
    ensures
        s0.refund_hbm(device, bytes).0.vmm_handle_at == s0.vmm_handle_at,
        s0.refund_hbm(device, bytes).0.mc_at == s0.mc_at,
{
}

/// [`Sim::pool_release`] leaves the pieces of ranges as they are.
pub proof fn pool_release_keeps_pieces(s0: SimState, pool: PoolId, bytes: u64)
    ensures
        s0.pool_release(pool, bytes).0.vmm_handle_at == s0.vmm_handle_at,
        s0.pool_release(pool, bytes).0.mc_at == s0.mc_at,
{
    reveal(SimState::pool_release);
    let s = s0;
    match s.pool_root(pool) {
        Err(e) => {},
        Ok(root) => match s.pool_ref(root) {
            Err(e) => {},
            Ok(p0) => {
                let device = p0.device;
                let threshold = p0.release_threshold;
                let cached = p0.cached.saturating_add(bytes);
                let live = p0.live.saturating_sub(bytes);
                match s.pool_ref(root) {
                    Err(e) => {},
                    Ok(p) => {
                        let p = PoolView {
                            live: live,
                            cached: if cached > threshold { threshold } else { cached },
                            ..p
                        };
                        let s = SimState { pools: s.pools.insert(root, p), ..s };
                        if cached > threshold {
                            refund_hbm_keeps_pieces(s, device, cached.saturating_sub(threshold));
                        }
                    },
                }
            },
        },
    }
}

/// [`Sim::refund_device`] leaves the pieces of ranges as they are.
pub proof fn refund_device_keeps_pieces(s0: SimState, device: DeviceId, alloc: AllocId, bytes: u64)
    ensures
        s0.refund_device(device, alloc, bytes).0.vmm_handle_at == s0.vmm_handle_at,
        s0.refund_device(device, alloc, bytes).0.mc_at == s0.mc_at,
{
    let s = s0;
    match s.alloc_ref(alloc) {
        Err(e) => {},
        Ok(a) => match a.pool {
            Some(p) => match s.pool_ref(p) {
                Err(e) => {},
                Ok(owner) => if owner.device == device {
                    pool_release_keeps_pieces(s, p, bytes);
                } else {
                    refund_hbm_keeps_pieces(s, device, bytes);
                },
            },
            None => {
                refund_hbm_keeps_pieces(s, device, bytes);
            },
        },
    }
}

/// [`Sim::maybe_refund_handle`] leaves the pieces of ranges as they are.
pub proof fn maybe_refund_handle_keeps_pieces(s0: SimState, handle: MemHandleId)
    ensures
        s0.maybe_refund_handle(handle).0.vmm_handle_at == s0.vmm_handle_at,
        s0.maybe_refund_handle(handle).0.mc_at == s0.mc_at,
{
    reveal(SimState::maybe_refund_handle);
    let s = s0;
    match s.handle_ref(handle) {
        Err(e) => {},
        Ok(h) => {
            let device = h.device;
            let bytes = h.bytes;
            if h.refs == 0 && h.maps == 0 && h.charged {
                refund_hbm_keeps_pieces(s, device, bytes);
            }
        },
    }
}

/// [`Sim::refund_hbm`] leaves the allocations and the numbers as they are.
pub proof fn refund_hbm_keeps_allocs(s0: SimState, device: DeviceId, bytes: u64)
    ensures
        s0.refund_hbm(device, bytes).0.allocs == s0.allocs,
        s0.refund_hbm(device, bytes).0.next == s0.next,
{
}

/// [`Sim::pool_release`] leaves the allocations and the numbers as they are.
pub proof fn pool_release_keeps_allocs(s0: SimState, pool: PoolId, bytes: u64)
    ensures
        s0.pool_release(pool, bytes).0.allocs == s0.allocs,
        s0.pool_release(pool, bytes).0.next == s0.next,
{
    reveal(SimState::pool_release);
    let s = s0;
    match s.pool_root(pool) {
        Err(e) => {},
        Ok(root) => match s.pool_ref(root) {
            Err(e) => {},
            Ok(p0) => {
                let device = p0.device;
                let threshold = p0.release_threshold;
                let cached = p0.cached.saturating_add(bytes);
                let live = p0.live.saturating_sub(bytes);
                match s.pool_ref(root) {
                    Err(e) => {},
                    Ok(p) => {
                        let p = PoolView {
                            live: live,
                            cached: if cached > threshold { threshold } else { cached },
                            ..p
                        };
                        let s = SimState { pools: s.pools.insert(root, p), ..s };
                        if cached > threshold {
                            refund_hbm_keeps_allocs(s, device, cached.saturating_sub(threshold));
                        }
                    },
                }
            },
        },
    }
}

/// [`Sim::refund_device`] leaves the allocations and the numbers as they are.
pub proof fn refund_device_keeps_allocs(s0: SimState, device: DeviceId, alloc: AllocId, bytes: u64)
    ensures
        s0.refund_device(device, alloc, bytes).0.allocs == s0.allocs,
        s0.refund_device(device, alloc, bytes).0.next == s0.next,
{
    let s = s0;
    match s.alloc_ref(alloc) {
        Err(e) => {},
        Ok(a) => match a.pool {
            Some(p) => match s.pool_ref(p) {
                Err(e) => {},
                Ok(owner) => if owner.device == device {
                    pool_release_keeps_allocs(s, p, bytes);
                } else {
                    refund_hbm_keeps_allocs(s, device, bytes);
                },
            },
            None => {
                refund_hbm_keeps_allocs(s, device, bytes);
            },
        },
    }
}

/// [`Sim::maybe_refund_handle`] leaves the allocations and the numbers as they are.
pub proof fn maybe_refund_handle_keeps_allocs(s0: SimState, handle: MemHandleId)
    ensures
        s0.maybe_refund_handle(handle).0.allocs == s0.allocs,
        s0.maybe_refund_handle(handle).0.next == s0.next,
{
    reveal(SimState::maybe_refund_handle);
    let s = s0;
    match s.handle_ref(handle) {
        Err(e) => {},
        Ok(h) => {
            let device = h.device;
            let bytes = h.bytes;
            if h.refs == 0 && h.maps == 0 && h.charged {
                refund_hbm_keeps_allocs(s, device, bytes);
            }
        },
    }
}

/// [`Sim::drop_vmm_physical`] leaves the allocations and the numbers as they are.
pub proof fn drop_vmm_physical_keeps_allocs(
    s0: SimState,
    id: AllocId,
    device: DeviceId,
    offset: u64,
    bytes: u64,
)
    ensures
        s0.drop_vmm_physical(id, device, offset, bytes).0.allocs == s0.allocs,
        s0.drop_vmm_physical(id, device, offset, bytes).0.next == s0.next,
{
    reveal(SimState::drop_vmm_physical);
    let s = s0;
    let multicast = s.mc_at.contains(Piece(id, device, offset, bytes));
    let s = SimState { mc_at: s.mc_at.remove(Piece(id, device, offset, bytes)), ..s };
    let gone = s.vmm_handle_at.get(Piece(id, device, offset, bytes));
    let s = SimState {
        vmm_handle_at: s.vmm_handle_at.remove(Piece(id, device, offset, bytes)),
        ..s
    };
    match gone {
        Some(h) => match s.handle_ref(h) {
            Err(e) => {},
            Ok(x) => {
                let x = MemHandle { maps: x.maps.saturating_sub(1), ..x };
                let s = SimState { mem_handles: s.mem_handles.insert(h, x), ..s };
                maybe_refund_handle_keeps_allocs(s, h);
            },
        },
        None => {
            if !(multicast) {
                refund_device_keeps_allocs(s, device, id, bytes);
            }
        },
    }
}

/// [`Sim::drop_maps`] leaves the allocations and the numbers as they are.
pub proof fn drop_maps_keeps_allocs(s0: SimState, id: AllocId, maps: Seq<(DeviceId, u64, u64)>)
    ensures
        s0.drop_maps(id, maps).0.allocs == s0.allocs,
        s0.drop_maps(id, maps).0.next == s0.next,
{
    let s = s0;
    drop_maps_from_keeps_allocs(s, id, maps, 0);
}

/// [`Sim::drop_maps`] leaves the allocations and the numbers as they are.
pub proof fn drop_maps_from_keeps_allocs(
    s0: SimState,
    id: AllocId,
    maps: Seq<(DeviceId, u64, u64)>,
    i: int,
)
    ensures
        s0.drop_maps_from(id, maps, i).0.allocs == s0.allocs,
        s0.drop_maps_from(id, maps, i).0.next == s0.next,
    decreases maps.len() - i,
{
    let s = s0;
    if 0 <= i < maps.len() {
        drop_vmm_physical_keeps_allocs(s, id, maps[i].0, maps[i].1, maps[i].2);
        match s.drop_vmm_physical(id, maps[i].0, maps[i].1, maps[i].2) {
            (s, Err(e)) => {},
            (s, Ok(_v)) => {
                drop_maps_from_keeps_allocs(s, id, maps, i + 1);
            },
        }
    }
}

/// [`Sim::rebind_current_pools`] leaves pools, GPUs and handles as they are.
pub proof fn rebind_current_pools_keeps_accounts(s0: SimState, pool: PoolId)
    ensures
        s0.rebind_current_pools(pool).pools == s0.pools,
        s0.rebind_current_pools(pool).gpus == s0.gpus,
        s0.rebind_current_pools(pool).mem_handles == s0.mem_handles,
        s0.rebind_current_pools(pool).capturing == s0.capturing,
{
    let s = s0;
    let users = s.users_of_pool(pool);
    rebind_current_pools_from_keeps_accounts(s, users, 0);
}

/// [`Sim::rebind_current_pools`] leaves pools, GPUs and handles as they are.
pub proof fn rebind_current_pools_from_keeps_accounts(s0: SimState, users: Seq<DeviceId>, i: int)
    ensures
        s0.rebind_current_pools_from(users, i).pools == s0.pools,
        s0.rebind_current_pools_from(users, i).gpus == s0.gpus,
        s0.rebind_current_pools_from(users, i).mem_handles == s0.mem_handles,
        s0.rebind_current_pools_from(users, i).capturing == s0.capturing,
    decreases users.len() - i,
{
    let s = s0;
    if 0 <= i < users.len() {
        let d = users[i];
        let def = (match s.default_pools.get(d) { Some(p) => Some(p), None => None, });
        let s = match def {
            Some(p) => {
                let s = SimState { current_pools: s.current_pools.insert(d, p), ..s };
                s
            },
            _ => s,
        };
        rebind_current_pools_from_keeps_accounts(s, users, i + 1);
    }
}

/// [`Sim::bump_hbm_peak`] leaves the profile, shares and the extra transfer time as they are.
pub proof fn bump_hbm_peak_keeps_rates(s0: SimState, device: DeviceId)
    ensures
        s0.bump_hbm_peak(device).0.profile == s0.profile,
        s0.bump_hbm_peak(device).0.sm_permille == s0.sm_permille,
        s0.bump_hbm_peak(device).0.extra_transfer_ns == s0.extra_transfer_ns,
{
}

/// [`Sim::reserve_hbm`] leaves the profile, shares and the extra transfer time as they are.
pub proof fn reserve_hbm_keeps_rates(s0: SimState, device: DeviceId, bytes: u64)
    ensures
        s0.reserve_hbm(device, bytes).0.profile == s0.profile,
        s0.reserve_hbm(device, bytes).0.sm_permille == s0.sm_permille,
        s0.reserve_hbm(device, bytes).0.extra_transfer_ns == s0.extra_transfer_ns,
{
    reveal(SimState::reserve_hbm);
    let s = s0;
    match s.profile.gpu(device) {
        Err(e) => {},
        Ok(gpu) => match s.gpu_rt(device) {
            Err(e) => {},
            Ok(rt) => {
                let used = rt.used;
                let free = gpu.hbm_bytes.saturating_sub(used);
                if !(bytes > free) {
                    match s.gpu_rt(device) {
                        Err(e) => {},
                        Ok(rt) => {
                            let s = SimState {
                                gpus: s.gpus.insert(
                                    device,
                                    GpuRtView { used: used.saturating_add(bytes), ..rt },
                                ),
                                ..s
                            };
                            bump_hbm_peak_keeps_rates(s, device);
                        },
                    }
                }
            },
        },
    }
}

/// [`Sim::refund_hbm`] leaves the profile, shares and the extra transfer time as they are.
pub proof fn refund_hbm_keeps_rates(s0: SimState, device: DeviceId, bytes: u64)
    ensures
        s0.refund_hbm(device, bytes).0.profile == s0.profile,
        s0.refund_hbm(device, bytes).0.sm_permille == s0.sm_permille,
        s0.refund_hbm(device, bytes).0.extra_transfer_ns == s0.extra_transfer_ns,
{
}

/// [`Sim::pool_release`] leaves the profile, shares and the extra transfer time as they are.
pub proof fn pool_release_keeps_rates(s0: SimState, pool: PoolId, bytes: u64)
    ensures
        s0.pool_release(pool, bytes).0.profile == s0.profile,
        s0.pool_release(pool, bytes).0.sm_permille == s0.sm_permille,
        s0.pool_release(pool, bytes).0.extra_transfer_ns == s0.extra_transfer_ns,
{
    reveal(SimState::pool_release);
    let s = s0;
    match s.pool_root(pool) {
        Err(e) => {},
        Ok(root) => match s.pool_ref(root) {
            Err(e) => {},
            Ok(p0) => {
                let device = p0.device;
                let threshold = p0.release_threshold;
                let cached = p0.cached.saturating_add(bytes);
                let live = p0.live.saturating_sub(bytes);
                match s.pool_ref(root) {
                    Err(e) => {},
                    Ok(p) => {
                        let p = PoolView {
                            live: live,
                            cached: if cached > threshold { threshold } else { cached },
                            ..p
                        };
                        let s = SimState { pools: s.pools.insert(root, p), ..s };
                        if cached > threshold {
                            refund_hbm_keeps_rates(s, device, cached.saturating_sub(threshold));
                        }
                    },
                }
            },
        },
    }
}

/// [`Sim::refund_device`] leaves the profile, shares and the extra transfer time as they are.
pub proof fn refund_device_keeps_rates(s0: SimState, device: DeviceId, alloc: AllocId, bytes: u64)
    ensures
        s0.refund_device(device, alloc, bytes).0.profile == s0.profile,
        s0.refund_device(device, alloc, bytes).0.sm_permille == s0.sm_permille,
        s0.refund_device(device, alloc, bytes).0.extra_transfer_ns == s0.extra_transfer_ns,
{
    let s = s0;
    match s.alloc_ref(alloc) {
        Err(e) => {},
        Ok(a) => match a.pool {
            Some(p) => match s.pool_ref(p) {
                Err(e) => {},
                Ok(owner) => if owner.device == device {
                    pool_release_keeps_rates(s, p, bytes);
                } else {
                    refund_hbm_keeps_rates(s, device, bytes);
                },
            },
            None => {
                refund_hbm_keeps_rates(s, device, bytes);
            },
        },
    }
}

/// [`Sim::migrate_off_except`] leaves the profile, shares and the extra transfer time as they are.
pub proof fn migrate_off_except_keeps_rates(s0: SimState, alloc: AllocId, keep: DeviceId)
    ensures
        s0.migrate_off_except(alloc, keep).0.profile == s0.profile,
        s0.migrate_off_except(alloc, keep).0.sm_permille == s0.sm_permille,
        s0.migrate_off_except(alloc, keep).0.extra_transfer_ns == s0.extra_transfer_ns,
{
    let s = s0;
    match s.alloc_ref(alloc) {
        Err(e) => {},
        Ok(a0) => {
            let bytes = a0.bytes;
            let holders = a0.devices;
            migrate_off_except_from_keeps_rates(s, alloc, keep, bytes, holders, 0);
        },
    }
}

/// [`Sim::migrate_off_except`] leaves the profile, shares and the extra transfer time as they are.
pub proof fn migrate_off_except_from_keeps_rates(
    s0: SimState,
    alloc: AllocId,
    keep: DeviceId,
    bytes: u64,
    holders: Seq<DeviceId>,
    i: int,
)
    ensures
        s0.migrate_off_except_from(alloc, keep, bytes, holders, i).0.profile == s0.profile,
        s0.migrate_off_except_from(alloc, keep, bytes, holders, i).0.sm_permille == s0.sm_permille,
        s0.migrate_off_except_from(
            alloc,
            keep,
            bytes,
            holders,
            i,
        ).0.extra_transfer_ns == s0.extra_transfer_ns,
    decreases holders.len() - i,
{
    let s = s0;
    if 0 <= i < holders.len() {
        let d = holders[i];
        if d == keep {
            migrate_off_except_from_keeps_rates(s, alloc, keep, bytes, holders, i + 1);
        } else {
            refund_device_keeps_rates(s, d, alloc, bytes);
            match s.refund_device(d, alloc, bytes) {
                (s, Err(e)) => {},
                (s, Ok(_v)) => match s.alloc_ref(alloc) {
                    Err(e) => {},
                    Ok(a) => {
                        let a = AllocView { devices: without(a.devices, d), ..a };
                        let s = SimState { allocs: s.allocs.insert(alloc, a), ..s };
                        migrate_off_except_from_keeps_rates(s, alloc, keep, bytes, holders, i + 1);
                    },
                },
            }
        }
    }
}

/// [`Sim::charge_replica_hbm`] leaves the profile, shares and the extra transfer time as they are.
pub proof fn charge_replica_hbm_keeps_rates(s0: SimState, m: MemcpyOp)
    ensures
        s0.charge_replica_hbm(m).0.profile == s0.profile,
        s0.charge_replica_hbm(m).0.sm_permille == s0.sm_permille,
        s0.charge_replica_hbm(m).0.extra_transfer_ns == s0.extra_transfer_ns,
{
    let s = s0;
    match m.dst {
        Place::Device(dst) => match s.alloc_ref(m.alloc) {
            Err(e) => {},
            Ok(a) => {
                if !(a.devices.contains(dst)) {
                    let bytes = a.bytes;
                    reserve_hbm_keeps_rates(s, dst, bytes);
                }
            },
        },
        Place::Host | Place::HostPinned => {},
    }
}

/// [`Sim::lease_bufs`] leaves the profile, shares and the extra transfer time as they are.
pub proof fn lease_bufs_keeps_rates(s0: SimState, bufs: Seq<KernelBuf>)
    ensures
        s0.lease_bufs(bufs).0.profile == s0.profile,
        s0.lease_bufs(bufs).0.sm_permille == s0.sm_permille,
        s0.lease_bufs(bufs).0.extra_transfer_ns == s0.extra_transfer_ns,
{
    let s = s0;
    lease_bufs_from_keeps_rates(s, bufs, 0);
}

/// [`Sim::lease_bufs`] leaves the profile, shares and the extra transfer time as they are.
pub proof fn lease_bufs_from_keeps_rates(s0: SimState, bufs: Seq<KernelBuf>, i: int)
    ensures
        s0.lease_bufs_from(bufs, i).0.profile == s0.profile,
        s0.lease_bufs_from(bufs, i).0.sm_permille == s0.sm_permille,
        s0.lease_bufs_from(bufs, i).0.extra_transfer_ns == s0.extra_transfer_ns,
    decreases bufs.len() - i,
{
    let s = s0;
    if 0 <= i < bufs.len() {
        match s.alloc_ref(bufs[i].id) {
            Err(e) => {},
            Ok(a) => {
                let a = AllocView { leases: a.leases.saturating_add(1), ..a };
                let s = SimState { allocs: s.allocs.insert(bufs[i].id, a), ..s };
                lease_bufs_from_keeps_rates(s, bufs, i + 1);
            },
        }
    }
}

/// [`Sim::lease_kernel`] leaves the profile, shares and the extra transfer time as they are.
pub proof fn lease_kernel_keeps_rates(
    s0: SimState,
    device: DeviceId,
    reads: Seq<KernelBuf>,
    writes: Seq<KernelBuf>,
    mapped_ok: bool,
)
    ensures
        s0.lease_kernel(device, reads, writes, mapped_ok).0.profile == s0.profile,
        s0.lease_kernel(device, reads, writes, mapped_ok).0.sm_permille == s0.sm_permille,
        s0.lease_kernel(
            device,
            reads,
            writes,
            mapped_ok,
        ).0.extra_transfer_ns == s0.extra_transfer_ns,
{
    let s = s0;
    match s.require_bufs_on_device(device, reads, mapped_ok, true) {
        Err(e) => {},
        Ok(_v) => match s.require_bufs_on_device(device, writes, mapped_ok, false) {
            Err(e) => {},
            Ok(_v) => {
                lease_bufs_keeps_rates(s, reads);
                match s.lease_bufs(reads) {
                    (s, Err(e)) => {},
                    (s, Ok(_v)) => {
                        lease_bufs_keeps_rates(s, writes);
                    },
                }
            },
        },
    }
}

/// [`Sim::migrate_each`] leaves the profile, shares and the extra transfer time as they are.
pub proof fn migrate_each_keeps_rates(s0: SimState, ids: Seq<AllocId>, keep: DeviceId)
    ensures
        s0.migrate_each(ids, keep).0.profile == s0.profile,
        s0.migrate_each(ids, keep).0.sm_permille == s0.sm_permille,
        s0.migrate_each(ids, keep).0.extra_transfer_ns == s0.extra_transfer_ns,
{
    let s = s0;
    migrate_each_from_keeps_rates(s, ids, keep, 0);
}

/// [`Sim::migrate_each`] leaves the profile, shares and the extra transfer time as they are.
pub proof fn migrate_each_from_keeps_rates(s0: SimState, ids: Seq<AllocId>, keep: DeviceId, i: int)
    ensures
        s0.migrate_each_from(ids, keep, i).0.profile == s0.profile,
        s0.migrate_each_from(ids, keep, i).0.sm_permille == s0.sm_permille,
        s0.migrate_each_from(ids, keep, i).0.extra_transfer_ns == s0.extra_transfer_ns,
    decreases ids.len() - i,
{
    let s = s0;
    if 0 <= i < ids.len() {
        migrate_off_except_keeps_rates(s, ids[i], keep);
        match s.migrate_off_except(ids[i], keep) {
            (s, Err(e)) => {},
            (s, Ok(_v)) => {
                migrate_each_from_keeps_rates(s, ids, keep, i + 1);
            },
        }
    }
}

/// [`Sim::invalidate_read_mostly_writes`] leaves the profile, shares and the extra transfer time as they are.
pub proof fn invalidate_read_mostly_writes_keeps_rates(
    s0: SimState,
    device: DeviceId,
    writes: Seq<KernelBuf>,
)
    ensures
        s0.invalidate_read_mostly_writes(device, writes).0.profile == s0.profile,
        s0.invalidate_read_mostly_writes(device, writes).0.sm_permille == s0.sm_permille,
        s0.invalidate_read_mostly_writes(device, writes).0.extra_transfer_ns == s0.extra_transfer_ns,
{
    let s = s0;
    match s.replicated_writes(writes) {
        Err(e) => {},
        Ok(ids) => {
            let list = order_of(ids);
            migrate_each_keeps_rates(s, list, device);
        },
    }
}

/// [`Sim::persist_kernel_bytes`] leaves the profile, shares and the extra transfer time as they are.
pub proof fn persist_kernel_bytes_keeps_rates(
    s0: SimState,
    device: DeviceId,
    window: Option<AccessPolicyWindow>,
    kind: KernelKind,
    bufs: Seq<KernelBuf>,
)
    ensures
        s0.persist_kernel_bytes(device, window, kind, bufs).0.profile == s0.profile,
        s0.persist_kernel_bytes(device, window, kind, bufs).0.sm_permille == s0.sm_permille,
        s0.persist_kernel_bytes(
            device,
            window,
            kind,
            bufs,
        ).0.extra_transfer_ns == s0.extra_transfer_ns,
{
    reveal(SimState::persist_kernel_bytes);
}

/// [`Sim::lease_parts`] leaves the profile, shares and the extra transfer time as they are.
pub proof fn lease_parts_keeps_rates(s0: SimState, parts: Seq<(DeviceId, AllocId)>)
    ensures
        s0.lease_parts(parts).0.profile == s0.profile,
        s0.lease_parts(parts).0.sm_permille == s0.sm_permille,
        s0.lease_parts(parts).0.extra_transfer_ns == s0.extra_transfer_ns,
{
    let s = s0;
    lease_parts_from_keeps_rates(s, parts, 0);
}

/// [`Sim::lease_parts`] leaves the profile, shares and the extra transfer time as they are.
pub proof fn lease_parts_from_keeps_rates(s0: SimState, parts: Seq<(DeviceId, AllocId)>, i: int)
    ensures
        s0.lease_parts_from(parts, i).0.profile == s0.profile,
        s0.lease_parts_from(parts, i).0.sm_permille == s0.sm_permille,
        s0.lease_parts_from(parts, i).0.extra_transfer_ns == s0.extra_transfer_ns,
    decreases parts.len() - i,
{
    let s = s0;
    if 0 <= i < parts.len() {
        match s.alloc_ref(parts[i].1) {
            Err(e) => {},
            Ok(a) => {
                let a = AllocView { leases: a.leases.saturating_add(1), ..a };
                let s = SimState { allocs: s.allocs.insert(parts[i].1, a), ..s };
                lease_parts_from_keeps_rates(s, parts, i + 1);
            },
        }
    }
}

/// [`Sim::take_compute_n`] leaves the profile, shares and the extra transfer time as they are.
pub proof fn take_compute_n_keeps_rates(s0: SimState, device: DeviceId, n: u8)
    ensures
        s0.take_compute_n(device, n).0.profile == s0.profile,
        s0.take_compute_n(device, n).0.sm_permille == s0.sm_permille,
        s0.take_compute_n(device, n).0.extra_transfer_ns == s0.extra_transfer_ns,
{
    reveal(SimState::take_compute_n);
}

/// [`Sim::unlease`] leaves the GPUs as they are.
pub proof fn unlease_keeps_gpus(s0: SimState, id: AllocId)
    ensures
        s0.unlease(id).0.gpus == s0.gpus,
{
}

/// [`Sim::unlease_bufs`] leaves the GPUs as they are.
pub proof fn unlease_bufs_keeps_gpus(s0: SimState, bufs: Seq<KernelBuf>)
    ensures
        s0.unlease_bufs(bufs).0.gpus == s0.gpus,
{
    let s = s0;
    unlease_bufs_from_keeps_gpus(s, bufs, 0);
}

/// [`Sim::unlease_bufs`] leaves the GPUs as they are.
pub proof fn unlease_bufs_from_keeps_gpus(s0: SimState, bufs: Seq<KernelBuf>, i: int)
    ensures
        s0.unlease_bufs_from(bufs, i).0.gpus == s0.gpus,
    decreases bufs.len() - i,
{
    let s = s0;
    if 0 <= i < bufs.len() {
        unlease_keeps_gpus(s, bufs[i].id);
        match s.unlease(bufs[i].id) {
            (s, Err(e)) => {},
            (s, Ok(_v)) => {
                unlease_bufs_from_keeps_gpus(s, bufs, i + 1);
            },
        }
    }
}

/// [`Sim::refund_hbm`] moves no bytes.
pub proof fn refund_hbm_keeps_moved(s0: SimState, device: DeviceId, bytes: u64)
    ensures
        s0.refund_hbm(device, bytes).0.bytes_moved == s0.bytes_moved,
{
}

/// [`Sim::pool_release`] moves no bytes.
pub proof fn pool_release_keeps_moved(s0: SimState, pool: PoolId, bytes: u64)
    ensures
        s0.pool_release(pool, bytes).0.bytes_moved == s0.bytes_moved,
{
    reveal(SimState::pool_release);
    let s = s0;
    match s.pool_root(pool) {
        Err(e) => {},
        Ok(root) => match s.pool_ref(root) {
            Err(e) => {},
            Ok(p0) => {
                let device = p0.device;
                let threshold = p0.release_threshold;
                let cached = p0.cached.saturating_add(bytes);
                let live = p0.live.saturating_sub(bytes);
                match s.pool_ref(root) {
                    Err(e) => {},
                    Ok(p) => {
                        let p = PoolView {
                            live: live,
                            cached: if cached > threshold { threshold } else { cached },
                            ..p
                        };
                        let s = SimState { pools: s.pools.insert(root, p), ..s };
                        if cached > threshold {
                            refund_hbm_keeps_moved(s, device, cached.saturating_sub(threshold));
                        }
                    },
                }
            },
        },
    }
}

/// [`Sim::refund_device`] moves no bytes.
pub proof fn refund_device_keeps_moved(s0: SimState, device: DeviceId, alloc: AllocId, bytes: u64)
    ensures
        s0.refund_device(device, alloc, bytes).0.bytes_moved == s0.bytes_moved,
{
    let s = s0;
    match s.alloc_ref(alloc) {
        Err(e) => {},
        Ok(a) => match a.pool {
            Some(p) => match s.pool_ref(p) {
                Err(e) => {},
                Ok(owner) => if owner.device == device {
                    pool_release_keeps_moved(s, p, bytes);
                } else {
                    refund_hbm_keeps_moved(s, device, bytes);
                },
            },
            None => {
                refund_hbm_keeps_moved(s, device, bytes);
            },
        },
    }
}

/// [`Sim::migrate_off_except`] moves no bytes.
pub proof fn migrate_off_except_keeps_moved(s0: SimState, alloc: AllocId, keep: DeviceId)
    ensures
        s0.migrate_off_except(alloc, keep).0.bytes_moved == s0.bytes_moved,
{
    let s = s0;
    match s.alloc_ref(alloc) {
        Err(e) => {},
        Ok(a0) => {
            let bytes = a0.bytes;
            let holders = a0.devices;
            migrate_off_except_from_keeps_moved(s, alloc, keep, bytes, holders, 0);
        },
    }
}

/// [`Sim::migrate_off_except`] moves no bytes.
pub proof fn migrate_off_except_from_keeps_moved(
    s0: SimState,
    alloc: AllocId,
    keep: DeviceId,
    bytes: u64,
    holders: Seq<DeviceId>,
    i: int,
)
    ensures
        s0.migrate_off_except_from(alloc, keep, bytes, holders, i).0.bytes_moved == s0.bytes_moved,
    decreases holders.len() - i,
{
    let s = s0;
    if 0 <= i < holders.len() {
        let d = holders[i];
        if d == keep {
            migrate_off_except_from_keeps_moved(s, alloc, keep, bytes, holders, i + 1);
        } else {
            refund_device_keeps_moved(s, d, alloc, bytes);
            match s.refund_device(d, alloc, bytes) {
                (s, Err(e)) => {},
                (s, Ok(_v)) => match s.alloc_ref(alloc) {
                    Err(e) => {},
                    Ok(a) => {
                        let a = AllocView { devices: without(a.devices, d), ..a };
                        let s = SimState { allocs: s.allocs.insert(alloc, a), ..s };
                        migrate_off_except_from_keeps_moved(s, alloc, keep, bytes, holders, i + 1);
                    },
                },
            }
        }
    }
}

/// [`Sim::migrate_off_all`] moves no bytes.
pub proof fn migrate_off_all_keeps_moved(s0: SimState, alloc: AllocId)
    ensures
        s0.migrate_off_all(alloc).0.bytes_moved == s0.bytes_moved,
{
    let s = s0;
    match s.alloc_ref(alloc) {
        Err(e) => {},
        Ok(a0) => {
            let bytes = a0.bytes;
            let holders = a0.devices;
            migrate_off_all_from_keeps_moved(s, alloc, bytes, holders, 0);
        },
    }
}

/// [`Sim::migrate_off_all`] moves no bytes.
pub proof fn migrate_off_all_from_keeps_moved(
    s0: SimState,
    alloc: AllocId,
    bytes: u64,
    holders: Seq<DeviceId>,
    i: int,
)
    ensures
        s0.migrate_off_all_from(alloc, bytes, holders, i).0.bytes_moved == s0.bytes_moved,
    decreases holders.len() - i,
{
    let s = s0;
    if 0 <= i < holders.len() {
        refund_device_keeps_moved(s, holders[i], alloc, bytes);
        match s.refund_device(holders[i], alloc, bytes) {
            (s, Err(e)) => {},
            (s, Ok(_v)) => {
                migrate_off_all_from_keeps_moved(s, alloc, bytes, holders, i + 1);
            },
        }
    }
}

/// [`Sim::add_alloc`] leaves what is captured as it is.
pub proof fn add_alloc_keeps_capture(s0: SimState, a: AllocView)
    ensures
        s0.add_alloc(a).0.capturing == s0.capturing,
{
}

/// [`Sim::build_clones`] leaves what is captured as it is.
pub proof fn build_clones_keeps_capture(
    s0: SimState,
    order: Seq<GraphId>,
    remap: Map<GraphId, GraphId>,
)
    ensures
        s0.build_clones(order, remap).0.capturing == s0.capturing,
{
    let s = s0;
    let built = Seq::empty();
    build_clones_from_keeps_capture(s, order, remap, built, 0);
}

/// [`Sim::build_clones`] leaves what is captured as it is.
pub proof fn build_clones_from_keeps_capture(
    s0: SimState,
    order: Seq<GraphId>,
    remap: Map<GraphId, GraphId>,
    built: Seq<Seq<StepView>>,
    i: int,
)
    ensures
        s0.build_clones_from(order, remap, built, i).0.capturing == s0.capturing,
    decreases order.len() - i,
{
    let s = s0;
    if 0 <= i < order.len() {
        match s.graph_ref(order[i]) {
            Err(e) => {},
            Ok(g) => match s.remap_nested_graphs(g.steps, remap) {
                Err(e) => {},
                Ok(raw) => match s.clone_id(remap, order[i]) {
                    Err(e) => {},
                    Ok(id) => {
                        clone_mem_alloc_nodes_keeps_capture(s, order[i], id, raw);
                        match s.clone_mem_alloc_nodes(order[i], id, raw) {
                            (s, Err(e)) => {},
                            (s, Ok(steps)) => {
                                let built = built.push(steps);
                                build_clones_from_keeps_capture(s, order, remap, built, i + 1);
                            },
                        }
                    },
                },
            },
        }
    }
}

/// [`Sim::fork_alloc`] leaves what is captured as it is.
pub proof fn fork_alloc_keeps_capture(s0: SimState, src: AllocId)
    ensures
        s0.fork_alloc(src).0.capturing == s0.capturing,
{
    let s = s0;
    match s.alloc_ref(src) {
        Err(e) => {},
        Ok(a) => {
            let bytes = a.bytes;
            let pool = a.pool;
            let b = AllocView::blank(bytes);
            let b = AllocView { pool: pool, ..b };
            add_alloc_keeps_capture(s, b);
        },
    }
}

/// [`Sim::fork_allocs`] leaves what is captured as it is.
pub proof fn fork_allocs_keeps_capture(s0: SimState, ids: Seq<AllocId>)
    ensures
        s0.fork_allocs(ids).0.capturing == s0.capturing,
{
    let s = s0;
    let out = Seq::empty();
    fork_allocs_from_keeps_capture(s, ids, out, 0);
}

/// [`Sim::fork_allocs`] leaves what is captured as it is.
pub proof fn fork_allocs_from_keeps_capture(
    s0: SimState,
    ids: Seq<AllocId>,
    out: Seq<AllocId>,
    i: int,
)
    ensures
        s0.fork_allocs_from(ids, out, i).0.capturing == s0.capturing,
    decreases ids.len() - i,
{
    let s = s0;
    if 0 <= i < ids.len() {
        fork_alloc_keeps_capture(s, ids[i]);
        match s.fork_alloc(ids[i]) {
            (s, Err(e)) => {},
            (s, Ok(id)) => {
                let out = out.push(id);
                fork_allocs_from_keeps_capture(s, ids, out, i + 1);
            },
        }
    }
}

/// [`Sim::clone_mem_alloc_nodes`] leaves what is captured as it is.
pub proof fn clone_mem_alloc_nodes_keeps_capture(
    s0: SimState,
    src: GraphId,
    dst: GraphId,
    steps: Seq<StepView>,
)
    ensures
        s0.clone_mem_alloc_nodes(src, dst, steps).0.capturing == s0.capturing,
{
    let s = s0;
    let before = s.allocs_of(src);
    if !(before.len() == 0) {
        fork_allocs_keeps_capture(s, before);
    }
}

/// [`Sim::ensure_event`] leaves the GPUs as they are.
pub proof fn ensure_event_keeps_gpus(s0: SimState, event: EventId)
    ensures
        s0.ensure_event(event).gpus == s0.gpus,
{
}

/// [`Sim::take_op_id`] leaves the GPUs as they are.
pub proof fn take_op_id_keeps_gpus(s0: SimState)
    ensures
        s0.take_op_id().0.gpus == s0.gpus,
{
}

/// [`Sim::capture_event`] leaves the GPUs as they are.
pub proof fn capture_event_keeps_gpus(s0: SimState, event: EventId)
    ensures
        s0.capture_event(event).gpus == s0.gpus,
{
}

/// [`Sim::capture_events`] leaves the GPUs as they are.
pub proof fn capture_events_keeps_gpus(s0: SimState, kind: GpuOpView)
    ensures
        s0.capture_events(kind).gpus == s0.gpus,
{
    reveal(SimState::capture_events);
    let s = s0;
    match kind {
        GpuOpView::EventRecord { event, external } => {
            if !external {
                capture_event_keeps_gpus(s, event);
            }
        },
        _ => {},
    }
    let s = match kind {
        GpuOpView::EventRecord { event, external } => {
            let s = if !external {
                let s = s.capture_event(event);
                s
            } else {
                s
            };
            s
        },
        _ => s,
    };
    match s.enq.programmatic_event {
        Some(pe) => {
            ensure_event_keeps_gpus(s, pe.event);
            let s = s.ensure_event(pe.event);
            if !pe.external {
                capture_event_keeps_gpus(s, pe.event);
            }
        },
        _ => {},
    }
    let s = match s.enq.programmatic_event {
        Some(pe) => {
            let s = s.ensure_event(pe.event);
            let s = if !pe.external {
                let s = s.capture_event(pe.event);
                s
            } else {
                s
            };
            s
        },
        _ => s,
    };
    match s.enq.launch_completion {
        Some(lc) => {
            ensure_event_keeps_gpus(s, lc.event);
            let s = s.ensure_event(lc.event);
            if !lc.external {
                capture_event_keeps_gpus(s, lc.event);
            }
        },
        _ => {},
    }
}

/// [`Sim::take_pending`] leaves the GPUs as they are.
pub proof fn take_pending_keeps_gpus(s0: SimState, device: DeviceId, stream: StreamId)
    ensures
        s0.take_pending(device, stream).0.gpus == s0.gpus,
{
}

/// [`Sim::merge_capture_pending`] leaves the GPUs as they are.
pub proof fn merge_capture_pending_keeps_gpus(
    s0: SimState,
    device: DeviceId,
    stream: StreamId,
    first: Seq<usize>,
)
    ensures
        s0.merge_capture_pending(device, stream, first).0.gpus == s0.gpus,
{
    reveal(SimState::merge_capture_pending);
    let s = s0;
    take_pending_keeps_gpus(s, device, stream);
}

/// [`Sim::record_captured`] leaves the GPUs as they are.
pub proof fn record_captured_keeps_gpus(
    s0: SimState,
    device: DeviceId,
    stream: StreamId,
    kind: GpuOpView,
)
    ensures
        s0.record_captured(device, stream, kind).0.gpus == s0.gpus,
{
    reveal(SimState::record_captured);
    let s = s0;
    capture_events_keeps_gpus(s, kind);
    let s = s.capture_events(kind);
    let first = s.capture_step_deps(device, stream, kind);
    merge_capture_pending_keeps_gpus(s, device, stream, first);
    let (s, deps) = s.merge_capture_pending(device, stream, first);
    let priority = s.snap_priority(device, stream);
    match s.snap_mem_sync(device, stream, kind) {
        Err(e) => {},
        Ok((domain, map)) => {
            let attrs = s.node_attrs(priority, domain, map);
            let step = StepView {
                device,
                stream,
                kind,
                deps,
                enabled: true,
                destroyed: false,
                attrs,
            };
            let s = SimState { capture_buf: s.capture_buf.push(step), ..s };
            take_op_id_keeps_gpus(s);
        },
    }
}

} // verus!
