//! Histories of the operations in `sim::clone`.
use vstd::prelude::*;
use crate::history::{alloc_follows, copies_numbered, follows, graph_follows, rest_follows};
use crate::history::access::tick_follows;
use crate::history::capture::insert_graph_follows;
use crate::history::charge::{add_alloc_follows, clear_mailbox_follows, refund_device_follows};
use crate::history::objects::release_user_objects_for_graph_follows;
use crate::history::shape::{all_sound, graph_gone_follows, known_is_sound, planned, renaming_fits};
use crate::ids::{AllocId, CondId, DeviceId, GraphId, Lane, StreamId};
use crate::num::max_u64;
use crate::sim::SimState;
use crate::state::{AllocView, Cond, GraphView, NextIds, StepView};
use crate::table::{order_of, vacant};

verus! {

/// [`Sim::build_clones`] continues the history.
pub proof fn build_clones_follows(
    z: SimState,
    s0: SimState,
    order: Seq<GraphId>,
    remap: Map<GraphId, GraphId>,
)
    requires
        follows(z, s0),
    ensures
        follows(z, s0.build_clones(order, remap).0),
{
    let s = s0;
    let built = Seq::empty();
    build_clones_from_follows(z, s, order, remap, built, 0);
}

/// [`Sim::build_clones`] continues the history, from position `i` on.
pub proof fn build_clones_from_follows(
    z: SimState,
    s0: SimState,
    order: Seq<GraphId>,
    remap: Map<GraphId, GraphId>,
    built: Seq<Seq<StepView>>,
    i: int,
)
    requires
        follows(z, s0),
    ensures
        follows(z, s0.build_clones_from(order, remap, built, i).0),
    decreases order.len() - i,
{
    let s = s0;
    if 0 <= i < order.len() {
        match s.graph_ref(order[i]) {
            Err(e) => {},
            Ok(g) => match s.remap_nested_graphs(g.steps, remap) {
                Err(e) => {},
                Ok(raw) => match s.clone_id(remap, order[i]) {
                    Err(e) => {},
                    Ok(id) => {
                        clone_mem_alloc_nodes_follows(z, s, order[i], id, raw);
                        match s.clone_mem_alloc_nodes(order[i], id, raw) {
                            (s, Err(e)) => {},
                            (s, Ok(steps)) => {
                                let built = built.push(steps);
                                build_clones_from_follows(z, s, order, remap, built, i + 1);
                            },
                        }
                    },
                },
            },
        }
    }
}

/// [`Sim::insert_clones`] continues the history.
pub proof fn insert_clones_follows(
    z: SimState,
    s0: SimState,
    order: Seq<GraphId>,
    remap: Map<GraphId, GraphId>,
    origins: Seq<Lane>,
    built: Seq<Seq<StepView>>,
)
    requires
        follows(z, s0),
        copies_numbered(remap, s0.next.graph),
        s0.capturing is None,
        planned(z, s0) ==> all_sound(s0.profile, built) && built.len() == order.len(),
    ensures
        follows(z, s0.insert_clones(order, remap, origins, built).0),
{
    let s = s0;
    insert_clones_from_follows(z, s, order, remap, origins, built, 0);
}

/// [`Sim::insert_clones`] continues the history, from position `i` on.
pub proof fn insert_clones_from_follows(
    z: SimState,
    s0: SimState,
    order: Seq<GraphId>,
    remap: Map<GraphId, GraphId>,
    origins: Seq<Lane>,
    built: Seq<Seq<StepView>>,
    i: int,
)
    requires
        follows(z, s0),
        copies_numbered(remap, s0.next.graph),
        s0.capturing is None,
        planned(z, s0) ==> all_sound(s0.profile, built) && built.len() == order.len(),
    ensures
        follows(z, s0.insert_clones_from(order, remap, origins, built, i).0),
    decreases order.len() - i,
{
    let s = s0;
    if 0 <= i < order.len() {
        if !((i as usize) >= origins.len() || (i as usize) >= built.len()) {
            match s.profile.gpu(origins[i].0) {
                Err(e) => {},
                Ok(gpu) => {
                    let ns = max_u64(gpu.graph_clone_ns, 1);
                    match s.clone_id(remap, order[i]) {
                        Err(e) => {},
                        Ok(id) => {
                            tick_follows(z, s, ns);
                            let s = s.tick(ns);
                            let g = GraphView {
                                steps: built[i],
                                snapshot: None,
                                origin: origins[i],
                                instantiated: false,
                                uploaded: false,
                                auto_free_on_launch: false,
                                instantiate_flags: 0,
                                device_launch_tail: None,
                                primary_exec: None,
                                src: None,
                            };
                            graph_follows(z, s, id, g);
                            let s = SimState { graphs: s.graphs.insert(id, g), ..s };
                            insert_clones_from_follows(z, s, order, remap, origins, built, i + 1);
                        },
                    }
                },
            }
        }
    }
}

/// [`Sim::note_clones`] continues the history.
pub proof fn note_clones_follows(z: SimState, s0: SimState, remap: Map<GraphId, GraphId>)
    requires
        follows(z, s0),
    ensures
        follows(z, s0.note_clones(remap)),
{
    let s = s0;
    note_clones_from_follows(z, s, remap, 0);
}

/// [`Sim::note_clones`] continues the history, from position `i` on.
pub proof fn note_clones_from_follows(
    z: SimState,
    s0: SimState,
    remap: Map<GraphId, GraphId>,
    i: int,
)
    requires
        follows(z, s0),
    ensures
        follows(z, s0.note_clones_from(remap, i)),
    decreases order_of(remap.dom()).len() - i,
{
    let s = s0;
    if 0 <= i < order_of(remap.dom()).len() {
        let src = order_of(remap.dom())[i];
        let id = remap[order_of(remap.dom())[i]];
        rest_follows(z, s, SimState { clone_of: s.clone_of.insert(id, src), ..s });
        let s = SimState { clone_of: s.clone_of.insert(id, src), ..s };
        note_clones_from_follows(z, s, remap, i + 1);
    }
}

/// [`Sim::number_conds`] continues the history.
pub proof fn number_conds_follows(
    z: SimState,
    s0: SimState,
    conds: Seq<(CondId, Cond)>,
    remap: Map<GraphId, GraphId>,
)
    requires
        follows(z, s0),
    ensures
        follows(z, s0.number_conds(conds, remap).0),
{
    let s = s0;
    let renamed = Map::empty();
    number_conds_from_follows(z, s, conds, remap, renamed, 0);
}

/// [`Sim::number_conds`] continues the history, from position `i` on.
pub proof fn number_conds_from_follows(
    z: SimState,
    s0: SimState,
    conds: Seq<(CondId, Cond)>,
    remap: Map<GraphId, GraphId>,
    renamed: Map<CondId, CondId>,
    i: int,
)
    requires
        follows(z, s0),
    ensures
        follows(z, s0.number_conds_from(conds, remap, renamed, i).0),
    decreases conds.len() - i,
{
    let s = s0;
    if 0 <= i < conds.len() {
        let c = conds[i].1;
        match s.clone_id(remap, c.graph) {
            Err(e) => {},
            Ok(graph) => {
                let id = CondId(s.next.cond);
                assert(
                    follows(
                        z,
                        SimState {
                            next: NextIds { cond: s.next.cond.saturating_add(1), ..s.next },
                            ..s
                        },
                    )
                ) by {
                    reveal(follows);
                }
                let s = SimState {
                    next: NextIds { cond: s.next.cond.saturating_add(1), ..s.next },
                    ..s
                };
                let renamed = renamed.insert(conds[i].0, id);
                assert(
                    follows(
                        z,
                        SimState {
                            conds: s.conds.insert(
                                id,
                                Cond { graph, default: c.default, value: c.value },
                            ),
                            ..s
                        },
                    )
                ) by {
                    reveal(follows);
                }
                let s = SimState {
                    conds: s.conds.insert(id, Cond { graph, default: c.default, value: c.value }),
                    ..s
                };
                number_conds_from_follows(z, s, conds, remap, renamed, i + 1);
            },
        }
    }
}

/// [`Sim::clone_conditionals`] continues the history.
pub proof fn clone_conditionals_follows(z: SimState, s0: SimState, remap: Map<GraphId, GraphId>)
    requires
        follows(z, s0),
    ensures
        follows(z, s0.clone_conditionals(remap).0),
{
    let s = s0;
    let conds = s.conds_to_clone(remap);
    number_conds_follows(z, s, conds, remap);
    match s.number_conds(conds, remap) {
        (s, Err(e)) => {},
        (s, Ok(renamed)) => {
            if !(vacant(renamed.dom())) {
                clone_conditionals_from_follows(z, s, remap, renamed, 0);
            }
        },
    }
}

/// [`Sim::clone_conditionals`] continues the history, from position `i` on.
pub proof fn clone_conditionals_from_follows(
    z: SimState,
    s0: SimState,
    remap: Map<GraphId, GraphId>,
    renamed: Map<CondId, CondId>,
    i: int,
)
    requires
        follows(z, s0),
    ensures
        follows(z, s0.clone_conditionals_from(remap, renamed, i).0),
    decreases order_of(remap.dom()).len() - i,
{
    let s = s0;
    if 0 <= i < order_of(remap.dom()).len() {
        let id = remap[order_of(remap.dom())[i]];
        match s.graph_ref(id) {
            Err(e) => {},
            Ok(g) => {
                let steps = s.rename_step_conds(g.steps, renamed);
                match s.graph_ref(id) {
                    Err(e) => {},
                    Ok(h) => {
                        let h = GraphView { steps: steps, ..h };
                        renaming_fits(z, s, id, renamed);
                        known_is_sound(z, s, id);
                        graph_follows(z, s, id, h);
                        let s = SimState { graphs: s.graphs.insert(id, h), ..s };
                        clone_conditionals_from_follows(z, s, remap, renamed, i + 1);
                    },
                }
            },
        }
    }
}

/// [`Sim::fork_alloc`] continues the history.
pub proof fn fork_alloc_follows(z: SimState, s0: SimState, src: AllocId)
    requires
        follows(z, s0),
    ensures
        follows(z, s0.fork_alloc(src).0),
{
    let s = s0;
    match s.alloc_ref(src) {
        Err(e) => {},
        Ok(a) => {
            let bytes = a.bytes;
            let pool = a.pool;
            let b = AllocView::blank(bytes);
            let b = AllocView { pool: pool, ..b };
            add_alloc_follows(z, s, b);
        },
    }
}

/// [`Sim::fork_allocs`] continues the history.
pub proof fn fork_allocs_follows(z: SimState, s0: SimState, ids: Seq<AllocId>)
    requires
        follows(z, s0),
    ensures
        follows(z, s0.fork_allocs(ids).0),
{
    let s = s0;
    let out = Seq::empty();
    fork_allocs_from_follows(z, s, ids, out, 0);
}

/// [`Sim::fork_allocs`] continues the history, from position `i` on.
pub proof fn fork_allocs_from_follows(
    z: SimState,
    s0: SimState,
    ids: Seq<AllocId>,
    out: Seq<AllocId>,
    i: int,
)
    requires
        follows(z, s0),
    ensures
        follows(z, s0.fork_allocs_from(ids, out, i).0),
    decreases ids.len() - i,
{
    let s = s0;
    if 0 <= i < ids.len() {
        fork_alloc_follows(z, s, ids[i]);
        match s.fork_alloc(ids[i]) {
            (s, Err(e)) => {},
            (s, Ok(id)) => {
                let out = out.push(id);
                fork_allocs_from_follows(z, s, ids, out, i + 1);
            },
        }
    }
}

/// [`Sim::clone_mem_alloc_nodes`] continues the history.
pub proof fn clone_mem_alloc_nodes_follows(
    z: SimState,
    s0: SimState,
    src: GraphId,
    dst: GraphId,
    steps: Seq<StepView>,
)
    requires
        follows(z, s0),
    ensures
        follows(z, s0.clone_mem_alloc_nodes(src, dst, steps).0),
{
    let s = s0;
    let before = s.allocs_of(src);
    if !(before.len() == 0) {
        fork_allocs_follows(z, s, before);
        match s.fork_allocs(before) {
            (s, Err(e)) => {},
            (s, Ok(after)) => {
                rest_follows(
                    z,
                    s,
                    SimState { graph_allocs: s.graph_allocs.insert(dst, after), ..s },
                );
            },
        }
    }
}

/// [`Sim::refund_devices`] continues the history.
pub proof fn refund_devices_follows(
    z: SimState,
    s0: SimState,
    devices: Seq<DeviceId>,
    id: AllocId,
    bytes: u64,
)
    requires
        follows(z, s0),
    ensures
        follows(z, s0.refund_devices(devices, id, bytes).0),
{
    let s = s0;
    refund_devices_from_follows(z, s, devices, id, bytes, 0);
}

/// [`Sim::refund_devices`] continues the history, from position `i` on.
pub proof fn refund_devices_from_follows(
    z: SimState,
    s0: SimState,
    devices: Seq<DeviceId>,
    id: AllocId,
    bytes: u64,
    i: int,
)
    requires
        follows(z, s0),
    ensures
        follows(z, s0.refund_devices_from(devices, id, bytes, i).0),
    decreases devices.len() - i,
{
    let s = s0;
    if 0 <= i < devices.len() {
        refund_device_follows(z, s, devices[i], id, bytes);
        match s.refund_device(devices[i], id, bytes) {
            (s, Err(e)) => {},
            (s, Ok(_v)) => {
                refund_devices_from_follows(z, s, devices, id, bytes, i + 1);
            },
        }
    }
}

/// [`Sim::release_graph_alloc`] continues the history.
pub proof fn release_graph_alloc_follows(z: SimState, s0: SimState, id: AllocId)
    requires
        follows(z, s0),
    ensures
        follows(z, s0.release_graph_alloc(id).0),
{
    reveal(SimState::release_graph_alloc);
    let s = s0;
    match s.allocs.get(id) {
        None => {},
        Some(a) => {
            if !(!a.live) {
                let bytes = a.bytes;
                let devices = a.devices;
                refund_devices_follows(z, s, devices, id, bytes);
                match s.refund_devices(devices, id, bytes) {
                    (s, Err(e)) => {},
                    (s, Ok(_v)) => match s.alloc_ref(id) {
                        Err(e) => {},
                        Ok(b) => {
                            let b = AllocView { devices: Seq::empty(), live: false, ..b };
                            alloc_follows(z, s, id, b);
                            let s = SimState { allocs: s.allocs.insert(id, b), ..s };
                            clear_mailbox_follows(z, s, id);
                        },
                    },
                }
            }
        },
    }
}

/// [`Sim::release_graph_allocs`] continues the history.
pub proof fn release_graph_allocs_follows(z: SimState, s0: SimState, graph: GraphId)
    requires
        follows(z, s0),
    ensures
        follows(z, s0.release_graph_allocs(graph).0),
{
    let s = s0;
    let ids = s.allocs_of(graph);
    rest_follows(z, s, SimState { graph_allocs: s.graph_allocs.remove(graph), ..s });
    let s = SimState { graph_allocs: s.graph_allocs.remove(graph), ..s };
    release_graph_allocs_from_follows(z, s, ids, 0);
}

/// [`Sim::release_graph_allocs`] continues the history, from position `i` on.
pub proof fn release_graph_allocs_from_follows(z: SimState, s0: SimState, ids: Seq<AllocId>, i: int)
    requires
        follows(z, s0),
    ensures
        follows(z, s0.release_graph_allocs_from(ids, i).0),
    decreases ids.len() - i,
{
    let s = s0;
    if 0 <= i < ids.len() {
        release_graph_alloc_follows(z, s, ids[i]);
        match s.release_graph_alloc(ids[i]) {
            (s, Err(e)) => {},
            (s, Ok(_v)) => {
                release_graph_allocs_from_follows(z, s, ids, i + 1);
            },
        }
    }
}

/// [`Sim::next_primary`] continues the history.
pub proof fn next_primary_follows(z: SimState, s0: SimState, def: GraphId, gone: GraphId)
    requires
        follows(z, s0),
    ensures
        follows(z, s0.next_primary(def, gone)),
{
    let s = s0;
    let next = s.first_exec_of(def);
    let hit = (match s.graphs.get(def) { Some(d) => d.primary_exec == Some(gone), None => false, });
    if hit {
        match s.graphs.get(def) {
            Some(d) => {
                let d = GraphView { primary_exec: next, ..d };
                graph_follows(z, s, def, d);
            },
            _ => {},
        }
    }
}

/// [`Sim::unlink_graph`] continues the history.
pub proof fn unlink_graph_follows(
    z: SimState,
    s0: SimState,
    graph: GraphId,
    instantiated: bool,
    src: Option<GraphId>,
)
    requires
        follows(z, s0),
    ensures
        follows(z, s0.unlink_graph(graph, instantiated, src).0),
{
    let s = s0;
    if instantiated {
        match src {
            Some(def) => {
                next_primary_follows(z, s, def, graph);
            },
            _ => {},
        }
    } else {
        release_graph_allocs_follows(z, s, graph);
    }
}

/// [`Sim::destroy_graph`] continues the history.
pub proof fn destroy_graph_follows(z: SimState, s0: SimState, graph: GraphId)
    requires
        follows(z, s0),
    ensures
        follows(z, s0.destroy_graph(graph).0),
{
    let s = s0;
    match s.fail_if_capturing("cannot capture graph destroy") {
        Err(e) => {},
        Ok(_v) => match s.graph_ref(graph) {
            Err(e) => {},
            Ok(g) => {
                let device = g.origin.0;
                let instantiated = g.instantiated;
                let src = g.src;
                graph_gone_follows(z, s, graph);
                let s = SimState { graphs: s.graphs.remove(graph), ..s };
                match s.profile.gpu(device) {
                    Err(e) => {},
                    Ok(_gpu) => {
                        unlink_graph_follows(z, s, graph, instantiated, src);
                        match s.unlink_graph(graph, instantiated, src) {
                            (s, Err(e)) => {},
                            (s, Ok(_v)) => {
                                release_user_objects_for_graph_follows(z, s, graph);
                                let s = s.release_user_objects_for_graph(graph);
                                rest_follows(
                                    z,
                                    s,
                                    SimState { clone_of: s.clone_of.remove(graph), ..s },
                                );
                                let s = SimState { clone_of: s.clone_of.remove(graph), ..s };
                                tick_follows(z, s, 1);
                            },
                        }
                    },
                }
            },
        },
    }
}

/// [`Sim::create_graph`] continues the history.
pub proof fn create_graph_follows(z: SimState, s0: SimState, device: DeviceId, stream: StreamId)
    requires
        follows(z, s0),
    ensures
        follows(z, s0.create_graph(device, stream).0),
{
    let s = s0;
    match s.fail_if_capturing("cannot create graph during capture") {
        Err(e) => {},
        Ok(_v) => match s.profile.gpu(device) {
            Err(e) => {},
            Ok(_gpu) => {
                insert_graph_follows(z, s, device, stream);
                let (s, id) = s.insert_graph(device, stream);
                tick_follows(z, s, 1);
            },
        },
    }
}

} // verus!
