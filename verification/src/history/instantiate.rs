//! Histories of the operations in `sim::instantiate`.
use vstd::prelude::*;
use crate::history::{follows, graph_follows, next_ids_new, time_follows};
use crate::history::launch::enqueue_root_follows;
use crate::history::shape::{exec_stays_sound, known_is_sound, planned, sound_steps};
use crate::history::submit::{submit_captured_follows, submit_follows};
use crate::history::tree::reset_graph_tree_conds_follows;
use crate::ids::{DeviceId, GraphId, Lane, StreamId};
use crate::kinds::bodies_of;
use crate::num::max_u64;
use crate::ops::{GpuOpView, GraphInstantiateFlags};
use crate::sim::SimState;
use crate::state::{GraphView, NextIds, StepView};

verus! {

/// [`Sim::instantiate_graph`] continues the history.
pub proof fn instantiate_graph_follows(z: SimState, s0: SimState, graph: GraphId)
    requires
        follows(z, s0),
    ensures
        follows(z, s0.instantiate_graph(graph).0),
{
    let s = s0;
    instantiate_graph_with_flags_follows(z, s, graph, 0);
}

/// [`Sim::instantiate_graph_auto_free`] continues the history.
pub proof fn instantiate_graph_auto_free_follows(z: SimState, s0: SimState, graph: GraphId)
    requires
        follows(z, s0),
    ensures
        follows(z, s0.instantiate_graph_auto_free(graph).0),
{
    let s = s0;
    instantiate_graph_with_flags_follows(z, s, graph, GraphInstantiateFlags::AUTO_FREE_ON_LAUNCH);
}

/// [`Sim::instantiate_graph_with_flags`] continues the history.
pub proof fn instantiate_graph_with_flags_follows(
    z: SimState,
    s0: SimState,
    graph: GraphId,
    flags: u32,
)
    requires
        follows(z, s0),
    ensures
        follows(z, s0.instantiate_graph_with_flags(graph, flags).0),
{
    let s = s0;
    instantiate_and_upload_follows(z, s, graph, flags);
}

/// [`Sim::instantiate_and_upload`] continues the history.
pub proof fn instantiate_and_upload_follows(z: SimState, s0: SimState, graph: GraphId, flags: u32)
    requires
        follows(z, s0),
    ensures
        follows(z, s0.instantiate_and_upload(graph, flags).0),
{
    let s = s0;
    instantiate_graph_inner_follows(z, s, graph, flags, s.tree_fuel());
    let (s, out) = s.instantiate_graph_inner(graph, flags, s.tree_fuel());
    match out.1 {
        Err(e) => {},
        Ok(id) => {
            if flags&GraphInstantiateFlags::UPLOAD != 0 {
                upload_graph_follows(z, s, id);
            }
        },
    }
}

/// [`Sim::instantiate_graph_inner`] continues the history.
pub proof fn instantiate_graph_inner_follows(
    z: SimState,
    s0: SimState,
    graph: GraphId,
    flags: u32,
    fuel: usize,
)
    requires
        follows(z, s0),
    ensures
        follows(z, s0.instantiate_graph_inner(graph, flags, fuel).0),
        s0.next.graph <= s0.instantiate_graph_inner(graph, flags, fuel).0.next.graph,
        s0.instantiate_graph_inner(graph, flags, fuel).0.profile == s0.profile,
    decreases fuel, 3int, 0int,
{
    let s = s0;
    let settled = s.instantiate_settled(graph, flags);
    match settled {
        Some(t) => {},
        None => {
            instantiate_steps_follows(z, s, graph, flags, fuel);
        },
    }
}

/// [`Sim::instantiate_bodies`] continues the history.
pub proof fn instantiate_bodies_follows(
    z: SimState,
    s0: SimState,
    bodies: Seq<GraphId>,
    fuel: usize,
)
    requires
        follows(z, s0),
    ensures
        follows(z, s0.instantiate_bodies(bodies, fuel).0),
        s0.next.graph <= s0.instantiate_bodies(bodies, fuel).0.next.graph,
        s0.instantiate_bodies(bodies, fuel).0.profile == s0.profile,
    decreases fuel, 5int, 0int,
{
    let s = s0;
    instantiate_bodies_from_follows(z, s, bodies, fuel, 0);
}

/// [`Sim::instantiate_bodies`] continues the history, from position `i` on.
pub proof fn instantiate_bodies_from_follows(
    z: SimState,
    s0: SimState,
    bodies: Seq<GraphId>,
    fuel: usize,
    i: int,
)
    requires
        follows(z, s0),
    ensures
        follows(z, s0.instantiate_bodies_from(bodies, fuel, i).0),
        s0.next.graph <= s0.instantiate_bodies_from(bodies, fuel, i).0.next.graph,
        s0.instantiate_bodies_from(bodies, fuel, i).0.profile == s0.profile,
    decreases fuel, 4int, bodies.len() - i,
{
    let s = s0;
    if 0 <= i < bodies.len() {
        instantiate_graph_inner_follows(z, s, bodies[i], 0, fuel);
        let (s, out) = s.instantiate_graph_inner(bodies[i], 0, fuel);
        match out.1 {
            Err(e) => {},
            Ok(_id) => {
                instantiate_bodies_from_follows(z, s, bodies, fuel, i + 1);
            },
        }
    }
}

/// [`Sim::instantiate_steps`] continues the history.
pub proof fn instantiate_steps_follows(
    z: SimState,
    s0: SimState,
    graph: GraphId,
    flags: u32,
    fuel: usize,
)
    requires
        follows(z, s0),
    ensures
        follows(z, s0.instantiate_steps(graph, flags, fuel).0),
        s0.next.graph <= s0.instantiate_steps(graph, flags, fuel).0.next.graph,
        s0.instantiate_steps(graph, flags, fuel).0.profile == s0.profile,
    decreases fuel, 2int, 0int,
{
    let s = s0;
    if !(fuel == 0) {
        match s.graph_ref(graph) {
            Err(e) => {},
            Ok(g) => {
                let origin = g.origin;
                let bodies = bodies_of(g.steps);
                let steps = g.steps;
                match s.profile.gpu(g.head_device(g.origin.0)) {
                    Err(e) => {},
                    Ok(gpu) => {
                        let ns = max_u64(gpu.graph_instantiate_ns, 1);
                        time_follows(z, s, ns);
                        let s = SimState { clock: s.clock.saturating_add(ns), ..s };
                        known_is_sound(z, s, graph);
                        instantiate_bodies_follows(z, s, bodies, fuel.saturating_sub(1));
                        match s.instantiate_bodies(bodies, fuel.saturating_sub(1)) {
                            (s, Err(e)) => {},
                            (s, Ok(_v)) => {
                                add_exec_follows(z, s, graph, flags, origin, steps);
                            },
                        }
                    },
                }
            },
        }
    }
}

/// [`Sim::add_exec`] continues the history.
pub proof fn add_exec_follows(
    z: SimState,
    s0: SimState,
    graph: GraphId,
    flags: u32,
    origin: Lane,
    steps: Seq<StepView>,
)
    requires
        follows(z, s0),
        planned(z, s0) ==> sound_steps(s0.profile, steps),
    ensures
        follows(z, s0.add_exec(graph, flags, origin, steps).0),
        s0.next.graph <= s0.add_exec(graph, flags, origin, steps).0.next.graph,
        s0.add_exec(graph, flags, origin, steps).0.profile == s0.profile,
{
    reveal(SimState::add_exec);
    next_ids_new(z, s0);
    let s = s0;
    let id = GraphId(s.next.graph);
    assert(
        follows(
            z,
            SimState { next: NextIds { graph: s.next.graph.saturating_add(1), ..s.next }, ..s },
        )
    ) by {
        reveal(follows);
    }
    let s = SimState { next: NextIds { graph: s.next.graph.saturating_add(1), ..s.next }, ..s };
    match s.exec_steps(steps) {
        Err(e) => {},
        Ok(snap) => {
            let made = GraphView {
                steps: snap,
                snapshot: Some(snap),
                origin,
                instantiated: true,
                uploaded: false,
                auto_free_on_launch: flags&GraphInstantiateFlags::AUTO_FREE_ON_LAUNCH != 0,
                instantiate_flags: flags,
                device_launch_tail: None,
                primary_exec: None,
                src: Some(graph),
            };
            exec_stays_sound(s, steps);
            graph_follows(z, s, id, made);
            let s = SimState { graphs: s.graphs.insert(id, made), ..s };
            match s.graph_ref(graph) {
                Err(e) => {},
                Ok(def) => {
                    if def.primary_exec.is_none() {
                        match s.graph_ref(graph) {
                            Err(e) => {},
                            Ok(d) => {
                                let d = GraphView { primary_exec: Some(id), ..d };
                                exec_stays_sound(s, steps);
                                graph_follows(z, s, graph, d);
                            },
                        }
                    }
                },
            }
        },
    }
}

/// [`Sim::ensure_exec`] continues the history.
pub proof fn ensure_exec_follows(z: SimState, s0: SimState, graph: GraphId)
    requires
        follows(z, s0),
    ensures
        follows(z, s0.ensure_exec(graph).0),
{
    let s = s0;
    match s.graph_ref(graph) {
        Err(e) => {},
        Ok(g) => {
            if !(g.instantiated) {
                match g.primary_exec {
                    Some(p) => {},
                    _ => {
                        instantiate_graph_follows(z, s, graph);
                    },
                }
            }
        },
    }
}

/// [`Sim::upload_graph`] continues the history.
pub proof fn upload_graph_follows(z: SimState, s0: SimState, graph: GraphId)
    requires
        follows(z, s0),
    ensures
        follows(z, s0.upload_graph(graph).0),
{
    let s = s0;
    match s.fail_if_capturing("cannot capture graph upload") {
        Err(e) => {},
        Ok(_v) => match s.as_exec(graph) {
            Err(e) => {},
            Ok(id) => match s.graph_ref(id) {
                Err(e) => {},
                Ok(g) => {
                    if !(g.uploaded) {
                        match s.profile.gpu(g.head_device(DeviceId(0))) {
                            Err(e) => {},
                            Ok(gpu) => {
                                let ns = max_u64(gpu.graph_upload_ns, 1);
                                time_follows(z, s, ns);
                                let s = SimState { clock: s.clock.saturating_add(ns), ..s };
                                match s.graph_ref(id) {
                                    Err(e) => {},
                                    Ok(g) => {
                                        graph_follows(z, s, id, GraphView { uploaded: true, ..g });
                                    },
                                }
                            },
                        }
                    }
                },
            },
        },
    }
}

/// [`Sim::launch_graph`] continues the history.
pub proof fn launch_graph_follows(z: SimState, s0: SimState, graph: GraphId, stream: StreamId)
    requires
        follows(z, s0),
    ensures
        follows(z, s0.launch_graph(graph, stream).0),
{
    let s = s0;
    match s.graph_ref(graph) {
        Err(e) => {},
        Ok(g) => {
            let origin = g.origin;
            let ready = g.ready();
            if s.in_capture(origin.0, stream) {
                capture_child_graph_follows(z, s, graph, origin.0, stream, ready);
            } else {
                ensure_exec_follows(z, s, graph);
                match s.ensure_exec(graph) {
                    (s, Err(e)) => {},
                    (s, Ok(id)) => {
                        upload_for_launch_follows(z, s, id);
                        match s.upload_for_launch(id) {
                            (s, Err(e)) => {},
                            (s, Ok(_v)) => {
                                reset_graph_tree_conds_follows(z, s, id);
                                let s = s.reset_graph_tree_conds(id);
                                let none = Seq::empty();
                                enqueue_root_follows(z, s, id, stream, true, none);
                            },
                        }
                    },
                }
            }
        },
    }
}

/// [`Sim::upload_for_launch`] continues the history.
pub proof fn upload_for_launch_follows(z: SimState, s0: SimState, id: GraphId)
    requires
        follows(z, s0),
    ensures
        follows(z, s0.upload_for_launch(id).0),
{
    let s = s0;
    match s.graph_ref(id) {
        Err(e) => {},
        Ok(g) => {
            if !g.uploaded && s.capturing.is_none() {
                upload_graph_follows(z, s, id);
            }
        },
    }
}

/// [`Sim::device_launch_graph`] continues the history.
pub proof fn device_launch_graph_follows(
    z: SimState,
    s0: SimState,
    graph: GraphId,
    stream: StreamId,
)
    requires
        follows(z, s0),
    ensures
        follows(z, s0.device_launch_graph(graph, stream).0),
{
    let s = s0;
    match s.fail_if_capturing("cannot capture device launch") {
        Err(e) => {},
        Ok(_v) => match s.as_exec(graph) {
            Err(e) => {},
            Ok(id) => match s.graph_ref(id) {
                Err(e) => {},
                Ok(g) => {
                    let device = g.origin.0;
                    if !(g.instantiate_flags&GraphInstantiateFlags::DEVICE_LAUNCH == 0) {
                        if !(!g.uploaded) {
                            match g.device_launch_tail {
                                Some(tail) => {
                                    if !(!s.op_done(tail)) {
                                        submit_follows(
                                            z,
                                            s,
                                            device,
                                            stream,
                                            GpuOpView::DeviceLaunch { graph: id },
                                        );
                                        match s.submit(
                                            device,
                                            stream,
                                            GpuOpView::DeviceLaunch { graph: id },
                                        ) {
                                            (s, Err(e)) => {},
                                            (s, Ok(op)) => match s.graph_ref(id) {
                                                Err(e) => {},
                                                Ok(g) => {
                                                    graph_follows(
                                                        z,
                                                        s,
                                                        id,
                                                        GraphView {
                                                            device_launch_tail: Some(op),
                                                            ..g
                                                        },
                                                    );
                                                },
                                            },
                                        }
                                    }
                                },
                                _ => {
                                    submit_follows(
                                        z,
                                        s,
                                        device,
                                        stream,
                                        GpuOpView::DeviceLaunch { graph: id },
                                    );
                                    match s.submit(
                                        device,
                                        stream,
                                        GpuOpView::DeviceLaunch { graph: id },
                                    ) {
                                        (s, Err(e)) => {},
                                        (s, Ok(op)) => match s.graph_ref(id) {
                                            Err(e) => {},
                                            Ok(g) => {
                                                graph_follows(
                                                    z,
                                                    s,
                                                    id,
                                                    GraphView { device_launch_tail: Some(op), ..g },
                                                );
                                            },
                                        },
                                    }
                                },
                            }
                        }
                    }
                },
            },
        },
    }
}

/// [`Sim::capture_child_graph`] continues the history.
pub proof fn capture_child_graph_follows(
    z: SimState,
    s0: SimState,
    graph: GraphId,
    device: DeviceId,
    stream: StreamId,
    instantiated: bool,
)
    requires
        follows(z, s0),
    ensures
        follows(z, s0.capture_child_graph(graph, device, stream, instantiated).0),
{
    let s = s0;
    if !(!instantiated) {
        submit_captured_follows(z, s, device, stream, GpuOpView::ChildGraph { graph });
    }
}

} // verus!
