//! Histories of the operations in `sim::update`.
use vstd::prelude::*;
use crate::history::{follows, graph_follows};
use crate::history::access::tick_follows;
use crate::history::shape::known_is_sound;
use crate::ids::{DeviceId, GraphId};
use crate::num::max_u64;
use crate::sim::SimState;
use crate::state::GraphView;

verus! {

/// [`Sim::update_and_report`] continues the history.
pub proof fn update_and_report_follows(z: SimState, s0: SimState, graph: GraphId, src: GraphId)
    requires
        follows(z, s0),
    ensures
        follows(z, s0.update_and_report(graph, src).0),
{
    reveal(SimState::update_and_report);
    let s = s0;
    match s.update_graph_pair(graph, src) {
        Err(e) => {},
        Ok(id) => match s.update_checked(id, src) {
            Err(e) => {},
            Ok(None) => {
                replace_steps_follows(z, s, id, src);
            },
            Ok(Some(why)) => {},
        },
    }
}

/// [`Sim::replace_steps`] continues the history.
pub proof fn replace_steps_follows(z: SimState, s0: SimState, id: GraphId, src: GraphId)
    requires
        follows(z, s0),
    ensures
        follows(z, s0.replace_steps(id, src).0),
{
    reveal(SimState::replace_steps);
    let s = s0;
    match s.graph_ref(id) {
        Err(e) => {},
        Ok(g) => match s.graph_ref(src) {
            Err(e) => {},
            Ok(h) => {
                let steps = h.steps;
                match s.profile.gpu(g.head_device(DeviceId(0))) {
                    Err(e) => {},
                    Ok(gpu) => {
                        let ns = max_u64(gpu.graph_update_ns, 1);
                        tick_follows(z, s, ns);
                        let s = s.tick(ns);
                        match s.graph_ref(id) {
                            Err(e) => {},
                            Ok(t) => {
                                let t = GraphView { snapshot: Some(steps), uploaded: false, ..t };
                                known_is_sound(z, s, id);
                                known_is_sound(z, s, src);
                                graph_follows(z, s, id, t);
                            },
                        }
                    },
                }
            },
        },
    }
}

/// [`Sim::update_graph`] continues the history.
pub proof fn update_graph_follows(z: SimState, s0: SimState, graph: GraphId, src: GraphId)
    requires
        follows(z, s0),
    ensures
        follows(z, s0.update_graph(graph, src).0),
{
    let s = s0;
    update_and_report_follows(z, s, graph, src);
}

} // verus!
