//! Histories of the operations in `sim::capture`.
use vstd::prelude::*;
use crate::history::{follows, graph_follows, next_ids_new, rest_follows};
use crate::history::shape::{begin_capture_inner_follows, capture_note_follows, nothing_is_sound};
use crate::ids::{DeviceId, GraphId, Lane, StreamId};
use crate::ops::{CaptureDepOp, StreamCaptureMode};
use crate::sim::SimState;
use crate::state::{CaptureView, GraphView, NextIds};

verus! {

/// [`Sim::insert_graph`] continues the history.
pub proof fn insert_graph_follows(z: SimState, s0: SimState, device: DeviceId, stream: StreamId)
    requires
        follows(z, s0),
    ensures
        follows(z, s0.insert_graph(device, stream).0),
{
    reveal(SimState::insert_graph);
    next_ids_new(z, s0);
    nothing_is_sound(s0.profile);
    let s = s0;
    let id = GraphId(s.next.graph);
    assert(
        follows(
            z,
            SimState { next: NextIds { graph: s.next.graph.saturating_add(1), ..s.next }, ..s },
        )
    ) by {
        reveal(follows);
    }
    let s = SimState { next: NextIds { graph: s.next.graph.saturating_add(1), ..s.next }, ..s };
    let g = GraphView {
        steps: Seq::empty(),
        snapshot: None,
        origin: Lane(device, stream),
        instantiated: false,
        uploaded: false,
        auto_free_on_launch: false,
        instantiate_flags: 0,
        device_launch_tail: None,
        primary_exec: None,
        src: None,
    };
    graph_follows(z, s, id, g);
    let s = SimState { graphs: s.graphs.insert(id, g), ..s };
    rest_follows(z, s, SimState { graph_allocs: s.graph_allocs.insert(id, Seq::empty()), ..s });
}

/// [`Sim::begin_capture`] continues the history.
pub proof fn begin_capture_follows(z: SimState, s0: SimState, device: DeviceId, stream: StreamId)
    requires
        follows(z, s0),
    ensures
        follows(z, s0.begin_capture(device, stream).0),
{
    let s = s0;
    match s.capture_start_ok(device, stream) {
        Err(e) => {},
        Ok(_v) => {
            insert_graph_follows(z, s, device, stream);
            let (s, graph) = s.insert_graph(device, stream);
            let none = Seq::empty();
            begin_capture_inner_follows(z, s, device, stream, graph, none, s.capture_mode);
        },
    }
}

/// [`Sim::begin_capture_with_mode`] continues the history.
pub proof fn begin_capture_with_mode_follows(
    z: SimState,
    s0: SimState,
    device: DeviceId,
    stream: StreamId,
    mode: StreamCaptureMode,
)
    requires
        follows(z, s0),
    ensures
        follows(z, s0.begin_capture_with_mode(device, stream, mode).0),
{
    let s = s0;
    match s.capture_start_ok(device, stream) {
        Err(e) => {},
        Ok(_v) => {
            insert_graph_follows(z, s, device, stream);
            let (s, graph) = s.insert_graph(device, stream);
            let none = Seq::empty();
            begin_capture_inner_follows(z, s, device, stream, graph, none, mode);
        },
    }
}

/// [`Sim::begin_capture_to_graph`] continues the history.
pub proof fn begin_capture_to_graph_follows(
    z: SimState,
    s0: SimState,
    device: DeviceId,
    stream: StreamId,
    graph: GraphId,
    deps: Seq<usize>,
)
    requires
        follows(z, s0),
    ensures
        follows(z, s0.begin_capture_to_graph(device, stream, graph, deps).0),
{
    let s = s0;
    begin_capture_inner_follows(z, s, device, stream, graph, deps, s.capture_mode);
}

/// [`Sim::begin_capture_to_graph_with_mode`] continues the history.
pub proof fn begin_capture_to_graph_with_mode_follows(
    z: SimState,
    s0: SimState,
    device: DeviceId,
    stream: StreamId,
    graph: GraphId,
    deps: Seq<usize>,
    mode: StreamCaptureMode,
)
    requires
        follows(z, s0),
    ensures
        follows(z, s0.begin_capture_to_graph_with_mode(device, stream, graph, deps, mode).0),
{
    let s = s0;
    begin_capture_inner_follows(z, s, device, stream, graph, deps, mode);
}

/// [`Sim::stream_update_capture_dependencies`] continues the history.
pub proof fn stream_update_capture_dependencies_follows(
    z: SimState,
    s0: SimState,
    device: DeviceId,
    stream: StreamId,
    deps: Seq<usize>,
    mode: CaptureDepOp,
)
    requires
        follows(z, s0),
    ensures
        follows(z, s0.stream_update_capture_dependencies(device, stream, deps, mode).0),
{
    let s = s0;
    match s.capturing {
        Some(cap) => {
            if !(!cap.streams.contains(Lane(device, stream))) {
                let hi = s.capture_base().saturating_add((s.capture_buf.len()as usize));
                stream_update_capture_dependencies_from_follows(
                    z,
                    s,
                    device,
                    stream,
                    deps,
                    mode,
                    hi,
                    0,
                );
            }
        },
        _ => {},
    }
}

/// [`Sim::stream_update_capture_dependencies`] continues the history, from position `i` on.
pub proof fn stream_update_capture_dependencies_from_follows(
    z: SimState,
    s0: SimState,
    device: DeviceId,
    stream: StreamId,
    deps: Seq<usize>,
    mode: CaptureDepOp,
    hi: usize,
    i: int,
)
    requires
        follows(z, s0),
    ensures
        follows(z, s0.stream_update_capture_dependencies_from(device, stream, deps, mode, hi, i).0),
    decreases deps.len() - i,
{
    let s = s0;
    if 0 <= i < deps.len() {
        if !(deps[i] >= hi) {
            stream_update_capture_dependencies_from_follows(
                z,
                s,
                device,
                stream,
                deps,
                mode,
                hi,
                i + 1,
            );
        }
    } else {
        let named = s.pending_named(device, stream, deps, mode);
        match s.capturing {
            Some(c) => {
                let c = CaptureView { pending: c.pending.insert(Lane(device, stream), named), ..c };
                capture_note_follows(z, s, c);
            },
            _ => {},
        }
    }
}

/// [`Sim::thread_exchange_stream_capture_mode`] continues the history.
pub proof fn thread_exchange_stream_capture_mode_follows(
    z: SimState,
    s0: SimState,
    mode: StreamCaptureMode,
)
    requires
        follows(z, s0),
    ensures
        follows(z, s0.thread_exchange_stream_capture_mode(mode).0),
{
    let s = s0;
    let prev = s.capture_mode;
    rest_follows(z, s, SimState { capture_mode: mode, ..s });
}

} // verus!
