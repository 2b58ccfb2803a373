//! Stream capture.
use vstd::prelude::*;
use crate::error::{invalid, SimError};
use crate::ids::{AllocId, DeviceId, GraphId, StreamId};
use crate::kinds::nested_of;
use crate::laws::frames::{
    capture_events_keeps_capture_buf, merge_capture_pending_keeps_capture_buf,
    record_captured_keeps_clock, record_captured_keeps_gpus, record_captured_keeps_ops,
    record_captured_keeps_running,
};
use crate::ops::{GpuOpView, StreamCaptureMode};
use crate::sim::SimState;
use crate::state::{LaunchCost, StepView};

verus! {

/// A submission on a captured stream is recorded as one node and runs nothing.
pub proof fn captured_submission_runs_nothing(
    s: SimState,
    device: DeviceId,
    stream: StreamId,
    kind: GpuOpView,
    launch: LaunchCost,
)
    requires
        s.in_capture(device, stream),
        !s.unavailable.contains(device),
    ensures
        ({
            let (t, r) = s.submit_launch(device, stream, kind, launch);
            &&& t.ops == s.ops
            &&& t.running == s.running
            &&& t.clock == s.clock
            &&& t.gpus == s.gpus
            &&& r is Ok ==> {
                &&& t.capture_buf.len() == s.capture_buf.len() + 1
                &&& t.capture_buf.drop_last() == s.capture_buf
                &&& t.capture_buf.last().kind == kind
                &&& t.capture_buf.last().device == device
                &&& t.capture_buf.last().stream == stream
            }
            &&& r is Err ==> t.capture_buf == s.capture_buf
        }),
{
    reveal(SimState::submit_captured);
    record_captured_keeps_ops(s, device, stream, kind);
    record_captured_keeps_running(s, device, stream, kind);
    record_captured_keeps_clock(s, device, stream, kind);
    record_captured_keeps_gpus(s, device, stream, kind);
    lemma_recorded(s, device, stream, kind);
    reveal(SimState::capture_fork);
    assert(s.capture_fork(device, stream, kind) == (s, Ok::<(), SimError>(())));
}

proof fn lemma_recorded(s: SimState, device: DeviceId, stream: StreamId, kind: GpuOpView)
    ensures
        ({
            let (t, r) = s.record_captured(device, stream, kind);
            &&& r is Ok ==> {
                &&& t.capture_buf.len() == s.capture_buf.len() + 1
                &&& t.capture_buf.drop_last() == s.capture_buf
                &&& t.capture_buf.last().kind == kind
                &&& t.capture_buf.last().device == device
                &&& t.capture_buf.last().stream == stream
            }
            &&& r is Err ==> t.capture_buf == s.capture_buf
        }),
{
    reveal(SimState::record_captured);
    let t = s.record_captured(device, stream, kind).0;
    capture_events_keeps_capture_buf(s, kind);
    let s1 = s.capture_events(kind);
    let first = s1.capture_step_deps(device, stream, kind);
    merge_capture_pending_keeps_capture_buf(s1, device, stream, first);
    if s.record_captured(device, stream, kind).1 is Ok {
        assert(t.capture_buf.drop_last() =~= s.capture_buf);
    }
}

proof fn lemma_appended(
    s: SimState,
    nodes: Seq<StepView>,
    steps: Seq<StepView>,
    graph: GraphId,
    mem: Seq<AllocId>,
    i: int,
)
    requires
        0 <= i <= nodes.len(),
        s.graphs.contains_key(graph),
    ensures
        ({
            let (t, r) = s.append_captured_from(graph, nodes, mem, steps, i);
            &&& t.graphs.contains_key(graph)
            &&& t.graphs[graph].steps == steps + nodes.skip(i)
            &&& r == Ok::<GraphId, SimError>(graph)
            &&& t.capturing == s.capturing
            &&& t.capture_buf == s.capture_buf
            &&& t.ops == s.ops
        }),
    decreases nodes.len() - i,
{
    if i < nodes.len() {
        lemma_appended(s, nodes, steps.push(nodes[i]), graph, mem, i + 1);
        assert(steps.push(nodes[i]) + nodes.skip(i + 1) =~= steps + nodes.skip(i));
    } else {
        assert(steps + nodes.skip(i) =~= steps);
    }
}

/// The nodes that a capture leaves in its graph.
pub proof fn captured_nodes_join(s: SimState)
    requires
        s.capturing is Some,
        s.graphs.contains_key(s.capturing->Some_0.graph),
        !s.graphs[s.capturing->Some_0.graph].instantiated,
        s.fail_capture_child_cycles(s.capturing->Some_0.graph) is Ok,
    ensures
        ({
            let graph = s.capturing->Some_0.graph;
            let u = s.end_capture().0;
            &&& s.end_capture().1 == Ok::<GraphId, SimError>(graph)
            &&& u.graphs.contains_key(graph)
            &&& u.graphs[graph].steps == s.graphs[graph].steps + s.captured_nodes()
            &&& u.capturing is None
            &&& u.ops == s.ops
        }),
{
    let cap = s.capturing->Some_0;
    let nodes = s.captured_nodes();
    let s1 = SimState { capture_buf: Seq::empty(), ..SimState { capturing: None, ..s } };
    lemma_appended(s1, nodes, s.graphs[cap.graph].steps, cap.graph, cap.mem_allocs, 0);
    assert(nodes.skip(0) =~= nodes);
}

/// The end of a capture appends the recorded nodes, in order, to the graph and gives it back.
pub proof fn capture_ends_in_graph(s: SimState)
    requires
        s.end_capture().1 is Ok,
        s.capture_buf.len() <= usize::MAX,
    ensures
        ({
            let t = s.end_capture().0;
            let graph = s.end_capture().1->Ok_0;
            let before = s.graphs[graph].steps;
            let after = t.graphs[graph].steps;
            &&& s.capturing is Some
            &&& graph == s.capturing->Some_0.graph
            &&& t.capturing is None
            &&& t.capture_buf.len() == 0
            &&& after.len() == before.len() + s.capture_buf.len()
            &&& after.take(before.len() as int) == before
            &&& forall|k: int|
                0 <= k < s.capture_buf.len() ==> (#[trigger] after[before.len() + k]).kind
                    == s.capture_buf[k].kind
        }),
{
    let cap = s.capturing->Some_0;
    let nodes = s.captured_nodes();
    let s1 = SimState { capture_buf: Seq::empty(), ..SimState { capturing: None, ..s } };
    let before = s.graphs[cap.graph].steps;
    lemma_appended(s1, nodes, before, cap.graph, cap.mem_allocs, 0);
    assert(nodes.skip(0) =~= nodes);
    let t = s.end_capture().0;
    let after = t.graphs[cap.graph].steps;
    assert(after == before + nodes);
    assert(after.take(before.len() as int) =~= before);
    assert forall|k: int| 0 <= k < s.capture_buf.len() implies (#[trigger] after[before.len()
        + k]).kind == s.capture_buf[k].kind by {
        assert(after[before.len() + k] == nodes[k]);
    }
}

/// A capture that records nothing leaves a new empty graph.
pub proof fn empty_capture(s: SimState, device: DeviceId, stream: StreamId)
    requires
        s.begin_capture(device, stream).1 is Ok,
    ensures
        ({
            let t = s.begin_capture(device, stream).0;
            let id = GraphId(s.next.graph);
            &&& t.in_capture(device, stream)
            &&& t.stream_is_capturing(device, stream)
            &&& t.capturing->Some_0.graph == id
            &&& t.graphs[id].steps.len() == 0
            &&& t.end_capture().1 == Ok::<GraphId, SimError>(id)
            &&& t.end_capture().0.graphs[id].steps.len() == 0
            &&& t.end_capture().0.capturing is None
        }),
{
    reveal(SimState::begin_capture_inner);
    reveal(SimState::insert_graph);
    let t = s.begin_capture(device, stream).0;
    let id = GraphId(s.next.graph);
    assert(t.graphs.contains_key(id) && t.graphs[id].steps.len() == 0);
    assert(t.capture_buf.len() == 0);
    assert(nested_of(t.capture_buf).len() == 0);
    assert(t.fail_capture_child_cycles(id) is Ok);
    let cap = t.capturing->Some_0;
    let nodes = t.captured_nodes();
    let t1 = SimState { capture_buf: Seq::empty(), ..SimState { capturing: None, ..t } };
    lemma_appended(t1, nodes, t.graphs[id].steps, id, cap.mem_allocs, 0);
}

/// One capture at a time.
pub proof fn captures_do_not_nest(
    s: SimState,
    device: DeviceId,
    stream: StreamId,
    mode: StreamCaptureMode,
)
    requires
        s.capturing is Some,
    ensures
        s.begin_capture(device, stream) == (
            s,
            Err::<(), SimError>(invalid("nested graph capture")),
        ),
        s.begin_capture_with_mode(device, stream, mode) == (
            s,
            Err::<(), SimError>(invalid("nested graph capture")),
        ),
{
}

/// Without a capture there is nothing to end.
pub proof fn no_capture_to_end(s: SimState)
    requires
        s.capturing is None,
    ensures
        s.end_capture() == (
            s,
            Err::<GraphId, SimError>(invalid("end_capture without begin_capture")),
        ),
{
}

/// A capture of a launch records one node, for an executable graph only.
pub proof fn captured_launch(s: SimState, graph: GraphId, stream: StreamId)
    requires
        s.graphs.contains_key(graph),
        s.in_capture(s.graphs[graph].origin.0, stream),
    ensures
        ({
            let (t, r) = s.launch_graph(graph, stream);
            &&& t.ops == s.ops
            &&& t.running == s.running
            &&& t.clock == s.clock
            &&& r is Ok ==> r == Ok::<u32, SimError>(1) && s.graphs[graph].ready()
                && t.capture_buf.last().kind == (GpuOpView::ChildGraph { graph })
        }),
{
    reveal(SimState::submit_captured);
    let device = s.graphs[graph].origin.0;
    let kind = GpuOpView::ChildGraph { graph };
    record_captured_keeps_ops(s, device, stream, kind);
    record_captured_keeps_running(s, device, stream, kind);
    record_captured_keeps_clock(s, device, stream, kind);
    lemma_recorded(s, device, stream, kind);
    reveal(SimState::capture_fork);
    assert(s.capture_fork(device, stream, kind) == (s, Ok::<(), SimError>(())));
}

} // verus!
