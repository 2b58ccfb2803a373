//! What a capture says of itself, and how the nodes it leaves depend on each other.
use vstd::prelude::*;
use crate::error::SimError;
use crate::history::{follows, history};
use crate::ids::{DeviceId, GraphId, Lane, StreamId};
use crate::kinds::nested_of;
use crate::laws::capture::captured_nodes_join;
use crate::laws::edges::{same_ascending_list, sorting_orders, strictly_ascending};
use crate::laws::frames::record_captured_keeps_ops;
use crate::laws::order::{pushing_adds, sorting_keeps};
use crate::list::{ascending, distinct_ascending, lemma_ok_each, with_all_new};
use crate::ops::{GpuOpView, StreamCaptureMode};
use crate::sim::SimState;
use crate::state::{CaptureView, StepView};
use crate::table::{Key, lemma_order_exists, lists};

verus! {

proof fn lemma_last_on(
    s: SimState,
    device: DeviceId,
    stream: StreamId,
    found: Option<usize>,
    i: int,
)
    requires
        0 <= i <= s.capture_buf.len() <= usize::MAX,
        found matches Some(k) ==> k < i && on_lane(s, device, stream, k as int),
        forall|j: int|
            0 <= j < i && #[trigger] on_lane(s, device, stream, j) ==> found is Some && j
                <= found->0,
    ensures
        ({
            let r = s.last_captured_on_from(device, stream, found, i);
            &&& r matches Some(k) ==> k < s.capture_buf.len() && on_lane(
                s,
                device,
                stream,
                k as int,
            )
            &&& forall|j: int|
                0 <= j < s.capture_buf.len() && #[trigger] on_lane(
                    s,
                    device,
                    stream,
                    j,
                ) ==> r is Some
                    && j <= r->0
        }),
    decreases s.capture_buf.len() - i,
{
    if i < s.capture_buf.len() {
        if on_lane(s, device, stream, i) {
            lemma_last_on(s, device, stream, Some(i as usize), i + 1);
        } else {
            lemma_last_on(s, device, stream, found, i + 1);
        }
    }
}

/// Whether a captured node is on a stream.
pub open spec fn on_lane(s: SimState, device: DeviceId, stream: StreamId, i: int) -> bool {
    s.capture_buf[i].device == device && s.capture_buf[i].stream == stream
}

/// The last captured node of a stream is the one with the greatest index, if there is one.
pub proof fn last_captured_is_last(s: SimState, device: DeviceId, stream: StreamId)
    requires
        s.capture_buf.len() <= usize::MAX,
    ensures
        s.last_captured_on(device, stream) matches Some(k) ==> k < s.capture_buf.len() && on_lane(
            s,
            device,
            stream,
            k as int,
        ),
        forall|j: int|
            0 <= j < s.capture_buf.len() && #[trigger] on_lane(s, device, stream, j)
                ==> s.last_captured_on(device, stream) is Some && j <= s.last_captured_on(
                device,
                stream,
            )->0,
{
    lemma_last_on(s, device, stream, None, 0);
}

/// A stream has capture information exactly while it is captured. The dependencies of its next node
/// are, in strictly ascending order, the pending ones and its last captured node. All streams of a
/// capture report the same id.
pub proof fn capture_info_is_exact(s: SimState, device: DeviceId, stream: StreamId)
    requires
        s.capture_base() + s.capture_buf.len() <= usize::MAX,
    ensures
        ({
            let r = s.stream_capture_info(device, stream);
            &&& r is Some <==> s.stream_is_capturing(device, stream)
            &&& r matches Some(i) ==> {
                &&& i.graph == s.capturing->Some_0.graph
                &&& i.id == s.capturing->Some_0.id
                &&& strictly_ascending(i.dependencies)
                &&& forall|y: usize| #[trigger]
                    i.dependencies.contains(y) <==> i.pending_deps.contains(y) || match s.last_captured_on(
                        device,
                        stream,
                    ) {
                        Some(k) => y == s.capture_base() + k,
                        None => false,
                    }
            }
        }),
{
    if s.stream_capture_info(device, stream) is Some {
        let i = s.stream_capture_info(device, stream)->0;
        let pending = s.pending_of(device, stream);
        last_captured_is_last(s, device, stream);
        let all = match s.last_captured_on(device, stream) {
            Some(k) => pending.push(s.capture_base().saturating_add(k)),
            None => pending,
        };
        vstd::seq_lib::seq_to_set_is_finite(all);
        lemma_order_exists(all.to_set());
        let q = i.dependencies;
        assert(lists(q, all.to_set()));
        assert(strictly_ascending(q)) by {
            assert forall|a: int, b: int| 0 <= a < b < q.len() implies #[trigger] q[a]
                < #[trigger] q[b] by {
                assert(q[a].rank() < q[b].rank());
            }
        }
        assert forall|y: usize| #[trigger] q.contains(y) <==> pending.contains(y)
            || match s.last_captured_on(device, stream) {
            Some(k) => y == s.capture_base() + k,
            None => false,
        } by {
            assert(q.contains(y) <==> all.to_set().contains(y));
            if s.last_captured_on(device, stream) is Some {
                let k = s.last_captured_on(device, stream)->0;
                pushing_adds(pending, s.capture_base().saturating_add(k), y);
            }
        }
    }
}

/// A capture gets an id that no earlier one had.
pub proof fn capture_ids_differ(
    s: SimState,
    device: DeviceId,
    stream: StreamId,
    graph: GraphId,
    deps: Seq<usize>,
    mode: StreamCaptureMode,
    u: SimState,
    device_2: DeviceId,
    stream_2: StreamId,
    graph_2: GraphId,
    deps_2: Seq<usize>,
    mode_2: StreamCaptureMode,
)
    requires
        s.begin_capture_inner(device, stream, graph, deps, mode).1 is Ok,
        follows(s.begin_capture_inner(device, stream, graph, deps, mode).0, u),
        u.begin_capture_inner(device_2, stream_2, graph_2, deps_2, mode_2).1 is Ok,
        u.next.capture < u64::MAX,
    ensures
        ({
            let first = s.begin_capture_inner(device, stream, graph, deps, mode).0;
            let second = u.begin_capture_inner(device_2, stream_2, graph_2, deps_2, mode_2).0;
            first.capturing->Some_0.id < second.capturing->Some_0.id
        }),
{
    reveal(SimState::begin_capture_inner);
    history(s.begin_capture_inner(device, stream, graph, deps, mode).0, u);
}

/// Submissions on one stream, one after the other, and whether all were accepted.
pub open spec fn submit_all(
    s: SimState,
    device: DeviceId,
    stream: StreamId,
    kinds: Seq<GpuOpView>,
) -> (SimState, bool)
    decreases kinds.len(),
{
    if kinds.len() == 0 {
        (s, true)
    } else {
        let (t, ok) = submit_all(s, device, stream, kinds.drop_last());
        let (u, r) = t.submit(device, stream, kinds.last());
        (u, ok && r is Ok)
    }
}

/// Whether an operation neither waits for an event nor nests a graph.
pub open spec fn plain_kind(kind: GpuOpView) -> bool {
    !(kind is EventWait) && kind.nested_graphs().len() == 0
}

/// A capture into `graph` on one stream, behind `roots`, whose nodes stand one behind the other.
pub open spec fn linear(
    s: SimState,
    device: DeviceId,
    stream: StreamId,
    graph: GraphId,
    roots: Seq<usize>,
    kinds: Seq<GpuOpView>,
) -> bool {
    &&& s.capturing is Some
    &&& s.capturing->Some_0.graph == graph
    &&& s.capturing->Some_0.deps == roots
    &&& s.capturing->Some_0.streams.contains(Lane(device, stream))
    &&& s.capturing->Some_0.pending == Map::<Lane, Seq<usize>>::empty()
    &&& s.capturing->Some_0.extra_abs == Map::<usize, Seq<usize>>::empty()
    &&& s.capture_buf.len() == kinds.len()
    &&& forall|i: int|
        0 <= i < kinds.len() ==> {
            &&& (#[trigger] s.capture_buf[i]).device == device
            &&& s.capture_buf[i].stream == stream
            &&& s.capture_buf[i].kind == kinds[i]
            &&& !s.capture_buf[i].destroyed
            &&& s.capture_buf[i].deps == if i == 0 {
                Seq::<usize>::empty()
            } else {
                seq![(i - 1) as usize]
            }
        }
}

proof fn lemma_events_noted(s: SimState, kind: GpuOpView)
    requires
        s.capturing is Some,
    ensures
        ({
            let t = s.capture_events(kind);
            &&& t.capturing is Some
            &&& t.capturing->Some_0 == (CaptureView {
                events: t.capturing->Some_0.events,
                ..s.capturing->Some_0
            })
            &&& t.capture_buf == s.capture_buf
            &&& t.graphs == s.graphs
        }),
{
    reveal(SimState::capture_events);
}

proof fn lemma_recorded(
    s: SimState,
    device: DeviceId,
    stream: StreamId,
    graph: GraphId,
    roots: Seq<usize>,
    kinds: Seq<GpuOpView>,
    kind: GpuOpView,
)
    requires
        linear(s, device, stream, graph, roots, kinds),
        kinds.len() < usize::MAX,
        !(kind is EventWait),
        s.submit(device, stream, kind).1 is Ok,
    ensures
        ({
            let t = s.submit(device, stream, kind).0;
            &&& linear(t, device, stream, graph, roots, kinds.push(kind))
            &&& t.graphs == s.graphs
            &&& t.ops == s.ops
        }),
{
    reveal(SimState::submit_captured);
    reveal(SimState::capture_fork);
    reveal(SimState::record_captured);
    reveal(SimState::merge_capture_pending);
    lemma_events_noted(s, kind);
    record_captured_keeps_ops(s, device, stream, kind);
    let s1 = s.capture_events(kind);
    last_captured_is_last(s1, device, stream);
    let n = kinds.len();
    if n > 0 {
        assert(on_lane(s1, device, stream, n - 1));
    }
    let first = s1.capture_step_deps(device, stream, kind);
    assert(first =~= if n == 0 {
        Seq::<usize>::empty()
    } else {
        seq![(n - 1) as usize]
    });
    let t = s.submit(device, stream, kind).0;
    let cap = s1.capturing->Some_0;
    assert(cap.pending.remove(Lane(device, stream)) =~= cap.pending);
    assert(t.capture_buf.drop_last() =~= s.capture_buf);
    assert forall|i: int| 0 <= i < kinds.push(kind).len() implies ({
        &&& (#[trigger] t.capture_buf[i]).device == device
        &&& t.capture_buf[i].stream == stream
        &&& t.capture_buf[i].kind == kinds.push(kind)[i]
        &&& !t.capture_buf[i].destroyed
        &&& t.capture_buf[i].deps == if i == 0 {
            Seq::<usize>::empty()
        } else {
            seq![(i - 1) as usize]
        }
    }) by {
        if i < n {
            assert(t.capture_buf[i] == s.capture_buf[i]);
        }
    }
}

proof fn lemma_recorded_all(
    s: SimState,
    device: DeviceId,
    stream: StreamId,
    graph: GraphId,
    roots: Seq<usize>,
    kinds: Seq<GpuOpView>,
)
    requires
        linear(s, device, stream, graph, roots, Seq::empty()),
        kinds.len() < usize::MAX,
        forall|i: int| 0 <= i < kinds.len() ==> plain_kind(#[trigger] kinds[i]),
        submit_all(s, device, stream, kinds).1,
    ensures
        ({
            let t = submit_all(s, device, stream, kinds).0;
            &&& linear(t, device, stream, graph, roots, kinds)
            &&& t.graphs == s.graphs
            &&& t.ops == s.ops
        }),
    decreases kinds.len(),
{
    if kinds.len() > 0 {
        let less = kinds.drop_last();
        assert forall|i: int| 0 <= i < less.len() implies plain_kind(#[trigger] less[i]) by {
            assert(plain_kind(kinds[i]));
        }
        lemma_recorded_all(s, device, stream, graph, roots, less);
        assert(plain_kind(kinds[kinds.len() - 1]));
        let t = submit_all(s, device, stream, less).0;
        lemma_recorded(t, device, stream, graph, roots, less, kinds.last());
        assert(less.push(kinds.last()) =~= kinds);
    } else {
        assert(kinds =~= Seq::empty());
    }
}

proof fn lemma_nothing_nested(steps: Seq<StepView>)
    requires
        forall|i: int| 0 <= i < steps.len() ==> (
            #[trigger] steps[i]
        ).kind.nested_graphs().len() == 0,
    ensures
        nested_of(steps).len() == 0,
    decreases steps.len(),
{
    if steps.len() > 0 {
        let p = steps.drop_last();
        assert forall|i: int| 0 <= i < p.len() implies (#[trigger] p[i]).kind.nested_graphs().len()
            == 0 by {
            assert(steps[i].kind.nested_graphs().len() == 0);
        }
        lemma_nothing_nested(p);
        assert(steps[steps.len() - 1].kind.nested_graphs().len() == 0);
    }
}

proof fn lemma_new_list(q: Seq<usize>, more: Seq<usize>)
    requires
        q.no_duplicates(),
    ensures
        with_all_new(q, more).no_duplicates(),
        forall|y: usize| #[trigger]
            with_all_new(q, more).contains(y) <==> q.contains(y) || more.contains(y),
    decreases more.len(),
{
    if more.len() > 0 {
        let less = more.drop_last();
        let x = more.last();
        lemma_new_list(q, less);
        let p = with_all_new(q, less);
        let r = with_all_new(q, more);
        assert(more =~= less.push(x));
        assert forall|y: usize| #[trigger] r.contains(y) <==> q.contains(y) || more.contains(y) by {
            pushing_adds(less, x, y);
            pushing_adds(p, x, y);
        }
        if !p.contains(x) {
            assert forall|i: int, j: int| 0 <= i < r.len() && 0 <= j < r.len() && i != j
                implies r[i] != r[j] by {
                if i < p.len() && j == p.len() {
                    assert(p.contains(p[i]));
                }
                if j < p.len() && i == p.len() {
                    assert(p.contains(p[j]));
                }
            }
        }
    }
}

/// A list without duplicates stays one when new elements are added, and holds both.
pub proof fn adding_keeps_distinct(q: Seq<usize>, more: Seq<usize>)
    requires
        q.no_duplicates(),
    ensures
        with_all_new(q, more).no_duplicates(),
        forall|y: usize| #[trigger]
            with_all_new(q, more).contains(y) <==> q.contains(y) || more.contains(y),
{
    lemma_new_list(q, more);
}

proof fn lemma_roots_first(s: SimState, roots: Seq<usize>, offset: usize)
    requires
        strictly_ascending(roots),
    ensures
        s.captured_deps(Seq::empty(), offset, Seq::empty(), roots) == roots,
{
    let own = Seq::<usize>::empty();
    let d0 = Seq::new(own.len(), |i: int| s.captured_deps_at(own, offset, i));
    assert(d0 =~= own);
    assert(with_all_new(own, own) == own);
    lemma_new_list(own, roots);
    let q = with_all_new(own, roots);
    sorting_orders(q);
    assert forall|y: usize| #[trigger] ascending(q).contains(y) <==> roots.contains(y) by {
        sorting_keeps(q, y);
        assert(!own.contains(y));
    }
    same_ascending_list(ascending(q), roots);
}

proof fn lemma_one_before(s: SimState, i: int, offset: usize, roots: Seq<usize>)
    requires
        0 < i,
        offset + i <= usize::MAX,
    ensures
        s.captured_deps(seq![(i - 1) as usize], offset, Seq::empty(), roots) == seq![
            (offset + i - 1) as usize,
        ],
{
    let own = seq![(i - 1) as usize];
    let d0 = Seq::new(own.len(), |k: int| s.captured_deps_at(own, offset, k));
    assert(d0 =~= seq![(offset + i - 1) as usize]);
    reveal_with_fuel(ascending, 2);
    assert(d0.drop_last() =~= Seq::<usize>::empty());
    assert(ascending(d0) =~= d0);
}

/// What a linear capture leaves: the given nodes, sorted and each once, are the dependencies of the
/// first captured node, and every later one depends on the one before. Nothing was submitted, and
/// what the graph held before is as it was.
pub proof fn linear_capture(
    s: SimState,
    device: DeviceId,
    stream: StreamId,
    graph: GraphId,
    deps: Seq<usize>,
    kinds: Seq<GpuOpView>,
)
    requires
        s.begin_capture_to_graph(device, stream, graph, deps).1 is Ok,
        kinds.len() > 0,
        s.graphs[graph].steps.len() + kinds.len() < usize::MAX,
        forall|i: int| 0 <= i < kinds.len() ==> plain_kind(#[trigger] kinds[i]),
        submit_all(
            s.begin_capture_to_graph(device, stream, graph, deps).0,
            device,
            stream,
            kinds,
        ).1,
    ensures
        ({
            let t = submit_all(
                s.begin_capture_to_graph(device, stream, graph, deps).0,
                device,
                stream,
                kinds,
            ).0;
            let (u, r) = t.end_capture();
            let n = s.graphs[graph].steps.len();
            let after = u.graphs[graph].steps;
            &&& r == Ok::<GraphId, SimError>(graph)
            &&& after.len() == n + kinds.len()
            &&& after.take(n as int) == s.graphs[graph].steps
            &&& after[n as int].deps == distinct_ascending(deps)
            &&& forall|i: int|
                0 < i < kinds.len() ==> (#[trigger] after[n + i]).deps == seq![(n + i - 1) as usize]
            &&& forall|i: int|
                0 <= i < kinds.len() ==> (#[trigger] after[n + i]).kind == kinds[i]
            &&& !u.stream_is_capturing(device, stream)
            &&& u.ops == s.ops
        }),
{
    reveal(SimState::begin_capture_inner);
    let s0 = s.begin_capture_to_graph(device, stream, graph, deps).0;
    let roots = distinct_ascending(deps);
    assert(linear(s0, device, stream, graph, roots, Seq::empty()));
    lemma_recorded_all(s0, device, stream, graph, roots, kinds);
    let t = submit_all(s0, device, stream, kinds).0;
    assert forall|i: int| 0 <= i < t.capture_buf.len() implies (
    #[trigger] t.capture_buf[i]).kind.nested_graphs().len() == 0 by {
        assert(plain_kind(kinds[i]));
        assert(t.capture_buf[i].kind == kinds[i]);
    }
    lemma_nothing_nested(t.capture_buf);
    let nested = nested_of(t.capture_buf);
    lemma_ok_each(nested.len(), |i: int| t.fail_cycles_at(graph, nested, i));
    assert(t.fail_capture_child_cycles(graph) is Ok);
    let n = s.graphs[graph].steps.len();
    let nodes = t.captured_nodes();
    let (u, r) = t.end_capture();
    let after = u.graphs[graph].steps;
    assert(s.graphs.contains_key(graph) && !s.graphs[graph].instantiated);
    captured_nodes_join(t);
    assert(after.take(n as int) =~= s.graphs[graph].steps);
    assert(after == s.graphs[graph].steps + nodes);
    assert(strictly_ascending(roots)) by {
        vstd::seq_lib::seq_to_set_is_finite(deps);
        lemma_order_exists(deps.to_set());
        assert(lists(roots, deps.to_set()));
        assert forall|a: int, b: int| 0 <= a < b < roots.len() implies #[trigger] roots[a]
            < #[trigger] roots[b] by {
            assert(roots[a].rank() < roots[b].rank());
        }
    }
    let offset = t.capture_base();
    lemma_roots_first(t, roots, offset);
    assert(nodes[0].deps == roots) by {
        assert(t.capture_buf[0].deps == Seq::<usize>::empty());
        assert(t.captured_extra(0) == Seq::<usize>::empty());
    }
    assert(after[n as int] == nodes[0]);
    assert forall|i: int| 0 < i < kinds.len() implies (#[trigger] after[n + i]).deps == seq![
        (n + i - 1) as usize,
    ] by {
        assert(after[n + i] == nodes[i]);
        assert(t.capture_buf[i].deps == seq![(i - 1) as usize]);
        assert(t.captured_extra(i as usize) == Seq::<usize>::empty());
        lemma_one_before(t, i, offset, roots);
    }
    assert forall|i: int| 0 <= i < kinds.len() implies (#[trigger] after[n + i]).kind
        == kinds[i] by {
        assert(after[n + i] == nodes[i]);
        assert(t.capture_buf[i].kind == kinds[i]);
    }
}

} // verus!
