//! Short forms of calls: what each stands for.
use vstd::prelude::*;
use crate::error::{invalid, SimError};
use crate::ids::{AllocId, CondId, DeviceId, EventId, GraphId, Lane, OpId, StreamId};
use crate::laws::building::{got_node, node_is_got};
use crate::list::without;
use crate::ops::{
    AccessPolicyWindow, BatchMemOp, EventRecordFlags, EventWaitFlags, GpuOpView, HostNodeParams,
    KernelAttrs, KernelBuf, KernelKind, KernelParamsView, LaunchCompletionEvent, MemcpyOp, MemsetOp,
    PdlLaunch, Place, ProgrammaticLaunch, WaitValueCmp,
};
use crate::sim::SimState;
use crate::state::{Alloc, StepView};

verus! {

/// The whole of each allocation, where a length of none means all of it.
pub open spec fn whole_of(ids: Seq<AllocId>) -> Seq<KernelBuf> {
    Seq::new(ids.len(), |i: int| KernelBuf { id: ids[i], offset: 0, bytes: 0 })
}

/// A copy of one row that starts where its allocation does.
pub open spec fn one_row(src: Place, dst: Place, alloc: AllocId, bytes: u64) -> MemcpyOp {
    MemcpyOp {
        src,
        dst,
        alloc,
        bytes,
        offset: 0,
        height: 0,
        src_pitch: 0,
        dst_pitch: 0,
        depth: 0,
        src_height: 0,
        dst_height: 0,
    }
}

/// A fill of one span.
pub open spec fn one_span(buf: KernelBuf) -> MemsetOp {
    MemsetOp {
        id: buf.id,
        offset: buf.offset,
        bytes: buf.bytes,
        height: 0,
        pitch: 0,
        depth: 0,
        ysize: 0,
    }
}

/// A call that takes allocations does what the call that takes buffers does with the whole of each.
pub proof fn allocations_stand_for_buffers(
    s: SimState,
    device: DeviceId,
    kind: KernelKind,
    reads: Seq<AllocId>,
    writes: Seq<AllocId>,
    stream: StreamId,
    attrs: KernelAttrs,
    pdl: ProgrammaticLaunch,
    launch: PdlLaunch,
    event: LaunchCompletionEvent,
    window: AccessPolicyWindow,
)
    ensures
        s.kernel(device, kind, reads, writes, stream) == s.kernel_bufs(
            device,
            kind,
            whole_of(reads),
            whole_of(writes),
            stream,
        ),
        s.cooperative_kernel(device, kind, reads, writes, stream) == s.cooperative_kernel_bufs(
            device,
            kind,
            whole_of(reads),
            whole_of(writes),
            stream,
        ),
        s.kernel_with(device, kind, reads, writes, stream, attrs) == s.kernel_bufs_with(
            device,
            kind,
            whole_of(reads),
            whole_of(writes),
            stream,
            attrs,
        ),
        s.kernel_pdl(device, kind, reads, writes, stream, pdl) == s.kernel_pdl_bufs(
            device,
            kind,
            whole_of(reads),
            whole_of(writes),
            stream,
            pdl,
        ),
        s.kernel_pdl_event(device, kind, reads, writes, stream, launch) == s.kernel_pdl_event_bufs(
            device,
            kind,
            whole_of(reads),
            whole_of(writes),
            stream,
            launch,
        ),
        s.kernel_launch_completion(device, kind, reads, writes, stream, event)
            == s.kernel_launch_completion_bufs(
            device,
            kind,
            whole_of(reads),
            whole_of(writes),
            stream,
            event,
        ),
        s.kernel_access_policy(device, kind, reads, writes, stream, window)
            == s.kernel_access_policy_bufs(
            device,
            kind,
            whole_of(reads),
            whole_of(writes),
            stream,
            window,
        ),
        s.kernel_access_policy_bufs(
            device,
            kind,
            whole_of(reads),
            whole_of(writes),
            stream,
            window,
        ) == s.kernel_bufs_with(
            device,
            kind,
            whole_of(reads),
            whole_of(writes),
            stream,
            (KernelAttrs { access_policy: Some(window), ..KernelAttrs::plain() }),
        ),
{
    assert(s.whole_bufs(reads) =~= whole_of(reads));
    assert(s.whole_bufs(writes) =~= whole_of(writes));
}

/// Nodes can be added in short: kernels by their allocations, copies of one row, fills of one span,
/// and host functions without data.
pub proof fn nodes_are_added_in_short(
    s: SimState,
    graph: GraphId,
    kind: KernelKind,
    reads: Seq<AllocId>,
    writes: Seq<AllocId>,
    src: Place,
    dst: Place,
    alloc: AllocId,
    bytes: u64,
    buf: KernelBuf,
    node: usize,
)
    ensures
        s.graph_add_kernel(graph, kind, reads, writes) == s.graph_add_kernel_params(
            graph,
            (KernelParamsView {
                kind,
                reads: whole_of(reads),
                writes: whole_of(writes),
                cooperative: false,
            }),
        ),
        s.graph_add_cooperative_kernel(graph, kind, reads, writes) == s.graph_add_kernel_params(
            graph,
            (KernelParamsView {
                kind,
                reads: whole_of(reads),
                writes: whole_of(writes),
                cooperative: true,
            }),
        ),
        s.graph_add_memcpy_1d(graph, src, dst, alloc, bytes) == s.graph_add_memcpy(
            graph,
            one_row(src, dst, alloc, bytes),
        ),
        s.graph_memcpy_set_params_1d(graph, node, src, dst, alloc, bytes)
            == s.graph_memcpy_set_params(graph, node, one_row(src, dst, alloc, bytes)),
        s.graph_exec_memcpy_set_params_1d(graph, node, src, dst, alloc, bytes)
            == s.graph_exec_memcpy_set_params(graph, node, one_row(src, dst, alloc, bytes)),
        s.graph_add_memset(graph, buf) == s.graph_add_memset_op(graph, one_span(buf)),
        s.graph_add_host_func(graph) == s.graph_add_host_func_params(
            graph,
            (HostNodeParams { fn_id: 0, user_data: 0 }),
        ),
{
    assert(s.whole_bufs(reads) =~= whole_of(reads));
    assert(s.whole_bufs(writes) =~= whole_of(writes));
}

/// Work can be submitted in short: fills of the start of an allocation, fills of one span, host
/// functions without data, lists of one memory operation, and events by their flags. A copy that is
/// awaited is the copy, and then the stream is synchronized.
pub proof fn work_is_submitted_in_short(
    s: SimState,
    device: DeviceId,
    alloc: AllocId,
    bytes: u64,
    stream: StreamId,
    buf: KernelBuf,
    op: MemcpyOp,
    item: BatchMemOp,
    event: EventId,
)
    ensures
        bytes > 0 ==> s.memset(device, alloc, bytes, stream) == s.memset_op(
            device,
            one_span(KernelBuf { id: alloc, offset: 0, bytes }),
            stream,
        ),
        bytes == 0 ==> s.memset(device, alloc, bytes, stream) == (
            s,
            Err::<OpId, SimError>(invalid("zero-byte memset")),
        ),
        s.memset_buf(device, buf, stream) == s.memset_op(device, one_span(buf), stream),
        s.host_func(device, stream) == s.host_func_params(
            device,
            stream,
            (HostNodeParams { fn_id: 0, user_data: 0 }),
        ),
        s.record_event_with_flags(device, event, stream, 0) == s.record_event(
            device,
            event,
            stream,
        ),
        s.record_event_with_flags(device, event, stream, EventRecordFlags::EXTERNAL)
            == s.record_event_external(device, event, stream),
        s.wait_event_with_flags(device, event, stream, 0) == s.wait_event(device, event, stream),
        s.wait_event_with_flags(device, event, stream, EventWaitFlags::EXTERNAL)
            == s.wait_event_external(device, event, stream),
        s.memcpy_sync(device, op, stream).1 is Ok ==> s.capturing is None && s.memcpy(
            device,
            op,
            stream,
        ).1 == s.memcpy_sync(device, op, stream).1 && s.memcpy(
            device,
            op,
            stream,
        ).0.synchronize_stream(device, stream).0 == s.memcpy_sync(device, op, stream).0,
{
    assert(0u32 & !EventRecordFlags::EXTERNAL == 0) by (bit_vector);
    assert(0u32 & EventRecordFlags::EXTERNAL == 0) by (bit_vector);
    assert(EventRecordFlags::EXTERNAL & !EventRecordFlags::EXTERNAL == 0) by (bit_vector);
    assert(EventRecordFlags::EXTERNAL & EventRecordFlags::EXTERNAL != 0) by (bit_vector);
}

/// A fill covers what was asked, within its allocation. A length of none means all from the offset.
pub proof fn fill_is_within(s: SimState, op: MemsetOp)
    requires
        s.resolve_memset_op(op) is Ok,
    ensures
        ({
            let r = s.resolve_memset_op(op)->Ok_0;
            let total = s.allocs[op.id].bytes;
            &&& s.allocs.contains_key(op.id)
            &&& r.id == op.id
            &&& r.offset == op.offset
            &&& op.height <= 1 && op.depth <= 1 ==> {
                &&& r.bytes == if op.bytes == 0 {
                    total - op.offset
                } else {
                    op.bytes as int
                }
                &&& r.bytes > 0
                &&& r.offset + r.bytes <= total || total == u64::MAX
            }
            &&& op.height > 1 || op.depth > 1 ==> r == op
        }),
{
}

/// Nodes that write or wait for a word are added with the width that they are named after.
pub proof fn word_nodes_are_added(
    s: SimState,
    graph: GraphId,
    id: AllocId,
    offset: u64,
    value: u64,
    cmp: WaitValueCmp,
)
    ensures
        s.graph_add_write_value64(graph, id, offset, value).1 is Ok ==> got_node(
            s,
            s.graph_add_write_value64(graph, id, offset, value).0,
            graph,
            GpuOpView::WriteValue { id, offset, value, bits32: false },
        ),
        s.graph_add_write_value32(graph, id, offset, value).1 is Ok ==> got_node(
            s,
            s.graph_add_write_value32(graph, id, offset, value).0,
            graph,
            GpuOpView::WriteValue { id, offset, value, bits32: true },
        ),
        s.graph_add_wait_value64(graph, id, offset, value, cmp).1 is Ok ==> got_node(
            s,
            s.graph_add_wait_value64(graph, id, offset, value, cmp).0,
            graph,
            GpuOpView::WaitValue { id, offset, value, bits32: false, cmp },
        ),
        s.graph_add_wait_value32(graph, id, offset, value, cmp).1 is Ok ==> got_node(
            s,
            s.graph_add_wait_value32(graph, id, offset, value, cmp).0,
            graph,
            GpuOpView::WaitValue { id, offset, value, bits32: true, cmp },
        ),
{
    node_is_got(s, graph, GpuOpView::WriteValue { id, offset, value, bits32: false });
    node_is_got(s, graph, GpuOpView::WriteValue { id, offset, value, bits32: true });
    node_is_got(s, graph, GpuOpView::WaitValue { id, offset, value, bits32: false, cmp });
    node_is_got(s, graph, GpuOpView::WaitValue { id, offset, value, bits32: true, cmp });
}

proof fn lemma_bodies(s: SimState, on: Lane, n: usize, out: Seq<GraphId>, i: int)
    requires
        0 <= i <= n,
        out.len() == i,
        s.next.graph + (n - i) < u32::MAX,
        forall|k: int|
            0 <= k < i ==> s.graphs.contains_key(#[trigger] out[k]) && s.graphs[out[k]].steps.len()
                == 0 && s.graphs[out[k]].origin == on && !s.graphs[out[k]].instantiated && out[k].0
                < s.next.graph,
    ensures
        ({
            let (t, q) = s.insert_graphs_from(on, n, out, i);
            &&& q.len() == n
            &&& forall|k: int|
                0 <= k < n ==> t.graphs.contains_key(#[trigger] q[k])
                    && t.graphs[q[k]].steps.len() == 0 && t.graphs[q[k]].origin == on
                    && !t.graphs[q[k]].instantiated
            &&& forall|k: int| 0 <= k < i ==> q[k] == #[trigger] out[k]
            &&& forall|k: int| i <= k < n ==> (#[trigger] q[k]).0 == s.next.graph + (k - i)
            &&& forall|g: GraphId|
                g.0 < s.next.graph && #[trigger] s.graphs.contains_key(g) ==> t.graphs.contains_key(
                    g,
                ) && t.graphs[g] == s.graphs[g]
        }),
    decreases n - i,
{
    reveal(SimState::insert_graph);
    if i < n {
        let (t, id) = s.insert_graph(on.0, on.1);
        lemma_bodies(t, on, n, out.push(id), i + 1);
        assert(out.push(id)[i] == id);
        assert forall|k: int| 0 <= k < i implies s.insert_graphs_from(on, n, out, i).1[k]
            == #[trigger] out[k] by {
            assert(out.push(id)[k] == out[k]);
        }
        let (u, q) = t.insert_graphs_from(on, n, out.push(id), i + 1);
        assert(q[i] == id);
        assert forall|k: int| i <= k < n implies (#[trigger] q[k]).0 == s.next.graph + (k - i) by {
            if k > i {
                assert(q[k].0 == t.next.graph + (k - (i + 1)));
            }
        }
        assert forall|g: GraphId|
            g.0 < s.next.graph && #[trigger] s.graphs.contains_key(g) implies u.graphs.contains_key(
            g,
        ) && u.graphs[g] == s.graphs[g] by {
            assert(t.graphs.contains_key(g));
        }
    }
}

/// A switch node takes a handle of its own graph and gets a new empty body for each branch, at least
/// one and at most as many as a switch can have.
pub proof fn switch_gets_its_branches(s: SimState, graph: GraphId, handle: CondId, n: u32)
    requires
        s.graph_add_switch(graph, handle, n).1 is Ok,
        s.next.graph + n < u32::MAX,
        graph.0 < s.next.graph,
    ensures
        ({
            let (t, r) = s.graph_add_switch(graph, handle, n);
            let bodies = r->Ok_0;
            &&& 1 <= n <= 64
            &&& s.conds.contains_key(handle)
            &&& s.conds[handle].graph == graph
            &&& bodies.len() == n
            &&& forall|k: int|
                0 <= k < n ==> (#[trigger] bodies[k]).0 == s.next.graph + k
                    && t.graphs.contains_key(bodies[k]) && t.graphs[bodies[k]].steps.len() == 0
                    && t.graphs[bodies[k]].origin == s.graphs[graph].origin
            &&& t.graphs[graph].steps.len() == s.graphs[graph].steps.len() + 1
            &&& t.graphs[graph].steps.last().kind == (GpuOpView::Switch { handle, bodies })
        }),
{
    reveal(SimState::graph_push);
    let on = s.graph_origin_for_add(graph)->Ok_0;
    lemma_bodies(s, on, n as usize, Seq::empty(), 0);
    let (u, bodies) = s.insert_graphs(on, n as usize);
    assert(s.graphs.contains_key(graph));
    assert(u.graphs[graph] == s.graphs[graph]);
    assert forall|k: int| 0 <= k < n implies (#[trigger] bodies[k]).0 == s.next.graph + k by {
        assert(bodies[k].0 == s.next.graph + (k - 0));
    }
}

/// A destroyed node keeps its index and depends on nothing, and no node depends on it. Every other
/// node is as before, and memory that the node allocates is not the graph's any more.
pub proof fn node_is_destroyed_alone(
    s: SimState,
    graph: GraphId,
    node: usize,
    i: int,
    x: usize,
    a: AllocId,
)
    requires
        s.graph_destroy_node(graph, node).1 is Ok,
        0 <= i < s.graphs[graph].steps.len() <= usize::MAX,
    ensures
        ({
            let t = s.graph_destroy_node(graph, node).0;
            let was = s.graphs[graph].steps;
            let is = t.graphs[graph].steps;
            &&& s.capturing is None
            &&& !s.graphs[graph].instantiated
            &&& is.len() == was.len()
            &&& node < was.len() && !was[node as int].destroyed
            &&& is[node as int].destroyed
            &&& is[node as int].deps.len() == 0
            &&& i != node ==> is[i] == (StepView { deps: is[i].deps, ..was[i] })
            &&& i != node ==> (is[i].deps.contains(x) <==> was[i].deps.contains(x) && x != node)
            &&& t.allocs_of(graph).contains(a) <==> s.allocs_of(graph).contains(a) && !(
            was[node as int].kind is Alloc && was[node as int].kind->Alloc_id == a)
            &&& t.ops == s.ops
            &&& t.clock == s.clock
        }),
{
    let was = s.graphs[graph].steps;
    let is = s.without_node(was, node);
    assert(is[node as int] == s.without_node_at(was, node, node as int));
    assert(is[i] == s.without_node_at(was, node, i));
    taken_is_gone(was[i].deps, node, x);
    if was[node as int].kind is Alloc {
        taken_is_gone(s.allocs_of(graph), was[node as int].kind->Alloc_id, a);
    }
}

/// What is taken out of a list is the only element that is gone from it.
pub proof fn taken_is_gone<K>(q: Seq<K>, d: K, x: K)
    ensures
        without(q, d).contains(x) <==> q.contains(x) && x != d,
    decreases q.len(),
{
    if q.len() > 0 {
        let p = q.drop_last();
        let w = without(p, d);
        taken_is_gone(p, d, x);
        assert(q =~= p.push(q.last()));
        lemma_pushed_in(p, q.last(), x);
        lemma_pushed_in(w, q.last(), x);
    }
}

proof fn lemma_pushed_in<K>(q: Seq<K>, y: K, x: K)
    ensures
        q.push(y).contains(x) <==> q.contains(x) || x == y,
{
    if q.contains(x) {
        let i = choose|i: int| 0 <= i < q.len() && q[i] == x;
        assert(q.push(y)[i] == x);
    }
    if q.push(y).contains(x) {
        let i = choose|i: int| 0 <= i < q.push(y).len() && q.push(y)[i] == x;
        if i < q.len() {
            assert(q[i] == x);
        }
    }
    assert(q.push(y)[q.len() as int] == y);
}

/// Whether the node at an index is a copy that is not destroyed.
pub open spec fn has_memcpy(steps: Seq<StepView>, i: int) -> bool {
    0 <= i < steps.len() && !steps[i].destroyed && steps[i].kind is Memcpy
}

/// What a copy node holds.
pub open spec fn held_memcpy(k: GpuOpView) -> Option<MemcpyOp> {
    match k {
        GpuOpView::Memcpy(op) => Some(op),
        _ => None,
    }
}

proof fn lemma_unique_memcpy(
    s: SimState,
    steps: Seq<StepView>,
    found: Option<(usize, MemcpyOp)>,
    i: int,
)
    requires
        0 <= i <= steps.len() <= usize::MAX,
        found matches Some(x) ==> x.0 < i && has_memcpy(steps, x.0 as int) && held_memcpy(
            steps[x.0 as int].kind,
        ) == Some(x.1),
        forall|j: int| 0 <= j < i && #[trigger] has_memcpy(steps, j) ==> (found matches Some(
            x,
        ) && x.0 == j),
    ensures
        match s.graph_try_unique_memcpy_from(steps, found, i) {
            Ok(None) => forall|j: int| !#[trigger] has_memcpy(steps, j),
            Ok(Some(x)) => has_memcpy(steps, x.0 as int) && held_memcpy(
                steps[x.0 as int].kind,
            ) == Some(
                x.1,
            ) && forall|j: int| #[trigger] has_memcpy(steps, j) ==> j == x.0,
            Err(e) => e == invalid("not unique memcpy node") && exists|j: int, k: int|
                j != k && #[trigger] has_memcpy(steps, j) && #[trigger] has_memcpy(steps, k),
        },
    decreases steps.len() - i,
{
    if i < steps.len() {
        assert(has_memcpy(steps, i) == (!steps[i].destroyed && steps[i].kind is Memcpy));
        if has_memcpy(steps, i) {
            if found is None {
                lemma_unique_memcpy(
                    s,
                    steps,
                    Some((i as usize, held_memcpy(steps[i].kind)->0)),
                    i + 1,
                );
            }
        } else {
            lemma_unique_memcpy(s, steps, found, i + 1);
        }
    }
}

/// A graph has a unique copy node exactly where one node alone is one that is not destroyed; that
/// node and what it holds are given. Where there is none, or more than one, the call says so.
pub proof fn unique_memcpy_is_alone(s: SimState, graph: GraphId)
    requires
        s.resolved_graph(graph) is Ok,
        s.graphs.contains_key(s.resolved_graph(graph)->Ok_0),
        s.graphs[s.resolved_graph(graph)->Ok_0].current().len() <= usize::MAX,
    ensures
        ({
            let steps = s.graphs[s.resolved_graph(graph)->Ok_0].current();
            let r = s.graph_unique_memcpy(graph);
            let found = s.graph_try_unique_memcpy(graph);
            &&& (forall|j: int| !#[trigger] has_memcpy(steps, j)) ==> r == Err::<
                (usize, MemcpyOp),
                SimError,
            >(
                invalid("not a memcpy node"),
            ) && found == Ok::<Option<(usize, MemcpyOp)>, SimError>(None)
            &&& forall|j: int, k: int| #[trigger]
                has_memcpy(steps, j) && #[trigger] has_memcpy(steps, k) && j != k ==> r == Err::<
                    (usize, MemcpyOp),
                    SimError,
                >(invalid("not unique memcpy node")) && found is Err
            &&& forall|k: int| #[trigger]
                has_memcpy(steps, k) && (forall|j: int| #[trigger] has_memcpy(steps, j) ==> j == k)
                    ==> r == Ok::<(usize, MemcpyOp), SimError>(
                    (k as usize, held_memcpy(steps[k].kind)->0),
                ) && found == Ok::<Option<(usize, MemcpyOp)>, SimError>(Some(r->Ok_0))
        }),
{
    let id = s.resolved_graph(graph)->Ok_0;
    lemma_unique_memcpy(s, s.graphs[id].current(), None, 0);
}

/// Whether the node at an index is a fill that is not destroyed.
pub open spec fn has_memset(steps: Seq<StepView>, i: int) -> bool {
    0 <= i < steps.len() && !steps[i].destroyed && steps[i].kind is Memset
}

/// What a fill node holds.
pub open spec fn held_memset(k: GpuOpView) -> Option<MemsetOp> {
    match k {
        GpuOpView::Memset(op) => Some(op),
        _ => None,
    }
}

proof fn lemma_unique_memset(
    s: SimState,
    steps: Seq<StepView>,
    found: Option<(usize, MemsetOp)>,
    i: int,
)
    requires
        0 <= i <= steps.len() <= usize::MAX,
        found matches Some(x) ==> x.0 < i && has_memset(steps, x.0 as int) && held_memset(
            steps[x.0 as int].kind,
        ) == Some(x.1),
        forall|j: int| 0 <= j < i && #[trigger] has_memset(steps, j) ==> (found matches Some(
            x,
        ) && x.0 == j),
    ensures
        match s.graph_try_unique_memset_from(steps, found, i) {
            Ok(None) => forall|j: int| !#[trigger] has_memset(steps, j),
            Ok(Some(x)) => has_memset(steps, x.0 as int) && held_memset(
                steps[x.0 as int].kind,
            ) == Some(
                x.1,
            ) && forall|j: int| #[trigger] has_memset(steps, j) ==> j == x.0,
            Err(e) => e == invalid("not unique memset node") && exists|j: int, k: int|
                j != k && #[trigger] has_memset(steps, j) && #[trigger] has_memset(steps, k),
        },
    decreases steps.len() - i,
{
    if i < steps.len() {
        assert(has_memset(steps, i) == (!steps[i].destroyed && steps[i].kind is Memset));
        if has_memset(steps, i) {
            if found is None {
                lemma_unique_memset(
                    s,
                    steps,
                    Some((i as usize, held_memset(steps[i].kind)->0)),
                    i + 1,
                );
            }
        } else {
            lemma_unique_memset(s, steps, found, i + 1);
        }
    }
}

/// A graph has a unique fill node exactly where one node alone is one that is not destroyed; that
/// node and what it holds are given. Where there is none, or more than one, the call says so.
pub proof fn unique_memset_is_alone(s: SimState, graph: GraphId)
    requires
        s.resolved_graph(graph) is Ok,
        s.graphs.contains_key(s.resolved_graph(graph)->Ok_0),
        s.graphs[s.resolved_graph(graph)->Ok_0].current().len() <= usize::MAX,
    ensures
        ({
            let steps = s.graphs[s.resolved_graph(graph)->Ok_0].current();
            let r = s.graph_unique_memset(graph);
            let found = s.graph_try_unique_memset(graph);
            &&& (forall|j: int| !#[trigger] has_memset(steps, j)) ==> r == Err::<
                (usize, MemsetOp),
                SimError,
            >(
                invalid("not a memset node"),
            ) && found == Ok::<Option<(usize, MemsetOp)>, SimError>(None)
            &&& forall|j: int, k: int| #[trigger]
                has_memset(steps, j) && #[trigger] has_memset(steps, k) && j != k ==> r == Err::<
                    (usize, MemsetOp),
                    SimError,
                >(invalid("not unique memset node")) && found is Err
            &&& forall|k: int| #[trigger]
                has_memset(steps, k) && (forall|j: int| #[trigger] has_memset(steps, j) ==> j == k)
                    ==> r == Ok::<(usize, MemsetOp), SimError>(
                    (k as usize, held_memset(steps[k].kind)->0),
                ) && found == Ok::<Option<(usize, MemsetOp)>, SimError>(Some(r->Ok_0))
        }),
{
    let id = s.resolved_graph(graph)->Ok_0;
    lemma_unique_memset(s, s.graphs[id].current(), None, 0);
}

/// Whether the node at an index is a host function that is not destroyed.
pub open spec fn has_host(steps: Seq<StepView>, i: int) -> bool {
    0 <= i < steps.len() && !steps[i].destroyed && steps[i].kind is HostFunc
}

/// What a host function node holds.
pub open spec fn held_host(k: GpuOpView) -> Option<HostNodeParams> {
    match k {
        GpuOpView::HostFunc { fn_id, user_data } => Some(HostNodeParams { fn_id, user_data }),
        _ => None,
    }
}

proof fn lemma_unique_host(
    s: SimState,
    steps: Seq<StepView>,
    found: Option<(usize, HostNodeParams)>,
    i: int,
)
    requires
        0 <= i <= steps.len() <= usize::MAX,
        found matches Some(x) ==> x.0 < i && has_host(steps, x.0 as int) && held_host(
            steps[x.0 as int].kind,
        ) == Some(x.1),
        forall|j: int| 0 <= j < i && #[trigger] has_host(steps, j) ==> (found matches Some(
            x,
        ) && x.0 == j),
    ensures
        match s.graph_try_unique_host_from(steps, found, i) {
            Ok(None) => forall|j: int| !#[trigger] has_host(steps, j),
            Ok(Some(x)) => has_host(steps, x.0 as int) && held_host(steps[x.0 as int].kind) == Some(
                x.1,
            ) && forall|j: int| #[trigger] has_host(steps, j) ==> j == x.0,
            Err(e) => e == invalid("not unique host node") && exists|j: int, k: int|
                j != k && #[trigger] has_host(steps, j) && #[trigger] has_host(steps, k),
        },
    decreases steps.len() - i,
{
    if i < steps.len() {
        assert(has_host(steps, i) == (!steps[i].destroyed && steps[i].kind is HostFunc));
        if has_host(steps, i) {
            if found is None {
                lemma_unique_host(
                    s,
                    steps,
                    Some((i as usize, held_host(steps[i].kind)->0)),
                    i + 1,
                );
            }
        } else {
            lemma_unique_host(s, steps, found, i + 1);
        }
    }
}

/// A graph has a unique host function node exactly where one node alone is one that is not destroyed; that
/// node and what it holds are given. Where there is none, or more than one, the call says so.
pub proof fn unique_host_is_alone(s: SimState, graph: GraphId)
    requires
        s.resolved_graph(graph) is Ok,
        s.graphs.contains_key(s.resolved_graph(graph)->Ok_0),
        s.graphs[s.resolved_graph(graph)->Ok_0].current().len() <= usize::MAX,
    ensures
        ({
            let steps = s.graphs[s.resolved_graph(graph)->Ok_0].current();
            let r = s.graph_unique_host(graph);
            let found = s.graph_try_unique_host(graph);
            &&& (forall|j: int| !#[trigger] has_host(steps, j)) ==> r == Err::<
                (usize, HostNodeParams),
                SimError,
            >(
                invalid("not a host node"),
            ) && found == Ok::<Option<(usize, HostNodeParams)>, SimError>(None)
            &&& forall|j: int, k: int| #[trigger]
                has_host(steps, j) && #[trigger] has_host(steps, k) && j != k ==> r == Err::<
                    (usize, HostNodeParams),
                    SimError,
                >(invalid("not unique host node")) && found is Err
            &&& forall|k: int| #[trigger]
                has_host(steps, k) && (forall|j: int| #[trigger] has_host(steps, j) ==> j == k)
                    ==> r == Ok::<(usize, HostNodeParams), SimError>(
                    (k as usize, held_host(steps[k].kind)->0),
                ) && found == Ok::<Option<(usize, HostNodeParams)>, SimError>(Some(r->Ok_0))
        }),
{
    let id = s.resolved_graph(graph)->Ok_0;
    lemma_unique_host(s, s.graphs[id].current(), None, 0);
}

/// Whether the node at an index is a child graph that is not destroyed.
pub open spec fn has_child(steps: Seq<StepView>, i: int) -> bool {
    0 <= i < steps.len() && !steps[i].destroyed && steps[i].kind is ChildGraph
}

/// What a child graph node holds.
pub open spec fn held_child(k: GpuOpView) -> Option<GraphId> {
    match k {
        GpuOpView::ChildGraph { graph } => Some(graph),
        _ => None,
    }
}

proof fn lemma_unique_child(
    s: SimState,
    steps: Seq<StepView>,
    found: Option<(usize, GraphId)>,
    i: int,
)
    requires
        0 <= i <= steps.len() <= usize::MAX,
        found matches Some(x) ==> x.0 < i && has_child(steps, x.0 as int) && held_child(
            steps[x.0 as int].kind,
        ) == Some(x.1),
        forall|j: int| 0 <= j < i && #[trigger] has_child(steps, j) ==> (found matches Some(
            x,
        ) && x.0 == j),
    ensures
        match s.graph_try_unique_child_from(steps, found, i) {
            Ok(None) => forall|j: int| !#[trigger] has_child(steps, j),
            Ok(Some(x)) => has_child(steps, x.0 as int) && held_child(
                steps[x.0 as int].kind,
            ) == Some(
                x.1,
            ) && forall|j: int| #[trigger] has_child(steps, j) ==> j == x.0,
            Err(e) => e == invalid("not unique child graph node") && exists|j: int, k: int|
                j != k && #[trigger] has_child(steps, j) && #[trigger] has_child(steps, k),
        },
    decreases steps.len() - i,
{
    if i < steps.len() {
        assert(has_child(steps, i) == (!steps[i].destroyed && steps[i].kind is ChildGraph));
        if has_child(steps, i) {
            if found is None {
                lemma_unique_child(
                    s,
                    steps,
                    Some((i as usize, held_child(steps[i].kind)->0)),
                    i + 1,
                );
            }
        } else {
            lemma_unique_child(s, steps, found, i + 1);
        }
    }
}

/// A graph has a unique child graph node exactly where one node alone is one that is not destroyed; that
/// node and what it holds are given. Where there is none, or more than one, the call says so.
pub proof fn unique_child_is_alone(s: SimState, graph: GraphId)
    requires
        s.resolved_graph(graph) is Ok,
        s.graphs.contains_key(s.resolved_graph(graph)->Ok_0),
        s.graphs[s.resolved_graph(graph)->Ok_0].current().len() <= usize::MAX,
    ensures
        ({
            let steps = s.graphs[s.resolved_graph(graph)->Ok_0].current();
            let r = s.graph_unique_child(graph);
            let found = s.graph_try_unique_child(graph);
            &&& (forall|j: int| !#[trigger] has_child(steps, j)) ==> r == Err::<
                (usize, GraphId),
                SimError,
            >(
                invalid("not a child graph node"),
            ) && found == Ok::<Option<(usize, GraphId)>, SimError>(None)
            &&& forall|j: int, k: int| #[trigger]
                has_child(steps, j) && #[trigger] has_child(steps, k) && j != k ==> r == Err::<
                    (usize, GraphId),
                    SimError,
                >(invalid("not unique child graph node")) && found is Err
            &&& forall|k: int| #[trigger]
                has_child(steps, k) && (forall|j: int| #[trigger] has_child(steps, j) ==> j == k)
                    ==> r == Ok::<(usize, GraphId), SimError>(
                    (k as usize, held_child(steps[k].kind)->0),
                ) && found == Ok::<Option<(usize, GraphId)>, SimError>(Some(r->Ok_0))
        }),
{
    let id = s.resolved_graph(graph)->Ok_0;
    lemma_unique_child(s, s.graphs[id].current(), None, 0);
}

/// Whether the node at an index is a event record that is not destroyed.
pub open spec fn has_event_record(steps: Seq<StepView>, i: int) -> bool {
    0 <= i < steps.len() && !steps[i].destroyed && steps[i].kind is EventRecord
}

/// What a event record node holds.
pub open spec fn held_event_record(k: GpuOpView) -> Option<EventId> {
    match k {
        GpuOpView::EventRecord { event, .. } => Some(event),
        _ => None,
    }
}

proof fn lemma_unique_event_record(
    s: SimState,
    steps: Seq<StepView>,
    found: Option<(usize, EventId)>,
    i: int,
)
    requires
        0 <= i <= steps.len() <= usize::MAX,
        found matches Some(x) ==> x.0 < i && has_event_record(
            steps,
            x.0 as int,
        ) && held_event_record(
            steps[x.0 as int].kind,
        ) == Some(x.1),
        forall|j: int| 0 <= j < i && #[trigger] has_event_record(steps, j) ==> (found matches Some(
            x,
        ) && x.0 == j),
    ensures
        match s.graph_try_unique_event_record_from(steps, found, i) {
            Ok(None) => forall|j: int| !#[trigger] has_event_record(steps, j),
            Ok(Some(x)) => has_event_record(steps, x.0 as int) && held_event_record(
                steps[x.0 as int].kind,
            ) == Some(
                x.1,
            ) && forall|j: int| #[trigger] has_event_record(steps, j) ==> j == x.0,
            Err(e) => e == invalid("not unique event record node") && exists|j: int, k: int|
                j != k && #[trigger] has_event_record(steps, j) && #[trigger] has_event_record(steps, k),
        },
    decreases steps.len() - i,
{
    if i < steps.len() {
        assert(has_event_record(steps, i) == (!steps[i].destroyed && steps[i].kind is EventRecord));
        if has_event_record(steps, i) {
            if found is None {
                lemma_unique_event_record(
                    s,
                    steps,
                    Some((i as usize, held_event_record(steps[i].kind)->0)),
                    i + 1,
                );
            }
        } else {
            lemma_unique_event_record(s, steps, found, i + 1);
        }
    }
}

/// A graph has a unique event record node exactly where one node alone is one that is not destroyed; that
/// node and what it holds are given. Where there is none, or more than one, the call says so.
pub proof fn unique_event_record_is_alone(s: SimState, graph: GraphId)
    requires
        s.resolved_graph(graph) is Ok,
        s.graphs.contains_key(s.resolved_graph(graph)->Ok_0),
        s.graphs[s.resolved_graph(graph)->Ok_0].current().len() <= usize::MAX,
    ensures
        ({
            let steps = s.graphs[s.resolved_graph(graph)->Ok_0].current();
            let r = s.graph_unique_event_record(graph);
            let found = s.graph_try_unique_event_record(graph);
            &&& (forall|j: int| !#[trigger] has_event_record(steps, j)) ==> r == Err::<
                (usize, EventId),
                SimError,
            >(
                invalid("not an event record node"),
            ) && found == Ok::<Option<(usize, EventId)>, SimError>(None)
            &&& forall|j: int, k: int| #[trigger]
                has_event_record(steps, j) && #[trigger] has_event_record(steps, k) && j != k ==> r == Err::<
                    (usize, EventId),
                    SimError,
                >(invalid("not unique event record node")) && found is Err
            &&& forall|k: int| #[trigger]
                has_event_record(steps, k) && (
                    forall|j: int| #[trigger] has_event_record(steps, j) ==> j == k
                )
                    ==> r == Ok::<(usize, EventId), SimError>(
                    (k as usize, held_event_record(steps[k].kind)->0),
                ) && found == Ok::<Option<(usize, EventId)>, SimError>(Some(r->Ok_0))
        }),
{
    let id = s.resolved_graph(graph)->Ok_0;
    lemma_unique_event_record(s, s.graphs[id].current(), None, 0);
}

/// Whether the node at an index is a event wait that is not destroyed.
pub open spec fn has_event_wait(steps: Seq<StepView>, i: int) -> bool {
    0 <= i < steps.len() && !steps[i].destroyed && steps[i].kind is EventWait
}

/// What a event wait node holds.
pub open spec fn held_event_wait(k: GpuOpView) -> Option<EventId> {
    match k {
        GpuOpView::EventWait { event, .. } => Some(event),
        _ => None,
    }
}

proof fn lemma_unique_event_wait(
    s: SimState,
    steps: Seq<StepView>,
    found: Option<(usize, EventId)>,
    i: int,
)
    requires
        0 <= i <= steps.len() <= usize::MAX,
        found matches Some(x) ==> x.0 < i && has_event_wait(steps, x.0 as int) && held_event_wait(
            steps[x.0 as int].kind,
        ) == Some(x.1),
        forall|j: int| 0 <= j < i && #[trigger] has_event_wait(steps, j) ==> (found matches Some(
            x,
        ) && x.0 == j),
    ensures
        match s.graph_try_unique_event_wait_from(steps, found, i) {
            Ok(None) => forall|j: int| !#[trigger] has_event_wait(steps, j),
            Ok(Some(x)) => has_event_wait(steps, x.0 as int) && held_event_wait(
                steps[x.0 as int].kind,
            ) == Some(
                x.1,
            ) && forall|j: int| #[trigger] has_event_wait(steps, j) ==> j == x.0,
            Err(e) => e == invalid("not unique event wait node") && exists|j: int, k: int|
                j != k && #[trigger] has_event_wait(steps, j) && #[trigger] has_event_wait(steps, k),
        },
    decreases steps.len() - i,
{
    if i < steps.len() {
        assert(has_event_wait(steps, i) == (!steps[i].destroyed && steps[i].kind is EventWait));
        if has_event_wait(steps, i) {
            if found is None {
                lemma_unique_event_wait(
                    s,
                    steps,
                    Some((i as usize, held_event_wait(steps[i].kind)->0)),
                    i + 1,
                );
            }
        } else {
            lemma_unique_event_wait(s, steps, found, i + 1);
        }
    }
}

/// A graph has a unique event wait node exactly where one node alone is one that is not destroyed; that
/// node and what it holds are given. Where there is none, or more than one, the call says so.
pub proof fn unique_event_wait_is_alone(s: SimState, graph: GraphId)
    requires
        s.resolved_graph(graph) is Ok,
        s.graphs.contains_key(s.resolved_graph(graph)->Ok_0),
        s.graphs[s.resolved_graph(graph)->Ok_0].current().len() <= usize::MAX,
    ensures
        ({
            let steps = s.graphs[s.resolved_graph(graph)->Ok_0].current();
            let r = s.graph_unique_event_wait(graph);
            let found = s.graph_try_unique_event_wait(graph);
            &&& (forall|j: int| !#[trigger] has_event_wait(steps, j)) ==> r == Err::<
                (usize, EventId),
                SimError,
            >(
                invalid("not an event wait node"),
            ) && found == Ok::<Option<(usize, EventId)>, SimError>(None)
            &&& forall|j: int, k: int| #[trigger]
                has_event_wait(steps, j) && #[trigger] has_event_wait(steps, k) && j != k ==> r == Err::<
                    (usize, EventId),
                    SimError,
                >(invalid("not unique event wait node")) && found is Err
            &&& forall|k: int| #[trigger]
                has_event_wait(steps, k) && (
                    forall|j: int| #[trigger] has_event_wait(steps, j) ==> j == k
                )
                    ==> r == Ok::<(usize, EventId), SimError>(
                    (k as usize, held_event_wait(steps[k].kind)->0),
                ) && found == Ok::<Option<(usize, EventId)>, SimError>(Some(r->Ok_0))
        }),
{
    let id = s.resolved_graph(graph)->Ok_0;
    lemma_unique_event_wait(s, s.graphs[id].current(), None, 0);
}

/// Whether the node at an index is a write that is not destroyed.
pub open spec fn has_write_value(steps: Seq<StepView>, i: int) -> bool {
    0 <= i < steps.len() && !steps[i].destroyed && steps[i].kind is WriteValue
}

/// What a write node holds.
pub open spec fn held_write_value(k: GpuOpView) -> Option<BatchMemOp> {
    match k {
        GpuOpView::WriteValue { id, offset, value, bits32 } => Some(
            BatchMemOp::Write { id, offset, value, bits32 },
        ),
        _ => None,
    }
}

proof fn lemma_unique_write_value(
    s: SimState,
    steps: Seq<StepView>,
    found: Option<(usize, BatchMemOp)>,
    i: int,
)
    requires
        0 <= i <= steps.len() <= usize::MAX,
        found matches Some(x) ==> x.0 < i && has_write_value(steps, x.0 as int) && held_write_value(
            steps[x.0 as int].kind,
        ) == Some(x.1),
        forall|j: int| 0 <= j < i && #[trigger] has_write_value(steps, j) ==> (found matches Some(
            x,
        ) && x.0 == j),
    ensures
        match s.graph_try_unique_write_value_from(steps, found, i) {
            Ok(None) => forall|j: int| !#[trigger] has_write_value(steps, j),
            Ok(Some(x)) => has_write_value(steps, x.0 as int) && held_write_value(
                steps[x.0 as int].kind,
            ) == Some(
                x.1,
            ) && forall|j: int| #[trigger] has_write_value(steps, j) ==> j == x.0,
            Err(e) => e == invalid("not unique write-value node") && exists|j: int, k: int|
                j != k && #[trigger] has_write_value(steps, j) && #[trigger] has_write_value(steps, k),
        },
    decreases steps.len() - i,
{
    if i < steps.len() {
        assert(has_write_value(steps, i) == (!steps[i].destroyed && steps[i].kind is WriteValue));
        if has_write_value(steps, i) {
            if found is None {
                lemma_unique_write_value(
                    s,
                    steps,
                    Some((i as usize, held_write_value(steps[i].kind)->0)),
                    i + 1,
                );
            }
        } else {
            lemma_unique_write_value(s, steps, found, i + 1);
        }
    }
}

/// A graph has a unique write node exactly where one node alone is one that is not destroyed; that
/// node and what it holds are given. Where there is none, or more than one, the call says so.
pub proof fn unique_write_value_is_alone(s: SimState, graph: GraphId)
    requires
        s.resolved_graph(graph) is Ok,
        s.graphs.contains_key(s.resolved_graph(graph)->Ok_0),
        s.graphs[s.resolved_graph(graph)->Ok_0].current().len() <= usize::MAX,
    ensures
        ({
            let steps = s.graphs[s.resolved_graph(graph)->Ok_0].current();
            let r = s.graph_unique_write_value(graph);
            let found = s.graph_try_unique_write_value(graph);
            &&& (forall|j: int| !#[trigger] has_write_value(steps, j)) ==> r == Err::<
                (usize, BatchMemOp),
                SimError,
            >(
                invalid("not a write-value node"),
            ) && found == Ok::<Option<(usize, BatchMemOp)>, SimError>(None)
            &&& forall|j: int, k: int| #[trigger]
                has_write_value(steps, j) && #[trigger] has_write_value(steps, k) && j != k ==> r == Err::<
                    (usize, BatchMemOp),
                    SimError,
                >(invalid("not unique write-value node")) && found is Err
            &&& forall|k: int| #[trigger]
                has_write_value(steps, k) && (
                    forall|j: int| #[trigger] has_write_value(steps, j) ==> j == k
                )
                    ==> r == Ok::<(usize, BatchMemOp), SimError>(
                    (k as usize, held_write_value(steps[k].kind)->0),
                ) && found == Ok::<Option<(usize, BatchMemOp)>, SimError>(Some(r->Ok_0))
        }),
{
    let id = s.resolved_graph(graph)->Ok_0;
    lemma_unique_write_value(s, s.graphs[id].current(), None, 0);
}

/// Whether the node at an index is a wait that is not destroyed.
pub open spec fn has_wait_value(steps: Seq<StepView>, i: int) -> bool {
    0 <= i < steps.len() && !steps[i].destroyed && steps[i].kind is WaitValue
}

/// What a wait node holds.
pub open spec fn held_wait_value(k: GpuOpView) -> Option<BatchMemOp> {
    match k {
        GpuOpView::WaitValue { id, offset, value, bits32, cmp } => Some(
            BatchMemOp::Wait { id, offset, value, bits32, cmp },
        ),
        _ => None,
    }
}

proof fn lemma_unique_wait_value(
    s: SimState,
    steps: Seq<StepView>,
    found: Option<(usize, BatchMemOp)>,
    i: int,
)
    requires
        0 <= i <= steps.len() <= usize::MAX,
        found matches Some(x) ==> x.0 < i && has_wait_value(steps, x.0 as int) && held_wait_value(
            steps[x.0 as int].kind,
        ) == Some(x.1),
        forall|j: int| 0 <= j < i && #[trigger] has_wait_value(steps, j) ==> (found matches Some(
            x,
        ) && x.0 == j),
    ensures
        match s.graph_try_unique_wait_value_from(steps, found, i) {
            Ok(None) => forall|j: int| !#[trigger] has_wait_value(steps, j),
            Ok(Some(x)) => has_wait_value(steps, x.0 as int) && held_wait_value(
                steps[x.0 as int].kind,
            ) == Some(
                x.1,
            ) && forall|j: int| #[trigger] has_wait_value(steps, j) ==> j == x.0,
            Err(e) => e == invalid("not unique wait-value node") && exists|j: int, k: int|
                j != k && #[trigger] has_wait_value(steps, j) && #[trigger] has_wait_value(steps, k),
        },
    decreases steps.len() - i,
{
    if i < steps.len() {
        assert(has_wait_value(steps, i) == (!steps[i].destroyed && steps[i].kind is WaitValue));
        if has_wait_value(steps, i) {
            if found is None {
                lemma_unique_wait_value(
                    s,
                    steps,
                    Some((i as usize, held_wait_value(steps[i].kind)->0)),
                    i + 1,
                );
            }
        } else {
            lemma_unique_wait_value(s, steps, found, i + 1);
        }
    }
}

/// A graph has a unique wait node exactly where one node alone is one that is not destroyed; that
/// node and what it holds are given. Where there is none, or more than one, the call says so.
pub proof fn unique_wait_value_is_alone(s: SimState, graph: GraphId)
    requires
        s.resolved_graph(graph) is Ok,
        s.graphs.contains_key(s.resolved_graph(graph)->Ok_0),
        s.graphs[s.resolved_graph(graph)->Ok_0].current().len() <= usize::MAX,
    ensures
        ({
            let steps = s.graphs[s.resolved_graph(graph)->Ok_0].current();
            let r = s.graph_unique_wait_value(graph);
            let found = s.graph_try_unique_wait_value(graph);
            &&& (forall|j: int| !#[trigger] has_wait_value(steps, j)) ==> r == Err::<
                (usize, BatchMemOp),
                SimError,
            >(
                invalid("not a wait-value node"),
            ) && found == Ok::<Option<(usize, BatchMemOp)>, SimError>(None)
            &&& forall|j: int, k: int| #[trigger]
                has_wait_value(steps, j) && #[trigger] has_wait_value(steps, k) && j != k ==> r == Err::<
                    (usize, BatchMemOp),
                    SimError,
                >(invalid("not unique wait-value node")) && found is Err
            &&& forall|k: int| #[trigger]
                has_wait_value(steps, k) && (
                    forall|j: int| #[trigger] has_wait_value(steps, j) ==> j == k
                )
                    ==> r == Ok::<(usize, BatchMemOp), SimError>(
                    (k as usize, held_wait_value(steps[k].kind)->0),
                ) && found == Ok::<Option<(usize, BatchMemOp)>, SimError>(Some(r->Ok_0))
        }),
{
    let id = s.resolved_graph(graph)->Ok_0;
    lemma_unique_wait_value(s, s.graphs[id].current(), None, 0);
}

} // verus!
