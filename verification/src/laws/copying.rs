//! What clones of graphs hold.
use vstd::prelude::*;
use crate::error::SimError;
use crate::ids::{AllocId, CondId, DeviceId, GraphId, Lane};
use crate::kinds::nested_of;
use crate::laws::cloning::copies_from;
use crate::laws::costs::{held, no_less};
use crate::laws::frames::{
    build_clones_keeps_graphs, clone_mem_alloc_nodes_keeps_graphs, note_clones_keeps_graphs,
    number_conds_keeps_graphs,
};
use crate::laws::launching::is_plain;
use crate::list::{lemma_all_ok, lemma_ok_each, lemma_picked_holds, picked};
use crate::num::max_u64;
use crate::ops::{GpuOpView, KernelBuf, MemcpyOp, MemsetOp};
use crate::profile::GpuProfile;
use crate::sim::SimState;
use crate::state::{Alloc, Attach, Cond, GraphView, NextIds, StepView};
use crate::table::{lemma_order_exists, order_of};

verus! {

/// Whether two lists of buffers cover the same spans, whatever they are spans of.
pub open spec fn same_spans(a: Seq<KernelBuf>, b: Seq<KernelBuf>) -> bool {
    &&& a.len() == b.len()
    &&& forall|i: int|
        0 <= i < a.len() ==> (#[trigger] a[i]).offset == b[i].offset && a[i].bytes == b[i].bytes
}

/// Whether two lists have their parts on the same GPUs.
pub open spec fn same_gpus(a: Seq<(DeviceId, AllocId)>, b: Seq<(DeviceId, AllocId)>) -> bool {
    &&& a.len() == b.len()
    &&& forall|i: int| 0 <= i < a.len() ==> (#[trigger] a[i]).0 == b[i].0
}

/// Whether two nodes do the same work, on memory, graphs and handles that may have other numbers.
pub open spec fn copied(a: GpuOpView, b: GpuOpView) -> bool {
    match a {
        GpuOpView::Alloc { bytes, .. } => b is Alloc && b->Alloc_bytes == bytes,
        GpuOpView::Free { .. } => b is Free,
        GpuOpView::Memcpy(m) => b matches GpuOpView::Memcpy(n) && n == (MemcpyOp {
            alloc: n.alloc,
            ..m
        }),
        GpuOpView::Kernel { kind, reads, writes, cooperative } => {
            &&& b is Kernel
            &&& b->Kernel_kind == kind
            &&& b->cooperative == cooperative
            &&& same_spans(reads, b->reads)
            &&& same_spans(writes, b->writes)
        },
        GpuOpView::Memset(m) => b matches GpuOpView::Memset(n) && n == (MemsetOp { id: n.id, ..m }),
        GpuOpView::AllReduce { parts, bytes } => {
            &&& b is AllReduce
            &&& b->AllReduce_bytes == bytes
            &&& same_gpus(parts, b->parts)
        },
        GpuOpView::ChildGraph { .. } => b is ChildGraph,
        GpuOpView::Attach { flags, .. } => b is Attach && b->flags == flags,
        GpuOpView::If { .. } => b is If,
        GpuOpView::While { .. } => b is While,
        GpuOpView::Switch { bodies, .. } => b is Switch && b->bodies.len() == bodies.len(),
        GpuOpView::WhileTick { iter, .. } => b is WhileTick && b->iter == iter,
        GpuOpView::SetConditional { value, .. } => b is SetConditional
            && b->SetConditional_value == value,
        GpuOpView::WriteValue { offset, value, bits32, .. } => {
            &&& b is WriteValue
            &&& b->WriteValue_offset == offset
            &&& b->WriteValue_value == value
            &&& b->WriteValue_bits32 == bits32
        },
        GpuOpView::WaitValue { .. } => {
            &&& b is WaitValue
            &&& b->WaitValue_offset == a->WaitValue_offset
            &&& b->WaitValue_value == a->WaitValue_value
            &&& b->WaitValue_bits32 == a->WaitValue_bits32
            &&& b->cmp == a->cmp
        },
        GpuOpView::BatchMem { ops } => b is BatchMem && b->ops.len() == ops.len(),
        _ => a == b,
    }
}

/// Whether a node names no graph and no handle.
pub open spec fn names_no_graph(k: GpuOpView) -> bool {
    is_plain(k) && !(k is WhileTick) && !(k is SetConditional)
}

/// Whether two nodes stand at one place with the same settings, and do the same work.
pub open spec fn node_copied(x: StepView, y: StepView) -> bool {
    &&& y == (StepView { kind: y.kind, ..x })
    &&& copied(x.kind, y.kind)
}

/// Whether two lists of nodes do the same work, one by one.
pub open spec fn nodes_copied(a: Seq<StepView>, b: Seq<StepView>) -> bool {
    &&& a.len() == b.len()
    &&& forall|i: int| 0 <= i < a.len() ==> node_copied(#[trigger] a[i], b[i])
}

/// Whether the nodes that name no graph and no handle are the same.
pub open spec fn nodes_equal(a: Seq<StepView>, b: Seq<StepView>) -> bool {
    &&& a.len() == b.len()
    &&& forall|i: int| 0 <= i < a.len() && names_no_graph((#[trigger] a[i]).kind) ==> b[i] == a[i]
}

/// Whether the nodes have the same handles.
pub open spec fn handles_kept(a: Seq<StepView>, b: Seq<StepView>) -> bool {
    &&& a.len() == b.len()
    &&& forall|i: int|
        0 <= i < a.len() ==> handle_of((#[trigger] a[i]).kind) == handle_of(b[i].kind)
}

proof fn lemma_nested(
    s: SimState,
    steps: Seq<StepView>,
    remap: Map<GraphId, GraphId>,
)
    requires
        s.remap_nested_graphs(steps, remap) is Ok,
    ensures
        nodes_copied(steps, s.remap_nested_graphs(steps, remap)->Ok_0),
        nodes_equal(steps, s.remap_nested_graphs(steps, remap)->Ok_0),
        handles_kept(steps, s.remap_nested_graphs(steps, remap)->Ok_0),
{
    let f = |k: int| s.remap_nested_graphs_at(steps, remap, k);
    lemma_ok_each(steps.len(), f);
    lemma_all_ok(steps.len(), f, steps.len() as int);
    let raw = s.remap_nested_graphs(steps, remap)->Ok_0;
    assert forall|k: int| 0 <= k < steps.len() implies node_copied(#[trigger] steps[k], raw[k]) && (
    names_no_graph(steps[k].kind) ==> raw[k] == steps[k]) && handle_of(steps[k].kind) == handle_of(
        raw[k].kind,
    ) by {
        assert(f(k) is Ok);
        if steps[k].kind is Switch && !steps[k].destroyed {
            let bodies = steps[k].kind->bodies;
            let g = |j: int| s.clone_ids_at(remap, bodies, j);
            lemma_ok_each(bodies.len(), g);
            lemma_all_ok(bodies.len(), g, bodies.len() as int);
        }
    }
}

proof fn lemma_copied_again(a: GpuOpView, b: GpuOpView, c: GpuOpView)
    requires
        copied(a, b),
        copied(b, c),
    ensures
        copied(a, c),
{
    if a is Kernel {
        assert(same_spans(a->reads, b->reads));
        assert forall|i: int| 0 <= i < a->reads.len() implies (#[trigger] a->reads[i]).offset
            == c->reads[i].offset && a->reads[i].bytes == c->reads[i].bytes by {
            assert(b->reads[i].offset == c->reads[i].offset);
        }
        assert forall|i: int| 0 <= i < a->writes.len() implies (#[trigger] a->writes[i]).offset
            == c->writes[i].offset && a->writes[i].bytes == c->writes[i].bytes by {
            assert(b->writes[i].offset == c->writes[i].offset);
        }
    }
    if a is AllReduce {
        assert forall|i: int| 0 <= i < a->parts.len() implies (#[trigger] a->parts[i]).0
            == c->parts[i].0 by {
            assert(b->parts[i].0 == c->parts[i].0);
        }
    }
}

proof fn lemma_all_copied_again(a: Seq<StepView>, b: Seq<StepView>, c: Seq<StepView>)
    requires
        nodes_copied(a, b),
        nodes_copied(b, c),
    ensures
        nodes_copied(a, c),
{
    assert forall|i: int| 0 <= i < a.len() implies node_copied(#[trigger] a[i], c[i]) by {
        assert(node_copied(b[i], c[i]));
        lemma_copied_again(a[i].kind, b[i].kind, c[i].kind);
    }
}

proof fn lemma_memory(s: SimState, src: GraphId, dst: GraphId, steps: Seq<StepView>)
    requires
        s.clone_mem_alloc_nodes(src, dst, steps).1 is Ok,
    ensures
        nodes_copied(steps, s.clone_mem_alloc_nodes(src, dst, steps).1->Ok_0),
        handles_kept(steps, s.clone_mem_alloc_nodes(src, dst, steps).1->Ok_0),
        s.allocs_of(src).len() == 0 ==> s.clone_mem_alloc_nodes(src, dst, steps).1->Ok_0 == steps,
{
    let before = s.allocs_of(src);
    if before.len() == 0 {
        assert forall|i: int| 0 <= i < steps.len() implies node_copied(
            #[trigger] steps[i],
            steps[i],
        ) by {}
    } else {
        let after = s.fork_allocs(before).1->Ok_0;
        let t = s.clone_mem_alloc_nodes(src, dst, steps).0;
        let out = t.remap_alloc_steps(steps, before, after);
        assert forall|i: int| 0 <= i < steps.len() implies node_copied(
            #[trigger] steps[i],
            out[i],
        ) && handle_of(steps[i].kind) == handle_of(out[i].kind) by {
            assert(out[i].kind == t.remap_alloc_kind(steps[i].kind, before, after));
        }
    }
}

proof fn lemma_owned(
    s: SimState,
    src: GraphId,
    dst: GraphId,
    steps: Seq<StepView>,
    graph: GraphId,
)
    requires
        s.clone_mem_alloc_nodes(src, dst, steps).1 is Ok,
        dst != graph,
    ensures
        s.clone_mem_alloc_nodes(src, dst, steps).0.allocs_of(graph) == s.allocs_of(graph),
{
    if s.allocs_of(src).len() != 0 {
        lemma_forks(s, s.allocs_of(src), Seq::empty(), 0);
    }
}

proof fn lemma_forks(s: SimState, ids: Seq<AllocId>, out: Seq<AllocId>, i: int)
    ensures
        s.fork_allocs_from(ids, out, i).0.graph_allocs == s.graph_allocs,
    decreases ids.len() - i,
{
    if 0 <= i < ids.len() {
        match s.fork_alloc(ids[i]) {
            (_t, Err(_e)) => {},
            (t, Ok(id)) => {
                lemma_forks(t, ids, out.push(id), i + 1);
            },
        }
    }
}

proof fn lemma_built(
    s: SimState,
    order: Seq<GraphId>,
    remap: Map<GraphId, GraphId>,
    built: Seq<Seq<StepView>>,
    i: int,
    first: u32,
)
    requires
        0 <= i < order.len(),
        built.len() == i,
        copies_from(remap, first),
        order.last().0 < first,
        s.build_clones_from(order, remap, built, i).1 is Ok,
    ensures
        ({
            let out = s.build_clones_from(order, remap, built, i).1->Ok_0;
            let steps = s.graphs[order.last()].steps;
            &&& out.len() == order.len()
            &&& s.graphs.contains_key(order.last())
            &&& nodes_copied(steps, out.last())
            &&& handles_kept(steps, out.last())
            &&& s.allocs_of(order.last()).len() == 0 ==> nodes_equal(steps, out.last())
        }),
    decreases order.len() - i,
{
    let steps = s.graphs[order[i]].steps;
    let raw = s.remap_nested_graphs(steps, remap)->Ok_0;
    lemma_nested(s, steps, remap);
    let id = s.clone_id(remap, order[i])->Ok_0;
    let (t, r) = s.clone_mem_alloc_nodes(order[i], id, raw);
    let done = r->Ok_0;
    lemma_memory(s, order[i], id, raw);
    lemma_owned(s, order[i], id, raw, order.last());
    clone_mem_alloc_nodes_keeps_graphs(s, order[i], id, raw);
    let more = built.push(done);
    if i + 1 < order.len() {
        lemma_built(t, order, remap, more, i + 1, first);
    } else {
        assert(t.build_clones_from(order, remap, more, i + 1).1 == Ok::<
            Seq<Seq<StepView>>,
            SimError,
        >(more));
        lemma_all_copied_again(steps, raw, done);
        assert forall|k: int| 0 <= k < steps.len() implies handle_of((#[trigger] steps[k]).kind)
            == handle_of(done[k].kind) by {
            assert(handle_of(raw[k].kind) == handle_of(done[k].kind));
        }
        assert(more.last() == done);
    }
}

proof fn lemma_inserted(
    s: SimState,
    order: Seq<GraphId>,
    remap: Map<GraphId, GraphId>,
    origins: Seq<Lane>,
    built: Seq<Seq<StepView>>,
    i: int,
)
    requires
        0 <= i < order.len(),
        order.len() <= usize::MAX,
        built.len() == order.len(),
        origins.len() == order.len(),
        s.insert_clones_from(order, remap, origins, built, i).1 is Ok,
    ensures
        ({
            let t = s.insert_clones_from(order, remap, origins, built, i).0;
            let id = remap[order.last()];
            &&& remap.contains_key(order.last())
            &&& t.graphs.contains_key(id)
            &&& t.graphs[id].steps == built.last()
            &&& t.graphs[id].origin == origins.last()
            &&& t.graphs[id].snapshot is None
            &&& !t.graphs[id].instantiated
            &&& t.graphs[id].src is None
            &&& i + 1 == order.len() ==> t.clock == held(
                s.clock + no_less(
                    s.profile.gpu(origins.last().0)->Ok_0.graph_clone_ns as int,
                    1,
                ),
            )
        }),
    decreases order.len() - i,
{
    let gpu = s.profile.gpu(origins[i].0)->Ok_0;
    let ns = max_u64(gpu.graph_clone_ns, 1);
    let id = s.clone_id(remap, order[i])->Ok_0;
    let t = s.tick(ns);
    let g = GraphView {
        steps: built[i],
        snapshot: None,
        origin: origins[i],
        instantiated: false,
        uploaded: false,
        auto_free_on_launch: false,
        instantiate_flags: 0,
        device_launch_tail: None,
        primary_exec: None,
        src: None,
    };
    let t = SimState { graphs: t.graphs.insert(id, g), ..t };
    if i + 1 < order.len() {
        lemma_inserted(t, order, remap, origins, built, i + 1);
    } else {
        assert(t.insert_clones_from(order, remap, origins, built, i + 1).0 == t);
    }
}

/// Whether two lists of nodes differ in handles at most.
pub open spec fn nodes_renamed(a: Seq<StepView>, b: Seq<StepView>) -> bool {
    nodes_copied(a, b) && nodes_equal(a, b)
}

proof fn lemma_renamed_again(a: Seq<StepView>, b: Seq<StepView>, c: Seq<StepView>)
    requires
        nodes_renamed(a, b),
        nodes_renamed(b, c),
    ensures
        nodes_renamed(a, c),
{
    lemma_all_copied_again(a, b, c);
    assert forall|i: int| 0 <= i < a.len() && names_no_graph((#[trigger] a[i]).kind) implies c[i]
        == a[i] by {
        assert(b[i] == a[i]);
    }
}

proof fn lemma_handles(
    s: SimState,
    remap: Map<GraphId, GraphId>,
    renamed: Map<CondId, CondId>,
    i: int,
    x: GraphId,
)
    requires
        s.graphs.contains_key(x),
    ensures
        ({
            let t = s.clone_conditionals_from(remap, renamed, i).0;
            &&& t.graphs.contains_key(x)
            &&& t.graphs[x] == (GraphView { steps: t.graphs[x].steps, ..s.graphs[x] })
            &&& nodes_renamed(s.graphs[x].steps, t.graphs[x].steps)
            &&& t.clock == s.clock
        }),
    decreases order_of(remap.dom()).len() - i,
{
    let q = order_of(remap.dom());
    lemma_renamed_itself(s.graphs[x].steps);
    if 0 <= i < q.len() {
        let id = remap[q[i]];
        match s.graph_ref(id) {
            Err(_e) => {},
            Ok(g) => {
                let h = GraphView { steps: s.rename_step_conds(g.steps, renamed), ..g };
                let t = SimState { graphs: s.graphs.insert(id, h), ..s };
                assert forall|k: int| 0 <= k < g.steps.len() implies node_copied(
                    #[trigger] g.steps[k],
                    h.steps[k],
                ) && (names_no_graph(g.steps[k].kind) ==> h.steps[k] == g.steps[k]) by {
                    assert(h.steps[k].kind == s.rename_conds(g.steps[k].kind, renamed));
                }
                assert(nodes_renamed(s.graphs[x].steps, t.graphs[x].steps));
                lemma_handles(t, remap, renamed, i + 1, x);
                let u = t.clone_conditionals_from(remap, renamed, i + 1).0;
                lemma_renamed_again(s.graphs[x].steps, t.graphs[x].steps, u.graphs[x].steps);
            },
        }
    }
}

proof fn lemma_renamed_itself(a: Seq<StepView>)
    ensures
        nodes_renamed(a, a),
{
    assert forall|i: int| 0 <= i < a.len() implies node_copied(#[trigger] a[i], a[i]) by {}
}

proof fn lemma_conds_numbered(
    s: SimState,
    conds: Seq<(CondId, Cond)>,
    remap: Map<GraphId, GraphId>,
    renamed: Map<CondId, CondId>,
    i: int,
)
    ensures
        s.number_conds_from(conds, remap, renamed, i).0.clock == s.clock,
    decreases conds.len() - i,
{
    if 0 <= i < conds.len() {
        let c = conds[i].1;
        match s.clone_id(remap, c.graph) {
            Err(_e) => {},
            Ok(graph) => {
                let id = CondId(s.next.cond);
                let t = SimState {
                    next: NextIds { cond: s.next.cond.saturating_add(1), ..s.next },
                    ..s
                };
                let t = SimState {
                    conds: t.conds.insert(id, Cond { graph, default: c.default, value: c.value }),
                    ..t
                };
                lemma_conds_numbered(t, conds, remap, renamed.insert(conds[i].0, id), i + 1);
            },
        }
    }
}

/// A clone is a definition on the same stream with as many nodes. Each stands at its place behind the
/// same nodes with the same settings, and does the same work. Where the graph owns no memory, each
/// node that names no graph and no handle is the same.
pub proof fn clone_has_nodes_of_graph(s: SimState, graph: GraphId)
    requires
        s.clone_graph(graph).1 is Ok,
        graph.0 < s.next.graph,
        s.collect_clone_tree(graph, Seq::empty(), Seq::empty(), s.tree_fuel())->Ok_0.len()
            <= usize::MAX,
    ensures
        ({
            let (t, r) = s.clone_graph(graph);
            let copy = t.graphs[r->Ok_0];
            &&& s.graphs.contains_key(graph)
            &&& t.graphs.contains_key(r->Ok_0)
            &&& r->Ok_0.0 >= s.next.graph
            &&& !copy.instantiated
            &&& copy.src is None
            &&& copy.snapshot is None
            &&& copy.origin == s.graphs[graph].origin
            &&& nodes_copied(s.graphs[graph].steps, copy.steps)
            &&& s.allocs_of(graph).len() == 0 ==> nodes_equal(s.graphs[graph].steps, copy.steps)
        }),
{
    let none = Seq::<GraphId>::empty();
    let order = s.collect_clone_tree(graph, none, none, s.tree_fuel())->Ok_0;
    assert(order.last() == graph);
    lemma_fresh_numbers(s, order, Map::empty(), 0, s.next.graph);
    let (s1, remap) = s.number_clones(order);
    let origins = s1.origins_of(order);
    assert(s1.allocs_of(graph) == s.allocs_of(graph));
    let (s2, r2) = s1.build_clones(order, remap);
    let built = r2->Ok_0;
    lemma_built(s1, order, remap, Seq::empty(), 0, s.next.graph);
    build_clones_keeps_graphs(s1, order, remap);
    let s3 = s2.insert_clones(order, remap, origins, built).0;
    lemma_inserted(s2, order, remap, origins, built, 0);
    let id = remap[graph];
    note_clones_keeps_graphs(s3, remap);
    let s4 = s3.note_clones(remap);
    let conds = s4.conds_to_clone(remap);
    number_conds_keeps_graphs(s4, conds, remap);
    let (s5, r5) = s4.number_conds(conds, remap);
    lemma_handles(s5, remap, r5->Ok_0, 0, id);
    lemma_renamed_itself(s5.graphs[id].steps);
    let t = s4.clone_conditionals(remap).0;
    assert(nodes_renamed(built.last(), t.graphs[id].steps));
    lemma_all_copied_again(s.graphs[graph].steps, built.last(), t.graphs[id].steps);
    if s.allocs_of(graph).len() == 0 {
        let a = s.graphs[graph].steps;
        let c = t.graphs[id].steps;
        assert forall|i: int| 0 <= i < a.len() && names_no_graph(
            (#[trigger] a[i]).kind,
        ) implies c[i]
            == a[i] by {
            assert(built.last()[i] == a[i]);
        }
    }
}

/// The handle that a node has.
pub open spec fn handle_of(k: GpuOpView) -> Option<CondId> {
    match k {
        GpuOpView::If { handle, .. } => Some(handle),
        GpuOpView::While { handle, .. } => Some(handle),
        GpuOpView::Switch { handle, .. } => Some(handle),
        GpuOpView::SetConditional { handle, .. } => Some(handle),
        _ => None,
    }
}

/// Each renamed handle stands for a new one that belongs to the copy of its graph and has the same
/// default, which is its value.
pub open spec fn handles_renamed(
    z: SimState,
    s: SimState,
    remap: Map<GraphId, GraphId>,
    renamed: Map<CondId, CondId>,
) -> bool {
    &&& z.next.cond <= s.next.cond
    &&& forall|h: CondId| #[trigger]
        renamed.contains_key(h) ==> {
            let c = z.conds[h];
            &&& z.conds.contains_key(h)
            &&& z.next.cond <= renamed[h].0 < s.next.cond
            &&& remap.contains_key(c.graph)
            &&& s.conds.contains_key(renamed[h])
            &&& s.conds[renamed[h]] == (Cond {
                graph: remap[c.graph],
                default: c.default,
                value: c.default,
            })
        }
}

/// What is listed of a handle is what it is.
pub open spec fn listed_as_is(z: SimState, x: (CondId, Cond)) -> bool {
    let c = z.conds[x.0];
    z.conds.contains_key(x.0) && x.1 == (Cond {
        graph: c.graph,
        default: c.default,
        value: c.default,
    })
}

proof fn lemma_handles_numbered(
    z: SimState,
    s: SimState,
    conds: Seq<(CondId, Cond)>,
    remap: Map<GraphId, GraphId>,
    renamed: Map<CondId, CondId>,
    i: int,
)
    requires
        0 <= i <= conds.len(),
        s.next.cond + (conds.len() - i) < u32::MAX,
        handles_renamed(z, s, remap, renamed),
        forall|j: int| 0 <= j < conds.len() ==> listed_as_is(z, #[trigger] conds[j]),
        forall|j: int| 0 <= j < i ==> renamed.contains_key((#[trigger] conds[j]).0),
        s.number_conds_from(conds, remap, renamed, i).1 is Ok,
    ensures
        ({
            let (t, r) = s.number_conds_from(conds, remap, renamed, i);
            &&& handles_renamed(z, t, remap, r->Ok_0)
            &&& forall|j: int| 0 <= j < conds.len() ==> r->Ok_0.contains_key(
                (#[trigger] conds[j]).0,
            )
        }),
    decreases conds.len() - i,
{
    if i < conds.len() {
        let c = conds[i].1;
        let graph = s.clone_id(remap, c.graph)->Ok_0;
        let id = CondId(s.next.cond);
        let t = SimState {
            next: NextIds { cond: s.next.cond.saturating_add(1), ..s.next },
            ..s
        };
        let t = SimState {
            conds: t.conds.insert(id, Cond { graph, default: c.default, value: c.value }),
            ..t
        };
        let more = renamed.insert(conds[i].0, id);
        assert(listed_as_is(z, conds[i]));
        assert(handles_renamed(z, t, remap, more));
        lemma_handles_numbered(z, t, conds, remap, more, i + 1);
    }
}

proof fn lemma_handle_renamed(
    s: SimState,
    remap: Map<GraphId, GraphId>,
    renamed: Map<CondId, CondId>,
    i: int,
    x: GraphId,
    n: int,
    h: CondId,
)
    requires
        0 <= i,
        s.graphs.contains_key(x),
        0 <= n < s.graphs[x].steps.len(),
        renamed.contains_key(h),
        !renamed.contains_key(renamed[h]),
        handle_of(s.graphs[x].steps[n].kind) == Some(renamed[h]) || (handle_of(
            s.graphs[x].steps[n].kind,
        ) == Some(h) && exists|j: int|
            i <= j < order_of(remap.dom()).len() && remap[#[trigger] order_of(remap.dom())[j]]
                == x),
        s.clone_conditionals_from(remap, renamed, i).1 is Ok,
    ensures
        ({
            let t = s.clone_conditionals_from(remap, renamed, i).0;
            &&& handle_of(t.graphs[x].steps[n].kind) == Some(renamed[h])
            &&& t.conds == s.conds
        }),
    decreases order_of(remap.dom()).len() - i,
{
    let q = order_of(remap.dom());
    if i < q.len() {
        let id = remap[q[i]];
        let g = s.graph_ref(id)->Ok_0;
        let k = GraphView { steps: s.rename_step_conds(g.steps, renamed), ..g };
        let t = SimState { graphs: s.graphs.insert(id, k), ..s };
        if id == x {
            assert(k.steps[n].kind == s.rename_conds(g.steps[n].kind, renamed));
        }
        lemma_handle_renamed(t, remap, renamed, i + 1, x, n, h);
    }
}

proof fn lemma_built_keeps_handles(
    s: SimState,
    order: Seq<GraphId>,
    remap: Map<GraphId, GraphId>,
    built: Seq<Seq<StepView>>,
    i: int,
)
    ensures
        s.build_clones_from(order, remap, built, i).0.conds == s.conds,
        s.build_clones_from(order, remap, built, i).0.next.cond == s.next.cond,
    decreases order.len() - i,
{
    if 0 <= i < order.len() {
        match s.graph_ref(order[i]) {
            Err(_e) => {},
            Ok(g) => match s.remap_nested_graphs(g.steps, remap) {
                Err(_e) => {},
                Ok(raw) => match s.clone_id(remap, order[i]) {
                    Err(_e) => {},
                    Ok(id) => {
                        lemma_memory_keeps_handles(s, order[i], id, raw);
                        match s.clone_mem_alloc_nodes(order[i], id, raw) {
                            (_t, Err(_e)) => {},
                            (t, Ok(steps)) => {
                                let more = built.push(steps);
                                lemma_built_keeps_handles(t, order, remap, more, i + 1);
                            },
                        }
                    },
                },
            },
        }
    }
}

proof fn lemma_memory_keeps_handles(s: SimState, src: GraphId, dst: GraphId, steps: Seq<StepView>)
    ensures
        s.clone_mem_alloc_nodes(src, dst, steps).0.conds == s.conds,
        s.clone_mem_alloc_nodes(src, dst, steps).0.next.cond == s.next.cond,
{
    let before = s.allocs_of(src);
    if before.len() != 0 {
        lemma_forks_keep_handles(s, before, Seq::empty(), 0);
    }
}

proof fn lemma_forks_keep_handles(s: SimState, ids: Seq<AllocId>, out: Seq<AllocId>, i: int)
    ensures
        s.fork_allocs_from(ids, out, i).0.conds == s.conds,
        s.fork_allocs_from(ids, out, i).0.next.cond == s.next.cond,
    decreases ids.len() - i,
{
    if 0 <= i < ids.len() {
        match s.fork_alloc(ids[i]) {
            (_t, Err(_e)) => {},
            (t, Ok(id)) => {
                lemma_forks_keep_handles(t, ids, out.push(id), i + 1);
            },
        }
    }
}

proof fn lemma_insertion_keeps_handles(
    s: SimState,
    order: Seq<GraphId>,
    remap: Map<GraphId, GraphId>,
    origins: Seq<Lane>,
    built: Seq<Seq<StepView>>,
    i: int,
)
    ensures
        s.insert_clones_from(order, remap, origins, built, i).0.conds == s.conds,
        s.insert_clones_from(order, remap, origins, built, i).0.next == s.next,
    decreases order.len() - i,
{
    if 0 <= i < order.len() && !((i as usize) >= origins.len() || (i as usize) >= built.len()) {
        if s.profile.gpu(origins[i].0) is Ok && s.clone_id(remap, order[i]) is Ok {
            let ns = max_u64(s.profile.gpu(origins[i].0)->Ok_0.graph_clone_ns, 1);
            let t = s.tick(ns);
            let g = GraphView {
                steps: built[i],
                snapshot: None,
                origin: origins[i],
                instantiated: false,
                uploaded: false,
                auto_free_on_launch: false,
                instantiate_flags: 0,
                device_launch_tail: None,
                primary_exec: None,
                src: None,
            };
            let id = s.clone_id(remap, order[i])->Ok_0;
            let t = SimState { graphs: t.graphs.insert(id, g), ..t };
            lemma_insertion_keeps_handles(t, order, remap, origins, built, i + 1);
        }
    }
}

proof fn lemma_notes_keep_handles(s: SimState, remap: Map<GraphId, GraphId>, i: int)
    ensures
        s.note_clones_from(remap, i).conds == s.conds,
        s.note_clones_from(remap, i).next == s.next,
    decreases order_of(remap.dom()).len() - i,
{
    let q = order_of(remap.dom());
    if 0 <= i < q.len() {
        let t = SimState { clone_of: s.clone_of.insert(remap[q[i]], q[i]), ..s };
        lemma_notes_keep_handles(t, remap, i + 1);
    }
}

proof fn lemma_numbering_is_finite(
    s: SimState,
    order: Seq<GraphId>,
    remap: Map<GraphId, GraphId>,
    i: int,
)
    requires
        remap.dom().finite(),
    ensures
        s.number_clones_from(order, remap, i).1.dom().finite(),
    decreases order.len() - i,
{
    if 0 <= i < order.len() {
        let t = SimState {
            next: NextIds { graph: s.next.graph.saturating_add(1), ..s.next },
            ..s
        };
        lemma_numbering_is_finite(
            t,
            order,
            remap.insert(order[i], GraphId(s.next.graph)),
            i + 1,
        );
    }
}

/// A clone has handles of its own: a node with a handle of the graph has another handle in the copy,
/// one that belongs to the copy, with the same default, and at that default.
pub proof fn clone_has_handles_of_its_own(s: SimState, graph: GraphId, n: int, h: CondId)
    requires
        s.clone_graph(graph).1 is Ok,
        graph.0 < s.next.graph,
        s.collect_clone_tree(graph, Seq::empty(), Seq::empty(), s.tree_fuel())->Ok_0.len()
            <= usize::MAX,
        0 <= n < s.graphs[graph].steps.len(),
        handle_of(s.graphs[graph].steps[n].kind) == Some(h),
        s.conds.contains_key(h),
        s.conds[h].graph == graph,
        s.conds.dom().finite(),
        forall|k: CondId| #[trigger] s.conds.contains_key(k) ==> k.0 < s.next.cond,
        s.next.cond + order_of(s.conds.dom()).len() < u32::MAX,
    ensures
        ({
            let (t, r) = s.clone_graph(graph);
            let other = handle_of(t.graphs[r->Ok_0].steps[n].kind);
            &&& other is Some
            &&& other->0 != h
            &&& t.conds.contains_key(other->0)
            &&& t.conds[other->0] == (Cond {
                graph: r->Ok_0,
                default: s.conds[h].default,
                value: s.conds[h].default,
            })
        }),
{
    let none = Seq::<GraphId>::empty();
    let order = s.collect_clone_tree(graph, none, none, s.tree_fuel())->Ok_0;
    assert(order.last() == graph);
    lemma_fresh_numbers(s, order, Map::empty(), 0, s.next.graph);
    lemma_numbering_is_finite(s, order, Map::empty(), 0);
    let (s1, remap) = s.number_clones(order);
    assert(s1.next.cond == s.next.cond) by {
        lemma_numbers_graphs_alone(s, order, Map::empty(), 0);
    }
    let origins = s1.origins_of(order);
    let (s2, r2) = s1.build_clones(order, remap);
    let built = r2->Ok_0;
    lemma_built(s1, order, remap, Seq::empty(), 0, s.next.graph);
    lemma_built_keeps_handles(s1, order, remap, Seq::empty(), 0);
    let s3 = s2.insert_clones(order, remap, origins, built).0;
    lemma_inserted(s2, order, remap, origins, built, 0);
    lemma_insertion_keeps_handles(s2, order, remap, origins, built, 0);
    let id = remap[graph];
    assert(handle_of(s1.graphs[graph].steps[n].kind) == handle_of(built.last()[n].kind));
    note_clones_keeps_graphs(s3, remap);
    lemma_notes_keep_handles(s3, remap, 0);
    let s4 = s3.note_clones(remap);
    assert(s4.conds == s.conds);
    let conds = s4.conds_to_clone(remap);
    let all = order_of(s4.conds.dom());
    let f = |i: int| s4.conds_to_clone_at(remap, i);
    lemma_order_exists(s4.conds.dom());
    lemma_picked_is_no_longer(all.len(), f);
    assert forall|j: int| 0 <= j < conds.len() implies listed_as_is(s4, #[trigger] conds[j]) by {
        lemma_picked_holds(all.len(), f, conds[j]);
        assert(conds.contains(conds[j]));
        let i = choose|i: int| 0 <= i < all.len() && #[trigger] f(i) == Some(conds[j]);
        assert(f(i) == Some(conds[j]));
        assert(all.contains(all[i]));
    }
    number_conds_keeps_graphs(s4, conds, remap);
    lemma_handles_numbered(s4, s4, conds, remap, Map::empty(), 0);
    let (s5, r5) = s4.number_conds(conds, remap);
    let renamed = r5->Ok_0;
    assert(renamed.contains_key(h)) by {
        assert(all.contains(h));
        let i = choose|i: int| 0 <= i < all.len() && all[i] == h;
        let c = s4.conds[h];
        let x = (h, Cond { graph: c.graph, default: c.default, value: c.default });
        assert(f(i) == Some(x));
        lemma_picked_holds(all.len(), f, x);
        let j = choose|j: int| 0 <= j < conds.len() && conds[j] == x;
        assert(renamed.contains_key(conds[j].0));
    }
    assert(renamed.dom().contains(h));
    assert(!renamed.contains_key(renamed[h]));
    let q = order_of(remap.dom());
    lemma_order_exists(remap.dom());
    assert(q.contains(graph));
    let j = choose|j: int| 0 <= j < q.len() && q[j] == graph;
    assert(remap[q[j]] == id);
    lemma_handle_renamed(s5, remap, renamed, 0, id, n, h);
}

proof fn lemma_picked_is_no_longer<T>(n: nat, f: spec_fn(int) -> Option<T>)
    ensures
        picked(n, f).len() <= n,
    decreases n,
{
    if n > 0 {
        lemma_picked_is_no_longer((n - 1) as nat, f);
    }
}

proof fn lemma_numbers_graphs_alone(
    s: SimState,
    order: Seq<GraphId>,
    remap: Map<GraphId, GraphId>,
    i: int,
)
    ensures
        s.number_clones_from(order, remap, i).0.next.cond == s.next.cond,
    decreases order.len() - i,
{
    if 0 <= i < order.len() {
        let t = SimState {
            next: NextIds { graph: s.next.graph.saturating_add(1), ..s.next },
            ..s
        };
        lemma_numbers_graphs_alone(
            t,
            order,
            remap.insert(order[i], GraphId(s.next.graph)),
            i + 1,
        );
    }
}

proof fn lemma_noted_at_once(s: SimState, remap: Map<GraphId, GraphId>, i: int)
    ensures
        s.note_clones_from(remap, i).clock == s.clock,
    decreases order_of(remap.dom()).len() - i,
{
    let q = order_of(remap.dom());
    if 0 <= i < q.len() {
        let t = SimState { clone_of: s.clone_of.insert(remap[q[i]], q[i]), ..s };
        lemma_noted_at_once(t, remap, i + 1);
    }
}

/// The clone of a graph without nested graphs and memory of its own takes the time that its GPU asks
/// for.
pub proof fn clone_takes_its_time(s: SimState, graph: GraphId, g: GpuProfile)
    requires
        s.clone_graph(graph).1 is Ok,
        graph.0 < s.next.graph,
        s.allocs_of(graph).len() == 0,
        nested_of(s.graphs[graph].steps).len() == 0,
        s.profile.gpu(s.graphs[graph].origin.0) == Ok::<GpuProfile, SimError>(g),
    ensures
        s.clone_graph(graph).0.clock == held(s.clock + no_less(g.graph_clone_ns as int, 1)),
{
    let none = Seq::<GraphId>::empty();
    let order = s.collect_clone_tree(graph, none, none, s.tree_fuel())->Ok_0;
    assert(order =~= seq![graph]);
    lemma_fresh_numbers(s, order, Map::empty(), 0, s.next.graph);
    let (s1, remap) = s.number_clones(order);
    let origins = s1.origins_of(order);
    assert(s1.allocs_of(graph) == s.allocs_of(graph));
    let (s2, r2) = s1.build_clones(order, remap);
    let built = r2->Ok_0;
    lemma_built(s1, order, remap, Seq::empty(), 0, s.next.graph);
    assert(s2 == s1) by {
        reveal_with_fuel(SimState::build_clones_from, 2);
    }
    let s3 = s2.insert_clones(order, remap, origins, built).0;
    lemma_inserted(s2, order, remap, origins, built, 0);
    lemma_noted_at_once(s3, remap, 0);
    let s4 = s3.note_clones(remap);
    let conds = s4.conds_to_clone(remap);
    lemma_conds_numbered(s4, conds, remap, Map::empty(), 0);
    number_conds_keeps_graphs(s4, conds, remap);
    note_clones_keeps_graphs(s3, remap);
    let (s5, r5) = s4.number_conds(conds, remap);
    lemma_handles(s5, remap, r5->Ok_0, 0, remap[graph]);
}

proof fn lemma_fresh_numbers(
    s: SimState,
    order: Seq<GraphId>,
    remap: Map<GraphId, GraphId>,
    i: int,
    first: u32,
)
    requires
        copies_from(remap, first),
        first <= s.next.graph,
    ensures
        ({
            let (t, m) = s.number_clones_from(order, remap, i);
            &&& copies_from(m, first)
            &&& t == (SimState { next: t.next, ..s })
        }),
    decreases order.len() - i,
{
    if 0 <= i < order.len() {
        let id = GraphId(s.next.graph);
        let t = SimState {
            next: NextIds { graph: s.next.graph.saturating_add(1), ..s.next },
            ..s
        };
        lemma_fresh_numbers(t, order, remap.insert(order[i], id), i + 1, first);
    }
}

} // verus!
