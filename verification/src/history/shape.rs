//! What graphs and captures look like in a history: no graph has a dependency on a node that it
//! lacks or a cycle, and a capture leads to no such graph. An imported event has no timing.
use vstd::prelude::*;
use crate::history::{counted, follows, graph_follows, next_unstarted, rest_follows};
use crate::history::submit::{capture_events_follows, take_op_id_follows, take_pending_follows};
use crate::history::timeline::unstarted;
use crate::ids::{AllocId, CondId, DeviceId, EventId, GraphId, StreamId};
use crate::laws::edges::{dropping_keeps, fewer_edges_acyclic, sorting_orders, strictly_ascending};
use crate::laws::frames::{
    clone_mem_alloc_nodes_keeps_graphs, clone_mem_alloc_nodes_keeps_profile,
    merge_capture_pending_keeps_capture_buf,
};
use crate::laws::order::{edge_stays_acyclic, pushing_adds, sorting_keeps};
use crate::list::{
    ascending, lemma_all_ok, lemma_ok_each, lemma_picked_holds, picked, with_all_new, with_new,
    without,
};
use crate::ops::{GpuOpView, StreamCaptureMode};
use crate::profile::ProfileView;
use crate::sim::SimState;
use crate::state::{CaptureView, Ev, GraphView, StepView};
use crate::table::lemma_order_exists;
use crate::topo::{acyclic, depends, is_path};

verus! {

/// A graph's nodes run on known GPUs, depend only on nodes of the graph, each listed once and in
/// ascending order, and close no cycle.
#[verifier::opaque]
pub open spec fn sound_steps(p: ProfileView, steps: Seq<StepView>) -> bool {
    &&& forall|i: int| 0 <= i < steps.len() ==> p.gpu((#[trigger] steps[i]).device) is Ok
    &&& steps.len() <= usize::MAX ==> {
        &&& forall|x: usize, y: usize| #[trigger] depends(steps, x, y) ==> y < steps.len()
        &&& forall|i: int| 0 <= i < steps.len() ==> strictly_ascending((#[trigger] steps[i]).deps)
        &&& acyclic(steps)
    }
}

/// Both the definition and the instantiated nodes of a graph are sound, and an executable has the
/// latter.
pub open spec fn sound_graph(p: ProfileView, g: GraphView) -> bool {
    &&& sound_steps(p, g.steps)
    &&& g.instantiated ==> g.snapshot is Some
    &&& g.snapshot matches Some(q) ==> sound_steps(p, q)
}

/// Every graph is sound.
#[verifier::opaque]
pub open spec fn sound_graphs(p: ProfileView, graphs: Map<GraphId, GraphView>) -> bool {
    forall|k: GraphId| #[trigger] graphs.contains_key(k) ==> sound_graph(p, graphs[k])
}

/// Number of nodes that a capture found in its graph.
pub open spec fn nodes_before(graphs: Map<GraphId, GraphView>, graph: GraphId) -> nat {
    if graphs.contains_key(graph) {
        graphs[graph].steps.len()
    } else {
        0
    }
}

/// What a list of nodes holds lies below a bound.
pub open spec fn all_below(q: Seq<usize>, n: nat) -> bool {
    forall|y: usize| #[trigger] q.contains(y) ==> y < n
}

/// What a list of nodes holds, each once, lies below a bound.
pub open spec fn tidy(q: Seq<usize>, n: nat) -> bool {
    q.no_duplicates() && all_below(q, n)
}

/// A capture depends only on nodes that its graph has, and each captured node only on earlier ones.
/// Captured nodes run on known GPUs.
#[verifier::opaque]
pub open spec fn sound_capture(
    p: ProfileView,
    base: nat,
    c: CaptureView,
    buf: Seq<StepView>,
) -> bool {
    &&& forall|i: int| 0 <= i < buf.len() ==> p.gpu((#[trigger] buf[i]).device) is Ok
    &&& base <= usize::MAX ==> all_below(c.deps, base)
    &&& base <= usize::MAX ==> forall|i: usize| #[trigger]
        c.extra_abs.contains_key(i) ==> all_below(c.extra_abs[i], base)
    &&& buf.len() <= usize::MAX ==> forall|i: int|
        0 <= i < buf.len() ==> tidy((#[trigger] buf[i]).deps, i as nat)
}

impl SimState {
    /// Graphs and what is being captured are sound.
    pub open spec fn shaped(self) -> bool {
        &&& sound_graphs(self.profile, self.graphs)
        &&& self.capturing matches Some(c) ==> sound_capture(
            self.profile,
            nodes_before(self.graphs, c.graph),
            c,
            self.capture_buf,
        )
    }
}

/// An event that was imported has no timing.
#[verifier::opaque]
pub open spec fn imports_untimed(events: Map<EventId, Ev>) -> bool {
    forall|e: EventId| #[trigger]
        events.contains_key(e) && events[e].ipc_src is Some ==> !events[e].timing
}

/// Graphs were sound at `z`, and numbers of graphs have lasted until `s`.
pub open spec fn planned(z: SimState, s: SimState) -> bool {
    z.numbered() && z.shaped() && s.next.graph < u32::MAX
}

/// Whether a graph can take the place of the one with its number, or is a sound new one. A graph
/// that is being captured into loses no node.
pub open spec fn graph_fits(s: SimState, id: GraphId, g: GraphView) -> bool {
    ||| s.graphs.contains_key(id) && g.steps == s.graphs[id].steps && g.snapshot
        == s.graphs[id].snapshot && g.instantiated == s.graphs[id].instantiated
    ||| {
        &&& sound_graph(s.profile, g)
        &&& s.capturing matches Some(c) ==> c.graph == id ==> g.steps.len() >= nodes_before(
            s.graphs,
            id,
        )
    }
}

/// A new simulator has no graphs and no events.
pub proof fn nothing_is_sound(p: ProfileView)
    ensures
        sound_graphs(p, Map::empty()),
        imports_untimed(Map::empty()),
        sound_steps(p, Seq::empty()),
{
    reveal(sound_graphs);
    reveal(imports_untimed);
    reveal(sound_steps);
    let none = Seq::<StepView>::empty();
    assert forall|w: Seq<usize>| #[trigger] is_path(none, w) && w.len() > 1 implies w[0]
        != w.last() by {
        assert(depends(none, w[1], w[1 - 1]));
    }
}

/// Nodes that depend on no more than before stay sound.
pub proof fn fewer_stay_sound(p: ProfileView, a: Seq<StepView>, b: Seq<StepView>)
    requires
        sound_steps(p, a),
        b.len() == a.len(),
        forall|i: int| 0 <= i < a.len() ==> (#[trigger] b[i]).device == a[i].device,
        forall|i: int|
            0 <= i < a.len() && strictly_ascending(a[i].deps) ==> strictly_ascending(
                (#[trigger] b[i]).deps,
            ),
        forall|x: usize, y: usize| #[trigger] depends(b, x, y) ==> depends(a, x, y),
    ensures
        sound_steps(p, b),
{
    reveal(sound_steps);
    if a.len() <= usize::MAX {
        fewer_edges_acyclic(a, b);
    }
}

/// Nodes with the same dependencies stay sound.
pub proof fn same_deps_sound(p: ProfileView, a: Seq<StepView>, b: Seq<StepView>)
    requires
        sound_steps(p, a),
        b.len() == a.len(),
        forall|i: int|
            0 <= i < a.len() ==> (#[trigger] b[i]).deps == a[i].deps && b[i].device == a[i].device,
    ensures
        sound_steps(p, b),
{
    assert forall|x: usize, y: usize| #[trigger] depends(b, x, y) implies depends(a, x, y) by {
        assert(b[x as int].deps == a[x as int].deps);
    }
    fewer_stay_sound(p, a, b);
}

/// A new last node may depend on all nodes before it.
pub proof fn push_stays_sound(p: ProfileView, a: Seq<StepView>, step: StepView)
    requires
        sound_steps(p, a),
        p.gpu(step.device) is Ok,
        a.len() < usize::MAX ==> all_below(step.deps, a.len()) && strictly_ascending(step.deps),
    ensures
        sound_steps(p, a.push(step)),
{
    reveal(sound_steps);
    let b = a.push(step);
    if b.len() <= usize::MAX {
        assert forall|x: usize, y: usize| #[trigger] depends(b, x, y) implies y < a.len() by {
            if x < a.len() {
                assert(depends(a, x, y));
            }
        }
        assert forall|w: Seq<usize>| #[trigger] is_path(b, w) && w.len() > 1 implies w[0]
            != w.last() by {
            if w[0] == w.last() {
                assert(depends(b, w[1], w[1 - 1]));
                assert forall|k: int| 0 < k < w.len() implies #[trigger] depends(
                    a,
                    w[k],
                    w[k - 1],
                ) by {
                    assert(depends(b, w[k], w[k - 1]));
                    if k + 1 < w.len() {
                        assert(depends(b, w[k + 1], w[k + 1 - 1]));
                    }
                }
                assert(is_path(a, w));
            }
        }
    }
}

/// No node depends on the last one.
pub open spec fn last_is_loose(steps: Seq<StepView>) -> bool {
    forall|x: usize| #[trigger] depends(steps, x, (steps.len() - 1) as usize) ==> false
}

/// The last node, on which none depends, may depend on all the others.
pub proof fn last_stays_sound(p: ProfileView, a: Seq<StepView>, step: StepView)
    requires
        sound_steps(p, a),
        a.len() > 0,
        step.device == a.last().device,
        a.len() <= usize::MAX ==> last_is_loose(a) && all_below(step.deps, (a.len() - 1) as nat)
            && strictly_ascending(step.deps),
    ensures
        sound_steps(p, a.update(a.len() - 1, step)),
{
    reveal(sound_steps);
    if a.len() <= usize::MAX {
        let c = a.drop_last();
        assert forall|x: usize, y: usize| #[trigger] depends(c, x, y) implies depends(a, x, y) && y
            < c.len() by {
            assert(depends(a, x, y));
            if y == (a.len() - 1) as usize {
                assert(depends(a, x, (a.len() - 1) as usize));
            }
        }
        fewer_edges_acyclic(a, c);
        push_stays_sound(p, c, step);
        assert(c.push(step) =~= a.update(a.len() - 1, step));
    }
}

/// Nodes that each depend on what stands before them can be put behind others.
pub proof fn append_stays_sound(p: ProfileView, a: Seq<StepView>, more: Seq<StepView>)
    requires
        sound_steps(p, a),
        forall|i: int| 0 <= i < more.len() ==> p.gpu((#[trigger] more[i]).device) is Ok,
        a.len() + more.len() <= usize::MAX ==> forall|i: int|
            0 <= i < more.len() ==> all_below((#[trigger] more[i]).deps, (a.len() + i) as nat)
                && strictly_ascending(more[i].deps),
    ensures
        sound_steps(p, a + more),
    decreases more.len(),
{
    if a.len() + more.len() > usize::MAX {
        reveal(sound_steps);
    } else if more.len() == 0 {
        assert(a + more =~= a);
    } else {
        let part = more.drop_last();
        assert forall|i: int| 0 <= i < part.len() implies all_below(
            (#[trigger] part[i]).deps,
            (a.len() + i) as nat,
        ) && strictly_ascending(part[i].deps) && p.gpu(part[i].device) is Ok by {
            assert(part[i] == more[i]);
        }
        append_stays_sound(p, a, part);
        push_stays_sound(p, a + part, more.last());
        assert((a + part).push(more.last()) =~= a + more);
    }
}

/// The nodes of a known graph are sound.
pub proof fn known_is_sound(z: SimState, s: SimState, id: GraphId)
    requires
        follows(z, s),
    ensures
        planned(z, s) && s.graphs.contains_key(id) ==> sound_graph(
            s.profile,
            s.graphs[id],
        ),
{
    reveal(follows);
    reveal(sound_graphs);
}

/// A node pushed onto a known graph without dependencies keeps it sound, and none depends on it.
pub proof fn push_fits(z: SimState, s: SimState, id: GraphId, step: StepView)
    requires
        follows(z, s),
        step.deps.len() == 0,
        s.profile.gpu(step.device) is Ok,
    ensures
        planned(z, s) && s.graphs.contains_key(id) ==> sound_steps(
            s.profile,
            s.graphs[id].steps.push(step),
        ) && (s.graphs[id].steps.len() < usize::MAX ==> last_is_loose(
            s.graphs[id].steps.push(step),
        )),
{
    known_is_sound(z, s, id);
    if planned(z, s) && s.graphs.contains_key(id) {
        let a = s.graphs[id].steps;
        push_stays_sound(s.profile, a, step);
        reveal(sound_steps);
        let b = a.push(step);
        if a.len() < usize::MAX {
            assert forall|x: usize| #[trigger] depends(
                b,
                x,
                (b.len() - 1) as usize,
            ) implies false by {
                if x < a.len() {
                    assert(depends(a, x, (b.len() - 1) as usize));
                }
            }
        }
    }
}

/// Edges that were accepted keep the nodes sound.
pub proof fn edges_stay_sound(s: SimState, edges: Seq<(usize, usize)>, steps: Seq<StepView>, i: int)
    requires
        sound_steps(s.profile, steps),
        s.with_edges_from(edges, steps, i) is Ok,
    ensures
        sound_steps(s.profile, s.with_edges_from(edges, steps, i)->Ok_0),
        s.with_edges_from(edges, steps, i)->Ok_0.len() == steps.len(),
    decreases edges.len() - i,
{
    if 0 <= i < edges.len() {
        let (from, to) = edges[i];
        let next = s.with_edge(steps, from, to)->Ok_0;
        assert(sound_steps(s.profile, next)) by {
            reveal(sound_steps);
            if steps.len() <= usize::MAX {
                let deps = steps[to as int].deps;
                if !deps.contains(from) {
                    assert(deps.push(from).no_duplicates());
                    sorting_orders(deps.push(from));
                }
                edge_stays_acyclic(s, steps, from, to);
                assert forall|x: usize, y: usize| #[trigger] depends(next, x, y) implies y
                    < next.len() by {
                    let longer = steps[to as int].deps.push(from);
                    sorting_keeps(longer, y);
                    pushing_adds(steps[to as int].deps, from, y);
                    if !depends(steps, x, y) {
                        assert(x == to && y == from);
                    }
                }
            }
        }
        edges_stay_sound(s, edges, next, i + 1);
    }
}

/// Edges added to a known graph keep it sound.
pub proof fn edges_fit(z: SimState, s: SimState, id: GraphId, edges: Seq<(usize, usize)>)
    requires
        follows(z, s),
    ensures
        planned(z, s) && s.graphs.contains_key(id) && s.with_edges(
            s.graphs[id].steps,
            edges,
        ) is Ok ==> sound_steps(s.profile, s.with_edges(s.graphs[id].steps, edges)->Ok_0)
            && s.with_edges(s.graphs[id].steps, edges)->Ok_0.len() == s.graphs[id].steps.len(),
{
    known_is_sound(z, s, id);
    if planned(z, s) && s.graphs.contains_key(id) && s.with_edges(s.graphs[id].steps, edges) is Ok {
        edges_stay_sound(s, edges, s.graphs[id].steps, 0);
    }
}

proof fn lemma_dropped_edges(
    s: SimState,
    edges: Seq<(usize, usize)>,
    steps: Seq<StepView>,
    i: int,
)
    requires
        sound_steps(s.profile, steps),
    ensures
        sound_steps(s.profile, s.without_edges_from(edges, steps, i)),
        s.without_edges_from(edges, steps, i).len() == steps.len(),
    decreases edges.len() - i,
{
    if 0 <= i < edges.len() {
        let (from, to) = edges[i];
        if to < steps.len() {
            let step = StepView {
                deps: without(steps[to as int].deps, from),
                ..steps[to as int]
            };
            let next = steps.update(to as int, step);
            dropping_keeps(steps[to as int].deps, from);
            fewer_stay_sound(s.profile, steps, next);
            lemma_dropped_edges(s, edges, next, i + 1);
        } else {
            lemma_dropped_edges(s, edges, steps, i + 1);
        }
    }
}

/// Edges taken out of a known graph, and a node destroyed in it, keep it sound.
pub proof fn removals_fit(
    z: SimState,
    s: SimState,
    id: GraphId,
    edges: Seq<(usize, usize)>,
    node: usize,
)
    requires
        follows(z, s),
    ensures
        planned(z, s) && s.graphs.contains_key(id) ==> sound_steps(
            s.profile,
            s.without_edges(s.graphs[id].steps, edges),
        ) && sound_steps(s.profile, s.without_node(s.graphs[id].steps, node)),
{
    known_is_sound(z, s, id);
    if planned(z, s) && s.graphs.contains_key(id) {
        let a = s.graphs[id].steps;
        lemma_dropped_edges(s, edges, a, 0);
        let b = s.without_node(a, node);
        assert forall|x: usize, y: usize| #[trigger] depends(b, x, y) implies depends(a, x, y) by {
            dropping_keeps(a[x as int].deps, node);
        }
        assert forall|i: int|
            0 <= i < a.len() && strictly_ascending(a[i].deps) implies strictly_ascending(
            (#[trigger] b[i]).deps,
        ) by {
            dropping_keeps(a[i].deps, node);
        }
        fewer_stay_sound(s.profile, a, b);
    }
}

/// The nodes of an instance are as sound as those it is made from.
pub proof fn exec_stays_sound(s: SimState, steps: Seq<StepView>)
    ensures
        sound_steps(s.profile, steps) && s.exec_steps(steps) is Ok ==> sound_steps(
            s.profile,
            s.exec_steps(steps)->Ok_0,
        ),
{
    if sound_steps(s.profile, steps) && s.exec_steps(steps) is Ok {
        let f = |i: int| s.exec_steps_at(steps, i);
        lemma_ok_each(steps.len(), f);
        lemma_all_ok(steps.len(), f, steps.len() as int);
        let b = s.exec_steps(steps)->Ok_0;
        assert forall|i: int| 0 <= i < steps.len() implies (#[trigger] b[i]).deps
            == steps[i].deps && b[i].device == steps[i].device by {
            assert(f(i) is Ok);
        }
        same_deps_sound(s.profile, steps, b);
    }
}

/// Renaming the conditionals of a known graph keeps it sound.
pub proof fn renaming_fits(z: SimState, s: SimState, id: GraphId, renamed: Map<CondId, CondId>)
    requires
        follows(z, s),
    ensures
        planned(z, s) && s.graphs.contains_key(id) ==> sound_steps(
            s.profile,
            s.rename_step_conds(s.graphs[id].steps, renamed),
        ),
{
    known_is_sound(z, s, id);
    if planned(z, s) && s.graphs.contains_key(id) {
        same_deps_sound(
            s.profile,
            s.graphs[id].steps,
            s.rename_step_conds(s.graphs[id].steps, renamed),
        );
    }
}

/// Every list of nodes is sound.
pub open spec fn all_sound(p: ProfileView, built: Seq<Seq<StepView>>) -> bool {
    forall|i: int| 0 <= i < built.len() ==> sound_steps(p, #[trigger] built[i])
}

/// Copies of sound graphs are sound.
pub proof fn copies_are_sound(
    s: SimState,
    order: Seq<GraphId>,
    remap: Map<GraphId, GraphId>,
    built: Seq<Seq<StepView>>,
    i: int,
)
    requires
        sound_graphs(s.profile, s.graphs),
        all_sound(s.profile, built),
        built.len() == i <= order.len(),
    ensures
        s.build_clones_from(order, remap, built, i).1 is Ok ==> all_sound(
            s.profile,
            s.build_clones_from(order, remap, built, i).1->Ok_0,
        ) && s.build_clones_from(order, remap, built, i).1->Ok_0.len() == order.len(),
    decreases order.len() - i,
{
    if 0 <= i < order.len() && s.build_clones_from(order, remap, built, i).1 is Ok {
        reveal(sound_graphs);
        let from = s.graphs[order[i]].steps;
        let f = |k: int| s.remap_nested_graphs_at(from, remap, k);
        lemma_ok_each(from.len(), f);
        lemma_all_ok(from.len(), f, from.len() as int);
        let raw = s.remap_nested_graphs(from, remap)->Ok_0;
        assert forall|k: int| 0 <= k < from.len() implies (#[trigger] raw[k]).deps
            == from[k].deps && raw[k].device == from[k].device by {
            assert(f(k) is Ok);
        }
        same_deps_sound(s.profile, from, raw);
        let id = s.clone_id(remap, order[i])->Ok_0;
        let (t, r) = s.clone_mem_alloc_nodes(order[i], id, raw);
        clone_mem_alloc_nodes_keeps_graphs(s, order[i], id, raw);
        clone_mem_alloc_nodes_keeps_profile(s, order[i], id, raw);
        let steps = r->Ok_0;
        same_deps_sound(s.profile, raw, steps);
        copies_are_sound(t, order, remap, built.push(steps), i + 1);
    }
}

/// Forgetting a graph while nothing is captured continues a history.
pub proof fn graph_gone_follows(z: SimState, s: SimState, id: GraphId)
    requires
        follows(z, s),
        s.capturing is None,
    ensures
        follows(z, (SimState { graphs: s.graphs.remove(id), ..s })),
{
    reveal(follows);
    reveal(sound_graphs);
}

/// A change of a capture other than of its graph and of what it depends on continues a history.
pub proof fn capture_note_follows(z: SimState, s: SimState, c: CaptureView)
    requires
        follows(z, s),
        s.capturing is Some,
        c.graph == s.capturing->0.graph,
        c.deps == s.capturing->0.deps,
        c.extra_abs == s.capturing->0.extra_abs,
    ensures
        follows(z, (SimState { capturing: Some(c), ..s })),
{
    reveal(follows);
    reveal(sound_capture);
}

/// A new event that is no import or has no timing, or a change of an event other than of these,
/// continues a history.
pub proof fn event_follows(z: SimState, s: SimState, id: EventId, ev: Ev)
    requires
        follows(z, s),
        ev.ipc_src is None || !ev.timing || (s.events.contains_key(id) && ev.ipc_src
            == s.events[id].ipc_src && ev.timing == s.events[id].timing),
    ensures
        follows(z, (SimState { events: s.events.insert(id, ev), ..s })),
{
    reveal(follows);
    reveal(imports_untimed);
}

/// Forgetting an event continues a history.
pub proof fn event_gone_follows(z: SimState, s: SimState, id: EventId)
    requires
        follows(z, s),
    ensures
        follows(z, (SimState { events: s.events.remove(id), ..s })),
{
    reveal(follows);
    reveal(imports_untimed);
}

proof fn lemma_new_tidy(q: Seq<usize>, x: usize, n: nat)
    requires
        tidy(q, n),
        x < n,
    ensures
        tidy(with_new(q, x), n),
{
    assert forall|y: usize| #[trigger] with_new(q, x).contains(y) implies y < n by {
        pushing_adds(q, x, y);
    }
}

proof fn lemma_all_new_tidy(q: Seq<usize>, more: Seq<usize>, n: nat)
    requires
        tidy(q, n),
        all_below(more, n),
    ensures
        tidy(with_all_new(q, more), n),
    decreases more.len(),
{
    if more.len() > 0 {
        let part = more.drop_last();
        assert forall|y: usize| #[trigger] part.contains(y) implies y < n by {
            let j = choose|j: int| 0 <= j < part.len() && part[j] == y;
            assert(more[j] == y);
            assert(more.contains(y));
        }
        lemma_all_new_tidy(q, part, n);
        assert(more.contains(more.last()));
        lemma_new_tidy(with_all_new(q, part), more.last(), n);
    }
}

proof fn lemma_sorted_tidy(q: Seq<usize>, n: nat)
    requires
        tidy(q, n),
    ensures
        tidy(ascending(q), n),
        strictly_ascending(ascending(q)),
{
    sorting_orders(q);
    assert forall|y: usize| #[trigger] ascending(q).contains(y) implies y < n by {
        sorting_keeps(q, y);
    }
}

proof fn lemma_pending_tidy(s: SimState, extra: Seq<usize>, base: usize, deps: Seq<usize>, i: int)
    requires
        tidy(deps, s.capture_buf.len()),
    ensures
        tidy(s.pending_captured_from(extra, base, deps, i), s.capture_buf.len()),
    decreases extra.len() - i,
{
    let n = s.capture_buf.len();
    if 0 <= i < extra.len() {
        let p = extra[i];
        let rel = p.saturating_sub(base);
        if p >= base && rel < n {
            lemma_new_tidy(deps, rel, n);
            lemma_pending_tidy(s, extra, base, with_new(deps, rel), i + 1);
        } else {
            lemma_pending_tidy(s, extra, base, deps, i + 1);
        }
    } else {
        lemma_sorted_tidy(deps, n);
    }
}

proof fn lemma_existing_below(s: SimState, extra: Seq<usize>)
    ensures
        all_below(s.pending_existing(extra), s.capture_base() as nat),
{
    let base = s.capture_base();
    let f = |i: int| s.pending_existing_at(extra, base, i);
    let out = picked(extra.len(), f);
    let known = s.pending_existing(extra);
    lemma_order_exists(out.to_set());
    assert forall|y: usize| #[trigger] known.contains(y) implies y < base by {
        assert(out.to_set().contains(y));
        lemma_picked_holds(extra.len(), f, y);
        let i = choose|i: int| 0 <= i < extra.len() && #[trigger] f(i) == Some(y);
        assert(f(i) == s.pending_existing_at(extra, base, i));
    }
}

/// [`Sim::merge_capture_pending`] continues the history, and adds dependencies on captured nodes
/// only.
pub proof fn merge_capture_pending_follows(
    z: SimState,
    s0: SimState,
    device: DeviceId,
    stream: StreamId,
    first: Seq<usize>,
)
    requires
        follows(z, s0),
    ensures
        follows(z, s0.merge_capture_pending(device, stream, first).0),
        tidy(first, s0.capture_buf.len()) ==> tidy(
            s0.merge_capture_pending(device, stream, first).1,
            s0.capture_buf.len(),
        ),
{
    reveal(SimState::merge_capture_pending);
    take_pending_follows(z, s0, device, stream);
    let (s, extra) = s0.take_pending(device, stream);
    if extra.len() > 0 {
        if tidy(first, s0.capture_buf.len()) {
            lemma_pending_tidy(s, extra, s.capture_base(), first, 0);
        }
        let known = s.pending_existing(extra);
        lemma_existing_below(s, extra);
        if known.len() > 0 && s.capturing is Some {
            let at = s.capture_buf.len() as usize;
            let c = s.capturing->0;
            let d = CaptureView { extra_abs: c.extra_abs.insert(at, known), ..c };
            assert(follows(z, (SimState { capturing: Some(d), ..s }))) by {
                reveal(follows);
                reveal(sound_capture);
            }
        }
    }
}

proof fn lemma_last_on_below(
    s: SimState,
    device: DeviceId,
    stream: StreamId,
    root: EventId,
    found: Option<usize>,
    i: int,
)
    requires
        0 <= i <= s.capture_buf.len() <= usize::MAX,
        found matches Some(k) ==> k < s.capture_buf.len(),
    ensures
        s.last_captured_on_from(device, stream, found, i) matches Some(k) ==> k
            < s.capture_buf.len(),
        s.last_captured_record_from(root, found, i) matches Some(k) ==> k < s.capture_buf.len(),
    decreases s.capture_buf.len() - i,
{
    if i < s.capture_buf.len() {
        lemma_last_on_below(s, device, stream, root, found, i + 1);
        lemma_last_on_below(s, device, stream, root, Some(i as usize), i + 1);
    }
}

proof fn lemma_step_deps(s: SimState, device: DeviceId, stream: StreamId, kind: GpuOpView)
    requires
        s.capture_buf.len() <= usize::MAX,
    ensures
        tidy(s.capture_step_deps(device, stream, kind), s.capture_buf.len()),
{
    let n = s.capture_buf.len();
    let none = Seq::<usize>::empty();
    let root = match kind {
        GpuOpView::EventWait { event, external: _e } => s.event_root(event),
        _ => EventId(0),
    };
    lemma_last_on_below(s, device, stream, root, None, 0);
    assert(tidy(none, n));
    let own = match s.last_captured_on(device, stream) {
        Some(i) => none.push(i),
        None => none,
    };
    assert(tidy(own, n)) by {
        if s.last_captured_on(device, stream) is Some {
            lemma_new_tidy(none, s.last_captured_on(device, stream)->0, n);
        }
    }
    if s.last_captured_record(root) is Some {
        lemma_new_tidy(own, s.last_captured_record(root)->0, n);
    }
}

/// [`Sim::record_captured`] continues the history.
pub proof fn record_captured_follows(
    z: SimState,
    s0: SimState,
    device: DeviceId,
    stream: StreamId,
    kind: GpuOpView,
)
    requires
        follows(z, s0),
    ensures
        follows(z, s0.record_captured(device, stream, kind).0),
        s0.record_captured(device, stream, kind).1 is Ok && counted(
            z,
            s0.record_captured(device, stream, kind).0,
        ) ==> unstarted(
            s0.record_captured(device, stream, kind).0.ops,
            s0.record_captured(device, stream, kind).0.running,
            s0.record_captured(device, stream, kind).1->Ok_0,
        ),
{
    reveal(SimState::record_captured);
    capture_events_follows(z, s0, kind);
    let s = s0.capture_events(kind);
    let first = s.capture_step_deps(device, stream, kind);
    merge_capture_pending_follows(z, s, device, stream, first);
    merge_capture_pending_keeps_capture_buf(s, device, stream, first);
    let n = s.capture_buf.len();
    if n <= usize::MAX {
        lemma_step_deps(s, device, stream, kind);
    }
    let (s, deps) = s.merge_capture_pending(device, stream, first);
    let priority = s.snap_priority(device, stream);
    match s.snap_mem_sync(device, stream, kind) {
        Err(_e) => {},
        Ok((domain, map)) => {
            let attrs = s.node_attrs(priority, domain, map);
            let step = StepView {
                device,
                stream,
                kind,
                deps,
                enabled: true,
                destroyed: false,
                attrs,
            };
            let t = SimState { capture_buf: s.capture_buf.push(step), ..s };
            assert(follows(z, t)) by {
                reveal(follows);
                reveal(sound_capture);
            }
            next_unstarted(z, t);
            take_op_id_follows(z, t);
        },
    }
}

/// [`Sim::begin_capture_inner`] continues the history.
pub proof fn begin_capture_inner_follows(
    z: SimState,
    s0: SimState,
    device: DeviceId,
    stream: StreamId,
    graph: GraphId,
    deps: Seq<usize>,
    mode: StreamCaptureMode,
)
    requires
        follows(z, s0),
    ensures
        follows(z, s0.begin_capture_inner(device, stream, graph, deps, mode).0),
{
    reveal(SimState::begin_capture_inner);
    let t = s0.begin_capture_inner(device, stream, graph, deps, mode).0;
    if t != s0 {
        let g = s0.graphs[graph];
        let roots = s0.capture_into(device, graph, deps)->Ok_0;
        let f = |i: int| s0.capture_into_at(deps, g, i);
        lemma_ok_each(deps.len(), f);
        lemma_order_exists(deps.to_set());
        assert forall|y: usize| #[trigger] roots.contains(y) implies y < g.steps.len() by {
            assert(deps.to_set().contains(y));
            let i = choose|i: int| 0 <= i < deps.len() && deps[i] == y;
            assert(f(i) is Ok);
        }
        reveal(follows);
        reveal(sound_capture);
    }
}

proof fn lemma_captured_below(s: SimState, i: int, base: nat)
    requires
        s.capturing is Some,
        0 <= i < s.capture_buf.len(),
        base + s.capture_buf.len() <= usize::MAX,
        sound_capture(s.profile, base, s.capturing->0, s.capture_buf),
    ensures
        all_below(
            s.captured_nodes_at(base as usize, s.capturing->0.deps, i).deps,
            (base + i) as nat,
        ),
        strictly_ascending(s.captured_nodes_at(base as usize, s.capturing->0.deps, i).deps),
{
    reveal(sound_capture);
    let c = s.capturing->0;
    let n = (base + i) as nat;
    let offset = base as usize;
    let own = s.capture_buf[i].deps;
    let extra = s.captured_extra(i as usize);
    let moved = Seq::new(own.len(), |k: int| s.captured_deps_at(own, offset, k));
    assert(tidy(moved, n)) by {
        assert forall|j: int, k: int| 0 <= j < k < moved.len() implies moved[j] != moved[k] by {
            assert(own.contains(own[j]));
            assert(own.contains(own[k]));
        }
        assert forall|y: usize| #[trigger] moved.contains(y) implies y < n by {
            let k = choose|k: int| 0 <= k < moved.len() && moved[k] == y;
            assert(own.contains(own[k]));
        }
    }
    assert(all_below(extra, n)) by {
        assert forall|y: usize| #[trigger] extra.contains(y) implies y < n by {
            assert(c.extra_abs.contains_key(i as usize));
        }
    }
    assert(all_below(c.deps, n)) by {
        assert forall|y: usize| #[trigger] c.deps.contains(y) implies y < n by {}
    }
    lemma_all_new_tidy(moved, extra, n);
    let q = with_all_new(moved, extra);
    lemma_all_new_tidy(q, c.deps, n);
    lemma_sorted_tidy(q, n);
    lemma_sorted_tidy(with_all_new(q, c.deps), n);
}

/// [`Sim::append_captured`] continues the history, from position `i` on.
pub proof fn append_captured_from_follows(
    z: SimState,
    s0: SimState,
    graph: GraphId,
    nodes: Seq<StepView>,
    mem: Seq<AllocId>,
    steps: Seq<StepView>,
    i: int,
)
    requires
        follows(z, s0),
        s0.capturing is None,
        0 <= i <= nodes.len(),
        planned(z, s0) ==> sound_steps(s0.profile, steps + nodes.skip(i)),
    ensures
        follows(z, s0.append_captured_from(graph, nodes, mem, steps, i).0),
    decreases nodes.len() - i,
{
    if i < nodes.len() {
        assert(steps.push(nodes[i]) + nodes.skip(i + 1) =~= steps + nodes.skip(i));
        append_captured_from_follows(z, s0, graph, nodes, mem, steps.push(nodes[i]), i + 1);
    } else {
        assert(steps + nodes.skip(i) =~= steps);
        known_is_sound(z, s0, graph);
        match s0.graph_ref(graph) {
            Err(_e) => {},
            Ok(h) => {
                let h = GraphView { steps, ..h };
                graph_follows(z, s0, graph, h);
                let s = SimState { graphs: s0.graphs.insert(graph, h), ..s0 };
                let owned = s.allocs_of(graph) + mem;
                rest_follows(
                    z,
                    s,
                    SimState { graph_allocs: s.graph_allocs.insert(graph, owned), ..s },
                );
            },
        }
    }
}

/// [`Sim::end_capture`] continues the history.
pub proof fn end_capture_follows(z: SimState, s0: SimState)
    requires
        follows(z, s0),
    ensures
        follows(z, s0.end_capture().0),
{
    match s0.capturing {
        Some(cap) => {
            let graph = cap.graph;
            let nodes = s0.captured_nodes();
            let s = SimState { capturing: None, capture_buf: Seq::empty(), ..s0 };
            assert(follows(z, s)) by {
                reveal(follows);
            }
            if s.graphs.contains_key(graph) {
                let steps = s.graphs[graph].steps;
                if planned(z, s) {
                    known_is_sound(z, s, graph);
                    assert(s0.shaped()) by {
                        reveal(follows);
                    }
                    if steps.len() + nodes.len() <= usize::MAX {
                        assert forall|i: int| 0 <= i < nodes.len() implies all_below(
                            (#[trigger] nodes[i]).deps,
                            (steps.len() + i) as nat,
                        ) && strictly_ascending(nodes[i].deps) by {
                            lemma_captured_below(s0, i, steps.len());
                        }
                    }
                    assert forall|i: int| 0 <= i < nodes.len() implies s0.profile.gpu(
                        (#[trigger] nodes[i]).device,
                    ) is Ok by {
                        reveal(sound_capture);
                        assert(s0.capture_buf[i].device == nodes[i].device);
                    }
                    append_stays_sound(s0.profile, steps, nodes);
                }
                assert(steps + nodes.skip(0) =~= steps + nodes);
                append_captured_from_follows(z, s, graph, nodes, cap.mem_allocs, steps, 0);
            }
        },
        None => {},
    }
}

/// Whether a node that is written over one of a graph keeps the graph sound.
pub open spec fn node_fits(
    p: ProfileView,
    steps: Seq<StepView>,
    node: usize,
    step: StepView,
) -> bool {
    node < steps.len() ==> step.deps == steps[node as int].deps && step.device
        == steps[node as int].device || sound_steps(
        p,
        steps.update(node as int, step),
    )
}

/// A node written over one of sound nodes, where it fits, keeps them sound.
pub proof fn node_stays_sound(
    p: ProfileView,
    steps: Seq<StepView>,
    node: usize,
    step: StepView,
)
    requires
        node < steps.len(),
        node_fits(p, steps, node, step),
    ensures
        sound_steps(p, steps) ==> sound_steps(p, steps.update(node as int, step)),
{
    if sound_steps(p, steps) && step.deps == steps[node as int].deps && step.device
        == steps[node as int].device {
        same_deps_sound(p, steps, steps.update(node as int, step));
    }
}

/// New dependencies of the last node of a graph, on which none depends, fit.
pub proof fn new_deps_fit(z: SimState, s: SimState, graph: GraphId, node: usize, deps: Seq<usize>)
    requires
        follows(z, s),
        s.graphs.contains_key(graph),
        node < s.graphs[graph].steps.len(),
        planned(z, s) && s.graphs[graph].steps.len() <= usize::MAX ==> node + 1
            == s.graphs[graph].steps.len() && last_is_loose(s.graphs[graph].steps),
        s.new_deps_ok(s.graphs[graph], node, deps) is Ok,
    ensures
        planned(z, s) ==> ({
            let step = s.graphs[graph].steps[node as int];
            node_fits(
                s.profile,
                s.graphs[graph].steps,
                node,
                StepView { deps: ascending(with_all_new(step.deps, deps)), ..step },
            )
        }),
{
    known_is_sound(z, s, graph);
    if planned(z, s) {
        let g = s.graphs[graph];
        let a = g.steps;
        let step = a[node as int];
        let all = ascending(with_all_new(step.deps, deps));
        let next = StepView { deps: all, ..step };
        if a.len() <= usize::MAX {
            let n = (a.len() - 1) as nat;
            let f = |i: int| s.new_deps_ok_at(g, node, deps, i);
            lemma_ok_each(deps.len(), f);
            assert(all_below(deps, n)) by {
                assert forall|y: usize| #[trigger] deps.contains(y) implies y < n by {
                    let i = choose|i: int| 0 <= i < deps.len() && deps[i] == y;
                    assert(f(i) is Ok);
                }
            }
            assert(tidy(step.deps, n)) by {
                reveal(sound_steps);
                assert forall|y: usize| #[trigger] step.deps.contains(y) implies y < n by {
                    assert(depends(a, node, y));
                    if y == (a.len() - 1) as usize {
                        assert(depends(a, node, (a.len() - 1) as usize));
                    }
                }
            }
            lemma_all_new_tidy(step.deps, deps, n);
            lemma_sorted_tidy(with_all_new(step.deps, deps), n);
            last_stays_sound(s.profile, a, next);
        } else {
            reveal(sound_steps);
        }
    }
}

} // verus!
