//! Adding and removing edges.
use vstd::prelude::*;
use crate::error::SimError;
use crate::ids::GraphId;
use crate::laws::listing::edges_are_listed;
use crate::laws::order::{edge_stays_acyclic, pushing_adds, putting_adds, sorting_keeps};
use crate::list::{ascending, lemma_ok_each, lemma_picked_holds, picked, put_ascending, without};
use crate::sim::SimState;
use crate::state::{GraphView, StepView};
use crate::table::{lemma_order_unique, lists};
use crate::topo::{acyclic, depends, is_path, reaches};

verus! {

/// `b` has the nodes of `a` and, besides the edges of `a`, the given ones.
pub open spec fn has_edges_too(
    a: Seq<StepView>,
    edges: Seq<(usize, usize)>,
    b: Seq<StepView>,
) -> bool {
    &&& b.len() == a.len()
    &&& forall|x: int|
        0 <= x < a.len() ==> (#[trigger] b[x]) == (StepView { deps: b[x].deps, ..a[x] })
    &&& forall|x: int, y: usize|
        0 <= x < a.len() ==> (#[trigger] b[x].deps.contains(y) <==> a[x].deps.contains(y)
            || edges.contains((y, x as usize)))
}

/// Where an edge that leads to `x` comes from.
pub open spec fn source_at(edges: Seq<(usize, usize)>, x: int, k: int) -> Option<usize> {
    if edges[k].1 == x {
        Some(edges[k].0)
    } else {
        None
    }
}

/// The nodes with all of the edges.
pub open spec fn joined_edges(a: Seq<StepView>, edges: Seq<(usize, usize)>) -> Seq<StepView> {
    Seq::new(
        a.len(),
        |x: int|
            StepView {
                deps: a[x].deps + picked(edges.len(), |k: int| source_at(edges, x, k)),
                ..a[x]
            },
    )
}

/// Whether an edge joins two different nodes that are not destroyed.
pub open spec fn edge_fits(steps: Seq<StepView>, e: (usize, usize)) -> bool {
    &&& e.0 != e.1
    &&& e.0 < steps.len()
    &&& e.1 < steps.len()
    &&& !steps[e.0 as int].destroyed
    &&& !steps[e.1 as int].destroyed
}

/// Fewer edges close no cycle.
pub proof fn fewer_edges_acyclic(a: Seq<StepView>, b: Seq<StepView>)
    requires
        acyclic(a),
        forall|x: usize, y: usize| #[trigger] depends(b, x, y) ==> depends(a, x, y),
    ensures
        acyclic(b),
{
    assert forall|p: Seq<usize>| #[trigger] is_path(b, p) && p.len() > 1 implies p[0]
        != p.last() by {
        assert(is_path(a, p)) by {
            assert forall|k: int| 0 < k < p.len() implies #[trigger] depends(a, p[k], p[k - 1]) by {
                assert(depends(b, p[k], p[k - 1]));
            }
        }
    }
}

proof fn lemma_joined(a: Seq<StepView>, edges: Seq<(usize, usize)>)
    requires
        a.len() <= usize::MAX,
    ensures
        has_edges_too(a, edges, joined_edges(a, edges)),
{
    let b = joined_edges(a, edges);
    assert forall|x: int, y: usize| 0 <= x < a.len() implies (#[trigger] b[x].deps.contains(y)
        <==> a[x].deps.contains(y) || edges.contains((y, x as usize))) by {
        let f = |k: int| source_at(edges, x, k);
        let old_deps = a[x].deps;
        let more = picked(edges.len(), f);
        lemma_picked_holds(edges.len(), f, y);
        if old_deps.contains(y) {
            let k = choose|k: int| 0 <= k < old_deps.len() && old_deps[k] == y;
            assert(b[x].deps[k] == y);
        }
        if edges.contains((y, x as usize)) {
            let k = choose|k: int| 0 <= k < edges.len() && edges[k] == (y, x as usize);
            assert(f(k) == Some(y));
            assert(more.contains(y));
            let j = choose|j: int| 0 <= j < more.len() && more[j] == y;
            assert(b[x].deps[old_deps.len() + j] == y);
        }
        if b[x].deps.contains(y) {
            let j = choose|j: int| 0 <= j < b[x].deps.len() && b[x].deps[j] == y;
            if j < old_deps.len() {
                assert(old_deps[j] == y);
            } else {
                assert(more[j - old_deps.len()] == y);
                let k = choose|k: int| 0 <= k < edges.len() && #[trigger] f(k) == Some(y);
                assert(edges[k] == (y, x as usize));
            }
        }
    }
}

proof fn lemma_one_edge(s: SimState, a: Seq<StepView>, from: usize, to: usize)
    requires
        a.len() <= usize::MAX,
        edge_fits(a, (from, to)),
        !reaches(a, to, from),
    ensures
        s.with_edge(a, from, to) is Ok,
        has_edges_too(a, seq![(from, to)], s.with_edge(a, from, to)->Ok_0),
{
    let b = s.with_edge(a, from, to)->Ok_0;
    let one = seq![(from, to)];
    assert(one[0] == (from, to));
    assert forall|x: int, y: usize| 0 <= x < a.len() implies (#[trigger] b[x].deps.contains(y)
        <==> a[x].deps.contains(y) || one.contains((y, x as usize))) by {
        if one.contains((y, x as usize)) {
            let k = choose|k: int| 0 <= k < one.len() && one[k] == (y, x as usize);
            assert(y == from && x == to);
        }
        let longer = a[to as int].deps.push(from);
        sorting_keeps(longer, y);
        pushing_adds(a[to as int].deps, from, y);
        if x == to && y == from {
            assert(one.contains((y, x as usize)));
        }
    }
}

proof fn lemma_two_parts(
    a: Seq<StepView>,
    edges: Seq<(usize, usize)>,
    i: int,
    b: Seq<StepView>,
    c: Seq<StepView>,
)
    requires
        0 <= i < edges.len(),
        a.len() <= usize::MAX,
        has_edges_too(a, edges.take(i), b),
        has_edges_too(b, seq![edges[i]], c),
    ensures
        has_edges_too(a, edges.take(i + 1), c),
{
    let t = edges.take(i + 1);
    let one = seq![edges[i]];
    assert(t =~= edges.take(i).push(edges[i]));
    assert forall|x: int, y: usize| 0 <= x < a.len() implies (#[trigger] c[x].deps.contains(y)
        <==> a[x].deps.contains(y) || t.contains((y, x as usize))) by {
        let e = (y, x as usize);
        assert(b[x].deps.contains(y) <==> a[x].deps.contains(y) || edges.take(i).contains(e));
        if edges.take(i).contains(e) {
            let k = choose|k: int| 0 <= k < i && edges.take(i)[k] == e;
            assert(t[k] == e);
        }
        if one.contains(e) {
            assert(t[i] == e);
        }
        if t.contains(e) {
            let k = choose|k: int| 0 <= k < t.len() && t[k] == e;
            if k < i {
                assert(edges.take(i)[k] == e);
            } else {
                assert(one[0] == e);
            }
        }
    }
    assert forall|x: int| 0 <= x < a.len() implies (#[trigger] c[x]) == (StepView {
        deps: c[x].deps,
        ..a[x]
    }) by {
        assert(b[x] == StepView { deps: b[x].deps, ..a[x] });
    }
}

proof fn lemma_all_edges(
    s: SimState,
    a: Seq<StepView>,
    edges: Seq<(usize, usize)>,
    cur: Seq<StepView>,
    i: int,
)
    requires
        0 <= i <= edges.len(),
        a.len() <= usize::MAX,
        has_edges_too(a, edges.take(i), cur),
        acyclic(cur),
        forall|k: int| 0 <= k < i ==> edge_fits(a, #[trigger] edges[k]),
    ensures
        s.with_edges_from(edges, cur, i) is Ok <==> (forall|k: int|
            0 <= k < edges.len() ==> edge_fits(a, #[trigger] edges[k])) && acyclic(
            joined_edges(a, edges),
        ),
        s.with_edges_from(edges, cur, i) is Ok ==> has_edges_too(
            a,
            edges,
            s.with_edges_from(edges, cur, i)->Ok_0,
        ) && acyclic(s.with_edges_from(edges, cur, i)->Ok_0),
    decreases edges.len() - i,
{
    let all = joined_edges(a, edges);
    lemma_joined(a, edges);
    if i < edges.len() {
        let (from, to) = edges[i];
        assert(edge_fits(cur, edges[i]) == edge_fits(a, edges[i])) by {
            if from < a.len() {
                assert(
                    cur[from as int] == StepView { deps: cur[from as int].deps, ..a[from as int] }
                );
            }
            if to < a.len() {
                assert(cur[to as int] == StepView { deps: cur[to as int].deps, ..a[to as int] });
            }
        }
        if edge_fits(a, edges[i]) {
            if reaches(cur, to, from) {
                let p = choose|p: Seq<usize>| #[trigger]
                    is_path(cur, p) && p[0] == to && p.last() == from;
                let q = p.push(to);
                assert(is_path(all, q)) by {
                    assert forall|k: int| 0 < k < q.len() implies #[trigger] depends(
                        all,
                        q[k],
                        q[k - 1],
                    ) by {
                        if k < p.len() {
                            assert(depends(cur, p[k], p[k - 1]));
                            assert(cur[p[k] as int].deps.contains(p[k - 1]));
                            let e = (p[k - 1], p[k]);
                            if edges.take(i).contains(e) {
                                let j = choose|j: int| 0 <= j < i && edges.take(i)[j] == e;
                                assert(edges[j] == e);
                            }
                            assert(all[p[k] as int].deps.contains(p[k - 1]));
                        } else {
                            assert(edges.contains((from, to)));
                            assert(all[to as int].deps.contains(from));
                        }
                    }
                }
                assert(q[0] == q.last());
                assert(!acyclic(all));
            } else {
                lemma_one_edge(s, cur, from, to);
                let next = s.with_edge(cur, from, to)->Ok_0;
                edge_stays_acyclic(s, cur, from, to);
                lemma_two_parts(a, edges, i, cur, next);
                lemma_all_edges(s, a, edges, next, i + 1);
            }
        }
    } else {
        assert(edges.take(i) =~= edges);
        assert(acyclic(all)) by {
            assert forall|x: usize, y: usize| #[trigger] depends(all, x, y) implies depends(
                cur,
                x,
                y,
            ) by {
                assert(all[x as int].deps.contains(y));
                assert(cur[x as int].deps.contains(y));
            }
            fewer_edges_acyclic(cur, all);
        }
    }
}

/// Edges are added exactly where each joins two different live nodes and all of them together close
/// no cycle. The graph then has its old edges and the new ones. A refusal changes nothing.
pub proof fn edges_are_added(s: SimState, graph: GraphId, edges: Seq<(usize, usize)>)
    requires
        s.capturing is None,
        s.graphs.contains_key(graph),
        !s.graphs[graph].instantiated,
        s.graphs[graph].steps.len() < usize::MAX,
        acyclic(s.graphs[graph].steps),
    ensures
        ({
            let (t, r) = s.graph_add_dependencies_n(graph, edges);
            let before = s.graphs[graph].steps;
            let after = t.graphs[graph].steps;
            &&& r is Ok <==> (forall|k: int|
                0 <= k < edges.len() ==> edge_fits(before, #[trigger] edges[k])) && acyclic(
                joined_edges(before, edges),
            )
            &&& r is Err ==> t == s
            &&& r is Ok ==> has_edges_too(before, edges, after) && acyclic(after)
            &&& r is Ok ==> forall|e: (usize, usize)| #[trigger]
                t.graph_edges(graph)->Ok_0.contains(e) <==> s.graph_edges(graph)->Ok_0.contains(e)
                    || edges.contains(e)
            &&& t.clock == s.clock
        }),
{
    let before = s.graphs[graph].steps;
    let (t, r) = s.graph_add_dependencies_n(graph, edges);
    assert(edges.take(0) =~= Seq::empty());
    lemma_all_edges(s, before, edges, before, 0);
    if r is Ok {
        let after = t.graphs[graph].steps;
        if edges.len() == 0 {
            assert(has_edges_too(before, edges, before));
        }
        assert forall|e: (usize, usize)| #[trigger] t.graph_edges(graph)->Ok_0.contains(e)
            <==> s.graph_edges(graph)->Ok_0.contains(e) || edges.contains(e) by {
            edges_are_listed(s, graph, e);
            edges_are_listed(t, graph, e);
            if e.1 < before.len() {
                let x = e.1 as int;
                assert(after[x] == StepView { deps: after[x].deps, ..before[x] });
                assert(after[x].deps.contains(e.0) <==> before[x].deps.contains(e.0)
                    || edges.contains((e.0, x as usize)));
            }
            if edges.contains(e) {
                let k = choose|k: int| 0 <= k < edges.len() && edges[k] == e;
                assert(edge_fits(before, edges[k]));
            }
        }
    }
}

/// A list in strictly ascending order.
pub open spec fn strictly_ascending(q: Seq<usize>) -> bool {
    forall|j: int, k: int| 0 <= j < k < q.len() ==> #[trigger] q[j] < #[trigger] q[k]
}

proof fn lemma_put_ascending(q: Seq<usize>, x: usize)
    requires
        strictly_ascending(q),
        !q.contains(x),
    ensures
        strictly_ascending(put_ascending(q, x)),
    decreases q.len(),
{
    let r = put_ascending(q, x);
    if q.len() == 0 {
    } else if q.last() <= x {
        assert(q.contains(q.last()));
        assert forall|j: int, k: int| 0 <= j < k < r.len() implies #[trigger] r[j] < #[trigger] r[k] by {
            if k == q.len() && j < q.len() - 1 {
                assert(q[j] < q[q.len() - 1]);
            }
        }
    } else {
        let p = q.drop_last();
        assert(!p.contains(x)) by {
            if p.contains(x) {
                let k = choose|k: int| 0 <= k < p.len() && p[k] == x;
                assert(q[k] == x);
            }
        }
        lemma_put_ascending(p, x);
        let m = put_ascending(p, x);
        assert forall|j: int, k: int| 0 <= j < k < r.len() implies #[trigger] r[j] < #[trigger] r[k] by {
            if k == m.len() {
                assert(m.contains(m[j]));
                putting_adds(p, x, m[j]);
                if p.contains(m[j]) {
                    let i = choose|i: int| 0 <= i < p.len() && p[i] == m[j];
                    assert(q[i] < q[q.len() - 1]);
                }
            }
        }
    }
}

/// Sorting a list without duplicates gives it in strictly ascending order.
pub proof fn sorting_orders(q: Seq<usize>)
    requires
        q.no_duplicates(),
    ensures
        strictly_ascending(ascending(q)),
    decreases q.len(),
{
    if q.len() > 0 {
        let p = q.drop_last();
        assert(p.no_duplicates());
        sorting_orders(p);
        sorting_keeps(p, q.last());
        assert(!p.contains(q.last())) by {
            if p.contains(q.last()) {
                let k = choose|k: int| 0 <= k < p.len() && p[k] == q.last();
                assert(q[k] == q[q.len() - 1]);
            }
        }
        lemma_put_ascending(ascending(p), q.last());
    }
}

/// Dropping an element keeps the order and the others.
pub proof fn dropping_keeps(q: Seq<usize>, x: usize)
    ensures
        strictly_ascending(q) ==> strictly_ascending(without(q, x)),
        forall|y: usize| #[trigger] without(q, x).contains(y) <==> q.contains(y) && y != x,
        !q.contains(x) ==> without(q, x) == q,
    decreases q.len(),
{
    if q.len() > 0 {
        let p = q.drop_last();
        dropping_keeps(p, x);
        let m = without(p, x);
        let r = without(q, x);
        assert(q =~= p.push(q.last()));
        assert forall|y: usize| #[trigger] r.contains(y) <==> q.contains(y) && y != x by {
            pushing_adds(p, q.last(), y);
            pushing_adds(m, q.last(), y);
        }
        if strictly_ascending(q) {
            assert(strictly_ascending(p)) by {
                assert forall|j: int, k: int| 0 <= j < k < p.len() implies #[trigger] p[j]
                    < #[trigger] p[k] by {
                    assert(q[j] < q[k]);
                }
            }
            assert forall|j: int, k: int| 0 <= j < k < r.len() implies #[trigger] r[j]
                < #[trigger] r[k] by {
                if k == m.len() {
                    assert(m.contains(m[j]));
                    let i = choose|i: int| 0 <= i < p.len() && p[i] == m[j];
                    assert(q[i] < q[q.len() - 1]);
                }
            }
        }
        if !q.contains(x) {
            pushing_adds(p, q.last(), x);
        }
    }
}

/// Two strictly ascending lists of the same elements are one.
pub proof fn same_ascending_list(p: Seq<usize>, q: Seq<usize>)
    requires
        strictly_ascending(p),
        strictly_ascending(q),
        forall|y: usize| #[trigger] p.contains(y) <==> q.contains(y),
    ensures
        p == q,
{
    let d = q.to_set();
    assert(lists(q, d)) by {
        assert forall|k: usize| #[trigger] q.contains(k) <==> d.contains(k) by {}
    }
    assert(lists(p, d)) by {
        assert forall|k: usize| #[trigger] p.contains(k) <==> d.contains(k) by {
            assert(q.contains(k) <==> d.contains(k));
        }
    }
    lemma_order_unique(p, d);
    lemma_order_unique(q, d);
}

/// Removing an edge that is not there changes nothing.
pub proof fn missing_edge_stays_missing(s: SimState, graph: GraphId, from: usize, to: usize)
    requires
        s.capturing is None,
        s.graphs.contains_key(graph),
        !s.graphs[graph].instantiated,
        edge_fits(s.graphs[graph].steps, (from, to)),
        !s.graphs[graph].steps[to as int].deps.contains(from),
    ensures
        s.graph_remove_dependencies(graph, from, to) == (s, Ok::<(), SimError>(())),
{
    let steps = s.graphs[graph].steps;
    let edges = seq![(from, to)];
    lemma_removed(s, graph, from, to);
    dropping_keeps(steps[to as int].deps, from);
    let step = StepView { deps: without(steps[to as int].deps, from), ..steps[to as int] };
    assert(steps.update(to as int, step) =~= steps);
    assert(s.graphs.insert(graph, s.graphs[graph]) =~= s.graphs);
}

proof fn lemma_removed(s: SimState, graph: GraphId, from: usize, to: usize)
    requires
        s.capturing is None,
        s.graphs.contains_key(graph),
        !s.graphs[graph].instantiated,
        edge_fits(s.graphs[graph].steps, (from, to)),
    ensures
        ({
            let g = s.graphs[graph];
            let step = StepView {
                deps: without(g.steps[to as int].deps, from),
                ..g.steps[to as int]
            };
            let h = GraphView { steps: g.steps.update(to as int, step), ..g };
            s.graph_remove_dependencies(graph, from, to) == (
                SimState { graphs: s.graphs.insert(graph, h), ..s },
                Ok::<(), SimError>(()),
            )
        }),
{
    let steps = s.graphs[graph].steps;
    let edges = seq![(from, to)];
    assert(edges[0] == (from, to));
    assert(s.edges_ok(steps, edges) is Ok) by {
        let f = |i: int| s.edges_ok_at(steps, edges, i);
        lemma_ok_each(edges.len(), f);
        assert forall|i: int| 0 <= i < edges.len() implies #[trigger] f(i) is Ok by {
            assert(s.edges_ok_at(steps, edges, 0) is Ok);
        }
    }
    reveal_with_fuel(SimState::without_edges_from, 2);
}

/// Removing an edge that was added gives back the graph as it was, its edges in the same order.
pub proof fn added_edge_is_removed(s: SimState, graph: GraphId, from: usize, to: usize)
    requires
        s.graph_add_dependencies(graph, from, to).1 is Ok,
        s.graphs.contains_key(graph),
        !s.graphs[graph].steps[to as int].deps.contains(from),
        strictly_ascending(s.graphs[graph].steps[to as int].deps),
    ensures
        s.graph_add_dependencies(graph, from, to).0.graph_remove_dependencies(graph, from, to) == (
            s,
            Ok::<(), SimError>(()),
        ),
        s.graph_remove_dependencies(graph, from, to) == (s, Ok::<(), SimError>(())),
{
    let t = s.graph_add_dependencies(graph, from, to).0;
    let edges = seq![(from, to)];
    assert(edges[0] == (from, to));
    reveal_with_fuel(SimState::with_edges_from, 2);
    let g = s.graphs[graph];
    let deps = g.steps[to as int].deps;
    assert(edge_fits(g.steps, (from, to)));
    let longer = deps.push(from);
    let put = ascending(longer);
    assert(longer.no_duplicates()) by {
        assert forall|i: int, j: int| 0 <= i < longer.len() && 0 <= j < longer.len() && i != j
            implies longer[i] != longer[j] by {
            if i < deps.len() && j < deps.len() {
                if i < j {
                    assert(deps[i] < deps[j]);
                } else {
                    assert(deps[j] < deps[i]);
                }
            } else if i < deps.len() {
                assert(deps.contains(deps[i]));
            } else {
                assert(deps.contains(deps[j]));
            }
        }
    }
    sorting_orders(longer);
    dropping_keeps(put, from);
    assert forall|y: usize| #[trigger] without(put, from).contains(y) <==> deps.contains(y) by {
        sorting_keeps(longer, y);
        pushing_adds(deps, from, y);
    }
    same_ascending_list(without(put, from), deps);
    let step = StepView { deps: put, ..g.steps[to as int] };
    let h = GraphView { steps: g.steps.update(to as int, step), ..g };
    assert(t.graphs == s.graphs.insert(graph, h));
    assert(edge_fits(h.steps, (from, to)));
    lemma_removed(t, graph, from, to);
    assert(h.steps.update(to as int, StepView { deps, ..h.steps[to as int] }) =~= g.steps);
    assert(s.graphs.insert(graph, h).insert(graph, g) =~= s.graphs);
    missing_edge_stays_missing(s, graph, from, to);
}

} // verus!
