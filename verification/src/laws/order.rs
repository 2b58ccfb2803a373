//! Launch order and dependencies of graph nodes.
use vstd::prelude::*;
use crate::error::SimError;
use crate::ids::GraphId;
use crate::list::{ascending, put_ascending};
use crate::sim::SimState;
use crate::state::StepView;
use crate::topo::{
    acyclic, depends, deps_well_formed, first_ready, graph_well_formed, is_path, launch_order,
    node_ready, place_ready, reaches,
};
use vstd::set_lib::{lemma_int_range, lemma_len_subset, lemma_subset_equality, set_int_range};

verus! {

/// Every node of the list is a node of the graph, comes once, and comes after its dependencies.
pub open spec fn placed_in_order(steps: Seq<StepView>, placed: Seq<usize>) -> bool {
    &&& placed.no_duplicates()
    &&& forall|p: int| 0 <= p < placed.len() ==> (#[trigger] placed[p]) < steps.len()
    &&& forall|p: int, d: usize|
        0 <= p < placed.len() && #[trigger] steps[placed[p] as int].deps.contains(d)
            ==> #[trigger] placed.take(p).contains(d)
}

proof fn lemma_first_ready(steps: Seq<StepView>, placed: Seq<usize>, i: int)
    requires
        0 <= i,
        steps.len() <= usize::MAX,
    ensures
        match first_ready(steps, placed, i) {
            Some(n) => i <= n < steps.len() && node_ready(steps, placed, n as int),
            None => forall|k: int| i <= k < steps.len() ==> !#[trigger] node_ready(
                steps,
                placed,
                k,
            ),
        },
    decreases steps.len() - i,
{
    if i < steps.len() && !node_ready(steps, placed, i) {
        lemma_first_ready(steps, placed, i + 1);
    }
}

proof fn lemma_place_one(steps: Seq<StepView>, placed: Seq<usize>, n: usize)
    requires
        placed_in_order(steps, placed),
        n < steps.len(),
        node_ready(steps, placed, n as int),
    ensures
        placed_in_order(steps, placed.push(n)),
{
    let q = placed.push(n);
    assert forall|a: int, b: int| 0 <= a < b < q.len() implies q[a] != q[b] by {
        if b == placed.len() {
            assert(placed.contains(placed[a]));
        }
    }
    assert(q.no_duplicates());
    assert forall|p: int, d: usize|
        0 <= p < q.len() && #[trigger] steps[q[p] as int].deps.contains(d) implies #[trigger] q.take(
        p,
    ).contains(d) by {
        if p < placed.len() {
            assert(q.take(p) =~= placed.take(p));
            assert(steps[placed[p] as int].deps.contains(d));
        } else {
            assert(q.take(p) =~= placed);
            let deps = steps[n as int].deps;
            let k = choose|k: int| 0 <= k < deps.len() && deps[k] == d;
            assert(placed.contains(deps[k]));
        }
    }
}

proof fn lemma_placing(steps: Seq<StepView>, placed: Seq<usize>, left: nat)
    requires
        placed_in_order(steps, placed),
        steps.len() <= usize::MAX,
    ensures
        placed_in_order(steps, place_ready(steps, placed, left)),
        place_ready(steps, placed, left).len() <= placed.len() + left,
        place_ready(steps, placed, left).len() < placed.len() + left ==> first_ready(
            steps,
            place_ready(steps, placed, left),
            0,
        ) is None,
    decreases left,
{
    lemma_first_ready(steps, placed, 0);
    match first_ready(steps, placed, 0) {
        Some(i) => {
            if left > 0 {
                lemma_place_one(steps, placed, i);
                lemma_placing(steps, placed.push(i), (left - 1) as nat);
            }
        },
        None => {},
    }
}

/// As many different numbers below `n` as there are make up all of them.
proof fn lemma_all_listed(q: Seq<usize>, n: nat)
    requires
        q.no_duplicates(),
        forall|p: int| 0 <= p < q.len() ==> (#[trigger] q[p]) < n,
    ensures
        q.len() <= n,
        q.len() == n ==> forall|i: int| 0 <= i < n ==> #[trigger] q.contains(i as usize),
{
    let ints = q.map_values(|x: usize| x as int);
    assert(ints.no_duplicates());
    ints.unique_seq_to_set();
    lemma_int_range(0, n as int);
    let all = set_int_range(0, n as int);
    assert(ints.to_set().subset_of(all)) by {
        assert forall|x: int| ints.to_set().contains(x) implies all.contains(x) by {
            let p = choose|p: int| 0 <= p < ints.len() && ints[p] == x;
            assert(q[p] < n);
        }
    }
    lemma_len_subset(ints.to_set(), all);
    if q.len() == n {
        lemma_subset_equality(ints.to_set(), all);
        assert forall|i: int| 0 <= i < n implies #[trigger] q.contains(i as usize) by {
            assert(all.contains(i));
            assert(ints.to_set().contains(i));
            let p = choose|p: int| 0 <= p < ints.len() && ints[p] == i;
            assert(q[p] == i);
            assert(q[p] == i as usize);
        }
    }
}

/// A launch order lists every node once, each behind its dependencies.
pub proof fn launch_order_respects_dependencies(steps: Seq<StepView>, order: Seq<usize>)
    requires
        steps.len() <= usize::MAX,
        launch_order(steps) == Ok::<Seq<usize>, SimError>(order),
    ensures
        order.len() == steps.len(),
        placed_in_order(steps, order),
        forall|i: int| 0 <= i < steps.len() ==> #[trigger] order.contains(i as usize),
{
    lemma_placing(steps, Seq::empty(), steps.len());
    lemma_all_listed(order, steps.len());
}

/// Position of a node in an order that lists it.
spec fn place(order: Seq<usize>, x: usize) -> int {
    choose|p: int| 0 <= p < order.len() && order[p] == x
}

proof fn lemma_dependency_earlier(steps: Seq<StepView>, order: Seq<usize>, x: usize, d: usize)
    requires
        placed_in_order(steps, order),
        order.contains(x),
        steps[x as int].deps.contains(d),
    ensures
        order.contains(d),
        0 <= place(order, d) < place(order, x) < order.len(),
{
    let p = place(order, x);
    assert(steps[order[p] as int].deps.contains(d));
    assert(order.take(p).contains(d));
    let q = choose|q: int| 0 <= q < order.take(p).len() && order.take(p)[q] == d;
    assert(order[q] == d);
    let r = place(order, d);
    assert(order[r] == d && order[q] == d);
    assert(r == q);
}

proof fn lemma_walk_advances(steps: Seq<StepView>, order: Seq<usize>, p: Seq<usize>, k: int)
    requires
        placed_in_order(steps, order),
        forall|i: int| 0 <= i < steps.len() ==> #[trigger] order.contains(i as usize),
        is_path(steps, p),
        0 < k < p.len(),
    ensures
        order.contains(p[0]),
        order.contains(p[k]),
        place(order, p[0]) < place(order, p[k]),
    decreases k,
{
    assert(depends(steps, p[k], p[k - 1]));
    assert(order.contains(p[k] as int as usize));
    lemma_dependency_earlier(steps, order, p[k], p[k - 1]);
    if k > 1 {
        lemma_walk_advances(steps, order, p, k - 1);
    }
}

/// Only graphs without cycles have a launch order.
pub proof fn ordered_graph_is_acyclic(steps: Seq<StepView>)
    requires
        steps.len() <= usize::MAX,
        launch_order(steps) is Ok,
    ensures
        acyclic(steps),
{
    let order = launch_order(steps)->Ok_0;
    launch_order_respects_dependencies(steps, order);
    assert forall|p: Seq<usize>| #[trigger] is_path(steps, p) && p.len() > 1 implies p[0]
        != p.last() by {
        lemma_walk_advances(steps, order, p, p.len() - 1);
    }
}

/// A walk backwards over nodes that are not placed: each one has such a dependency.
spec fn backwards(steps: Seq<StepView>, placed: Seq<usize>, w: Seq<usize>) -> bool {
    &&& forall|k: int| 0 <= k < w.len() ==> (#[trigger] w[k]) < steps.len() && !placed.contains(w[k])
    &&& forall|k: int| 0 < k < w.len() ==> #[trigger] depends(steps, w[k - 1], w[k])
}

proof fn lemma_step_back(steps: Seq<StepView>, placed: Seq<usize>, v: Seq<usize>, d: usize)
    requires
        backwards(steps, placed, v),
        v.len() > 0,
        d < steps.len(),
        !placed.contains(d),
        steps[v.last() as int].deps.contains(d),
    ensures
        backwards(steps, placed, v.push(d)),
{
    let w = v.push(d);
    assert forall|j: int| 0 <= j < w.len() implies (#[trigger] w[j]) < steps.len()
        && !placed.contains(w[j]) by {
        if j < v.len() {
            assert(v[j] < steps.len());
        }
    }
    assert forall|j: int| 0 < j < w.len() implies #[trigger] depends(steps, w[j - 1], w[j]) by {
        if j < v.len() {
            assert(depends(steps, v[j - 1], v[j]));
        } else {
            assert(v[j - 1] < steps.len());
        }
    }
}

/// Where no node is ready, a node that is not placed has a dependency that is not placed.
proof fn lemma_unplaced_dependency(steps: Seq<StepView>, placed: Seq<usize>, x: usize) -> (d: usize)
    requires
        graph_well_formed(steps),
        steps.len() <= usize::MAX,
        first_ready(steps, placed, 0) is None,
        x < steps.len(),
        !placed.contains(x),
    ensures
        d < steps.len(),
        !placed.contains(d),
        steps[x as int].deps.contains(d),
{
    lemma_first_ready(steps, placed, 0);
    assert(!node_ready(steps, placed, x as int));
    let deps = steps[x as int].deps;
    let k = choose|k: int| 0 <= k < deps.len() && !placed.contains(#[trigger] deps[k]);
    assert(deps_well_formed(deps, x as int, steps.len()));
    deps[k]
}

proof fn lemma_walk_back(
    steps: Seq<StepView>,
    placed: Seq<usize>,
    start: usize,
    n: nat,
) -> (w: Seq<usize>)
    requires
        graph_well_formed(steps),
        steps.len() <= usize::MAX,
        first_ready(steps, placed, 0) is None,
        start < steps.len(),
        !placed.contains(start),
    ensures
        w.len() == n + 1,
        backwards(steps, placed, w),
    decreases n,
{
    if n == 0 {
        seq![start]
    } else {
        let v = lemma_walk_back(steps, placed, start, (n - 1) as nat);
        assert(v[v.len() - 1] < steps.len());
        let d = lemma_unplaced_dependency(steps, placed, v.last());
        lemma_step_back(steps, placed, v, d);
        v.push(d)
    }
}

/// A walk backwards that comes to a node again goes round a cycle.
proof fn lemma_cycle(steps: Seq<StepView>, placed: Seq<usize>, w: Seq<usize>, a: int, b: int)
    requires
        backwards(steps, placed, w),
        0 <= a < b < w.len(),
        w[a] == w[b],
    ensures
        !acyclic(steps),
{
    let p = Seq::new((b - a + 1) as nat, |k: int| w[b - k]);
    assert forall|k: int| 0 < k < p.len() implies #[trigger] depends(steps, p[k], p[k - 1]) by {
        let j = b - k + 1;
        assert(depends(steps, w[j - 1], w[j]));
    }
    assert(is_path(steps, p));
    assert(p[0] == p.last());
}

/// Every graph without cycles, whose nodes name other nodes as dependencies, each once, has a
/// launch order.
pub proof fn acyclic_graph_has_order(steps: Seq<StepView>)
    requires
        steps.len() <= usize::MAX,
        graph_well_formed(steps),
        acyclic(steps),
    ensures
        launch_order(steps) is Ok,
{
    let n = steps.len();
    let order = place_ready(steps, Seq::empty(), n);
    lemma_placing(steps, Seq::empty(), n);
    if order.len() < n {
        lemma_all_listed(order, n);
        let start = choose|i: int| 0 <= i < n && !#[trigger] order.contains(i as usize);
        if forall|i: int| 0 <= i < n ==> #[trigger] order.contains(i as usize) {
            lemma_range_fits(order, n);
        }
        let w = lemma_walk_back(steps, order, start as usize, n);
        assert(!w.no_duplicates()) by {
            if w.no_duplicates() {
                lemma_all_listed(w, n);
            }
        }
        let (a, b) = choose|a: int, b: int| 0 <= a < b < w.len() && w[a] == w[b];
        lemma_cycle(steps, order, w, a, b);
    }
}

/// A list that holds every number below `n` is at least that long.
proof fn lemma_range_fits(q: Seq<usize>, n: nat)
    requires
        n <= usize::MAX,
        forall|i: int| 0 <= i < n ==> #[trigger] q.contains(i as usize),
    ensures
        q.len() >= n,
{
    let ints = q.map_values(|x: usize| x as int);
    lemma_int_range(0, n as int);
    let all = set_int_range(0, n as int);
    assert forall|i: int| all.contains(i) implies ints.to_set().contains(i) by {
        assert(q.contains(i as usize));
        let p = choose|p: int| 0 <= p < q.len() && q[p] == i as usize;
        assert(ints[p] == i);
    }
    ints.lemma_cardinality_of_set();
    lemma_len_subset(all, ints.to_set());
}

/// `b` is `a` with one more edge.
pub open spec fn edge_added(a: Seq<StepView>, b: Seq<StepView>, from: usize, to: usize) -> bool {
    &&& b.len() == a.len()
    &&& forall|x: int, y: usize|
        0 <= x < a.len() ==> (#[trigger] b[x].deps.contains(y) <==> a[x].deps.contains(y) || (x == to
            && y == from))
}

/// A walk that never takes the new edge was there before.
proof fn lemma_old_walk(a: Seq<StepView>, b: Seq<StepView>, from: usize, to: usize, p: Seq<usize>)
    requires
        edge_added(a, b, from, to),
        is_path(b, p),
        forall|k: int| 0 < k < p.len() ==> !(p[k - 1] == from && #[trigger] p[k] == to),
    ensures
        is_path(a, p),
{
    assert forall|k: int| 0 < k < p.len() implies #[trigger] depends(a, p[k], p[k - 1]) by {
        assert(depends(b, p[k], p[k - 1]));
        assert(!(p[k - 1] == from && p[k] == to));
    }
}

/// Where a walk leads from `to` to `from` with the new edge, one does without it.
proof fn lemma_return_walk(
    a: Seq<StepView>,
    b: Seq<StepView>,
    from: usize,
    to: usize,
    p: Seq<usize>,
)
    requires
        edge_added(a, b, from, to),
        is_path(b, p),
        p[0] == to,
        p.last() == from,
    ensures
        reaches(a, to, from),
    decreases p.len(),
{
    if forall|k: int| 0 < k < p.len() ==> !(p[k - 1] == from && #[trigger] p[k] == to) {
        lemma_old_walk(a, b, from, to, p);
    } else {
        let k = choose|k: int| 0 < k < p.len() && p[k - 1] == from && #[trigger] p[k] == to;
        let q = p.take(k);
        assert(is_path(b, q)) by {
            assert forall|j: int| 0 < j < q.len() implies #[trigger] depends(b, q[j], q[j - 1]) by {
                assert(depends(b, p[j], p[j - 1]));
            }
        }
        lemma_return_walk(a, b, from, to, q);
    }
}

/// An edge from `from` to `to` closes no cycle where no walk leads from `to` to `from`.
pub proof fn edge_keeps_acyclic(a: Seq<StepView>, b: Seq<StepView>, from: usize, to: usize)
    requires
        acyclic(a),
        edge_added(a, b, from, to),
        !reaches(a, to, from),
    ensures
        acyclic(b),
{
    assert forall|p: Seq<usize>| #[trigger] is_path(b, p) && p.len() > 1 implies p[0]
        != p.last() by {
        if p[0] == p.last() {
            if forall|k: int| 0 < k < p.len() ==> !(p[k - 1] == from && #[trigger] p[k] == to) {
                lemma_old_walk(a, b, from, to, p);
            } else {
                let k = choose|k: int| 0 < k < p.len() && p[k - 1] == from && #[trigger] p[k] == to;
                let q = p.skip(k) + p.subrange(1, k);
                assert(is_path(b, q)) by {
                    let m = p.len() - k;
                    assert forall|j: int| 0 < j < q.len() implies #[trigger] depends(
                        b,
                        q[j],
                        q[j - 1],
                    ) by {
                        if j < m {
                            assert(q[j] == p[k + j]);
                            assert(depends(b, p[k + j], p[k + j - 1]));
                        } else {
                            assert(q[j] == p[1 + j - m]);
                            assert(depends(b, p[1 + j - m], p[1 + j - m - 1]));
                            if j == m {
                                assert(q[j - 1] == p.last());
                            } else {
                                assert(q[j - 1] == p[j - m]);
                            }
                        }
                    }
                }
                assert(q[0] == to);
                if k > 1 {
                    assert(q.last() == p[k - 1]);
                } else {
                    assert(p.subrange(1, k).len() == 0);
                    assert(q.last() == p.last());
                }
                lemma_return_walk(a, b, from, to, q);
            }
        }
    }
}

/// Inserting in order adds one element.
pub proof fn putting_adds(q: Seq<usize>, x: usize, y: usize)
    ensures
        put_ascending(q, x).contains(y) <==> q.contains(y) || y == x,
    decreases q.len(),
{
    let r = put_ascending(q, x);
    if q.len() == 0 || q.last() <= x {
        pushing_adds(q, x, y);
    } else {
        putting_adds(q.drop_last(), x, y);
        pushing_adds(put_ascending(q.drop_last(), x), q.last(), y);
        pushing_adds(q.drop_last(), q.last(), y);
        assert(q.drop_last().push(q.last()) =~= q);
    }
}

/// Pushing adds one element.
pub proof fn pushing_adds(q: Seq<usize>, x: usize, y: usize)
    ensures
        q.push(x).contains(y) <==> q.contains(y) || y == x,
{
    let r = q.push(x);
    if q.contains(y) {
        let k = choose|k: int| 0 <= k < q.len() && q[k] == y;
        assert(r[k] == y);
    }
    if r.contains(y) {
        let k = choose|k: int| 0 <= k < r.len() && r[k] == y;
        if k < q.len() {
            assert(q[k] == y);
        }
    }
    assert(r[q.len() as int] == x);
}

/// Sorting keeps what a list holds.
pub proof fn sorting_keeps(q: Seq<usize>, y: usize)
    ensures
        ascending(q).contains(y) <==> q.contains(y),
    decreases q.len(),
{
    if q.len() > 0 {
        sorting_keeps(q.drop_last(), y);
        putting_adds(ascending(q.drop_last()), q.last(), y);
        pushing_adds(q.drop_last(), q.last(), y);
        assert(q.drop_last().push(q.last()) =~= q);
    }
}

/// One more edge that is accepted closes no cycle.
pub proof fn edge_stays_acyclic(s: SimState, steps: Seq<StepView>, from: usize, to: usize)
    requires
        acyclic(steps),
        s.with_edge(steps, from, to) is Ok,
    ensures
        acyclic(s.with_edge(steps, from, to)->Ok_0),
{
    let out = s.with_edge(steps, from, to)->Ok_0;
    if !steps[to as int].deps.contains(from) {
        assert forall|x: int, y: usize| 0 <= x < steps.len() implies (#[trigger] out[x].deps.contains(y)
            <==> steps[x].deps.contains(y) || (x == to && y == from)) by {
            let longer = steps[to as int].deps.push(from);
            sorting_keeps(longer, y);
            pushing_adds(steps[to as int].deps, from, y);
        }
        edge_keeps_acyclic(steps, out, from, to);
    }
}

proof fn lemma_with_edges(
    s: SimState,
    edges: Seq<(usize, usize)>,
    steps: Seq<StepView>,
    i: int,
)
    requires
        acyclic(steps),
        s.with_edges_from(edges, steps, i) is Ok,
    ensures
        acyclic(s.with_edges_from(edges, steps, i)->Ok_0),
    decreases edges.len() - i,
{
    if 0 <= i < edges.len() {
        edge_stays_acyclic(s, steps, edges[i].0, edges[i].1);
        lemma_with_edges(s, edges, s.with_edge(steps, edges[i].0, edges[i].1)->Ok_0, i + 1);
    }
}

/// Edges are added all or none, and close no cycle.
pub proof fn dependencies_stay_acyclic(s: SimState, graph: GraphId, edges: Seq<(usize, usize)>)
    requires
        s.graphs.contains_key(graph),
        acyclic(s.graphs[graph].steps),
    ensures
        ({
            let (t, r) = s.graph_add_dependencies_n(graph, edges);
            &&& r is Err ==> t == s
            &&& t.graphs.contains_key(graph)
            &&& acyclic(t.graphs[graph].steps)
        }),
{
    let steps = s.graphs[graph].steps;
    if s.with_edges(steps, edges) is Ok {
        lemma_with_edges(s, edges, steps, 0);
    }
}

} // verus!
