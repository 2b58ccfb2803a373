//! What the listings of a graph hold, and how far time advances.
use vstd::prelude::*;
use crate::ids::GraphId;
use crate::list::{count_where, joined_up, lemma_count_bound, lemma_count_positive, picked};
use crate::num::{min_u64, mul_sat};
use crate::sim::SimState;
use crate::state::{GraphView, Share};

verus! {

/// A list holds, in ascending order, the numbers below `n` that `pick` picks.
pub open spec fn holds_picked(q: Seq<usize>, n: int, pick: spec_fn(int) -> bool) -> bool {
    &&& forall|j: int, k: int| 0 <= j < k < q.len() ==> #[trigger] q[j] < #[trigger] q[k]
    &&& forall|x: usize| #[trigger] q.contains(x) <==> x < n && pick(x as int)
}

proof fn lemma_picked(q: Seq<usize>, n: int, pick: spec_fn(int) -> bool)
    requires
        holds_picked(q, n, pick),
        0 <= n < usize::MAX,
    ensures
        pick(n) ==> holds_picked(q.push(n as usize), n + 1, pick),
        !pick(n) ==> holds_picked(q, n + 1, pick),
{
    let r = q.push(n as usize);
    if pick(n) {
        assert forall|j: int, k: int| 0 <= j < k < r.len() implies #[trigger] r[j] < #[trigger] r[k] by {
            if k == q.len() {
                assert(q.contains(q[j]));
            }
        }
        assert forall|x: usize| #[trigger] r.contains(x) <==> x < n + 1 && pick(x as int) by {
            if r.contains(x) {
                let j = choose|j: int| 0 <= j < r.len() && r[j] == x;
                if j < q.len() {
                    assert(q.contains(q[j]));
                }
            }
            if x < n && pick(x as int) {
                assert(q.contains(x));
                let j = choose|j: int| 0 <= j < q.len() && q[j] == x;
                assert(r[j] == x);
            }
            if x == n {
                assert(r[q.len() as int] == x);
            }
        }
    }
}

/// The nodes that are not destroyed.
pub open spec fn live_nodes(g: GraphView) -> spec_fn(int) -> bool {
    |i: int| !g.steps[i].destroyed
}

/// The nodes that are not destroyed and depend on none.
pub open spec fn root_nodes(g: GraphView) -> spec_fn(int) -> bool {
    |i: int| !g.steps[i].destroyed && g.steps[i].deps.len() == 0
}

/// The nodes that are not destroyed and depend on `node`.
pub open spec fn dependents(g: GraphView, node: usize) -> spec_fn(int) -> bool {
    |i: int| !g.steps[i].destroyed && g.steps[i].deps.contains(node)
}

proof fn lemma_positions(n: nat, f: spec_fn(int) -> Option<usize>, pick: spec_fn(int) -> bool)
    requires
        n < usize::MAX,
        forall|i: int|
            0 <= i < n ==> #[trigger] f(i) == if pick(i) {
                Some(i as usize)
            } else {
                None
            },
    ensures
        holds_picked(picked(n, f), n as int, pick),
    decreases n,
{
    if n > 0 {
        let m = (n - 1) as nat;
        lemma_positions(m, f, pick);
        lemma_picked(picked(m, f), m as int, pick);
        assert(f(m as int) == if pick(m as int) {
            Some(m as usize)
        } else {
            None
        });
    }
}

/// The nodes of a graph are those that are not destroyed, in ascending order.
pub proof fn nodes_are_listed(s: SimState, graph: GraphId)
    requires
        s.graphs.contains_key(graph),
        s.graphs[graph].steps.len() < usize::MAX,
    ensures
        s.graph_nodes(graph) is Ok,
        holds_picked(
            s.graph_nodes(graph)->Ok_0,
            s.graphs[graph].steps.len() as int,
            live_nodes(s.graphs[graph]),
        ),
{
    let g = s.graphs[graph];
    lemma_positions(g.steps.len(), |i: int| s.graph_nodes_at(g, i), live_nodes(g));
}

/// The roots of a graph are its nodes without a dependency, in ascending order.
pub proof fn roots_are_listed(s: SimState, graph: GraphId)
    requires
        s.graphs.contains_key(graph),
        s.graphs[graph].steps.len() < usize::MAX,
    ensures
        s.graph_root_nodes(graph) is Ok,
        holds_picked(
            s.graph_root_nodes(graph)->Ok_0,
            s.graphs[graph].steps.len() as int,
            root_nodes(s.graphs[graph]),
        ),
{
    let g = s.graphs[graph];
    lemma_positions(g.steps.len(), |i: int| s.graph_root_nodes_at(g, i), root_nodes(g));
}

/// The dependents of a node are the nodes that depend on it, in ascending order.
pub proof fn dependents_are_listed(s: SimState, graph: GraphId, node: usize)
    requires
        s.graphs.contains_key(graph),
        s.graphs[graph].steps.len() < usize::MAX,
        s.graph_node_dependents(graph, node) is Ok,
    ensures
        holds_picked(
            s.graph_node_dependents(graph, node)->Ok_0,
            s.graphs[graph].steps.len() as int,
            dependents(s.graphs[graph], node),
        ),
{
    let g = s.graphs[graph];
    lemma_positions(
        g.steps.len(),
        |j: int| s.graph_node_dependents_at(node, g, j),
        dependents(g, node),
    );
}

/// Whether a graph has the edge from one node to another, below node `n`.
pub open spec fn has_edge(g: GraphView, n: int, e: (usize, usize)) -> bool {
    &&& e.1 < n
    &&& !g.steps[e.1 as int].destroyed
    &&& g.steps[e.1 as int].deps.contains(e.0)
}

proof fn lemma_edges(s: SimState, g: GraphView, n: nat, e: (usize, usize))
    requires
        n <= g.steps.len() < usize::MAX,
    ensures
        joined_up(n, |i: int| s.graph_edges_at(g, i)).contains(e) <==> has_edge(g, n as int, e),
    decreases n,
{
    if n > 0 {
        let m = (n - 1) as nat;
        lemma_edges(s, g, m, e);
        let at = |i: int| s.graph_edges_at(g, i);
        let out = joined_up(m, at);
        let step = g.steps[m as int];
        let more = at(m as int);
        let r = out + more;
        assert(joined_up(n, at) == r);
        if out.contains(e) {
            let j = choose|j: int| 0 <= j < out.len() && out[j] == e;
            assert(r[j] == e);
        }
        if e.1 == m && !step.destroyed && step.deps.contains(e.0) {
            let j = choose|j: int| 0 <= j < step.deps.len() && step.deps[j] == e.0;
            assert(more[j] == e);
            assert(r[out.len() + j] == e);
        }
        if r.contains(e) {
            let j = choose|j: int| 0 <= j < r.len() && r[j] == e;
            if j < out.len() {
                assert(out.contains(out[j]));
            } else {
                assert(more[j - out.len()] == e);
                assert(step.deps.contains(step.deps[j - out.len()]));
            }
        }
    }
}

/// The edges of a graph are those of its nodes that are not destroyed.
pub proof fn edges_are_listed(s: SimState, graph: GraphId, e: (usize, usize))
    requires
        s.graphs.contains_key(graph),
        s.graphs[graph].steps.len() < usize::MAX,
    ensures
        s.graph_edges(graph) is Ok,
        s.graph_edges(graph)->Ok_0.contains(e) <==> has_edge(
            s.graphs[graph],
            s.graphs[graph].steps.len() as int,
            e,
        ),
{
    lemma_edges(s, s.graphs[graph], s.graphs[graph].steps.len(), e);
}

/// Time that an operation in flight still takes at its present share.
pub open spec fn time_left(s: SimState, i: int) -> u64 {
    mul_sat(s.running[i].remaining_ns, s.share_n(s.running[i].share))
}

proof fn lemma_next_completion(s: SimState, dt: u64, i: int)
    requires
        0 <= i <= s.running.len(),
    ensures
        s.next_completion_dt_from(dt, i) <= dt,
        forall|j: int|
            i <= j < s.running.len() ==> s.next_completion_dt_from(dt, i) <= #[trigger] time_left(
                s,
                j,
            ),
        s.next_completion_dt_from(dt, i) == dt || exists|j: int|
            i <= j < s.running.len() && s.next_completion_dt_from(dt, i) == #[trigger] time_left(
                s,
                j,
            ),
    decreases s.running.len() - i,
{
    if i < s.running.len() {
        let d = min_u64(dt, time_left(s, i));
        lemma_next_completion(s, d, i + 1);
        assert(time_left(s, i) >= d);
    }
}

/// Time advances to the first completion and no further: no operation in flight has less left.
pub proof fn time_stops_at_first_end(s: SimState)
    ensures
        forall|j: int|
            0 <= j < s.running.len() ==> s.next_completion_dt() <= #[trigger] time_left(s, j),
        s.next_completion_dt() < u64::MAX ==> exists|j: int|
            0 <= j < s.running.len() && s.next_completion_dt() == #[trigger] time_left(s, j),
        s.next_dt() <= s.next_completion_dt() || s.next_dt() == 1,
{
    lemma_next_completion(s, u64::MAX, 0);
}

/// Transfers on one link share it: each progresses at the rate of the link over their number.
pub proof fn link_is_shared(s: SimState, link: usize, i: int, dt: u64)
    requires
        s.running.len() <= u64::MAX,
        0 <= i < s.running.len(),
        s.running[i].share == Share::Link(link),
    ensures
        ({
            let n = count_where(s.running.len(), |k: int| s.link_load_at(link, k));
            &&& n >= 1
            &&& s.drain(dt).running[i].remaining_ns == s.running[i].remaining_ns.saturating_sub(
                (dt / (n as u64)) as u64,
            )
        }),
{
    let hit = |k: int| s.link_load_at(link, k);
    lemma_count_bound(s.running.len(), hit);
    lemma_count_positive(s.running.len(), hit, i);
}

} // verus!
