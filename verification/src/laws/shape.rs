//! What the nodes of a graph depend on.
use vstd::prelude::*;
use crate::error::SimError;
use crate::history::follows;
use crate::history::edit::graph_add_dependencies_n_follows;
use crate::history::shape::known_is_sound;
use crate::ids::GraphId;
use crate::laws::edges::{
    added_edge_is_removed, edge_fits, edges_are_added, has_edges_too, joined_edges,
    strictly_ascending,
};
use crate::laws::listing::{dependents, dependents_are_listed, edges_are_listed};
use crate::laws::start::fresh_is_sound;
use crate::list::{joined_up, lemma_all_ok};
use crate::ops::{GpuOpView, KernelBuf, KernelParamsView};
use crate::profile::ProfileView;
use crate::sim::SimState;
use crate::state::GraphView;
use crate::topo::{acyclic, depends, is_path};

verus! {

/// Whatever is done to a new simulator, the nodes of a graph depend only on nodes of the graph and
/// close no cycle, however the graph came about: built node by node, captured, cloned or
/// instantiated. Dependencies are listed in ascending order, each once, and the device of each node
/// is known. An executable has nodes of its own to launch, and they close no cycle either.
pub proof fn graphs_stay_acyclic(profile: ProfileView, s: SimState, graph: GraphId)
    requires
        follows(SimState::fresh(profile), s),
        s.next.graph < u32::MAX,
        s.graphs.contains_key(graph),
        s.graphs[graph].steps.len() <= usize::MAX,
    ensures
        acyclic(s.graphs[graph].steps),
        forall|x: usize, y: usize| #[trigger]
            depends(s.graphs[graph].steps, x, y) ==> y < s.graphs[graph].steps.len(),
        forall|i: int|
            0 <= i < s.graphs[graph].steps.len() ==> strictly_ascending(
                (#[trigger] s.graphs[graph].steps[i]).deps,
            ) && s.profile.gpu(s.graphs[graph].steps[i].device) is Ok,
        s.graphs[graph].instantiated ==> s.graphs[graph].snapshot is Some,
        s.graphs[graph].snapshot matches Some(q) ==> q.len() <= usize::MAX ==> acyclic(q),
{
    fresh_is_sound(profile);
    known_is_sound(SimState::fresh(profile), s, graph);
    reveal(crate::history::shape::sound_steps);
}

/// A node is listed as a dependent of another exactly where the other is listed among its
/// dependencies, and exactly where the edge between them is listed.
pub proof fn dependents_mirror_dependencies(s: SimState, graph: GraphId, i: usize, j: usize)
    requires
        s.graphs.contains_key(graph),
        s.graphs[graph].steps.len() < usize::MAX,
        s.graph_node_deps(graph, i) is Ok,
        s.graph_node_deps(graph, j) is Ok,
    ensures
        s.graph_node_dependents(graph, i) is Ok,
        s.graph_edges(graph) is Ok,
        s.graph_node_dependents(graph, i)->Ok_0.contains(j) <==> s.graph_node_deps(
            graph,
            j,
        )->Ok_0.contains(i),
        s.graph_node_dependents(graph, i)->Ok_0.contains(j) <==> s.graph_edges(
            graph,
        )->Ok_0.contains((i, j)),
        strictly_ascending(s.graph_node_dependents(graph, i)->Ok_0),
{
    dependents_are_listed(s, graph, i);
    edges_are_listed(s, graph, (i, j));
    let q = s.graph_node_dependents(graph, i)->Ok_0;
    if dependents(s.graphs[graph], i)(j as int) {
        assert(q.contains(j as int as usize));
    }
    if q.contains(j) {
        let k = choose|k: int| 0 <= k < q.len() && q[k] == j;
        assert(dependents(s.graphs[graph], i)(q[k] as int));
    }
}

/// Whatever is done to a new simulator, no node is listed among its own dependents, nor among its
/// own dependencies.
pub proof fn no_node_depends_on_itself(
    profile: ProfileView,
    s: SimState,
    graph: GraphId,
    node: usize,
)
    requires
        follows(SimState::fresh(profile), s),
        s.next.graph < u32::MAX,
        s.graphs.contains_key(graph),
        s.graphs[graph].steps.len() < usize::MAX,
        s.graph_node_deps(graph, node) is Ok,
    ensures
        !s.graph_node_deps(graph, node)->Ok_0.contains(node),
        !s.graph_node_dependents(graph, node)->Ok_0.contains(node),
{
    graphs_stay_acyclic(profile, s, graph);
    dependents_mirror_dependencies(s, graph, node, node);
    let steps = s.graphs[graph].steps;
    if depends(steps, node, node) {
        let p = seq![node, node];
        assert(is_path(steps, p)) by {
            assert forall|k: int| 0 < k < p.len() implies #[trigger] depends(
                steps,
                p[k],
                p[k - 1],
            ) by {}
        }
        assert(p[0] == p.last());
    }
}

/// Edges that lead to node `i`.
pub open spec fn edges_below(q: Seq<(usize, usize)>, i: int) -> bool {
    forall|k: int| 0 <= k < q.len() ==> (#[trigger] q[k]).1 < i
}

proof fn lemma_edges_once(s: SimState, g: GraphView, n: nat)
    requires
        n <= g.steps.len() <= usize::MAX,
        forall|i: int|
            0 <= i < g.steps.len() ==> strictly_ascending((#[trigger] g.steps[i]).deps),
    ensures
        joined_up(n, |i: int| s.graph_edges_at(g, i)).no_duplicates(),
        edges_below(joined_up(n, |i: int| s.graph_edges_at(g, i)), n as int),
    decreases n,
{
    if n > 0 {
        let f = |i: int| s.graph_edges_at(g, i);
        let m = (n - 1) as nat;
        lemma_edges_once(s, g, m);
        let a = joined_up(m, f);
        let b = f(n - 1);
        let q = joined_up(n, f);
        assert(q == a + b);
        assert(strictly_ascending(g.steps[n - 1].deps));
        assert forall|k: int| 0 <= k < b.len() implies (#[trigger] b[k]).1 == n - 1 by {}
        assert forall|j: int, k: int| 0 <= j < q.len() && 0 <= k < q.len() && j != k implies q[j]
            != q[k] by {
            if j < a.len() && k < a.len() {
                assert(a[j] != a[k]);
            } else if j < a.len() {
                assert(a[j].1 < m);
                assert(b[k - a.len()].1 == n - 1);
            } else if k < a.len() {
                assert(a[k].1 < m);
                assert(b[j - a.len()].1 == n - 1);
            } else {
                let d = g.steps[n - 1].deps;
                assert(b[j - a.len()].0 == d[j - a.len()]);
                assert(b[k - a.len()].0 == d[k - a.len()]);
            }
        }
        assert forall|k: int| 0 <= k < q.len() implies (#[trigger] q[k]).1 < n by {
            if k < a.len() {
                assert(a[k].1 < m);
            } else {
                assert(b[k - a.len()].1 == n - 1);
            }
        }
    }
}

/// Whatever is done to a new simulator, edges are added to a definition exactly where each joins two
/// different live nodes and all of them together with its edges close no cycle. The definition then
/// lists its old edges and the new ones, each once. A refusal changes nothing, and neither takes
/// time.
pub proof fn edges_join_a_definition(
    profile: ProfileView,
    s: SimState,
    graph: GraphId,
    edges: Seq<(usize, usize)>,
)
    requires
        follows(SimState::fresh(profile), s),
        s.next.graph < u32::MAX,
        s.capturing is None,
        s.graphs.contains_key(graph),
        !s.graphs[graph].instantiated,
        s.graphs[graph].steps.len() < usize::MAX,
    ensures
        ({
            let (t, r) = s.graph_add_dependencies_n(graph, edges);
            let before = s.graphs[graph].steps;
            let after = t.graphs[graph].steps;
            &&& r is Ok <==> (forall|k: int|
                0 <= k < edges.len() ==> edge_fits(before, #[trigger] edges[k])) && acyclic(
                joined_edges(before, edges),
            )
            &&& r is Err ==> t == s
            &&& r is Ok ==> has_edges_too(before, edges, after) && acyclic(after)
            &&& r is Ok ==> t.graph_edges(graph)->Ok_0.no_duplicates()
            &&& r is Ok ==> forall|e: (usize, usize)| #[trigger]
                t.graph_edges(graph)->Ok_0.contains(e) <==> s.graph_edges(graph)->Ok_0.contains(e)
                    || edges.contains(e)
            &&& t.clock == s.clock
        }),
{
    graphs_stay_acyclic(profile, s, graph);
    edges_are_added(s, graph, edges);
    let (t, r) = s.graph_add_dependencies_n(graph, edges);
    if r is Ok {
        graph_add_dependencies_n_follows(SimState::fresh(profile), s, graph, edges);
        graphs_stay_acyclic(profile, t, graph);
        lemma_edges_once(t, t.graphs[graph], t.graphs[graph].steps.len());
    }
}

/// Whatever is done to a new simulator, removing an edge that was just added gives back what was
/// there before, and removing it once more changes nothing.
pub proof fn edge_comes_and_goes(
    profile: ProfileView,
    s: SimState,
    graph: GraphId,
    from: usize,
    to: usize,
)
    requires
        follows(SimState::fresh(profile), s),
        s.next.graph < u32::MAX,
        s.graph_add_dependencies(graph, from, to).1 is Ok,
        s.graphs.contains_key(graph),
        s.graphs[graph].steps.len() <= usize::MAX,
        !s.graphs[graph].steps[to as int].deps.contains(from),
    ensures
        s.graph_add_dependencies(graph, from, to).0.graph_remove_dependencies(graph, from, to) == (
            s,
            Ok::<(), SimError>(()),
        ),
        s.graph_remove_dependencies(graph, from, to) == (s, Ok::<(), SimError>(())),
{
    graphs_stay_acyclic(profile, s, graph);
    reveal_with_fuel(SimState::with_edges_from, 2);
    assert(to < s.graphs[graph].steps.len());
    assert(strictly_ascending(s.graphs[graph].steps[to as int].deps));
    added_edge_is_removed(s, graph, from, to);
}

/// Whether a buffer lies in its allocation.
pub open spec fn buf_fits(s: SimState, b: KernelBuf) -> bool {
    &&& s.allocs.contains_key(b.id)
    &&& b.offset < s.allocs[b.id].bytes
    &&& b.offset + b.bytes <= s.allocs[b.id].bytes
}

/// Whether buffers are the given ones, with those of no length reaching the end of the allocation.
pub open spec fn bufs_resolved(s: SimState, bufs: Seq<KernelBuf>, full: Seq<KernelBuf>) -> bool {
    &&& full.len() == bufs.len()
    &&& forall|i: int|
        0 <= i < bufs.len() ==> (#[trigger] full[i]) == (KernelBuf {
            bytes: if bufs[i].bytes == 0 {
                (s.allocs[bufs[i].id].bytes - bufs[i].offset) as u64
            } else {
                bufs[i].bytes
            },
            ..bufs[i]
        })
}

proof fn lemma_bufs(s: SimState, bufs: Seq<KernelBuf>)
    requires
        forall|i: int| 0 <= i < bufs.len() ==> buf_fits(s, #[trigger] bufs[i]),
    ensures
        s.resolve_bufs(bufs) is Ok,
        bufs_resolved(s, bufs, s.resolve_bufs(bufs)->Ok_0),
{
    let f = |i: int| s.resolve_bufs_at(bufs, i);
    assert forall|i: int| 0 <= i < bufs.len() implies #[trigger] f(i) is Ok by {
        assert(buf_fits(s, bufs[i]));
    }
    lemma_all_ok(bufs.len(), f, bufs.len() as int);
    let full = s.resolve_bufs(bufs)->Ok_0;
    assert forall|i: int| 0 <= i < bufs.len() implies (#[trigger] full[i]) == (KernelBuf {
        bytes: if bufs[i].bytes == 0 {
            (s.allocs[bufs[i].id].bytes - bufs[i].offset) as u64
        } else {
            bufs[i].bytes
        },
        ..bufs[i]
    }) by {
        assert(buf_fits(s, bufs[i]));
        assert(f(i) is Ok);
    }
}

/// Whatever is done to a new simulator, the parameters of a live kernel node of a definition can be
/// set to any that keep it cooperative or not and name buffers that lie in their allocations. They
/// read back with the lengths filled in. Executables keep theirs, nothing is submitted, and a
/// nanosecond passes.
pub proof fn kernel_params_are_set(
    profile: ProfileView,
    s: SimState,
    graph: GraphId,
    node: usize,
    params: KernelParamsView,
    there: GraphId,
    at: usize,
)
    requires
        follows(SimState::fresh(profile), s),
        s.next.graph < u32::MAX,
        s.capturing is None,
        s.graphs.contains_key(graph),
        s.graphs[graph].steps.len() <= usize::MAX,
        node < s.graphs[graph].steps.len(),
        !s.graphs[graph].steps[node as int].destroyed,
        s.graphs[graph].steps[node as int].kind matches GpuOpView::Kernel { cooperative, .. }
            && cooperative == params.cooperative,
        forall|i: int| 0 <= i < params.reads.len() ==> buf_fits(s, #[trigger] params.reads[i]),
        forall|i: int| 0 <= i < params.writes.len() ==> buf_fits(s, #[trigger] params.writes[i]),
    ensures
        ({
            let (t, r) = s.graph_kernel_set_params(graph, node, params);
            let read = t.graph_kernel_get_params(graph, node);
            &&& r is Ok
            &&& read is Ok
            &&& read->Ok_0 == (KernelParamsView {
                reads: read->Ok_0.reads,
                writes: read->Ok_0.writes,
                ..params
            })
            &&& bufs_resolved(s, params.reads, read->Ok_0.reads)
            &&& bufs_resolved(s, params.writes, read->Ok_0.writes)
            &&& s.graphs.contains_key(there) && s.graphs[there].instantiated
                ==> t.graph_exec_kernel_get_params(there, at) == s.graph_exec_kernel_get_params(
                there,
                at,
            )
            &&& t.ops == s.ops
            &&& t.clock == s.clock.saturating_add(1)
        }),
{
    graphs_stay_acyclic(profile, s, graph);
    lemma_bufs(s, params.reads);
    lemma_bufs(s, params.writes);
    if s.graphs.contains_key(there) && s.graphs[there].instantiated {
        fresh_is_sound(profile);
        known_is_sound(SimState::fresh(profile), s, there);
    }
}

} // verus!
