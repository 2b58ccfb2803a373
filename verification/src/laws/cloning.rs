//! Clones of graphs.
use vstd::prelude::*;
use crate::error::{invalid, SimError};
use crate::history::{
    clone_graph_follows, copies_numbered, follows_itself, history, number_clones_follows,
};
use crate::history::clone::{
    build_clones_follows, clone_conditionals_follows, insert_clones_follows, note_clones_follows,
};
use crate::history::shape::{copies_are_sound, planned};
use crate::ids::{CondId, GraphId, Lane};
use crate::laws::frames::{
    build_clones_keeps_capture, build_clones_keeps_graphs, build_clones_keeps_profile,
    clone_conditionals_keeps_clone_of, note_clones_keeps_graphs, number_conds_keeps_graphs,
};
use crate::num::max_u64;
use crate::sim::SimState;
use crate::state::{GraphView, NextIds, StepView};
use crate::table::{lemma_order_exists, lists, order_of};

verus! {

/// Every copy has a number from `first` on.
pub open spec fn copies_from(remap: Map<GraphId, GraphId>, first: u32) -> bool {
    forall|k: GraphId| #[trigger] remap.contains_key(k) ==> remap[k].0 >= first
}

/// The graph is as before.
pub open spec fn graph_kept(s: SimState, t: SimState, x: GraphId) -> bool {
    t.graphs.contains_key(x) && t.graphs[x] == s.graphs[x]
}

proof fn lemma_numbering(
    s: SimState,
    order: Seq<GraphId>,
    remap: Map<GraphId, GraphId>,
    i: int,
    first: u32,
)
    requires
        copies_from(remap, first),
        remap.dom().finite(),
        first <= s.next.graph,
    ensures
        copies_from(s.number_clones_from(order, remap, i).1, first),
        s.number_clones_from(order, remap, i).1.dom().finite(),
        s.number_clones_from(order, remap, i).0.graphs == s.graphs,
    decreases order.len() - i,
{
    if 0 <= i < order.len() {
        let id = GraphId(s.next.graph);
        let t = SimState {
            next: NextIds { graph: s.next.graph.saturating_add(1), ..s.next },
            ..s
        };
        lemma_numbering(t, order, remap.insert(order[i], id), i + 1, first);
    }
}

proof fn lemma_inserting(
    s: SimState,
    order: Seq<GraphId>,
    remap: Map<GraphId, GraphId>,
    origins: Seq<Lane>,
    built: Seq<Seq<StepView>>,
    i: int,
    x: GraphId,
    first: u32,
)
    requires
        copies_from(remap, first),
        x.0 < first,
        s.graphs.contains_key(x),
    ensures
        graph_kept(s, s.insert_clones_from(order, remap, origins, built, i).0, x),
    decreases order.len() - i,
{
    if 0 <= i < order.len() {
        if !((i as usize) >= origins.len() || (i as usize) >= built.len()) {
            match s.profile.gpu(origins[i].0) {
                Err(_e) => {},
                Ok(gpu) => {
                    let ns = max_u64(gpu.graph_clone_ns, 1);
                    match s.clone_id(remap, order[i]) {
                        Err(_e) => {},
                        Ok(id) => {
                            let t = s.tick(ns);
                            let g = GraphView {
                                steps: built[i],
                                snapshot: None,
                                origin: origins[i],
                                instantiated: false,
                                uploaded: false,
                                auto_free_on_launch: false,
                                instantiate_flags: 0,
                                device_launch_tail: None,
                                primary_exec: None,
                                src: None,
                            };
                            let t = SimState { graphs: t.graphs.insert(id, g), ..t };
                            lemma_inserting(t, order, remap, origins, built, i + 1, x, first);
                        },
                    }
                },
            }
        }
    }
}

proof fn lemma_renaming(
    s: SimState,
    remap: Map<GraphId, GraphId>,
    renamed: Map<CondId, CondId>,
    i: int,
    x: GraphId,
    first: u32,
)
    requires
        copies_from(remap, first),
        lists(order_of(remap.dom()), remap.dom()),
        x.0 < first,
        s.graphs.contains_key(x),
    ensures
        graph_kept(s, s.clone_conditionals_from(remap, renamed, i).0, x),
    decreases order_of(remap.dom()).len() - i,
{
    let q = order_of(remap.dom());
    if 0 <= i < q.len() {
        assert(q.contains(q[i]));
        let id = remap[q[i]];
        match s.graph_ref(id) {
            Err(_e) => {},
            Ok(g) => {
                let h = GraphView { steps: s.rename_step_conds(g.steps, renamed), ..g };
                let t = SimState { graphs: s.graphs.insert(id, h), ..s };
                lemma_renaming(t, remap, renamed, i + 1, x, first);
            },
        }
    }
}

proof fn lemma_conditionals(s: SimState, remap: Map<GraphId, GraphId>, x: GraphId, first: u32)
    requires
        copies_from(remap, first),
        remap.dom().finite(),
        x.0 < first,
        s.graphs.contains_key(x),
    ensures
        graph_kept(s, s.clone_conditionals(remap).0, x),
{
    lemma_order_exists(remap.dom());
    let conds = s.conds_to_clone(remap);
    number_conds_keeps_graphs(s, conds, remap);
    match s.number_conds(conds, remap) {
        (_t, Err(_e)) => {},
        (t, Ok(renamed)) => {
            lemma_renaming(t, remap, renamed, 0, x, first);
        },
    }
}

/// Cloning changes no graph that was there before.
pub proof fn clone_keeps_other_graphs(s: SimState, graph: GraphId, x: GraphId)
    requires
        s.graphs.contains_key(x),
        x.0 < s.next.graph,
    ensures
        graph_kept(s, s.clone_graph(graph).0, x),
{
    let none = Seq::<GraphId>::empty();
    match s.collect_clone_tree(graph, none, none, s.tree_fuel()) {
        Err(_e) => {},
        Ok(order) => {
            lemma_numbering(s, order, Map::empty(), 0, s.next.graph);
            let (s1, remap) = s.number_clones(order);
            let origins = s1.origins_of(order);
            build_clones_keeps_graphs(s1, order, remap);
            match s1.build_clones(order, remap) {
                (_s2, Err(_e)) => {},
                (s2, Ok(built)) => {
                    lemma_inserting(s2, order, remap, origins, built, 0, x, s.next.graph);
                    match s2.insert_clones(order, remap, origins, built) {
                        (_s3, Err(_e)) => {},
                        (s3, Ok(_v)) => {
                            note_clones_keeps_graphs(s3, remap);
                            let s4 = s3.note_clones(remap);
                            lemma_conditionals(s4, remap, x, s.next.graph);
                        },
                    }
                },
            }
        },
    }
}

/// No two graphs have the same copy.
pub open spec fn copies_differ(remap: Map<GraphId, GraphId>) -> bool {
    forall|a: GraphId, b: GraphId|
        #![trigger remap[a], remap[b]]
        remap.contains_key(a) && remap.contains_key(b) && a != b ==> remap[a] != remap[b]
}

proof fn lemma_copies_differ(
    s: SimState,
    order: Seq<GraphId>,
    remap: Map<GraphId, GraphId>,
    i: int,
)
    requires
        copies_differ(remap),
        remap.dom().finite(),
        forall|k: GraphId| #[trigger] remap.contains_key(k) ==> remap[k].0 < s.next.graph,
    ensures
        ({
            let (t, m) = s.number_clones_from(order, remap, i);
            &&& t.next.graph >= s.next.graph
            &&& m.dom().finite()
            &&& t.next.graph < u32::MAX ==> copies_differ(m)
            &&& forall|k: GraphId| #[trigger]
                m.contains_key(k) && !remap.contains_key(k) ==> m[k].0 >= s.next.graph
        }),
    decreases order.len() - i,
{
    if 0 <= i < order.len() {
        let id = GraphId(s.next.graph);
        let t = SimState {
            next: NextIds { graph: s.next.graph.saturating_add(1), ..s.next },
            ..s
        };
        if s.next.graph < u32::MAX {
            lemma_copies_differ(t, order, remap.insert(order[i], id), i + 1);
            lemma_numbering(t, order, remap.insert(order[i], id), i + 1, 0);
            lemma_numbers_kept(t, order, remap.insert(order[i], id), i + 1);
        } else {
            lemma_numbers_kept(t, order, remap.insert(order[i], id), i + 1);
            lemma_numbering(t, order, remap.insert(order[i], id), i + 1, 0);
        }
    }
}

proof fn lemma_numbers_kept(
    s: SimState,
    order: Seq<GraphId>,
    remap: Map<GraphId, GraphId>,
    i: int,
)
    ensures
        ({
            let (t, m) = s.number_clones_from(order, remap, i);
            &&& t.next.graph >= s.next.graph
            &&& forall|k: GraphId| #[trigger]
                m.contains_key(k) ==> m[k].0 >= s.next.graph || (remap.contains_key(k) && m[k]
                    == remap[k])
        }),
    decreases order.len() - i,
{
    if 0 <= i < order.len() {
        let id = GraphId(s.next.graph);
        let t = SimState {
            next: NextIds { graph: s.next.graph.saturating_add(1), ..s.next },
            ..s
        };
        lemma_numbers_kept(t, order, remap.insert(order[i], id), i + 1);
    }
}

proof fn lemma_noted(s: SimState, remap: Map<GraphId, GraphId>, i: int, k: GraphId)
    requires
        copies_differ(remap),
        remap.dom().finite(),
        remap.contains_key(k),
        0 <= i <= order_of(remap.dom()).len(),
        s.clone_of.contains_key(remap[k]) && s.clone_of[remap[k]] == k || exists|j: int|
            i <= j < order_of(remap.dom()).len() && #[trigger] order_of(remap.dom())[j] == k,
    ensures
        ({
            let t = s.note_clones_from(remap, i);
            t.clone_of.contains_key(remap[k]) && t.clone_of[remap[k]] == k
        }),
    decreases order_of(remap.dom()).len() - i,
{
    let all = order_of(remap.dom());
    lemma_order_exists(remap.dom());
    if i < all.len() {
        let src = all[i];
        assert(all.contains(src));
        let t = SimState { clone_of: s.clone_of.insert(remap[src], src), ..s };
        if src != k {
            assert(remap[src] != remap[k]);
        }
        lemma_noted(t, remap, i + 1, k);
    }
}

/// A clone knows what it was made from, and has a number from the next one on.
pub proof fn clone_is_noted(s: SimState, graph: GraphId)
    requires
        s.clone_graph(graph).1 is Ok,
        s.clone_graph(graph).0.next.graph < u32::MAX,
    ensures
        ({
            let (t, r) = s.clone_graph(graph);
            let copy = r->Ok_0;
            &&& t.clone_of.contains_key(copy)
            &&& t.clone_of[copy] == graph
            &&& copy.0 >= s.next.graph
        }),
{
    let none = Seq::<GraphId>::empty();
    let order = s.collect_clone_tree(graph, none, none, s.tree_fuel())->Ok_0;
    let (s1, remap) = s.number_clones(order);
    let origins = s1.origins_of(order);
    lemma_copies_differ(s, order, Map::empty(), 0);
    let s2 = s1.build_clones(order, remap).0;
    let built = s1.build_clones(order, remap).1->Ok_0;
    let s3 = s2.insert_clones(order, remap, origins, built).0;
    let s4 = s3.note_clones(remap);
    let t = s4.clone_conditionals(remap).0;
    assert(s.clone_graph(graph).0 == t);
    follows_itself(s1);
    number_clones_follows_itself(s, order);
    build_clones_follows(s1, s1, order, remap);
    history(s1, s2);
    follows_itself(s);
    number_clones_follows(s, s, order);
    build_clones_keeps_capture(s1, order, remap);
    if planned(s1, s2) {
        copies_are_sound(s1, order, remap, Seq::empty(), 0);
        build_clones_keeps_profile(s1, order, remap);
    }
    insert_clones_follows(s1, s2, order, remap, origins, built);
    note_clones_follows(s1, s3, remap);
    clone_conditionals_follows(s1, s4, remap);
    history(s1, t);
    assert(s1.next.graph < u32::MAX);
    assert(remap.contains_key(graph));
    lemma_order_exists(remap.dom());
    assert(order_of(remap.dom()).contains(graph));
    let j = choose|j: int|
        0 <= j < order_of(remap.dom()).len() && order_of(remap.dom())[j] == graph;
    assert(order_of(remap.dom())[j] == graph);
    lemma_noted(s3, remap, 0, graph);
    clone_conditionals_keeps_clone_of(s4, remap);
}

proof fn number_clones_follows_itself(s: SimState, order: Seq<GraphId>)
    ensures
        copies_numbered(s.number_clones(order).1, s.number_clones(order).0.next.graph),
{
    follows_itself(s);
    number_clones_follows(s, s, order);
}

/// Whether a definition has a live node at an index.
pub open spec fn has_live_node(s: SimState, graph: GraphId, node: usize) -> bool {
    &&& s.graphs.contains_key(graph)
    &&& node < s.graphs[graph].steps.len()
    &&& !s.graphs[graph].steps[node as int].destroyed
}

/// A node is found in a graph exactly where that is a direct clone and both have the node, and it has
/// the same index there.
pub proof fn found_in_direct_clone(s: SimState, original: GraphId, node: usize, cloned: GraphId)
    requires
        s.graphs.contains_key(original),
        s.graphs.contains_key(cloned),
    ensures
        ({
            let r = s.graph_node_find_in_clone(original, node, cloned);
            &&& r is Ok <==> original != cloned && s.clone_of.contains_key(cloned)
                && s.clone_of[cloned] == original && has_live_node(s, original, node)
                && has_live_node(s, cloned, node)
            &&& r is Ok ==> r->Ok_0 == node
            &&& original == cloned ==> r == Err::<usize, SimError>(invalid("not a clone"))
        }),
{
}

/// A clone is a clone of its graph, and a clone of that clone is none.
pub proof fn clones_are_direct(s: SimState, graph: GraphId, node: usize)
    requires
        s.numbered(),
        s.graphs.contains_key(graph),
        s.clone_graph(graph).1 is Ok,
        s.clone_graph(graph).0.clone_graph(s.clone_graph(graph).1->Ok_0).1 is Ok,
        s.clone_graph(graph).0.clone_graph(
            s.clone_graph(graph).1->Ok_0,
        ).0.next.graph < u32::MAX,
    ensures
        ({
            let (t, r) = s.clone_graph(graph);
            let first = r->Ok_0;
            let (u, q) = t.clone_graph(first);
            let second = q->Ok_0;
            &&& t.clone_of[first] == graph
            &&& u.clone_of[second] == first
            &&& u.graphs.contains_key(graph) && u.graphs.contains_key(second)
                ==> u.graph_node_find_in_clone(graph, node, second) == Err::<usize, SimError>(
                invalid("not a clone"),
            )
        }),
{
    let t = s.clone_graph(graph).0;
    let first = s.clone_graph(graph).1->Ok_0;
    let u = t.clone_graph(first).0;
    follows_itself(t);
    clone_graph_follows(t, t, first);
    history(t, u);
    follows_itself(s);
    clone_graph_follows(s, s, graph);
    history(s, t);
    clone_is_noted(s, graph);
    clone_is_noted(t, first);
    assert(graph.0 < s.next.graph);
}

} // verus!
