//! Histories of the operations in `sim::tree`.
use vstd::prelude::*;
use crate::history::follows;
use crate::ids::GraphId;
use crate::sim::SimState;
use crate::sim::tree::cond_after_reset;
use crate::state::Cond;

verus! {

/// [`Sim::reset_conds_of`] continues the history.
pub proof fn reset_conds_of_follows(z: SimState, s0: SimState, graph: GraphId)
    requires
        follows(z, s0),
    ensures
        follows(z, s0.reset_conds_of(graph)),
{
    let src = match s0.graphs.get(graph) { Some(g) => g.src, None => None, };
    assert(
        follows(
            z,
            SimState {
                conds: s0.conds.map_values( | c: Cond | cond_after_reset(c, graph, src)),
                ..s0
            },
        )
    ) by {
        reveal(follows);
    }
}

/// [`Sim::reset_tree`] continues the history.
pub proof fn reset_tree_follows(z: SimState, s0: SimState, stack: Seq<GraphId>, seen: Seq<GraphId>)
    requires
        follows(z, s0),
    ensures
        follows(z, s0.reset_tree(stack, seen)),
    decreases 0x1_0000_0000 - seen.len(), stack.len(),
{
    if !(stack.len() == 0) {
        if seen.contains(stack.last()) || seen.len() >= 0x1_0000_0000 {
            reset_tree_follows(z, s0, stack.drop_last(), seen);
        } else {
            let g = stack.last();
            reset_conds_of_follows(z, s0, g);
            let s = s0.reset_conds_of(g);
            reset_tree_follows(z, s, stack.drop_last() + s.children(g), seen.push(g));
        }
    }
}

/// [`Sim::reset_graph_tree_conds`] continues the history.
pub proof fn reset_graph_tree_conds_follows(z: SimState, s0: SimState, root: GraphId)
    requires
        follows(z, s0),
    ensures
        follows(z, s0.reset_graph_tree_conds(root)),
{
    reset_tree_follows(z, s0, seq![root], Seq::empty());
}

} // verus!
