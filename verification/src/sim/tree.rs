//! Graph lookup and walks over nested graphs.
use vstd::prelude::*;
use crate::error::{invalid, SimError};
use crate::ids::{AllocId, CondId, GraphId};
use crate::kinds::{all_nested, nested_of};
use crate::list::{copy_vec, extend_copy, has_key, one, Rows};
use crate::sim::{Sim, SimState};
use crate::state::{Cond, Graph, GraphStep, GraphView, StepView};
use crate::table::{lists, order_of, Table};

verus! {

impl GraphView {
    /// Executable snapshot if there is one, else the definition.
    pub open spec fn current(self) -> Seq<StepView> {
        match self.snapshot {
            Some(steps) => steps,
            None => self.steps,
        }
    }
}

impl Graph {
    /// Executable snapshot if there is one, else the definition.
    pub fn current(&self) -> (r: &Rows<GraphStep>)
        ensures
            r@ == self@.current(),
    {
        match &self.snapshot {
            Some(steps) => steps,
            None => &self.steps,
        }
    }
}

impl GraphView {
    /// Value of [`Graph::ready`].
    pub open spec fn ready(self) -> bool {
        self.instantiated || self.primary_exec.is_some()
    }
}

impl Graph {
    /// An executable, or a definition that has one.
    pub fn ready(&self) -> (r: bool)
        ensures
            r == self@.ready(),
    {
        self.instantiated || self.primary_exec.is_some()
    }
}

impl SimState {
    /// Value of [`Sim::as_exec`].
    pub open spec fn as_exec(self, id: GraphId) -> Result<GraphId, SimError> {
        match self.graph_ref(id) {
            Err(e) => Err(e),
            Ok(g) => if g.instantiated {
                Ok(id)
            } else {
                (match g.primary_exec {
                    Some(x) => Ok(x),
                    None => Err(invalid("graph not instantiated")),
                })
            },
        }
    }

    /// Value of [`Sim::resolved_graph`].
    pub open spec fn resolved_graph(self, graph: GraphId) -> Result<GraphId, SimError> {
        match self.graph_ref(graph) {
            Err(e) => Err(e),
            Ok(g) => if g.instantiated {
                Ok(graph)
            } else {
                match g.primary_exec {
                    Some(exec) => Ok(exec),
                    None => Ok(graph),
                }
            },
        }
    }

    /// Value of [`Sim::def_id`].
    pub open spec fn def_id(self, id: GraphId) -> GraphId {
        match self.graphs.get(id) {
            Some(g) => match g.src {
                Some(src) => src,
                None => id,
            },
            None => id,
        }
    }

    /// Value of [`Sim::graph_mem_ids`].
    pub open spec fn graph_mem_ids(self, graph: GraphId) -> Seq<AllocId> {
        let own = self.allocs_of(graph);
        if own.len() > 0 {
            own
        } else {
            match self.graphs.get(graph) {
                Some(g) => match g.src {
                    Some(src) => self.allocs_of(src),
                    None => Seq::empty(),
                },
                None => Seq::empty(),
            }
        }
    }

    /// Value of [`Sim::allocs_of`].
    pub open spec fn allocs_of(self, graph: GraphId) -> Seq<AllocId> {
        match self.graph_allocs.get(graph) {
            Some(v) => v,
            None => Seq::empty(),
        }
    }

    /// Value of [`Sim::tree_fuel`].
    pub open spec fn tree_fuel(self) -> usize {
        (order_of(self.graphs.dom()).len() as usize).saturating_add(1)
    }

    /// Value of [`Sim::children`].
    pub open spec fn children(self, graph: GraphId) -> Seq<GraphId> {
        match self.graphs.get(graph) {
            Some(g) => nested_of(g.current()),
            None => Seq::empty(),
        }
    }
}

impl Sim {
    /// Executable for `id`: itself, or the primary one of a definition.
    pub(crate) fn as_exec(&self, id: GraphId) -> (r: Result<GraphId, SimError>)
        ensures
            r == self@.as_exec(id),
    {
        let g = self.graph_ref(id)?;
        if g.instantiated {
            return Ok(id);
        }
        g.primary_exec.ok_or(invalid("graph not instantiated"))
    }

    /// Executable for `graph`, or the definition itself while it has none.
    pub(crate) fn resolved_graph(&self, graph: GraphId) -> (r: Result<GraphId, SimError>)
        ensures
            r == self@.resolved_graph(graph),
    {
        let g = self.graph_ref(graph)?;
        if g.instantiated {
            return Ok(graph);
        }
        match g.primary_exec {
            Some(exec) => Ok(exec),
            None => Ok(graph),
        }
    }

    /// Definition of an executable, else the id itself.
    pub(crate) fn def_id(&self, id: GraphId) -> (r: GraphId)
        ensures
            r == self@.def_id(id),
    {
        match self.graphs.get(id) {
            Some(g) => match g.src {
                Some(src) => src,
                None => id,
            },
            None => id,
        }
    }

    /// Allocations of the nodes of a graph, or of its definition where it has none.
    pub(crate) fn graph_mem_ids(&self, graph: GraphId) -> (r: Vec<AllocId>)
        ensures
            r@ == self@.graph_mem_ids(graph),
    {
        let own: Vec<AllocId> = self.allocs_of(graph);
        if own.len() > 0 {
            return own;
        }
        match self.graphs.get(graph) {
            Some(g) => match g.src {
                Some(src) => self.allocs_of(src),
                None => Vec::new(),
            },
            None => Vec::new(),
        }
    }

    /// Allocations recorded for a graph.
    pub(crate) fn allocs_of(&self, graph: GraphId) -> (r: Vec<AllocId>)
        ensures
            r@ == self@.allocs_of(graph),
    {
        match self.graph_allocs.get(graph) {
            Some(v) => copy_vec(v),
            None => Vec::new(),
        }
    }

    /// Depth that no acyclic nesting of graphs exceeds.
    pub(crate) fn tree_fuel(&self) -> (r: usize)
        ensures
            r == self@.tree_fuel(),
    {
        self.graphs.len().saturating_add(1)
    }

    /// Graphs that a graph expands to; none for an unknown graph.
    pub(crate) fn children(&self, graph: GraphId) -> (r: Vec<GraphId>)
        ensures
            r@ == self@.children(graph),
    {
        match self.graphs.get(graph) {
            Some(g) => all_nested(g.current()),
            None => Vec::new(),
        }
    }
}

/// The handle with its value back at the default where it belongs to `graph` or to the definition
/// `src`.
pub open spec fn cond_after_reset(c: Cond, graph: GraphId, src: Option<GraphId>) -> Cond {
    if c.graph == graph || src == Some(c.graph) {
        Cond { value: c.default, ..c }
    } else {
        c
    }
}

fn reset_table(t: &Table<CondId, Cond>, graph: GraphId, src: Option<GraphId>) -> (r: Table<
    CondId,
    Cond,
>)
    ensures
        r@ == t@.map_values(|c: Cond| cond_after_reset(c, graph, src)),
{
    let ghost m = t@;
    let ghost f = |c: Cond| cond_after_reset(c, graph, src);
    let ghost q = order_of(m.dom());
    let n: usize = t.len();
    let mut out: Table<CondId, Cond> = Table::new();
    let mut i: usize = 0;
    assert(out@ =~= m.map_values(f).restrict(q.take(0).to_set()));
    while i < n
        invariant
            t@ == m,
            f == (|c: Cond| cond_after_reset(c, graph, src)),
            q == order_of(m.dom()),
            lists(q, m.dom()),
            n == q.len(),
            i <= n,
            out@ == m.map_values(f).restrict(q.take(i as int).to_set()),
        decreases n - i,
    {
        let k = t.key_at(i);
        let mut c = *t.val_at(i);
        if c.graph == graph || src == Some(c.graph) {
            c.value = c.default;
        }
        out.insert(k, c);
        i += 1;
        proof {
            let a = q.take(i - 1);
            let b = q.take(i as int);
            assert(b =~= a.push(k));
            assert forall|y: CondId| b.to_set().contains(y) <==> (
                a.to_set().contains(y) || y == k
            ) by {
                if a.contains(y) {
                    let j = choose|j: int| 0 <= j < a.len() && a[j] == y;
                    assert(b[j] == y);
                }
                if b.contains(y) {
                    let j = choose|j: int| 0 <= j < b.len() && b[j] == y;
                    if j < i - 1 {
                        assert(a[j] == y);
                    }
                }
                assert(b[i - 1] == k);
            }
            assert(out@ =~= m.map_values(f).restrict(b.to_set()));
        }
    }
    proof {
        assert(q.take(i as int) =~= q);
        assert forall|y: CondId| m.contains_key(y) implies q.to_set().contains(y) by {
            assert(q.contains(y));
        }
        assert(out@ =~= m.map_values(f));
    }
    out
}

impl SimState {
    /// Handles of one graph back at their defaults.
    pub open spec fn reset_conds_of(self, graph: GraphId) -> SimState {
        let src = match self.graphs.get(graph) {
            Some(g) => g.src,
            None => None,
        };
        SimState {
            conds: self.conds.map_values(|c: Cond| cond_after_reset(c, graph, src)),
            ..self
        }
    }

    /// Reset the graphs on `stack`, last first, and what they expand to, each once.
    pub open spec fn reset_tree(self, stack: Seq<GraphId>, seen: Seq<GraphId>) -> SimState
        decreases 0x1_0000_0000 - seen.len(), stack.len(),
    {
        if stack.len() == 0 {
            self
        } else if seen.contains(stack.last()) || seen.len() >= 0x1_0000_0000 {
            self.reset_tree(stack.drop_last(), seen)
        } else {
            let g = stack.last();
            let s = self.reset_conds_of(g);
            s.reset_tree(stack.drop_last() + s.children(g), seen.push(g))
        }
    }

    /// Handles of a graph and of everything it expands to back at their defaults.
    pub open spec fn reset_graph_tree_conds(self, root: GraphId) -> SimState {
        self.reset_tree(seq![root], Seq::empty())
    }

    /// Whether walking from `stack`, last first, meets `target` or a graph of its definition. An
    /// unknown graph met before ends the walk.
    pub open spec fn tree_search(
        self,
        stack: Seq<GraphId>,
        seen: Seq<GraphId>,
        target: GraphId,
    ) -> Result<bool, SimError>
        decreases 0x1_0000_0000 - seen.len(), stack.len(),
    {
        if stack.len() == 0 {
            Ok(false)
        } else {
            let g = stack.last();
            if g == target || self.def_id(g) == self.def_id(target) {
                Ok(true)
            } else if seen.contains(g) || seen.len() >= 0x1_0000_0000 {
                self.tree_search(stack.drop_last(), seen, target)
            } else if !self.graphs.contains_key(g) {
                Err(invalid("unknown graph"))
            } else {
                self.tree_search(stack.drop_last() + self.children(g), seen.push(g), target)
            }
        }
    }

    /// Whether `target` is `root` or nested in it.
    pub open spec fn graph_tree_contains(self, root: GraphId, target: GraphId) -> Result<
        bool,
        SimError,
    > {
        self.tree_search(seq![root], Seq::empty(), target)
    }
}

impl Sim {
    fn reset_conds_of(&mut self, graph: GraphId)
        ensures
            final(self)@ == old(self)@.reset_conds_of(graph),
    {
        let src: Option<GraphId> = match self.graphs.get(graph) {
            Some(g) => g.src,
            None => None,
        };
        self.conds = reset_table(&self.conds, graph, src);
    }

    /// Handles of a graph and of everything it expands to back at their defaults.
    pub(crate) fn reset_graph_tree_conds(&mut self, root: GraphId)
        ensures
            final(self)@ == old(self)@.reset_graph_tree_conds(root),
    {
        let mut stack: Vec<GraphId> = one(root);
        let mut seen: Vec<GraphId> = Vec::new();
        while stack.len() > 0
            invariant
                old(self)@.reset_graph_tree_conds(root) == self@.reset_tree(stack@, seen@),
            decreases 0x1_0000_0000 - seen@.len(), stack@.len(),
        {
            let g = stack[stack.len() - 1];
            let _last = stack.pop();
            if has_key(&seen, g) || seen.len() as u64 >= 0x1_0000_0000 {
                continue;
            }
            self.reset_conds_of(g);
            let more = self.children(g);
            extend_copy(&mut stack, &more);
            seen.push(g);
        }
    }

    /// Whether `target` is `root` or nested in it.
    pub(crate) fn graph_tree_contains(&self, root: GraphId, target: GraphId) -> (r: Result<
        bool,
        SimError,
    >)
        ensures
            r == self@.graph_tree_contains(root, target),
    {
        let def = self.def_id(target);
        let mut stack: Vec<GraphId> = one(root);
        let mut seen: Vec<GraphId> = Vec::new();
        while stack.len() > 0
            invariant
                def == self@.def_id(target),
                self@.graph_tree_contains(root, target) == self@.tree_search(
                    stack@,
                    seen@,
                    target,
                ),
            decreases 0x1_0000_0000 - seen@.len(), stack@.len(),
        {
            let g = stack[stack.len() - 1];
            let _last = stack.pop();
            if g == target || self.def_id(g) == def {
                return Ok(true);
            }
            if has_key(&seen, g) || seen.len() as u64 >= 0x1_0000_0000 {
                continue;
            }
            if !self.graphs.contains_key(g) {
                return Err(invalid("unknown graph"));
            }
            let more = self.children(g);
            extend_copy(&mut stack, &more);
            seen.push(g);
        }
        Ok(false)
    }
}

} // verus!
