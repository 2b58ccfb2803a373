//! What executables are made of: the nodes of a definition, at instantiation and at an update.
use vstd::prelude::*;
use crate::error::SimError;
use crate::ids::{DeviceId, GraphId};
use crate::kinds::bodies_of;
use crate::list::{lemma_all_ok, lemma_first_where, lemma_ok_each};
use crate::num::max_u64;
use crate::ops::{GpuOpView, GraphInstantiateFlags, KernelNodeAttr};
use crate::sim::SimState;
use crate::state::{Alloc, NextIds, StepView};

verus! {

/// After an update the executable launches the nodes of the source definition: each parameter and
/// each attribute that is read from the executable is the one read from the source. It has to be
/// uploaded again, nothing is submitted, and the time of an update passes.
pub proof fn update_takes_nodes_of_source(
    s: SimState,
    graph: GraphId,
    src: GraphId,
    node: usize,
    attr: KernelNodeAttr,
)
    requires
        s.update_graph(graph, src).1 is Ok,
    ensures
        ({
            let t = s.update_graph(graph, src).0;
            let id = s.as_exec(graph)->Ok_0;
            &&& s.as_exec(graph) is Ok
            &&& t.as_exec(graph) == s.as_exec(graph)
            &&& t.graphs.contains_key(id)
            &&& s.graphs.contains_key(src)
            &&& t.graphs[id].snapshot == Some(s.graphs[src].steps)
            &&& t.graphs[id].steps == s.graphs[id].steps
            &&& !t.graphs[id].uploaded
            &&& t.graph_exec_node_get_params(graph, node) == s.graph_node_get_params(src, node)
            &&& t.graph_exec_kernel_get_params(graph, node) == s.graph_kernel_get_params(src, node)
            &&& t.graph_exec_memcpy_get_params(graph, node) == s.graph_memcpy_get_params(src, node)
            &&& t.graph_exec_memset_get_params(graph, node) == s.graph_memset_get_params(src, node)
            &&& t.graph_exec_host_get_params(graph, node) == s.graph_host_get_params(src, node)
            &&& t.graph_exec_batch_mem_ops_get_params(graph, node)
                == s.graph_batch_mem_ops_get_params(src, node)
            &&& t.graph_exec_kernel_node_get_attribute(graph, node, attr)
                == s.graph_kernel_node_get_attribute(src, node, attr)
            &&& t.ops == s.ops
            &&& t.clock > s.clock || s.clock == u64::MAX
        }),
{
    reveal(SimState::update_and_report);
    reveal(SimState::replace_steps);
}

/// Whether two nodes stand at the same place of a graph: on one stream, behind the same nodes.
pub open spec fn same_place(x: StepView, y: StepView) -> bool {
    &&& x.destroyed == y.destroyed
    &&& !x.destroyed ==> x.device == y.device && x.stream == y.stream && x.deps == y.deps
}

/// Whether two nodes are of one kind that needs no other graph and no memory of its own.
pub open spec fn same_work(x: GpuOpView, y: GpuOpView) -> bool {
    match x {
        GpuOpView::Kernel { cooperative: a, .. } => y matches GpuOpView::Kernel {
            cooperative: b,
            ..
        } && a == b,
        GpuOpView::Memcpy(_m) => y is Memcpy,
        GpuOpView::Memset(_m) => y is Memset,
        GpuOpView::HostFunc { .. } => y is HostFunc,
        GpuOpView::Empty => y is Empty,
        _ => false,
    }
}

proof fn lemma_no_difference(
    s: SimState,
    before: Seq<StepView>,
    after: Seq<StepView>,
    i: int,
    j: int,
)
    requires
        0 <= i <= j < before.len(),
        before.len() == after.len(),
        after.len() <= usize::MAX,
        s.graph_topology_diff_from(before, after, i) is None,
    ensures
        s.node_diff(before[j], after[j], j as usize) is None,
    decreases before.len() - i,
{
    if i < j {
        lemma_no_difference(s, before, after, i + 1, j);
    }
}

proof fn lemma_difference(s: SimState, before: Seq<StepView>, after: Seq<StepView>, i: int)
    requires
        0 <= i <= before.len(),
        before.len() == after.len(),
        after.len() <= usize::MAX,
        forall|j: int|
            i <= j < before.len() ==> s.node_diff(
                #[trigger] before[j],
                after[j],
                j as usize,
            ) is None,
    ensures
        s.graph_topology_diff_from(before, after, i) is None,
    decreases before.len() - i,
{
    if i < before.len() {
        assert(s.node_diff(before[i], after[i], i as usize) is None);
        lemma_difference(s, before, after, i + 1);
    }
}

/// An update succeeds only between graphs of one shape: as many nodes, the same ones destroyed, and
/// each other one of the same kind, on the same stream and behind the same nodes.
pub proof fn update_needs_same_shape(s: SimState, graph: GraphId, src: GraphId, i: int)
    requires
        s.update_graph(graph, src).1 is Ok,
        0 <= i < s.graphs[src].steps.len() <= usize::MAX,
    ensures
        ({
            let old_nodes = s.graphs[s.as_exec(graph)->Ok_0].current();
            let new_nodes = s.graphs[src].steps;
            &&& old_nodes.len() == new_nodes.len()
            &&& same_place(old_nodes[i], new_nodes[i])
            &&& !new_nodes[i].destroyed ==> old_nodes[i].kind.node_kind()
                == new_nodes[i].kind.node_kind()
            &&& !new_nodes[i].destroyed ==> !(new_nodes[i].kind is Alloc) && !(
            new_nodes[i].kind is Free)
        }),
{
    reveal(SimState::update_and_report);
    reveal(SimState::replace_steps);
    let id = s.as_exec(graph)->Ok_0;
    let g = s.graphs[id];
    let h = s.graphs[src];
    let before = s.steps_def_ids(g.current());
    let after = s.steps_def_ids(h.steps);
    assert(s.update_refused(id, src, g, h) is None);
    assert(s.graph_topology_diff(before, after) is None);
    assert(before.len() == after.len());
    lemma_no_difference(s, before, after, 0, i);
    assert(before[i] == StepView { kind: s.kind_def_ids(g.current()[i].kind), ..g.current()[i] });
    assert(after[i] == StepView { kind: s.kind_def_ids(h.steps[i].kind), ..h.steps[i] });
    if !h.steps[i].destroyed && h.steps[i].kind.is_mem_node() {
        assert(g.current()[i].kind.is_mem_node());
        let p = |k: int| g.current_mem_at(k);
        lemma_first_where(g.current().len(), p);
        assert(p(i));
        assert(g.current_mem() is Some);
        assert(s.graph_has_mem_nodes(id));
    }
}

/// An executable is updated from any other definition of the same shape whose nodes do the same kind
/// of work, unless it is launched from the device.
pub proof fn same_shape_is_updated(s: SimState, graph: GraphId, id: GraphId, src: GraphId)
    requires
        s.capturing is None,
        graph != src,
        id != src,
        s.as_exec(graph) == Ok::<GraphId, SimError>(id),
        s.graphs.contains_key(id),
        s.graphs.contains_key(src),
        s.graphs[src].snapshot is None,
        s.graphs[id].instantiate_flags & GraphInstantiateFlags::DEVICE_LAUNCH == 0,
        s.allocs_of(id).len() == 0,
        s.allocs_of(src).len() == 0,
        s.profile.gpu(s.graphs[id].head_device(DeviceId(0))) is Ok,
        s.graphs[src].steps.len() <= usize::MAX,
        s.graphs[id].current().len() == s.graphs[src].steps.len(),
        forall|i: int|
            0 <= i < s.graphs[src].steps.len() ==> same_place(
                s.graphs[id].current()[i],
                #[trigger] s.graphs[src].steps[i],
            ) && (!s.graphs[src].steps[i].destroyed ==> same_work(
                s.graphs[id].current()[i].kind,
                s.graphs[src].steps[i].kind,
            )),
    ensures
        s.update_graph(graph, src).1 is Ok,
{
    reveal(SimState::update_and_report);
    reveal(SimState::replace_steps);
    let g = s.graphs[id];
    let h = s.graphs[src];
    let before = s.steps_def_ids(g.current());
    let after = s.steps_def_ids(h.steps);
    assert forall|j: int| 0 <= j < before.len() implies s.node_diff(
        #[trigger] before[j],
        after[j],
        j as usize,
    ) is None by {
        assert(same_place(g.current()[j], h.steps[j]));
        assert(before[j] == StepView {
            kind: s.kind_def_ids(g.current()[j].kind),
            ..g.current()[j]
        });
        assert(after[j] == StepView { kind: s.kind_def_ids(h.steps[j].kind), ..h.steps[j] });
    }
    lemma_difference(s, before, after, 0);
    let p = |k: int| g.current_mem_at(k);
    let q = |k: int| h.current_mem_at(k);
    lemma_first_where(g.current().len(), p);
    lemma_first_where(h.current().len(), q);
    assert forall|k: int| 0 <= k < g.current().len() implies !#[trigger] p(k) by {
        assert(same_place(g.current()[k], h.steps[k]));
    }
    assert forall|k: int| 0 <= k < h.current().len() implies !#[trigger] q(k) by {
        assert(same_place(g.current()[k], h.steps[k]));
    }
    assert(!s.graph_has_mem_nodes(id));
    assert(!s.graph_has_mem_nodes(src));
    assert(s.graph_topology_diff(before, after) is None);
    assert(s.update_refused(id, src, g, h) is None);
    assert(s.update_graph_pair(graph, src) == Ok::<GraphId, SimError>(id));
}

/// Whether a node names no other graph.
pub open spec fn stands_alone(k: GpuOpView) -> bool {
    !(k is ChildGraph) && !(k is If) && !(k is While) && !(k is Switch)
}

/// Between two lists of nodes nothing differs but which graphs the nodes lead to.
pub open spec fn same_nodes(a: Seq<StepView>, b: Seq<StepView>) -> bool {
    &&& b.len() == a.len()
    &&& forall|i: int|
        0 <= i < a.len() ==> (#[trigger] b[i]) == (StepView { kind: b[i].kind, ..a[i] })
    &&& forall|i: int|
        0 <= i < a.len() ==> (#[trigger] b[i]).kind.node_kind() == a[i].kind.node_kind()
    &&& forall|i: int|
        0 <= i < a.len() && stands_alone(a[i].kind) ==> (#[trigger] b[i]).kind == a[i].kind
}

proof fn lemma_exec_nodes(s: SimState, steps: Seq<StepView>)
    requires
        s.exec_steps(steps) is Ok,
    ensures
        same_nodes(steps, s.exec_steps(steps)->Ok_0),
{
    let f = |i: int| s.exec_steps_at(steps, i);
    lemma_ok_each(steps.len(), f);
    lemma_all_ok(steps.len(), f, steps.len() as int);
    let b = s.exec_steps(steps)->Ok_0;
    assert forall|i: int| 0 <= i < steps.len() implies (#[trigger] b[i]) == (StepView {
        kind: b[i].kind,
        ..steps[i]
    }) && b[i].kind.node_kind() == steps[i].kind.node_kind() && (stands_alone(steps[i].kind)
        ==> b[i].kind == steps[i].kind) by {
        assert(f(i) is Ok);
        assert(b[i] == f(i)->Ok_0);
    }
}

/// A new executable has the nodes of its definition, both to launch and to read, and is not uploaded
/// yet. It knows its definition, and the first one of a definition is the one that the definition
/// launches.
pub proof fn executable_has_nodes_of_definition(s: SimState, graph: GraphId, flags: u32)
    requires
        s.instantiate_graph_with_flags(graph, flags).1 is Ok,
        s.graphs.contains_key(graph),
        !s.graphs[graph].instantiated,
        flags & GraphInstantiateFlags::UPLOAD == 0,
        s.instantiate_graph_with_flags(graph, flags).1->Ok_0 != graph,
    ensures
        ({
            let (t, r) = s.instantiate_graph_with_flags(graph, flags);
            let id = r->Ok_0;
            &&& t.graphs.contains_key(id)
            &&& t.graphs[id].instantiated
            &&& !t.graphs[id].uploaded
            &&& t.graphs[id].src == Some(graph)
            &&& t.graphs[id].instantiate_flags == flags
            &&& t.graphs[id].snapshot is Some
            &&& same_nodes(s.graphs[graph].steps, t.graphs[id].snapshot->0)
            &&& t.graphs[graph].primary_exec is Some
        }),
{
    reveal(SimState::add_exec);
    let fuel = s.tree_fuel();
    let steps = s.graphs[graph].steps;
    let g = s.graphs[graph];
    assert(match s.instantiate_settled(graph, flags) {
        None => true,
        Some((_why, _node, r)) => r is Err,
    });
    let ns = max_u64(s.profile.gpu(g.head_device(g.origin.0))->Ok_0.graph_instantiate_ns, 1);
    let s1 = SimState { clock: s.clock.saturating_add(ns), ..s };
    let s2 = s1.instantiate_bodies(bodies_of(steps), fuel.saturating_sub(1)).0;
    let s3 = SimState {
        next: NextIds { graph: s2.next.graph.saturating_add(1), ..s2.next },
        ..s2
    };
    assert(s.instantiate_graph_with_flags(graph, flags) == s2.add_exec(
        graph,
        flags,
        g.origin,
        steps,
    ));
    lemma_exec_nodes(s3, steps);
}

} // verus!
