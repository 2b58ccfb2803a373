//! Conditional nodes: which of their operations run.
use vstd::prelude::*;
use crate::error::SimError;
use crate::ids::{AllocId, CondId, DeviceId, GraphId, Lane, OpId, StreamId};
use crate::laws::carrying::{
    carried_is_guarded, enqueue_graph_carries, guarded, nothing_carried, submit_launch_carries,
};
use crate::laws::frames::{
    bill_kernel_keeps_work, bill_memset_keeps_work, charge_replica_hbm_keeps_work,
    drop_compute_keeps_work, drop_compute_n_keeps_work, drop_copy_keeps_work,
    drop_ipc_import_keeps_work, drop_share_import_keeps_work, lease_parts_keeps_work,
    mark_recorded_keeps_work, pool_acquire_keeps_work, reserve_hbm_keeps_work,
    take_compute_keeps_work, take_compute_n_keeps_work,
};
use crate::ops::{GpuOpView, KernelBuf, KernelKind};
use crate::sim::SimState;
use crate::sim::launch::WalkView;
use crate::state::{CondPred, LaunchCost, OpView, Running, Share, StepView};

verus! {

/// Whether a condition lets an operation run: the handle is not zero, or has the value of the
/// branch.
pub open spec fn lets_run(s: SimState, p: CondPred) -> bool {
    match p {
        CondPred::Nonzero(h) => s.conds.contains_key(h) ==> s.conds[h].value > 0,
        CondPred::Equals(h, branch) => s.conds.contains_key(h) && s.conds[h].value == branch,
    }
}

/// Whether all conditions of an operation let it run.
pub open spec fn may_run(s: SimState, id: OpId) -> bool {
    forall|i: int| 0 <= i < s.ops[id].preds.len() ==> lets_run(s, #[trigger] s.ops[id].preds[i])
}

/// Each change of an operation keeps whether it is skipped, its conditions and what it does.
pub open spec fn same_course(a: Map<OpId, OpView>, b: Map<OpId, OpView>, id: OpId) -> bool {
    a.contains_key(id) ==> b.contains_key(id) && b[id].skipped == a[id].skipped && b[id].kind
        == a[id].kind && b[id].preds == a[id].preds
}

proof fn lemma_one_fault(
    s: SimState,
    kernel: OpId,
    device: DeviceId,
    alloc: AllocId,
    deps: Seq<OpId>,
    id: OpId,
)
    requires
        id.0 < s.next.op,
    ensures
        same_course(s.ops, s.inject_fault_memcpy(kernel, device, alloc, deps).0.ops, id),
        s.next.op <= s.inject_fault_memcpy(kernel, device, alloc, deps).0.next.op,
{
    reveal(SimState::inject_fault_memcpy);
}

proof fn lemma_each_fault(
    s: SimState,
    kernel: OpId,
    device: DeviceId,
    wait: Seq<AllocId>,
    deps: Seq<OpId>,
    i: int,
    id: OpId,
)
    requires
        id.0 < s.next.op,
    ensures
        same_course(s.ops, s.inject_faults_from(kernel, device, wait, deps, i).0.ops, id),
    decreases wait.len() - i,
{
    if 0 <= i < wait.len() {
        lemma_one_fault(s, kernel, device, wait[i], deps, id);
        lemma_each_fault(
            s.inject_fault_memcpy(kernel, device, wait[i], deps).0,
            kernel,
            device,
            wait,
            deps,
            i + 1,
            id,
        );
    }
}

proof fn lemma_kernel_course(
    s: SimState,
    me: OpId,
    device: DeviceId,
    stream: StreamId,
    launch: LaunchCost,
    kind: KernelKind,
    reads: Seq<KernelBuf>,
    writes: Seq<KernelBuf>,
    id: OpId,
)
    requires
        id.0 < s.next.op,
    ensures
        same_course(
            s.ops,
            s.start_kernel(me, device, stream, launch, kind, reads, writes).0.ops,
            id,
        ),
{
    reveal(SimState::start_kernel);
    let u = if launch == LaunchCost::Kernel {
        match s.managed_fault_ids(device, reads, writes) {
            Err(_e) => {},
            Ok(wait) => {
                if s.ops.contains_key(me) {
                    lemma_each_fault(s, me, device, wait, s.ops[me].deps, 0, id);
                }
            },
        }
        s.inject_managed_faults(me, device, reads, writes).0
    } else {
        s
    };
    assert(same_course(s.ops, u.ops, id));
    if u.slots_of(me) is Ok {
        let slots = u.slots_of(me)->Ok_0;
        take_compute_n_keeps_work(u, device, slots);
        let v = u.take_compute_n(device, slots).0;
        let bufs = reads + writes;
        if v.kernel_mem_bps(device, bufs) is Ok {
            let rate = v.kernel_mem_bps(device, bufs)->Ok_0;
            bill_kernel_keeps_work(v, me, device, stream, launch, kind, reads, writes, rate);
            let w = v.bill_kernel(me, device, stream, launch, kind, reads, writes, rate).0;
            drop_compute_n_keeps_work(w, device, slots);
        }
    }
}

proof fn lemma_course(
    s: SimState,
    me: OpId,
    device: DeviceId,
    stream: StreamId,
    launch: LaunchCost,
    kind: GpuOpView,
    id: OpId,
)
    requires
        id.0 < s.next.op,
    ensures
        same_course(s.ops, s.start_kind(me, device, stream, launch, kind).0.ops, id),
{
    reveal(SimState::start_kind);
    match kind {
        GpuOpView::Alloc { id: alloc, bytes } => {
            reveal(SimState::start_alloc);
            reserve_hbm_keeps_work(s, device, bytes);
            if s.allocs.contains_key(alloc) && s.allocs[alloc].pool is Some {
                pool_acquire_keeps_work(s, s.allocs[alloc].pool->0, bytes);
            }
        },
        GpuOpView::Free { id: alloc } => {
            reveal(SimState::start_free);
            drop_ipc_import_keeps_work(s, alloc);
            drop_share_import_keeps_work(s, alloc);
            if s.allocs.contains_key(alloc) {
                drop_copy_keeps_work(s, device, alloc, s.allocs[alloc].bytes);
            }
        },
        GpuOpView::Kernel { kind: k, reads, writes, cooperative: _c } => {
            lemma_kernel_course(s, me, device, stream, launch, k, reads, writes, id);
        },
        GpuOpView::Memset(op) => {
            take_compute_keeps_work(s, device);
            let u = s.take_compute(device).0;
            bill_memset_keeps_work(u, device, launch, op);
            drop_compute_keeps_work(u.bill_memset(device, launch, op).0, device);
        },
        GpuOpView::Memcpy(m) => {
            reveal(SimState::start_memcpy);
            charge_replica_hbm_keeps_work(s, m);
        },
        GpuOpView::EventRecord { event, external: _e } => {
            mark_recorded_keeps_work(s, s.event_root(event), me);
        },
        GpuOpView::AllReduce { parts, bytes: _b } => {
            take_compute_keeps_work(s, device);
            lease_parts_keeps_work(s.take_compute(device).0, parts);
        },
        GpuOpView::DeviceLaunch { graph: _g } => {
            take_compute_keeps_work(s, device);
        },
        _ => {},
    }
}

/// An operation is skipped exactly where a condition does not let it run: where the handle of an if
/// or while node is zero, or where that of a switch node has another value than the branch. One that
/// is skipped takes a nanosecond and does nothing else; one that is not does its work.
pub proof fn operation_runs_where_conditions_hold(s: SimState, id: OpId)
    requires
        s.ops.contains_key(id),
        id.0 < s.next.op,
        !s.ops[id].skipped,
        !s.unavailable.contains(s.ops[id].device),
    ensures
        ({
            let (t, r) = s.try_start(id);
            let o = s.ops[id];
            &&& t.ops.contains_key(id)
            &&& t.ops[id].skipped <==> !may_run(s, id)
            &&& !may_run(s, id) ==> {
                &&& r == Ok::<bool, SimError>(true)
                &&& t == (SimState {
                    ops: s.ops.insert(id, OpView { skipped: true, ..o }),
                    running: s.running.push(
                        Running { op: id, remaining_ns: 1, share: Share::Solo },
                    ),
                    ..s
                })
            }
            &&& may_run(s, id) ==> (t, r) == s.start_kind(
                id,
                o.device,
                o.stream,
                o.launch,
                o.kind,
            )
        }),
{
    reveal(SimState::try_start);
    let o = s.ops[id];
    assert forall|i: int| 0 <= i < o.preds.len() implies s.pred_skips(#[trigger] o.preds[i])
        == !lets_run(s, o.preds[i]) by {}
    assert(s.cond_skip(o.preds) <==> !may_run(s, id));
    lemma_course(s, id, o.device, o.stream, o.launch, o.kind, id);
}

/// Of the operations of a switch node those of the branch with the value of the handle run, as far
/// as their other conditions let them, and those of every other branch are skipped.
pub proof fn switch_runs_chosen_branch(s: SimState, id: OpId, handle: CondId, branch: u32)
    requires
        s.ops.contains_key(id),
        id.0 < s.next.op,
        !s.ops[id].skipped,
        !s.unavailable.contains(s.ops[id].device),
        s.conds.contains_key(handle),
        s.ops[id].preds.contains(CondPred::Equals(handle, branch)),
    ensures
        s.conds[handle].value != branch ==> s.try_start(id).0.ops[id].skipped,
        s.conds[handle].value == branch && s.ops[id].preds.len() == 1 ==> !s.try_start(
            id,
        ).0.ops[id].skipped,
{
    operation_runs_where_conditions_hold(s, id);
    let q = s.ops[id].preds;
    let k = choose|k: int| 0 <= k < q.len() && q[k] == CondPred::Equals(handle, branch);
    assert(lets_run(s, q[k]) <==> s.conds[handle].value == branch);
}

/// The operations of an if or while node run only where its handle is not zero.
pub proof fn zero_skips_body(s: SimState, id: OpId, handle: CondId)
    requires
        s.ops.contains_key(id),
        id.0 < s.next.op,
        !s.ops[id].skipped,
        !s.unavailable.contains(s.ops[id].device),
        s.conds.contains_key(handle),
        s.ops[id].preds.contains(CondPred::Nonzero(handle)),
    ensures
        s.conds[handle].value == 0 ==> s.try_start(id).0.ops[id].skipped,
        s.conds[handle].value != 0 && s.ops[id].preds.len() == 1 ==> !s.try_start(
            id,
        ).0.ops[id].skipped,
{
    operation_runs_where_conditions_hold(s, id);
    let q = s.ops[id].preds;
    let k = choose|k: int| 0 <= k < q.len() && q[k] == CondPred::Nonzero(handle);
    assert(lets_run(s, q[k]) <==> s.conds[handle].value > 0);
}

/// A skipped operation ends without any effect.
pub proof fn skipped_operation_does_nothing(s: SimState, id: OpId)
    requires
        s.ops.contains_key(id),
        s.ops[id].skipped,
    ensures
        s.complete(id) == (
            SimState {
                ops: s.ops.insert(
                    id,
                    OpView { done: true, done_ns: Some(s.clock), ..s.ops[id] },
                ),
                running: SimState::runs_apart(s.running, id),
                ..s
            },
            Ok::<(), SimError>(()),
        ),
{
    reveal(SimState::complete);
}

/// What is submitted for the body of a conditional node waits for the condition of the node.
pub proof fn body_waits_for_condition(
    s: SimState,
    pred: CondPred,
    body: GraphId,
    stream: StreamId,
    head: bool,
    stack: Seq<GraphId>,
    wait: Seq<OpId>,
    fuel: usize,
)
    ensures
        guarded(
            s.ops,
            s.enqueue_pred_graph(pred, body, stream, head, stack, wait, fuel).0.ops,
            pred,
        ),
{
    let s1 = SimState { enqueue_preds: s.enqueue_preds.push(pred), ..s };
    assert(s1.enqueue_preds[s.enqueue_preds.len() as int] == pred);
    nothing_carried(s1, pred);
    enqueue_graph_carries(s1, s1, pred, body, stream, head, stack, wait, fuel);
    carried_is_guarded(s1, s1.enqueue_graph(body, stream, head, stack, wait, fuel).0, pred);
}

/// Whether each new operation waits for the handle to have the number of a branch.
pub open spec fn branched(
    before: Map<OpId, OpView>,
    after: Map<OpId, OpView>,
    handle: CondId,
    n: int,
) -> bool {
    forall|k: OpId| #[trigger]
        after.contains_key(k) ==> (before.contains_key(k) && after[k].preds == before[k].preds)
            || exists|b: u32|
            b < n && #[trigger] after[k].preds.contains(CondPred::Equals(handle, b))
}

proof fn lemma_branches(
    s: SimState,
    handle: CondId,
    bodies: Seq<GraphId>,
    on: StreamId,
    stack: Seq<GraphId>,
    wait: Seq<OpId>,
    fuel: usize,
    w: WalkView,
    i: int,
)
    requires
        0 <= i,
    ensures
        branched(
            s.ops,
            s.enqueue_branches_from(handle, bodies, on, stack, wait, fuel, w, i).0.ops,
            handle,
            bodies.len() as int,
        ),
    decreases bodies.len() - i,
{
    if i < bodies.len() && !((i as usize) as u64 > 0xFFFF_FFFF) && s.resolved_graph(
        bodies[i],
    ) is Ok {
        let b = (i as usize) as u32;
        let body = s.resolved_graph(bodies[i])->Ok_0;
        let pred = CondPred::Equals(handle, b);
        body_waits_for_condition(s, pred, body, on, w.head, stack, wait, fuel);
        let (u, r) = s.enqueue_pred_graph(pred, body, on, w.head, stack, wait, fuel);
        assert(b < bodies.len());
        if r is Ok {
            let v = WalkView { head: false, n: w.n.saturating_add(r->Ok_0), ..w };
            lemma_branches(u, handle, bodies, on, stack, wait, fuel, v, i + 1);
            let t = s.enqueue_branches_from(handle, bodies, on, stack, wait, fuel, w, i).0;
            assert(t == u.enqueue_branches_from(
                handle,
                bodies,
                on,
                stack,
                wait,
                fuel,
                v,
                i + 1,
            ).0);
            assert forall|k: OpId| #[trigger] t.ops.contains_key(k) implies (s.ops.contains_key(k)
                && t.ops[k].preds == s.ops[k].preds) || exists|c: u32|
                c < bodies.len() && #[trigger] t.ops[k].preds.contains(
                    CondPred::Equals(handle, c),
                ) by {
                if u.ops.contains_key(k) && t.ops[k].preds == u.ops[k].preds
                    && u.ops[k].preds.contains(pred) {
                    assert(t.ops[k].preds.contains(CondPred::Equals(handle, b)));
                }
            }
        }
    }
}

proof fn lemma_more_branches(
    s: SimState,
    handle: CondId,
    bodies: Seq<GraphId>,
    on: StreamId,
    stack: Seq<GraphId>,
    wait: Seq<OpId>,
    fuel: usize,
    w: WalkView,
    i: int,
)
    requires
        0 <= i < bodies.len() <= u32::MAX,
        s.enqueue_branches_from(handle, bodies.drop_last(), on, stack, wait, fuel, w, i).1 is Ok,
        s.enqueue_branches_from(handle, bodies, on, stack, wait, fuel, w, i).1 is Ok,
    ensures
        guarded(
            s.enqueue_branches_from(
                handle,
                bodies.drop_last(),
                on,
                stack,
                wait,
                fuel,
                w,
                i,
            ).0.ops,
            s.enqueue_branches_from(handle, bodies, on, stack, wait, fuel, w, i).0.ops,
            CondPred::Equals(handle, (bodies.len() - 1) as u32),
        ),
    decreases bodies.len() - i,
{
    let few = bodies.drop_last();
    let b = (i as usize) as u32;
    let body = s.resolved_graph(bodies[i])->Ok_0;
    let pred = CondPred::Equals(handle, b);
    let (u, r) = s.enqueue_pred_graph(pred, body, on, w.head, stack, wait, fuel);
    let v = WalkView { head: false, n: w.n.saturating_add(r->Ok_0), ..w };
    if i < few.len() {
        assert(few[i] == bodies[i]);
        lemma_more_branches(u, handle, bodies, on, stack, wait, fuel, v, i + 1);
    } else {
        body_waits_for_condition(s, pred, body, on, w.head, stack, wait, fuel);
        assert(s.enqueue_branches_from(handle, few, on, stack, wait, fuel, w, i).0 == s);
        assert(u.enqueue_branches_from(handle, bodies, on, stack, wait, fuel, v, i + 1).0 == u);
    }
}

/// What a further branch of a switch node adds waits for the handle to have the number of that
/// branch, counted from zero.
pub proof fn branch_waits_for_its_number(
    s: SimState,
    handle: CondId,
    bodies: Seq<GraphId>,
    on: StreamId,
    stack: Seq<GraphId>,
    wait: Seq<OpId>,
    fuel: usize,
    w: WalkView,
)
    requires
        0 < bodies.len() <= u32::MAX,
        s.enqueue_branches(handle, bodies.drop_last(), on, stack, wait, fuel, w).1 is Ok,
        s.enqueue_branches(handle, bodies, on, stack, wait, fuel, w).1 is Ok,
    ensures
        guarded(
            s.enqueue_branches(handle, bodies.drop_last(), on, stack, wait, fuel, w).0.ops,
            s.enqueue_branches(handle, bodies, on, stack, wait, fuel, w).0.ops,
            CondPred::Equals(handle, (bodies.len() - 1) as u32),
        ),
{
    lemma_more_branches(s, handle, bodies, on, stack, wait, fuel, w, 0);
}

/// What the launch of a conditional node submits waits for the handle of the node: for it not to be
/// zero, or for it to have the number of a branch.
pub proof fn conditional_node_guards_operations(
    s: SimState,
    graph: GraphId,
    origin: Lane,
    stream: StreamId,
    step: StepView,
    idx: usize,
    extra_wait: Seq<OpId>,
    launch_tail: Option<OpId>,
    stack: Seq<GraphId>,
    fuel: usize,
    w: WalkView,
)
    ensures
        ({
            let t = s.enqueue_step(
                graph,
                origin,
                stream,
                step,
                idx,
                extra_wait,
                launch_tail,
                stack,
                fuel,
                w,
            ).0;
            &&& step.kind matches GpuOpView::If { handle, .. } ==> guarded(
                s.ops,
                t.ops,
                CondPred::Nonzero(handle),
            )
            &&& step.kind matches GpuOpView::While { handle, .. } ==> guarded(
                s.ops,
                t.ops,
                CondPred::Nonzero(handle),
            )
            &&& step.kind matches GpuOpView::Switch { handle, bodies } ==> branched(
                s.ops,
                t.ops,
                handle,
                bodies.len() as int,
            )
            &&& step.destroyed || !step.enabled ==> t.ops == s.ops
        }),
{
    if fuel > 0 {
        let s1 = s.load_enq(graph, step.attrs);
        let (s2, (on, worker)) = s1.graph_exec_stream(
            origin,
            stream,
            step.device,
            step.stream,
            step.deps,
            w,
        );
        assert(s1.ops == s.ops) by {
            reveal(SimState::load_enq);
        }
        assert(s2.ops == s.ops) by {
            reveal(SimState::graph_exec_stream);
            reveal(SimState::bind_graph_worker);
        }
        let v = w.with_stream(idx, on, worker);
        let f = fuel.saturating_sub(1);
        match w.node_waits(step.deps, extra_wait, launch_tail) {
            Err(_e) => {},
            Ok(wait) => {
                if !step.destroyed && step.enabled {
                    match step.kind {
                        GpuOpView::If { handle, body } => {
                            if s2.resolved_graph(body) is Ok {
                                body_waits_for_condition(
                                    s2,
                                    CondPred::Nonzero(handle),
                                    s2.resolved_graph(body)->Ok_0,
                                    on,
                                    v.head,
                                    stack,
                                    wait,
                                    f,
                                );
                            }
                        },
                        GpuOpView::While { handle, body } => {
                            if s2.resolved_graph(body) is Ok {
                                let b = s2.resolved_graph(body)->Ok_0;
                                let pred = CondPred::Nonzero(handle);
                                body_waits_for_condition(
                                    s2,
                                    pred,
                                    b,
                                    on,
                                    v.head,
                                    stack,
                                    wait,
                                    f,
                                );
                                let s3 = s2.enqueue_pred_graph(
                                    pred,
                                    b,
                                    on,
                                    v.head,
                                    stack,
                                    wait,
                                    f,
                                ).0;
                                tick_waits_for_condition(s3, step.device, on, handle, b, 1, wait);
                            }
                        },
                        GpuOpView::Switch { handle, bodies } => {
                            lemma_branches(s2, handle, bodies, on, stack, wait, f, v, 0);
                        },
                        _ => {},
                    }
                }
            },
        }
    }
}

/// The next turn of a while node is considered only where its handle is not zero.
pub proof fn tick_waits_for_condition(
    s: SimState,
    device: DeviceId,
    on: StreamId,
    handle: CondId,
    body: GraphId,
    iter: u32,
    wait: Seq<OpId>,
)
    ensures
        guarded(
            s.ops,
            s.submit_tick(device, on, handle, body, iter, wait).0.ops,
            CondPred::Nonzero(handle),
        ),
{
    reveal(SimState::submit_tick);
    let pred = CondPred::Nonzero(handle);
    let s1 = SimState { enqueue_preds: s.enqueue_preds.push(pred), ..s };
    assert(s1.enqueue_preds[s.enqueue_preds.len() as int] == pred);
    nothing_carried(s1, pred);
    let kind = GpuOpView::WhileTick { handle, body, iter };
    submit_launch_carries(s1, s1, pred, device, on, kind, LaunchCost::GraphBody);
    let (s2, tick) = s1.submit_launch(device, on, kind, LaunchCost::GraphBody);
    carried_is_guarded(s1, s2, pred);
    match tick {
        Err(_e) => {},
        Ok(id) => {
            lemma_deps_keep_preds(s2.pop_pred(), id, wait, 0);
            let s4 = s2.pop_pred().add_op_deps(id, wait);
            assert(guarded(s.ops, s4.ops, pred));
        },
    }
}

proof fn lemma_deps_keep_preds(s: SimState, id: OpId, deps: Seq<OpId>, i: int)
    ensures
        forall|k: OpId| #[trigger]
            s.add_op_deps_from(id, deps, i).ops.contains_key(k) ==> s.ops.contains_key(k)
                && s.add_op_deps_from(id, deps, i).ops[k].preds == s.ops[k].preds,
    decreases deps.len() - i,
{
    if 0 <= i < deps.len() {
        lemma_deps_keep_preds(s.add_op_dep(id, deps[i]), id, deps, i + 1);
    }
}

/// After a turn of a while node another one follows where the handle is not zero, up to the limit of
/// turns, and none where it is.
pub proof fn while_goes_on_with_handle(
    s: SimState,
    id: OpId,
    device: DeviceId,
    stream: StreamId,
    handle: CondId,
    body: GraphId,
    iter: u32,
)
    requires
        s.conds.contains_key(handle),
    ensures
        ({
            let (t, r) = s.continue_while(
                id,
                device,
                stream,
                GpuOpView::WhileTick { handle, body, iter },
            );
            &&& s.conds[handle].value == 0 ==> (t, r) == (s, Ok::<(), SimError>(()))
            &&& s.conds[handle].value != 0 && iter >= 64 ==> t == s && r is Err
            &&& guarded(s.ops, t.ops, CondPred::Nonzero(handle))
        }),
{
    reveal(SimState::continue_while);
    let none = Seq::<GraphId>::empty();
    let wait = seq![id];
    let pred = CondPred::Nonzero(handle);
    body_waits_for_condition(s, pred, body, stream, false, none, wait, s.tree_fuel());
    let u = s.enqueue_pred_graph(pred, body, stream, false, none, wait, s.tree_fuel()).0;
    tick_waits_for_condition(u, device, stream, handle, body, iter.saturating_add(1), wait);
}

} // verus!
