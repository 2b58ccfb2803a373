//! When operations start and end.
use vstd::prelude::*;
use crate::error::SimError;
use crate::history::{follows, follows_itself, history};
use crate::history::submit::submit_follows;
use crate::history::timeline::{
    awaits, free_at, order_finite, order_holds, ready, timed, times_kept_of,
};
use crate::history::transfer::wait_event_follows;
use crate::ids::{DeviceId, EventId, Lane, OpId, StreamId};
use crate::laws::frames::{
    cancel_each_keeps_running, ensure_event_keeps_work, ensure_launch_events_keeps_work,
    mark_launch_events_keeps_work, start_ready_keeps_clock,
};
use crate::laws::start::fresh_is_sound;
use crate::list::{count_u32, count_where, lemma_picked_holds, picked, with_all_new};
use crate::ops::{EventWaitFlags, GpuOpView};
use crate::profile::ProfileView;
use crate::sim::SimState;
use crate::sim::launch::{ops_of_nodes, WalkView};
use crate::state::{LaunchCost, OpView, StepView};
use crate::table::{lemma_order_exists, order_of};

verus! {

/// Whatever is done to a new simulator, operations are submitted, then start, then end. None starts
/// before an earlier operation that it waits for has ended, and what is in flight waits for nothing.
pub proof fn order_always_holds(profile: ProfileView, s: SimState, id: OpId)
    requires
        follows(SimState::fresh(profile), s),
        s.next.op < u64::MAX,
    ensures
        s.sequenced(),
        s.ops.contains_key(id) ==> timed(s.ops[id], s.clock),
        s.ops.contains_key(id) && s.ops[id].start_ns is Some ==> free_at(
            s.ops,
            id,
            s.ops[id].start_ns->0,
        ),
        s.is_running(id) ==> s.ops.contains_key(id) && !s.ops[id].done && ready(s.ops, s.ops[id]),
{
    let z = SimState::fresh(profile);
    fresh_is_sound(profile);
    history(z, s);
    order_holds(s.ops, s.clock, s.running, id);
}

/// An operation keeps its attributes, the times of its start and its end, and all that it waits
/// for. One that ends later than `z` does not end before the time of `z`.
pub proof fn times_stay(z: SimState, s: SimState, id: OpId)
    requires
        z.numbered(),
        z.sequenced(),
        follows(z, s),
        s.next.op < u64::MAX,
        z.ops.contains_key(id),
    ensures
        s.ops.contains_key(id),
        s.ops[id].attrs == z.ops[id].attrs,
        z.ops[id].start_ns is Some ==> s.ops[id].start_ns == z.ops[id].start_ns,
        z.ops[id].done ==> s.ops[id].done && s.ops[id].done_ns == z.ops[id].done_ns,
        !z.ops[id].done && s.ops[id].done ==> s.ops[id].done_ns is Some && s.ops[id].done_ns->0
            >= z.clock,
        forall|d: OpId| #[trigger] z.ops[id].deps.contains(d) ==> s.ops[id].deps.contains(d),
{
    history(z, s);
    times_kept_of(z.ops, z.clock, s.ops, id);
}

/// An operation that waits for an earlier one is not in flight before that has ended, and starts no
/// earlier.
pub proof fn dependent_runs_later(z: SimState, s: SimState, id: OpId, k: OpId)
    requires
        z.numbered(),
        z.sequenced(),
        follows(z, s),
        s.next.op < u64::MAX,
        z.ops.contains_key(id),
        z.ops.contains_key(k),
        k.0 < id.0,
        z.ops[id].deps.contains(k),
        awaits(z.ops[id], z.ops[k]),
    ensures
        s.is_running(id) ==> s.ops[k].done,
        s.ops[id].start_ns is Some ==> s.ops[k].done && s.ops[k].done_ns is Some
            && s.ops[k].done_ns->0 <= s.ops[id].start_ns->0,
{
    history(z, s);
    times_stay(z, s, id);
    times_stay(z, s, k);
    assert(z.ops[id].deps.contains(k));
    assert(s.ops[id].deps.contains(k));
    assert(awaits(s.ops[id], s.ops[k]));
    order_holds(s.ops, s.clock, s.running, id);
    let i = choose|i: int| 0 <= i < s.ops[id].deps.len() && s.ops[id].deps[i] == k;
    assert(s.ops[id].deps[i] == k);
}

proof fn lemma_all_new<K>(q: Seq<K>, more: Seq<K>, x: K)
    requires
        q.contains(x),
    ensures
        with_all_new(q, more).contains(x),
    decreases more.len(),
{
    if more.len() > 0 {
        lemma_all_new(q, more.drop_last(), x);
        lemma_push(with_all_new(q, more.drop_last()), more.last(), x);
    }
}

proof fn lemma_push<K>(q: Seq<K>, y: K, x: K)
    ensures
        q.contains(x) ==> q.push(y).contains(x),
        q.push(x).contains(x),
{
    if q.contains(x) {
        let i = choose|i: int| 0 <= i < q.len() && q[i] == x;
        assert(q.push(y)[i] == x);
    }
    assert(q.push(x)[q.len() as int] == x);
}

proof fn lemma_null_waits(s: SimState, device: DeviceId, deps: Seq<OpId>, i: int, x: OpId)
    requires
        deps.contains(x),
    ensures
        s.with_null_waits_from(device, deps, i).contains(x),
    decreases order_of(s.tail.dom()).len() - i,
{
    if 0 <= i < order_of(s.tail.dom()).len() {
        let lane = order_of(s.tail.dom())[i];
        let last = s.tail[lane];
        lemma_push(deps, last, x);
        if s.null_waits_for(device, lane) {
            lemma_null_waits(s, device, deps.push(last), i + 1, x);
        } else {
            lemma_null_waits(s, device, deps, i + 1, x);
        }
    }
}

proof fn lemma_stream_ops(
    s: SimState,
    device: DeviceId,
    stream: StreamId,
    deps: Seq<OpId>,
    i: int,
    x: OpId,
)
    requires
        0 <= i,
        deps.contains(x) || (s.ops[x].device == device && s.ops[x].stream == stream
            && !s.ops[x].done && !s.ops[x].cancelled && exists|j: int|
            i <= j < order_of(s.ops.dom()).len() && #[trigger] order_of(s.ops.dom())[j] == x),
    ensures
        s.with_stream_ops_from(device, stream, deps, i).contains(x),
    decreases order_of(s.ops.dom()).len() - i,
{
    let all = order_of(s.ops.dom());
    if i < all.len() {
        let id = all[i];
        let o = s.ops[id];
        lemma_push(deps, id, x);
        if o.device == device && o.stream == stream && !o.done && !o.cancelled && !deps.contains(
            id,
        ) {
            lemma_stream_ops(s, device, stream, deps.push(id), i + 1, x);
        } else {
            lemma_stream_ops(s, device, stream, deps, i + 1, x);
        }
    }
}

proof fn lemma_null_stream(
    s: SimState,
    device: DeviceId,
    stream: StreamId,
    deps: Seq<OpId>,
    x: OpId,
)
    requires
        deps.contains(x),
    ensures
        s.with_null_stream(device, stream, deps).contains(x),
{
    if stream.is_null() {
        lemma_null_waits(s, device, deps, 0, x);
    } else if s.tail.contains_key(Lane(device, StreamId::null())) {
        lemma_push(deps, s.tail[Lane(device, StreamId::null())], x);
    }
}

proof fn lemma_submit_deps(
    s: SimState,
    device: DeviceId,
    stream: StreamId,
    kind: GpuOpView,
    k: OpId,
)
    requires
        s.ops.dom().finite(),
        s.ops.contains_key(k),
        s.ops[k].device == device,
        s.ops[k].stream == stream,
        !s.ops[k].done,
        !s.ops[k].cancelled,
    ensures
        s.submit_deps(device, stream, kind).contains(k),
{
    lemma_order_exists(s.ops.dom());
    let all = order_of(s.ops.dom());
    assert(all.contains(k));
    let j = choose|j: int| 0 <= j < all.len() && all[j] == k;
    assert(all[j] == k);
    let first = match s.tail.get(Lane(device, stream)) {
        Some(prev) => Seq::<OpId>::empty().push(prev),
        None => Seq::<OpId>::empty(),
    };
    lemma_stream_ops(s, device, stream, first, 0, k);
    let deps = s.with_stream_ops(device, stream, first);
    let deps = match s.graph_joins.get(Lane(device, stream)) {
        Some(joins) => {
            lemma_all_new(deps, joins, k);
            with_all_new(deps, joins)
        },
        None => deps,
    };
    lemma_null_stream(s, device, stream, deps, k);
    let deps = s.stream_order_deps(device, stream);
    if let GpuOpView::EventWait { event, external } = kind {
        if let Some(rec) = s.event_recorded_by(event) {
            lemma_push(deps, rec, k);
        }
    }
}

proof fn lemma_ensure_recorded(s: SimState, e: EventId, event: EventId)
    requires
        s.event_recorded_by(event) is Some,
    ensures
        s.ensure_event(e).event_recorded_by(event) == s.event_recorded_by(event),
{
}

proof fn lemma_submitted(
    s: SimState,
    device: DeviceId,
    stream: StreamId,
    kind: GpuOpView,
    launch: LaunchCost,
)
    requires
        s.capturing is None,
        s.submit_launch(device, stream, kind, launch).1 is Ok,
    ensures
        s.submit_launch(device, stream, kind, launch).1 == Ok::<OpId, SimError>(OpId(s.next.op)),
        s.submit_launch(device, stream, kind, launch).0.ops.contains_key(OpId(s.next.op)),
        s.submit_launch(device, stream, kind, launch).0.ops[OpId(s.next.op)].deps
            == s.take_op_id().0.ensure_launch_events().submit_deps(device, stream, kind),
{
    reveal(SimState::submit_live);
    let s1 = s.take_op_id().0;
    let s2 = s1.ensure_launch_events();
    ensure_launch_events_keeps_work(s1);
    match s2.snap_mem_sync(device, stream, kind) {
        Err(e) => {},
        Ok((domain, map)) => {
            let attrs = s2.op_attrs(s2.snap_priority(device, stream), map.physical(domain));
            let id = OpId(s.next.op);
            let op = OpView {
                device,
                stream,
                kind,
                deps: s2.submit_deps(device, stream, kind),
                done: false,
                cancelled: false,
                launch,
                submit_ns: s2.clock,
                start_ns: None,
                done_ns: None,
                preds: s2.enqueue_preds,
                skipped: false,
                attrs,
                pdl_trigger_ns: None,
                domain_fence_paid: false,
            };
            let s3 = SimState { ops: s2.ops.insert(id, op), ..s2 };
            mark_launch_events_keeps_work(
                s3,
                attrs.programmatic_event,
                attrs.launch_completion,
                id,
            );
        },
    }
}

/// An operation waits for everything on its stream that has not ended.
pub proof fn submitted_behind_stream(
    s: SimState,
    device: DeviceId,
    stream: StreamId,
    kind: GpuOpView,
    k: OpId,
)
    requires
        s.capturing is None,
        s.numbered(),
        s.sequenced(),
        s.next.op < u64::MAX,
        s.submit(device, stream, kind).1 is Ok,
        s.ops.contains_key(k),
        s.ops[k].device == device,
        s.ops[k].stream == stream,
        !s.ops[k].done,
        !s.ops[k].cancelled,
    ensures
        ({
            let t = s.submit(device, stream, kind).0;
            let id = s.submit(device, stream, kind).1->Ok_0;
            &&& id == OpId(s.next.op)
            &&& t.ops.contains_key(id)
            &&& t.ops[id].deps.contains(k)
        }),
{
    lemma_submitted(s, device, stream, kind, LaunchCost::Kernel);
    let s1 = s.take_op_id().0;
    let s2 = s1.ensure_launch_events();
    ensure_launch_events_keeps_work(s1);
    order_finite(s.ops, s.clock, s.running);
    lemma_submit_deps(s2, device, stream, kind, k);
}

proof fn lemma_null_waits_all(s: SimState, device: DeviceId, deps: Seq<OpId>, i: int, j: int)
    requires
        0 <= i <= j < order_of(s.tail.dom()).len(),
        s.null_waits_for(device, order_of(s.tail.dom())[j]),
    ensures
        s.with_null_waits_from(device, deps, i).contains(s.tail[order_of(s.tail.dom())[j]]),
    decreases j - i,
{
    let lane = order_of(s.tail.dom())[i];
    let last = s.tail[lane];
    let next = if s.null_waits_for(device, lane) {
        deps.push(last)
    } else {
        deps
    };
    if i == j {
        lemma_push(deps, last, last);
        lemma_null_waits(s, device, next, i + 1, last);
    } else {
        lemma_null_waits_all(s, device, next, i + 1, j);
    }
}

/// The default stream and the streams that block on it wait for each other: an operation on the
/// default stream waits for the last one on every such stream of its device, and an operation on such
/// a stream waits for the last one on the default stream. With a legacy default stream every stream
/// is such a stream.
pub proof fn default_stream_is_waited_for(
    s: SimState,
    device: DeviceId,
    stream: StreamId,
    other: StreamId,
    kind: GpuOpView,
)
    requires
        s.capturing is None,
        s.submit(device, stream, kind).1 is Ok,
        s.tail.dom().finite(),
        s.tail.contains_key(Lane(device, other)),
        stream.0 == 0 && other.0 != 0 || (stream.0 != 0 && other.0 == 0),
        s.legacy_null_stream || s.blocking.contains(
            Lane(
                device,
                if stream.0 == 0 {
                    other
                } else {
                    stream
                },
            ),
        ),
    ensures
        ({
            let (t, r) = s.submit(device, stream, kind);
            t.ops[r->Ok_0].deps.contains(s.tail[Lane(device, other)])
        }),
{
    lemma_submitted(s, device, stream, kind, LaunchCost::Kernel);
    let s1 = s.take_op_id().0;
    let s2 = s1.ensure_launch_events();
    let last = s.tail[Lane(device, other)];
    lemma_order_exists(s2.tail.dom());
    let first = match s2.tail.get(Lane(device, stream)) {
        Some(prev) => Seq::<OpId>::empty().push(prev),
        None => Seq::<OpId>::empty(),
    };
    let deps = s2.with_stream_ops(device, stream, first);
    let deps = match s2.graph_joins.get(Lane(device, stream)) {
        Some(joins) => with_all_new(deps, joins),
        None => deps,
    };
    if stream.0 == 0 {
        let all = order_of(s2.tail.dom());
        assert(all.contains(Lane(device, other)));
        let j = choose|j: int| 0 <= j < all.len() && all[j] == Lane(device, other);
        lemma_null_waits_all(s2, device, deps, 0, j);
    } else {
        assert(Lane(device, other) == Lane(device, StreamId::null()));
        lemma_push(deps, last, last);
    }
    let deps = s2.stream_order_deps(device, stream);
    assert(deps.contains(last));
    if let GpuOpView::EventWait { event, external } = kind {
        if let Some(rec) = s2.event_recorded_by(event) {
            lemma_push(deps, rec, last);
        }
    }
}

/// Streams run in order: an operation is not in flight, and does not start, before everything that
/// was on its stream when it was submitted has ended. The exception is a kernel that waits only for
/// the programmatic trigger of one before it, or a wait for an event that such a kernel fires.
pub proof fn stream_runs_in_order(
    s0: SimState,
    device: DeviceId,
    stream: StreamId,
    kind: GpuOpView,
    k: OpId,
    s: SimState,
)
    requires
        s0.capturing is None,
        s0.numbered(),
        s0.sequenced(),
        s0.submit(device, stream, kind).1 is Ok,
        s0.ops.contains_key(k),
        s0.ops[k].device == device,
        s0.ops[k].stream == stream,
        !s0.ops[k].done,
        !s0.ops[k].cancelled,
        follows(s0.submit(device, stream, kind).0, s),
        s.next.op < u64::MAX,
        awaits(
            s0.submit(device, stream, kind).0.ops[s0.submit(device, stream, kind).1->Ok_0],
            s0.ops[k],
        ),
    ensures
        ({
            let id = s0.submit(device, stream, kind).1->Ok_0;
            &&& s.is_running(id) ==> s.ops[k].done
            &&& s.ops[id].start_ns is Some ==> s.ops[k].done && s.ops[k].done_ns is Some
                && s.ops[k].done_ns->0 <= s.ops[id].start_ns->0
        }),
{
    let z = s0.submit(device, stream, kind).0;
    let id = s0.submit(device, stream, kind).1->Ok_0;
    follows_itself(s0);
    submit_follows(s0, s0, device, stream, kind);
    history(s0, z);
    history(z, s);
    submitted_behind_stream(s0, device, stream, kind, k);
    times_stay(s0, z, k);
    dependent_runs_later(z, s, id, k);
}

proof fn lemma_add_deps(s: SimState, id: OpId, deps: Seq<OpId>, i: int, x: OpId)
    requires
        s.ops.contains_key(id),
        0 <= i <= deps.len(),
        s.ops[id].deps.contains(x) || exists|j: int| i <= j < deps.len() && #[trigger] deps[j] == x,
    ensures
        ({
            let t = s.add_op_deps_from(id, deps, i);
            &&& t.ops.contains_key(id)
            &&& t.ops[id].deps.contains(x)
        }),
    decreases deps.len() - i,
{
    if i < deps.len() {
        lemma_push(s.ops[id].deps, deps[i], x);
        lemma_add_deps(s.add_op_dep(id, deps[i]), id, deps, i + 1, x);
    }
}

proof fn lemma_ops_of_nodes(node_ops: Seq<Seq<OpId>>, deps: Seq<usize>, j: int, x: OpId)
    requires
        0 <= j < deps.len(),
        ops_of_nodes(node_ops, deps) is Ok,
        deps[j] < node_ops.len(),
        node_ops[deps[j] as int].contains(x),
    ensures
        ops_of_nodes(node_ops, deps)->Ok_0.contains(x),
    decreases deps.len(),
{
    let q = ops_of_nodes(node_ops, deps)->Ok_0;
    let before = ops_of_nodes(node_ops, deps.drop_last())->Ok_0;
    let last = node_ops[deps.last() as int];
    if j < deps.len() - 1 {
        lemma_ops_of_nodes(node_ops, deps.drop_last(), j, x);
        let i = choose|i: int| 0 <= i < before.len() && before[i] == x;
        assert(q[i] == x);
    } else {
        let i = choose|i: int| 0 <= i < last.len() && last[i] == x;
        assert(q[before.len() + i] == x);
    }
}

/// The operation of a launched node waits for every operation of the nodes it depends on, and
/// counts as an operation of its node.
pub proof fn launched_node_waits(
    s: SimState,
    step: StepView,
    on: StreamId,
    stream: StreamId,
    idx: usize,
    extra_wait: Seq<OpId>,
    launch_tail: Option<OpId>,
    w: WalkView,
    j: int,
    x: OpId,
)
    requires
        s.capturing is None,
        w.node_waits(step.deps, extra_wait, launch_tail) is Ok,
        0 <= j < step.deps.len(),
        step.deps[j] < w.node_ops.len(),
        w.node_ops[step.deps[j] as int].contains(x),
        idx < w.node_ops.len(),
        s.enqueue_plain(
            step,
            on,
            stream,
            idx,
            w.node_waits(step.deps, extra_wait, launch_tail)->Ok_0,
            w,
        ).1 is Ok,
    ensures
        ({
            let wait = w.node_waits(step.deps, extra_wait, launch_tail)->Ok_0;
            let (t, done) = s.enqueue_plain(step, on, stream, idx, wait, w);
            let id = OpId(s.next.op);
            &&& t.ops.contains_key(id)
            &&& t.ops[id].deps.contains(x)
            &&& done->Ok_0.node_ops[idx as int].contains(id)
        }),
{
    reveal(SimState::enqueue_plain);
    let wait = w.node_waits(step.deps, extra_wait, launch_tail)->Ok_0;
    lemma_ops_of_nodes(w.node_ops, step.deps, j, x);
    let k = choose|k: int| 0 <= k < wait.len() && wait[k] == x;
    let launch = if w.head {
        LaunchCost::GraphHead
    } else {
        LaunchCost::GraphBody
    };
    let s1 = s.submit_launch(step.device, on, step.kind, launch).0;
    let id = OpId(s.next.op);
    lemma_submitted(s, step.device, on, step.kind, launch);
    assert(wait[k] == x);
    lemma_add_deps(s1, id, wait, 0, x);
    let s2 = s1.add_op_deps(id, wait);
    let w1 = WalkView { head: false, ..w };
    let w2 = match s2.recorded_event(step.kind, step.attrs) {
        Some(event) => WalkView {
            rec_ops: w1.rec_ops.insert(s2.event_root(event), id),
            ..w1
        },
        None => w1,
    };
    assert(s2.link_event_wait(id, step.kind, w2).ops[id].deps.contains(x)) by {
        if let GpuOpView::EventWait { event, external } = step.kind {
            let root = s2.event_root(event);
            let rec = if external {
                s2.event_recorded_by(root)
            } else {
                match w2.rec_ops.get(root) {
                    Some(r) => Some(r),
                    None => None,
                }
            };
            if rec is Some {
                lemma_push(s2.ops[id].deps, rec->0, x);
            }
        }
    }
    let ops = w.node_ops[idx as int];
    assert((ops + seq![id])[ops.len() as int] == id);
}

/// A wait for an event waits for the operation that recorded it last.
pub proof fn wait_is_behind_record(s: SimState, device: DeviceId, event: EventId, stream: StreamId)
    requires
        s.capturing is None,
        s.wait_event(device, event, stream).1 is Ok,
        s.event_recorded_by(event) is Some,
    ensures
        ({
            let t = s.wait_event(device, event, stream).0;
            let id = s.wait_event(device, event, stream).1->Ok_0;
            &&& id == OpId(s.next.op)
            &&& t.ops.contains_key(id)
            &&& t.ops[id].deps.contains(s.event_recorded_by(event)->0)
        }),
{
    let kind = GpuOpView::EventWait { event, external: false };
    assert(0u32 & !EventWaitFlags::EXTERNAL == 0) by (bit_vector);
    assert(0u32 & EventWaitFlags::EXTERNAL == 0) by (bit_vector);
    lemma_ensure_recorded(s, event, event);
    ensure_event_keeps_work(s, event);
    let s0 = s.ensure_event(event);
    lemma_submitted(s0, device, stream, kind, LaunchCost::Kernel);
    let s1 = s0.take_op_id().0;
    let s2 = s1.ensure_launch_events();
    ensure_launch_events_keeps_work(s1);
    assert(s2.event_recorded_by(event) == s.event_recorded_by(event)) by {
        if s1.enq.programmatic_event is Some {
            lemma_ensure_recorded(s1, s1.enq.programmatic_event->0.event, event);
        }
        let s3 = match s1.enq.programmatic_event {
            Some(pe) => s1.ensure_event(pe.event),
            None => s1,
        };
        if s3.enq.launch_completion is Some {
            lemma_ensure_recorded(s3, s3.enq.launch_completion->0.event, event);
        }
    }
    let rec = s.event_recorded_by(event)->0;
    lemma_push(s2.stream_order_deps(device, stream), rec, rec);
}

/// A wait for an event is over only after the operation that recorded the event has ended, unless
/// that is a kernel that fires events of its own.
pub proof fn wait_is_over_after_record(
    s0: SimState,
    device: DeviceId,
    event: EventId,
    stream: StreamId,
    s: SimState,
)
    requires
        s0.capturing is None,
        s0.numbered(),
        s0.sequenced(),
        s0.wait_event(device, event, stream).1 is Ok,
        s0.event_recorded_by(event) is Some,
        s0.ops.contains_key(s0.event_recorded_by(event)->0),
        follows(s0.wait_event(device, event, stream).0, s),
        s.next.op < u64::MAX,
        awaits(
            s0.wait_event(device, event, stream).0.ops[s0.wait_event(
                device,
                event,
                stream,
            ).1->Ok_0],
            s0.ops[s0.event_recorded_by(event)->0],
        ),
    ensures
        ({
            let id = s0.wait_event(device, event, stream).1->Ok_0;
            let rec = s0.event_recorded_by(event)->0;
            &&& s.is_running(id) ==> s.ops[rec].done
            &&& s.ops[id].start_ns is Some ==> s.ops[rec].done && s.ops[rec].done_ns is Some
                && s.ops[rec].done_ns->0 <= s.ops[id].start_ns->0
        }),
{
    let z = s0.wait_event(device, event, stream).0;
    let id = s0.wait_event(device, event, stream).1->Ok_0;
    let rec = s0.event_recorded_by(event)->0;
    follows_itself(s0);
    wait_event_follows(s0, s0, device, event, stream);
    history(s0, z);
    history(z, s);
    wait_is_behind_record(s0, device, event, stream);
    times_stay(s0, z, rec);
    dependent_runs_later(z, s, id, rec);
}

/// A wait for an event that was recorded and has not fired is not put in flight.
pub proof fn unfired_event_holds_wait(s: SimState, id: OpId, event: EventId, rec: OpId)
    requires
        s.event_recorded_by(s.event_root(event)) == Some(rec),
        !s.event_is_recorded(s.event_root(event)),
        s.ops.contains_key(rec),
        !s.ops[rec].cancelled,
    ensures
        s.start_event_wait(id, event, false) == (s, Ok::<bool, SimError>(false)),
{
}

/// Starting what is ready takes no time.
pub proof fn starting_takes_no_time(s: SimState)
    ensures
        s.start_ready().0.clock == s.clock,
{
    start_ready_keeps_clock(s);
}

/// An operation that a cancelled stream drops: it is queued there and not in flight.
pub open spec fn drops(s: SimState, device: DeviceId, stream: StreamId, k: OpId) -> bool {
    &&& s.ops.contains_key(k)
    &&& s.ops[k].device == device
    &&& s.ops[k].stream == stream
    &&& !s.ops[k].done
    &&& !s.is_running(k)
}

proof fn lemma_dropped(s: SimState, device: DeviceId, stream: StreamId, k: OpId)
    requires
        s.ops.dom().finite(),
    ensures
        s.queued_on(device, stream).contains(k) <==> drops(s, device, stream, k),
{
    lemma_order_exists(s.ops.dom());
    let all = order_of(s.ops.dom());
    let at = |i: int| s.queued_on_at(device, stream, i);
    lemma_picked_holds(all.len(), at, k);
    if s.queued_on(device, stream).contains(k) {
        let i = choose|i: int| 0 <= i < all.len() && #[trigger] at(i) == Some(k);
        assert(s.queued_on_at(device, stream, i) == Some(k));
        assert(all.contains(all[i]));
    }
    if drops(s, device, stream, k) {
        assert(all.contains(k));
        let i = choose|i: int| 0 <= i < all.len() && all[i] == k;
        assert(s.queued_on_at(device, stream, i) == Some(k));
        assert(at(i) == Some(k));
    }
}

proof fn lemma_cancel_each(s: SimState, ids: Seq<OpId>, n: u32, i: int, k: OpId)
    requires
        0 <= i <= ids.len(),
        s.ops.contains_key(k),
    ensures
        ({
            let t = s.cancel_each_from(ids, n, i).0;
            let hit = exists|j: int| i <= j < ids.len() && #[trigger] ids[j] == k;
            &&& t.clock == s.clock
            &&& t.ops.contains_key(k)
            &&& hit ==> t.ops[k] == (OpView {
                cancelled: true,
                done: true,
                done_ns: Some(s.clock),
                ..s.ops[k]
            })
            &&& !hit ==> t.ops[k] == s.ops[k]
        }),
    decreases ids.len() - i,
{
    if i < ids.len() {
        let id = ids[i];
        if s.ops.contains_key(id) {
            let o = OpView { cancelled: true, done: true, done_ns: Some(s.clock), ..s.ops[id] };
            let t = SimState { ops: s.ops.insert(id, o), ..s };
            lemma_cancel_each(t, ids, n.saturating_add(1), i + 1, k);
        } else {
            lemma_cancel_each(s, ids, n, i + 1, k);
        }
        if k == id {
            assert(ids[i] == k);
        }
    }
}

/// Cancelling a stream ends what is queued there as cancelled, now. What is in flight and what is on
/// other streams stays as it is.
pub proof fn cancel_drops_queued(s: SimState, device: DeviceId, stream: StreamId, k: OpId)
    requires
        s.sequenced(),
        s.cancel_stream(device, stream).1 is Ok,
        s.ops.contains_key(k),
    ensures
        ({
            let t = s.cancel_stream(device, stream).0;
            &&& t.ops.contains_key(k)
            &&& drops(s, device, stream, k) ==> t.ops[k] == (OpView {
                cancelled: true,
                done: true,
                done_ns: Some(s.clock),
                ..s.ops[k]
            })
            &&& !drops(s, device, stream, k) ==> t.ops[k] == s.ops[k]
            &&& t.running == s.running
            &&& t.clock == s.clock
        }),
{
    order_finite(s.ops, s.clock, s.running);
    let ids = s.queued_on(device, stream);
    lemma_dropped(s, device, stream, k);
    assert(ids.contains(k) <==> drops(s, device, stream, k));
    assert(ids.contains(k) ==> exists|j: int| 0 <= j < ids.len() && #[trigger] ids[j] == k);
    lemma_cancel_each(s, ids, 0, 0, k);
    cancel_each_keeps_running(s, ids);
}

/// Whether cancelling a stream drops the operation at position `i`, the operations in the order of
/// their numbers.
pub open spec fn drops_at(s: SimState, device: DeviceId, stream: StreamId, i: int) -> bool {
    drops(s, device, stream, order_of(s.ops.dom())[i])
}

proof fn lemma_picked_number<T>(n: nat, f: spec_fn(int) -> Option<T>, p: spec_fn(int) -> bool)
    requires
        forall|i: int| 0 <= i < n ==> #[trigger] p(i) == (f(i) is Some),
    ensures
        picked(n, f).len() == count_where(n, p),
    decreases n,
{
    if n > 0 {
        lemma_picked_number((n - 1) as nat, f, p);
        assert(p(n - 1) == (f(n - 1) is Some));
    }
}

proof fn lemma_count_both(
    n: nat,
    p: spec_fn(int) -> bool,
    a: spec_fn(int) -> bool,
    b: spec_fn(int) -> bool,
)
    requires
        forall|i: int| 0 <= i < n ==> #[trigger] p(i) == (a(i) || b(i)) && !(a(i) && b(i)),
    ensures
        count_where(n, p) == count_where(n, a) + count_where(n, b),
    decreases n,
{
    if n > 0 {
        lemma_count_both((n - 1) as nat, p, a, b);
        assert(p(n - 1) == (a(n - 1) || b(n - 1)));
    }
}

proof fn lemma_cancel_number(s: SimState, ids: Seq<OpId>, n: u32, i: int)
    requires
        0 <= i <= ids.len(),
        forall|j: int| 0 <= j < ids.len() ==> s.ops.contains_key(#[trigger] ids[j]),
    ensures
        s.cancel_each_from(ids, n, i).0.ops.dom() == s.ops.dom(),
        s.cancel_each_from(ids, n, i).0.profile == s.profile,
        s.cancel_each_from(ids, n, i).1 == (if n + (ids.len() - i) > u32::MAX {
            u32::MAX as int
        } else {
            n + (ids.len() - i)
        }),
    decreases ids.len() - i,
{
    if i < ids.len() {
        let id = ids[i];
        assert(s.ops.contains_key(ids[i]));
        let o = OpView { cancelled: true, done: true, done_ns: Some(s.clock), ..s.ops[id] };
        let t = SimState { ops: s.ops.insert(id, o), ..s };
        assert(t.ops.dom() =~= s.ops.dom());
        lemma_cancel_number(t, ids, n.saturating_add(1), i + 1);
    }
}

/// Cancelling a stream gives the number of operations that it drops, and the number of cancelled
/// operations grows by it. A second call drops nothing.
pub proof fn cancel_counts_dropped(s: SimState, device: DeviceId, stream: StreamId)
    requires
        s.sequenced(),
        s.profile.gpu(device) is Ok,
    ensures
        ({
            let (t, r) = s.cancel_stream(device, stream);
            &&& r == Ok::<u32, SimError>(
                count_u32(
                    order_of(s.ops.dom()).len(),
                    |i: int| drops_at(s, device, stream, i),
                ),
            )
            &&& t.cancelled_count() == s.cancelled_count().saturating_add(r->Ok_0)
            &&& t.cancel_stream(device, stream) == (t, Ok::<u32, SimError>(0))
        }),
{
    order_finite(s.ops, s.clock, s.running);
    lemma_order_exists(s.ops.dom());
    let q = order_of(s.ops.dom());
    let n = q.len();
    let ids = s.queued_on(device, stream);
    let hit = |i: int| drops_at(s, device, stream, i);
    let at = |i: int| s.queued_on_at(device, stream, i);
    assert forall|i: int| 0 <= i < n implies #[trigger] hit(i) == (at(i) is Some) by {
        assert(q.contains(q[i]));
    }
    lemma_picked_number(n, at, hit);
    assert forall|j: int| 0 <= j < ids.len() implies s.ops.contains_key(#[trigger] ids[j]) by {
        assert(ids.contains(ids[j]));
        lemma_dropped(s, device, stream, ids[j]);
    }
    lemma_cancel_number(s, ids, 0, 0);
    cancel_each_keeps_running(s, ids);
    let t = s.cancel_stream(device, stream).0;
    let was = |i: int| s.cancelled_count_at(i);
    let is = |i: int| t.cancelled_count_at(i);
    assert(order_of(t.ops.dom()) == q);
    assert forall|i: int| 0 <= i < n implies #[trigger] is(i) == (was(i) || hit(i)) && !(was(i)
        && hit(i)) by {
        assert(q.contains(q[i]));
        cancel_drops_queued(s, device, stream, q[i]);
        order_holds(s.ops, s.clock, s.running, q[i]);
    }
    lemma_count_both(n, is, was, hit);
    let again = t.queued_on(device, stream);
    if again.len() > 0 {
        let k = again[0];
        assert(again.contains(k));
        lemma_dropped(t, device, stream, k);
        cancel_drops_queued(s, device, stream, k);
        assert(false);
    }
    assert(t.cancel_each_from(again, 0, 0) == (t, 0u32));
}

} // verus!
