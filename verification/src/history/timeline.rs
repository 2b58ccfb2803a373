//! The order of operations in time: when they are submitted, start and end, and what they wait for.
use vstd::prelude::*;
use crate::ids::OpId;
use crate::list::with_new;
use crate::state::{OpView, Running};

verus! {

/// Whether `o` cannot start before `d` has ended.
///
/// It can where `o` waits for the programmatic trigger of a kernel before it on its stream, or where
/// `o` waits for an event that `d` fires before its end.
pub open spec fn awaits(o: OpView, d: OpView) -> bool {
    &&& !(o.attrs.pdl.wait && d.attrs.pdl.trigger && d.device == o.device && d.stream == o.stream)
    &&& !(o.kind is EventWait && (d.attrs.programmatic_event is Some
        || d.attrs.launch_completion is Some))
}

/// Whether an operation is in a list of operations in flight.
pub open spec fn in_flight(running: Seq<Running>, id: OpId) -> bool {
    exists|i: int| 0 <= i < running.len() && (#[trigger] running[i]).op == id
}

/// An operation is submitted, then starts, then ends, and nothing of this lies in the future. A
/// cancelled one has ended.
pub open spec fn timed(o: OpView, clock: u64) -> bool {
    &&& o.submit_ns <= clock
    &&& o.done <==> o.done_ns is Some
    &&& o.cancelled ==> o.done
    &&& o.start_ns matches Some(t) ==> o.submit_ns <= t <= clock
    &&& o.done_ns matches Some(t) ==> o.submit_ns <= t <= clock
    &&& (o.start_ns is Some && o.done_ns is Some) ==> o.start_ns->0 <= o.done_ns->0
}

/// Whether all that `o` waits for has ended.
pub open spec fn ready(ops: Map<OpId, OpView>, o: OpView) -> bool {
    forall|i: int|
        0 <= i < o.deps.len() ==> ops.contains_key(#[trigger] o.deps[i]) && (awaits(
            o,
            ops[o.deps[i]],
        ) ==> ops[o.deps[i]].done)
}

/// Whether an operation, had it started at `at`, had to wait for nothing: what it waits for had
/// ended, or was submitted after it.
pub open spec fn free_at(ops: Map<OpId, OpView>, id: OpId, at: u64) -> bool {
    let o = ops[id];
    forall|i: int|
        0 <= i < o.deps.len() ==> {
            let d = ops[#[trigger] o.deps[i]];
            &&& ops.contains_key(o.deps[i])
            &&& awaits(o, d) ==> o.deps[i].0 > id.0 || (d.done && d.done_ns is Some && d.done_ns->0
                <= at)
        }
}

/// Operations start only after what they wait for has ended, and those in flight have not ended.
#[verifier::opaque]
pub open spec fn in_order(ops: Map<OpId, OpView>, clock: u64, running: Seq<Running>) -> bool {
    &&& ops.dom().finite()
    &&& forall|k: OpId| #[trigger]
        ops.contains_key(k) ==> {
            &&& timed(ops[k], clock)
            &&& ops[k].start_ns is Some ==> free_at(ops, k, ops[k].start_ns->0)
        }
    &&& forall|i: int|
        0 <= i < running.len() ==> {
            let k = (#[trigger] running[i]).op;
            &&& ops.contains_key(k)
            &&& !ops[k].done
            &&& ready(ops, ops[k])
        }
}

/// Operations keep when they started and ended, their attributes and what they wait for. What ends
/// later ends no earlier than now.
#[verifier::opaque]
pub open spec fn times_kept(a: Map<OpId, OpView>, clock: u64, b: Map<OpId, OpView>) -> bool {
    forall|k: OpId| #[trigger]
        a.contains_key(k) ==> {
            &&& b.contains_key(k)
            &&& b[k].attrs == a[k].attrs
            &&& a[k].start_ns is Some ==> b[k].start_ns == a[k].start_ns
            &&& a[k].done ==> b[k].done && b[k].done_ns == a[k].done_ns
            &&& !a[k].done && b[k].done ==> b[k].done_ns is Some && b[k].done_ns->0 >= clock
            &&& forall|d: OpId| #[trigger] a[k].deps.contains(d) ==> b[k].deps.contains(d)
        }
}

/// Whether an operation has not ended before now.
pub open spec fn unended(ops: Map<OpId, OpView>, clock: u64, id: OpId) -> bool {
    ops.contains_key(id) ==> !ops[id].done || ops[id].done_ns == Some(clock)
}

/// Whether an operation can be put in flight.
#[verifier::opaque]
pub open spec fn able(ops: Map<OpId, OpView>, running: Seq<Running>, id: OpId) -> bool {
    &&& ops.contains_key(id)
    &&& !ops[id].done
    &&& !in_flight(running, id)
    &&& ready(ops, ops[id])
}

/// Whether an operation has yet to start.
#[verifier::opaque]
pub open spec fn unstarted(ops: Map<OpId, OpView>, running: Seq<Running>, id: OpId) -> bool {
    &&& !in_flight(running, id)
    &&& ops.contains_key(id) ==> ops[id].start_ns is None
}

/// Nothing has happened to the operations.
pub proof fn times_kept_itself(a: Map<OpId, OpView>, clock: u64)
    ensures
        times_kept(a, clock, a),
{
    reveal(times_kept);
}

/// What is kept over two stretches of time is kept over both.
pub proof fn times_kept_on(
    a: Map<OpId, OpView>,
    t: u64,
    b: Map<OpId, OpView>,
    u: u64,
    c: Map<OpId, OpView>,
)
    requires
        times_kept(a, t, b),
        times_kept(b, u, c),
        t <= u,
    ensures
        times_kept(a, t, c),
{
    reveal(times_kept);
}

/// Passing time keeps the order.
pub proof fn order_later(ops: Map<OpId, OpView>, clock: u64, later: u64, running: Seq<Running>)
    requires
        in_order(ops, clock, running),
        clock <= later,
    ensures
        in_order(ops, later, running),
{
    reveal(in_order);
}

/// A new operation keeps the order, and has yet to start.
pub proof fn order_new(
    ops: Map<OpId, OpView>,
    clock: u64,
    running: Seq<Running>,
    id: OpId,
    o: OpView,
)
    requires
        in_order(ops, clock, running),
        !ops.contains_key(id),
        !o.done,
        !o.cancelled,
        o.done_ns is None,
        o.start_ns is None,
        o.submit_ns == clock,
    ensures
        in_order(ops.insert(id, o), clock, running),
        times_kept(ops, clock, ops.insert(id, o)),
        unstarted(ops.insert(id, o), running, id),
{
    reveal(in_order);
    reveal(times_kept);
    reveal(unstarted);
    if in_flight(running, id) {
        let i = choose|i: int| 0 <= i < running.len() && (#[trigger] running[i]).op == id;
        assert(ops.contains_key(running[i].op));
    }
}

/// A number that no operation has is not in flight.
pub proof fn order_unknown(ops: Map<OpId, OpView>, clock: u64, running: Seq<Running>, id: OpId)
    requires
        in_order(ops, clock, running),
        !ops.contains_key(id),
    ensures
        unstarted(ops, running, id),
{
    reveal(in_order);
    reveal(unstarted);
    if in_flight(running, id) {
        let i = choose|i: int| 0 <= i < running.len() && (#[trigger] running[i]).op == id;
        assert(ops.contains_key(running[i].op));
    }
}

/// A change of an operation in what the order does not speak of keeps the order.
pub proof fn order_note(
    ops: Map<OpId, OpView>,
    clock: u64,
    running: Seq<Running>,
    id: OpId,
    o: OpView,
)
    requires
        in_order(ops, clock, running),
        ops.contains_key(id),
        o == (OpView {
            skipped: o.skipped,
            pdl_trigger_ns: o.pdl_trigger_ns,
            domain_fence_paid: o.domain_fence_paid,
            ..ops[id]
        }),
    ensures
        in_order(ops.insert(id, o), clock, running),
        times_kept(ops, clock, ops.insert(id, o)),
        forall|k: OpId|
            able(ops, running, k) ==> #[trigger] able(ops.insert(id, o), running, k),
{
    reveal(in_order);
    reveal(times_kept);
    reveal(able);
}

/// The end of an operation that is not in flight any more keeps the order.
pub proof fn order_end(
    ops: Map<OpId, OpView>,
    clock: u64,
    running: Seq<Running>,
    id: OpId,
    o: OpView,
)
    requires
        in_order(ops, clock, running),
        ops.contains_key(id),
        !in_flight(running, id),
        unended(ops, clock, id),
        o == (OpView { done: true, done_ns: Some(clock), cancelled: o.cancelled, ..ops[id] }),
    ensures
        in_order(ops.insert(id, o), clock, running),
        times_kept(ops, clock, ops.insert(id, o)),
{
    reveal(in_order);
    reveal(times_kept);
}

/// The start of an operation in flight keeps the order.
pub proof fn order_start(
    ops: Map<OpId, OpView>,
    clock: u64,
    running: Seq<Running>,
    id: OpId,
    o: OpView,
)
    requires
        in_order(ops, clock, running),
        ops.contains_key(id),
        in_flight(running, id),
        ops[id].start_ns is None,
        o == (OpView { start_ns: Some(clock), ..ops[id] }),
    ensures
        in_order(ops.insert(id, o), clock, running),
        times_kept(ops, clock, ops.insert(id, o)),
{
    reveal(in_order);
    reveal(times_kept);
    let i = choose|i: int| 0 <= i < running.len() && (#[trigger] running[i]).op == id;
    assert(ready(ops, ops[id])) by {
        assert(running[i].op == id);
    }
    let t = ops.insert(id, o);
    assert(free_at(t, id, clock)) by {
        assert forall|j: int| 0 <= j < o.deps.len() implies ({
            let d = t[#[trigger] o.deps[j]];
            &&& t.contains_key(o.deps[j])
            &&& awaits(o, d) ==> o.deps[j].0 > id.0 || (d.done && d.done_ns is Some
                && d.done_ns->0 <= clock)
        }) by {
            assert(ops.contains_key(ops[id].deps[j]));
        }
    }
}

/// One more operation to wait for keeps the order, where the waiting one has yet to start or the
/// other was submitted after that.
pub proof fn order_dep(
    ops: Map<OpId, OpView>,
    clock: u64,
    running: Seq<Running>,
    id: OpId,
    dep: OpId,
    o: OpView,
)
    requires
        in_order(ops, clock, running),
        ops.contains_key(id),
        !in_flight(running, id),
        ops[id].start_ns is None || (ops.contains_key(dep) && dep.0 > id.0),
        o == (OpView { deps: with_new(ops[id].deps, dep), ..ops[id] }),
    ensures
        in_order(ops.insert(id, o), clock, running),
        times_kept(ops, clock, ops.insert(id, o)),
{
    reveal(in_order);
    reveal(times_kept);
    let t = ops.insert(id, o);
    assert forall|d: OpId| #[trigger] ops[id].deps.contains(d) implies o.deps.contains(d) by {
        let j = choose|j: int| 0 <= j < ops[id].deps.len() && ops[id].deps[j] == d;
        assert(o.deps[j] == d);
    }
    if o.start_ns is Some {
        let at = o.start_ns->0;
        assert forall|j: int| 0 <= j < o.deps.len() implies ({
            let d = t[#[trigger] o.deps[j]];
            &&& t.contains_key(o.deps[j])
            &&& awaits(o, d) ==> o.deps[j].0 > id.0 || (d.done && d.done_ns is Some && d.done_ns->0
                <= at)
        }) by {
            if j < ops[id].deps.len() {
                assert(ops.contains_key(ops[id].deps[j]));
            }
        }
    }
}

/// Putting an operation in flight that can be keeps the order.
pub proof fn order_run(ops: Map<OpId, OpView>, clock: u64, running: Seq<Running>, r: Running)
    requires
        in_order(ops, clock, running),
        able(ops, running, r.op),
    ensures
        in_order(ops, clock, running.push(r)),
{
    reveal(in_order);
    reveal(able);
}

/// Operations that leave or progress keep the order.
pub proof fn order_fewer(
    ops: Map<OpId, OpView>,
    clock: u64,
    running: Seq<Running>,
    left: Seq<Running>,
)
    requires
        in_order(ops, clock, running),
        forall|i: int|
            0 <= i < left.len() ==> in_flight(running, (#[trigger] left[i]).op),
    ensures
        in_order(ops, clock, left),
{
    reveal(in_order);
    assert forall|i: int| 0 <= i < left.len() implies ({
        let k = (#[trigger] left[i]).op;
        &&& ops.contains_key(k)
        &&& !ops[k].done
        &&& ready(ops, ops[k])
    }) by {
        let k = left[i].op;
        assert(in_flight(running, k));
        let j = choose|j: int| 0 <= j < running.len() && (#[trigger] running[j]).op == k;
        assert(ops.contains_key(running[j].op));
    }
}

/// What the order says of one operation.
pub proof fn order_holds(ops: Map<OpId, OpView>, clock: u64, running: Seq<Running>, id: OpId)
    requires
        in_order(ops, clock, running),
    ensures
        ops.contains_key(id) ==> timed(ops[id], clock),
        ops.contains_key(id) && ops[id].start_ns is Some ==> free_at(
            ops,
            id,
            ops[id].start_ns->0,
        ),
        in_flight(running, id) ==> ops.contains_key(id) && !ops[id].done && ready(ops, ops[id]),
{
    reveal(in_order);
    if in_flight(running, id) {
        let i = choose|i: int| 0 <= i < running.len() && (#[trigger] running[i]).op == id;
        assert(ops.contains_key(running[i].op));
    }
}

/// What one operation keeps.
pub proof fn times_kept_of(a: Map<OpId, OpView>, clock: u64, b: Map<OpId, OpView>, id: OpId)
    requires
        times_kept(a, clock, b),
        a.contains_key(id),
    ensures
        b.contains_key(id),
        b[id].attrs == a[id].attrs,
        a[id].start_ns is Some ==> b[id].start_ns == a[id].start_ns,
        a[id].done ==> b[id].done && b[id].done_ns == a[id].done_ns,
        !a[id].done && b[id].done ==> b[id].done_ns is Some && b[id].done_ns->0 >= clock,
        forall|d: OpId| #[trigger] a[id].deps.contains(d) ==> b[id].deps.contains(d),
{
    reveal(times_kept);
}

/// Nothing has been submitted.
pub proof fn order_empty(clock: u64)
    ensures
        in_order(Map::empty(), clock, Seq::empty()),
{
    reveal(in_order);
}

/// There are finitely many operations.
pub proof fn order_finite(ops: Map<OpId, OpView>, clock: u64, running: Seq<Running>)
    requires
        in_order(ops, clock, running),
    ensures
        ops.dom().finite(),
{
    reveal(in_order);
}

/// An operation in flight is known and has not ended.
pub proof fn order_running(ops: Map<OpId, OpView>, clock: u64, running: Seq<Running>, id: OpId)
    requires
        in_order(ops, clock, running),
        in_flight(running, id),
    ensures
        ops.contains_key(id),
        unended(ops, clock, id),
{
    reveal(in_order);
    let j = choose|j: int| 0 <= j < running.len() && (#[trigger] running[j]).op == id;
    assert(ops.contains_key(running[j].op));
}

/// An operation that has not ended before now has not ended before now after a step without time.
pub proof fn order_unended(
    a: Map<OpId, OpView>,
    clock: u64,
    b: Map<OpId, OpView>,
    running: Seq<Running>,
    id: OpId,
)
    requires
        in_order(b, clock, running),
        times_kept(a, clock, b),
        a.contains_key(id),
        unended(a, clock, id),
    ensures
        b.contains_key(id),
        unended(b, clock, id),
{
    reveal(in_order);
    reveal(times_kept);
    assert(b.contains_key(id));
}

} // verus!
