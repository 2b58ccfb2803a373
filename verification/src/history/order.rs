//! Histories of the operations that start, end and cancel others.
use vstd::prelude::*;
use crate::history::{
    counted, fewer_follows, follows, follows_itself, history, later_follows, op_end_follows,
    op_note_follows, touched, touched_able, touched_nothing,
};
use crate::history::run::{apply_domain_fences_follows, complete_follows, note_start_follows};
use crate::history::start::try_start_follows;
use crate::history::timeline::{
    able, awaits, in_flight, order_finite, order_running, order_unended, unended,
};
use crate::ids::{DeviceId, OpId, StreamId};
use crate::laws::frames::complete_keeps_clock;
use crate::laws::schedule::{candidates_in_turn, goes_first};
use crate::list::lemma_picked_holds;
use crate::sim::SimState;
use crate::state::{OpView, Running};
use crate::table::order_of;

verus! {

proof fn lemma_runs_apart(q: Seq<Running>, id: OpId)
    ensures
        !in_flight(SimState::runs_apart(q, id), id),
        forall|k: OpId| #[trigger] in_flight(SimState::runs_apart(q, id), k) ==> in_flight(q, k),
    decreases q.len(),
{
    let r = SimState::runs_apart(q, id);
    if q.len() > 0 {
        let p = q.drop_last();
        lemma_runs_apart(p, id);
        let m = SimState::runs_apart(p, id);
        assert forall|k: OpId| #[trigger] in_flight(r, k) implies in_flight(q, k) && k != id by {
            let i = choose|i: int| 0 <= i < r.len() && (#[trigger] r[i]).op == k;
            if i < m.len() {
                assert(m[i].op == k);
                assert(in_flight(m, k));
                let j = choose|j: int| 0 <= j < p.len() && (#[trigger] p[j]).op == k;
                assert(q[j].op == k);
            } else {
                assert(q[q.len() - 1].op == k);
            }
        }
    }
}

/// [`Sim::drop_running`] continues the history, and takes the operation out of flight.
pub proof fn drop_running_follows(z: SimState, s0: SimState, id: OpId)
    requires
        follows(z, s0),
    ensures
        follows(z, s0.drop_running(id)),
        !in_flight(s0.drop_running(id).running, id),
{
    lemma_runs_apart(s0.running, id);
    let left = SimState::runs_apart(s0.running, id);
    assert forall|i: int| 0 <= i < left.len() implies in_flight(
        s0.running,
        (#[trigger] left[i]).op,
    ) by {
        assert(in_flight(left, left[i].op));
    }
    fewer_follows(z, s0, left);
}

/// [`Sim::drain`] continues the history.
pub proof fn drain_follows(z: SimState, s0: SimState, dt: u64)
    requires
        follows(z, s0),
    ensures
        follows(z, s0.drain(dt)),
{
    let left = s0.running.map_values(|r: Running| s0.drained(r, dt));
    assert forall|i: int| 0 <= i < left.len() implies in_flight(
        s0.running,
        (#[trigger] left[i]).op,
    ) by {
        assert(s0.running[i].op == left[i].op);
    }
    fewer_follows(z, s0, left);
    let s = SimState { running: left, ..s0 };
    later_follows(z, s, s.clock.saturating_add(dt));
}

/// [`Sim::pay_fence`] continues the history.
pub proof fn pay_fence_follows(z: SimState, s0: SimState, id: OpId, extra: u64)
    requires
        follows(z, s0),
    ensures
        follows(z, s0.pay_fence(id, extra)),
{
    reveal(SimState::pay_fence);
    let s1 = match s0.running_index(id) {
        Some(k) => if k < s0.running.len() {
            let r = s0.running[k as int];
            SimState {
                running: s0.running.update(
                    k as int,
                    Running { op: r.op, remaining_ns: extra, share: r.share },
                ),
                ..s0
            }
        } else {
            s0
        },
        None => s0,
    };
    assert forall|i: int| 0 <= i < s1.running.len() implies in_flight(
        s0.running,
        (#[trigger] s1.running[i]).op,
    ) by {
        assert(s0.running[i].op == s1.running[i].op);
    }
    fewer_follows(z, s0, s1.running);
    assert(s1 == SimState { running: s1.running, ..s0 });
    if s1.ops.contains_key(id) {
        op_note_follows(z, s1, id, OpView { domain_fence_paid: true, ..s1.ops[id] });
    }
}

/// All operations of a list from position `i` on can be put in flight, and none is there twice.
pub open spec fn all_able(s: SimState, ids: Seq<OpId>, i: int) -> bool {
    &&& forall|j: int| i <= j < ids.len() ==> able(s.ops, s.running, #[trigger] ids[j])
    &&& forall|j: int, k: int| i <= j < k < ids.len() ==> #[trigger] ids[j] != #[trigger] ids[k]
}

/// [`Sim::start_each`] continues the history, from position `i` on.
pub proof fn start_each_from_follows(
    z: SimState,
    s0: SimState,
    ids: Seq<OpId>,
    started: bool,
    i: int,
)
    requires
        follows(z, s0),
        counted(z, s0) ==> all_able(s0, ids, i),
    ensures
        follows(z, s0.start_each_from(ids, started, i).0),
    decreases ids.len() - i,
{
    if 0 <= i < ids.len() {
        let id = ids[i];
        try_start_follows(z, s0, id);
        let s1 = s0.try_start(id).0;
        match s0.try_start(id).1 {
            Err(e) => {},
            Ok(ok) => {
                let s2 = if ok {
                    s1.note_start(id)
                } else {
                    s1
                };
                let now = if ok {
                    true
                } else {
                    started
                };
                if ok {
                    note_start_follows(z, s1, id);
                }
                if counted(z, s2) {
                    follows_itself(s0);
                    touched_nothing(s0, id);
                    try_start_follows(s0, s0, id);
                    history(s0, s1);
                    history(z, s0);
                    if ok {
                        note_start_follows(s0, s1, id);
                    }
                    assert(touched(s0, s2, id));
                    assert forall|j: int| i + 1 <= j < ids.len() implies able(
                        s2.ops,
                        s2.running,
                        #[trigger] ids[j],
                    ) by {
                        assert(ids[i] != ids[j]);
                        touched_able(s0, s2, id, ids[j]);
                    }
                }
                start_each_from_follows(z, s2, ids, now, i + 1);
            },
        }
    }
}

/// [`Sim::start_each`] continues the history.
pub proof fn start_each_follows(z: SimState, s0: SimState, ids: Seq<OpId>)
    requires
        follows(z, s0),
        counted(z, s0) ==> all_able(s0, ids, 0),
    ensures
        follows(z, s0.start_each(ids).0),
{
    start_each_from_follows(z, s0, ids, false, 0);
}

/// Whatever is ready to start waits for nothing that has not ended.
pub proof fn candidates_are_able(s: SimState)
    requires
        s.sequenced(),
    ensures
        all_able(s, s.candidates(), 0),
{
    order_finite(s.ops, s.clock, s.running);
    candidates_in_turn(s);
    let q = s.candidates();
    assert forall|j: int| 0 <= j < q.len() implies able(s.ops, s.running, #[trigger] q[j]) by {
        assert(q.contains(q[j]));
        reveal(able);
        let o = s.ops[q[j]];
        assert(s.deps_ready(o));
        assert(!in_flight(s.running, q[j])) by {
            assert(!s.is_running(q[j]));
        }
        assert forall|i: int| 0 <= i < o.deps.len() implies s.ops.contains_key(
            #[trigger] o.deps[i],
        ) && (awaits(o, s.ops[o.deps[i]]) ==> s.ops[o.deps[i]].done) by {
            assert(s.dep_satisfied(o, o.deps[i]));
        }
    }
    assert forall|j: int, k: int| 0 <= j < k < q.len() implies #[trigger] q[j] != #[trigger] q[k] by {
        assert(goes_first(s, q[j], q[k]));
    }
}

/// [`Sim::schedule`] continues the history, over any number of rounds.
pub proof fn schedule_rounds_follows(z: SimState, s0: SimState, rounds: nat)
    requires
        follows(z, s0),
    ensures
        follows(z, s0.schedule_rounds(rounds).0),
    decreases rounds,
{
    history(z, s0);
    if counted(z, s0) {
        candidates_are_able(s0);
    }
    start_each_follows(z, s0, s0.candidates());
    match s0.start_each(s0.candidates()) {
        (s, Err(e)) => {},
        (s, Ok(started)) => {
            if started && rounds > 0 {
                schedule_rounds_follows(z, s, (rounds - 1) as nat);
            }
        },
    }
}

/// No operation of a list from position `i` on has ended before now.
pub open spec fn all_unended(s: SimState, ids: Seq<OpId>, i: int) -> bool {
    forall|j: int|
        i <= j < ids.len() ==> s.ops.contains_key(#[trigger] ids[j]) && unended(
            s.ops,
            s.clock,
            ids[j],
        )
}

/// [`Sim::complete_each`] continues the history, from position `i` on.
pub proof fn complete_each_from_follows(z: SimState, s0: SimState, ids: Seq<OpId>, i: int)
    requires
        follows(z, s0),
        counted(z, s0) ==> all_unended(s0, ids, i),
    ensures
        follows(z, s0.complete_each_from(ids, i).0),
    decreases ids.len() - i,
{
    if 0 <= i < ids.len() {
        let id = ids[i];
        complete_follows(z, s0, id);
        let s1 = s0.complete(id).0;
        match s0.complete(id).1 {
            Err(e) => {},
            Ok(_v) => {
                if counted(z, s1) {
                    follows_itself(s0);
                    complete_follows(s0, s0, id);
                    complete_keeps_clock(s0, id);
                    history(s0, s1);
                    history(z, s0);
                    assert forall|j: int| i + 1 <= j < ids.len() implies s1.ops.contains_key(
                        #[trigger] ids[j],
                    ) && unended(s1.ops, s1.clock, ids[j]) by {
                        order_unended(s0.ops, s0.clock, s1.ops, s1.running, ids[j]);
                    }
                }
                complete_each_from_follows(z, s1, ids, i + 1);
            },
        }
    }
}

/// [`Sim::complete_each`] continues the history.
pub proof fn complete_each_follows(z: SimState, s0: SimState, ids: Seq<OpId>)
    requires
        follows(z, s0),
        counted(z, s0) ==> all_unended(s0, ids, 0),
    ensures
        follows(z, s0.complete_each(ids).0),
{
    complete_each_from_follows(z, s0, ids, 0);
}

proof fn lemma_finished(s: SimState, n: int)
    requires
        0 <= n <= s.running.len(),
    ensures
        forall|j: int|
            0 <= j < s.finished_upto(n).len() ==> in_flight(
                s.running,
                #[trigger] s.finished_upto(n)[j],
            ),
    decreases n,
{
    if n > 0 {
        lemma_finished(s, n - 1);
        let r = s.finished_upto(n);
        assert forall|j: int| 0 <= j < r.len() implies in_flight(s.running, #[trigger] r[j]) by {
            if j < s.finished_upto(n - 1).len() {
                assert(r[j] == s.finished_upto(n - 1)[j]);
            } else {
                assert(s.running[n - 1].op == r[j]);
            }
        }
    }
}

/// [`Sim::advance_to_next_completion`] continues the history.
pub proof fn advance_to_next_completion_follows(z: SimState, s0: SimState)
    requires
        follows(z, s0),
    ensures
        follows(z, s0.advance_to_next_completion().0),
{
    reveal(SimState::advance_to_next_completion);
    if s0.running.len() != 0 {
        let dt = s0.next_dt();
        drain_follows(z, s0, dt);
        apply_domain_fences_follows(z, s0.drain(dt));
        let s = s0.drain(dt).apply_domain_fences();
        let ids = s.finished();
        history(z, s);
        if counted(z, s) {
            lemma_finished(s, s.running.len() as int);
            assert forall|j: int| 0 <= j < ids.len() implies s.ops.contains_key(#[trigger] ids[j])
                && unended(s.ops, s.clock, ids[j]) by {
                order_running(s.ops, s.clock, s.running, ids[j]);
            }
        }
        complete_each_follows(z, s, ids);
    }
}

/// No operation of a list from position `i` on is in flight or has ended before now.
pub open spec fn all_queued(s: SimState, ids: Seq<OpId>, i: int) -> bool {
    forall|j: int|
        i <= j < ids.len() ==> !in_flight(s.running, #[trigger] ids[j]) && unended(
            s.ops,
            s.clock,
            ids[j],
        )
}

/// [`Sim::cancel_each`] continues the history, from position `i` on.
pub proof fn cancel_each_from_follows(z: SimState, s0: SimState, ids: Seq<OpId>, n: u32, i: int)
    requires
        follows(z, s0),
        counted(z, s0) ==> all_queued(s0, ids, i),
    ensures
        follows(z, s0.cancel_each_from(ids, n, i).0),
    decreases ids.len() - i,
{
    if 0 <= i < ids.len() {
        if s0.ops.contains_key(ids[i]) {
            let o = OpView {
                cancelled: true,
                done: true,
                done_ns: Some(s0.clock),
                ..s0.ops[ids[i]]
            };
            op_end_follows(z, s0, ids[i], o);
            let s = SimState { ops: s0.ops.insert(ids[i], o), ..s0 };
            cancel_each_from_follows(z, s, ids, n.saturating_add(1), i + 1);
        } else {
            cancel_each_from_follows(z, s0, ids, n, i + 1);
        }
    }
}

/// [`Sim::cancel_each`] continues the history.
pub proof fn cancel_each_follows(z: SimState, s0: SimState, ids: Seq<OpId>)
    requires
        follows(z, s0),
        counted(z, s0) ==> all_queued(s0, ids, 0),
    ensures
        follows(z, s0.cancel_each(ids).0),
{
    cancel_each_from_follows(z, s0, ids, 0, 0);
}

proof fn lemma_queued(s: SimState, device: DeviceId, stream: StreamId)
    ensures
        all_queued(s, s.queued_on(device, stream), 0),
{
    let n = order_of(s.ops.dom()).len();
    let at = |i: int| s.queued_on_at(device, stream, i);
    let q = s.queued_on(device, stream);
    assert forall|j: int| 0 <= j < q.len() implies !in_flight(s.running, #[trigger] q[j])
        && unended(s.ops, s.clock, q[j]) by {
        assert(q.contains(q[j]));
        lemma_picked_holds(n, at, q[j]);
        let i = choose|i: int| 0 <= i < n && #[trigger] at(i) == Some(q[j]);
        assert(s.queued_on_at(device, stream, i) == Some(q[j]));
        assert(!s.is_running(q[j]));
    }
}

/// [`Sim::cancel_stream`] continues the history.
pub proof fn cancel_stream_follows(z: SimState, s0: SimState, device: DeviceId, stream: StreamId)
    requires
        follows(z, s0),
    ensures
        follows(z, s0.cancel_stream(device, stream).0),
{
    if s0.profile.gpu(device) is Ok {
        history(z, s0);
        lemma_queued(s0, device, stream);
        cancel_each_follows(z, s0, s0.queued_on(device, stream));
    }
}

} // verus!
