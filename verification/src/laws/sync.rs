//! Synchronization.
use vstd::prelude::*;
use crate::history::{follows_itself, history};
use crate::history::run::idle_until_follows;
use crate::ids::{DeviceId, EventId, Lane, OpId, StreamId};
use crate::sim::SimState;
use crate::sim::run::Goal;
use crate::table::{lemma_order_exists, order_of};

verus! {

/// Driving the node ends at the goal or with nothing in flight.
pub proof fn drive_ends(s: SimState, goal: Goal, left: nat)
    requires
        s.drive(goal, left).1 is Ok,
    ensures
        s.drive(goal, left).0.goal_reached(goal) || s.drive(goal, left).0.running.len() == 0,
    decreases left,
{
    reveal(SimState::schedule);
    if !s.goal_reached(goal) {
        match s.schedule() {
            (_t, Err(_e)) => {},
            (t, Ok(_v)) => {
                if !t.goal_reached(goal) && t.running.len() != 0 {
                    match t.advance_to_next_completion() {
                        (_u, Err(_e)) => {},
                        (u, Ok(_v)) => {
                            if left > 0 {
                                drive_ends(u, goal, (left - 1) as nat);
                            }
                        },
                    }
                }
            },
        }
    }
}

/// A synchronized node has nothing in flight and no operation pending.
pub proof fn synchronized_node_is_idle(s: SimState)
    requires
        s.synchronize().1 is Ok,
    ensures
        s.synchronize().0.running.len() == 0,
        !s.synchronize().0.op_pending(),
{
    reveal(SimState::drive_until);
    drive_ends(s, Goal::Node, 10_000_000);
}

/// A synchronized device is idle.
pub proof fn synchronized_device_is_idle(s: SimState, device: DeviceId)
    requires
        s.synchronize_device(device).1 is Ok,
    ensures
        s.synchronize_device(device).0.device_idle(device),
{
    reveal(SimState::synchronize_device);
}

/// A synchronized stream is idle.
pub proof fn synchronized_stream_is_idle(s: SimState, device: DeviceId, stream: StreamId)
    requires
        s.synchronize_stream(device, stream).1 is Ok,
    ensures
        s.synchronize_stream(device, stream).0.stream_idle(device, stream),
{
    let t = s.drive_until(Goal::Stream(device, stream)).0;
    let policy = t.stream_sync_policy(device, stream);
    idle_ignores_time(t, t.host_sync_policy_tax_ns(device, policy), device, stream);
}

/// Whether a stream is idle does not depend on the clock.
pub proof fn idle_ignores_time(s: SimState, ns: u64, device: DeviceId, stream: StreamId)
    ensures
        s.tick(ns).stream_idle(device, stream) == s.stream_idle(device, stream),
{
    let t = s.tick(ns);
    assert forall|k: OpId| s.op_pending_on_at(k, device, stream) == t.op_pending_on_at(
        k,
        device,
        stream,
    ) by {}
    assert forall|i: int| s.running_on_at(i, device, stream) == t.running_on_at(
        i,
        device,
        stream,
    ) by {}
    if s.op_pending_on(device, stream) {
        let k = choose|k: OpId|
            s.ops.contains_key(k) && #[trigger] s.op_pending_on_at(k, device, stream);
        assert(t.op_pending_on_at(k, device, stream));
    }
    if t.op_pending_on(device, stream) {
        let k = choose|k: OpId|
            t.ops.contains_key(k) && #[trigger] t.op_pending_on_at(k, device, stream);
        assert(s.op_pending_on_at(k, device, stream));
    }
    if s.running_on(device, stream) {
        let i = choose|i: int|
            0 <= i < s.running.len() && #[trigger] s.running_on_at(i, device, stream);
        assert(t.running_on_at(i, device, stream));
    }
    if t.running_on(device, stream) {
        let i = choose|i: int|
            0 <= i < t.running.len() && #[trigger] t.running_on_at(i, device, stream);
        assert(s.running_on_at(i, device, stream));
    }
    match s.graph_joins.get(Lane(device, stream)) {
        Some(ids) => {
            assert forall|j: int| 0 <= j < ids.len() implies s.op_done(#[trigger] ids[j])
                == t.op_done(ids[j]) by {}
            assert(s.all_done(ids) == t.all_done(ids));
        },
        None => {},
    }
}

/// A synchronized event is complete.
pub proof fn synchronized_event_is_complete(s: SimState, event: EventId)
    requires
        s.synchronize_event(event).1 is Ok,
    ensures
        s.synchronize_event(event).0.event_complete(event),
{
}

/// After waiting for a time, that time has come.
pub proof fn idle_until_time(s: SimState, ns: u64)
    requires
        s.idle_until(ns).1 is Ok,
    ensures
        s.idle_until(ns).0.clock >= ns,
        s.idle_until(ns).0.clock >= s.clock,
        s.idle_until(ns).0.running.len() == 0,
{
    follows_itself(s);
    idle_until_follows(s, s, ns);
    history(s, s.idle_until(ns).0);
    synchronized_node_is_idle(s);
}

/// An idle node has nothing to wait for.
pub proof fn idle_node_stays(s: SimState)
    requires
        s.capturing is None,
        s.running.len() == 0,
        !s.op_pending(),
    ensures
        s.synchronize().0 == s,
{
    reveal(SimState::drive_until);
}

proof fn lemma_sync_outcome_from(s: SimState, n: u32, stream: StreamId, i: int)
    requires
        0 <= i <= order_of(s.ops.dom()).len(),
    ensures
        s.sync_outcome_from(n, stream, i) is Ok <==> n == 0 && forall|j: int|
            i <= j < order_of(s.ops.dom()).len() ==> {
                let o = s.ops[#[trigger] order_of(s.ops.dom())[j]];
                !(o.cancelled)
            },
    decreases order_of(s.ops.dom()).len() - i,
{
    let all = order_of(s.ops.dom());
    if i < all.len() {
        let o = s.ops[all[i]];
        if o.cancelled {
            lemma_sync_outcome_from(s, n.saturating_add(1), o.stream, i + 1);
        } else {
            lemma_sync_outcome_from(s, n, stream, i + 1);
        }
    }
}

/// Waiting for the node reports cancelled operations, and only those.
pub proof fn sync_outcome_reports(s: SimState)
    requires
        s.ops.dom().finite(),
    ensures
        s.sync_outcome() is Ok <==> forall|k: OpId| #[trigger]
            s.ops.contains_key(k) ==> {
                let o = s.ops[k];
                !(o.cancelled)
            },
{
    let all = order_of(s.ops.dom());
    lemma_order_exists(s.ops.dom());
    lemma_sync_outcome_from(s, 0, StreamId(0), 0);
    assert forall|j: int| 0 <= j < all.len() implies s.ops.contains_key(#[trigger] all[j]) by {
        assert(all.contains(all[j]));
    }
    assert forall|k: OpId| s.ops.contains_key(k) implies exists|j: int|
        0 <= j < all.len() && #[trigger] all[j] == k by {
        assert(all.contains(k));
    }
}

proof fn lemma_device_sync_outcome_from(
    s: SimState,
    device: DeviceId,
    n: u32,
    stream: StreamId,
    i: int,
)
    requires
        0 <= i <= order_of(s.ops.dom()).len(),
    ensures
        s.device_sync_outcome_from(device, n, stream, i) is Ok <==> n == 0 && forall|j: int|
            i <= j < order_of(s.ops.dom()).len() ==> {
                let o = s.ops[#[trigger] order_of(s.ops.dom())[j]];
                !(o.cancelled && o.device == device)
            },
    decreases order_of(s.ops.dom()).len() - i,
{
    let all = order_of(s.ops.dom());
    if i < all.len() {
        let o = s.ops[all[i]];
        if o.cancelled && o.device == device {
            lemma_device_sync_outcome_from(s, device, n.saturating_add(1), o.stream, i + 1);
        } else {
            lemma_device_sync_outcome_from(s, device, n, stream, i + 1);
        }
    }
}

/// Waiting for a device reports its cancelled operations, and only those.
pub proof fn device_sync_outcome_reports(s: SimState, device: DeviceId)
    requires
        s.ops.dom().finite(),
    ensures
        s.device_sync_outcome(device) is Ok <==> forall|k: OpId| #[trigger]
            s.ops.contains_key(k) ==> {
                let o = s.ops[k];
                !(o.cancelled && o.device == device)
            },
{
    let all = order_of(s.ops.dom());
    lemma_order_exists(s.ops.dom());
    lemma_device_sync_outcome_from(s, device, 0, StreamId(0), 0);
    assert forall|j: int| 0 <= j < all.len() implies s.ops.contains_key(#[trigger] all[j]) by {
        assert(all.contains(all[j]));
    }
    assert forall|k: OpId| s.ops.contains_key(k) implies exists|j: int|
        0 <= j < all.len() && #[trigger] all[j] == k by {
        assert(all.contains(k));
    }
}

proof fn lemma_stream_sync_outcome_from(
    s: SimState,
    device: DeviceId,
    stream: StreamId,
    n: u32,
    i: int,
)
    requires
        0 <= i <= order_of(s.ops.dom()).len(),
    ensures
        s.stream_sync_outcome_from(device, stream, n, i) is Ok <==> n == 0 && forall|j: int|
            i <= j < order_of(s.ops.dom()).len() ==> {
                let o = s.ops[#[trigger] order_of(s.ops.dom())[j]];
                !(o.cancelled && o.device == device && o.stream == stream)
            },
    decreases order_of(s.ops.dom()).len() - i,
{
    let all = order_of(s.ops.dom());
    if i < all.len() {
        let o = s.ops[all[i]];
        if o.cancelled && o.device == device && o.stream == stream {
            lemma_stream_sync_outcome_from(s, device, stream, n.saturating_add(1), i + 1);
        } else {
            lemma_stream_sync_outcome_from(s, device, stream, n, i + 1);
        }
    }
}

/// Waiting for a stream reports its cancelled operations, and only those.
pub proof fn stream_sync_outcome_reports(s: SimState, device: DeviceId, stream: StreamId)
    requires
        s.ops.dom().finite(),
    ensures
        s.stream_sync_outcome(device, stream) is Ok <==> forall|k: OpId| #[trigger]
            s.ops.contains_key(k) ==> {
                let o = s.ops[k];
                !(o.cancelled && o.device == device && o.stream == stream)
            },
{
    let all = order_of(s.ops.dom());
    lemma_order_exists(s.ops.dom());
    lemma_stream_sync_outcome_from(s, device, stream, 0, 0);
    assert forall|j: int| 0 <= j < all.len() implies s.ops.contains_key(#[trigger] all[j]) by {
        assert(all.contains(all[j]));
    }
    assert forall|k: OpId| s.ops.contains_key(k) implies exists|j: int|
        0 <= j < all.len() && #[trigger] all[j] == k by {
        assert(all.contains(k));
    }
}

} // verus!
