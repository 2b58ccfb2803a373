//! Events, words and waiting: when something that is waited for has come.
use vstd::prelude::*;
use crate::error::SimError;
use crate::ids::{AllocId, DeviceId, EventId, Lane, OpId, Peer, StreamId, Word};
use crate::laws::completion::ends_as;
use crate::laws::costs::{held, put_in_flight, starts_now};
use crate::ops::{
    BatchMemOp, ClusterDim, ClusterSchedulingPolicy, GpuOpView, MemcpyOp, Place, SharedMemCarveout,
    SynchronizationPolicy, WaitValueCmp,
};
use crate::profile::GpuProfile;
use crate::sim::SimState;
use crate::sim::run::Goal;
use crate::state::{Ev, OpView};
use crate::table::order_of;

verus! {

/// Whether an operation has fired an event: at its end, at its programmatic trigger where the event
/// is tied to that, or at its start where the event is tied to that. A cancelled one never does.
pub open spec fn has_fired(s: SimState, o: OpView, e: EventId) -> bool {
    &&& !o.cancelled
    &&& {
        ||| o.done
        ||| {
            &&& o.attrs.programmatic_event is Some
            &&& s.event_root(o.attrs.programmatic_event->0.event) == e
            &&& o.attrs.pdl.trigger
            &&& o.pdl_trigger_ns is Some
            &&& o.pdl_trigger_ns->0 <= s.clock
        }
        ||| {
            &&& o.attrs.launch_completion is Some
            &&& s.event_root(o.attrs.launch_completion->0.event) == e
            &&& o.start_ns is Some
        }
    }
}

/// An event is complete exactly where the operation that recorded it last has fired it. An imported
/// event goes by its source.
pub proof fn event_completes_when_fired(s: SimState, e: EventId)
    requires
        s.events.contains_key(e),
    ensures
        s.query_event(e) == Ok::<bool, SimError>(s.event_complete(e)),
        s.events[e].ipc_src is None ==> {
            let by = s.events[e].recorded_by;
            s.event_complete(e) <==> by is Some && s.ops.contains_key(by->0) && has_fired(
                s,
                s.ops[by->0],
                e,
            )
        },
        s.events[e].ipc_src matches Some(src) ==> s.events.contains_key(src)
            && s.events[src].ipc_src is None ==> s.event_complete(e) == s.event_complete(src),
        !s.events.contains_key(e) ==> s.query_event(e) is Err,
{
}

/// A record that starts is what its event goes by from then on, and no other event changes.
pub proof fn record_marks_event(s: SimState, id: OpId, event: EventId, external: bool)
    requires
        s.ops.contains_key(id),
        s.ops[id].kind == (GpuOpView::EventRecord { event, external }),
        starts_now(s, id),
        s.events.contains_key(event),
        s.events[event].ipc_src is None,
    ensures
        ({
            let t = s.try_start(id).0;
            &&& t.events == s.events.insert(event, Ev { recorded_by: Some(id), ..s.events[event] })
            &&& put_in_flight(s, t, id, 1)
        }),
{
    reveal(SimState::try_start);
    reveal(SimState::start_kind);
}

/// A wait for an event that was recorded starts when the event has fired, not before, and fails where
/// the record was cancelled. One for an event that was never recorded does not start.
pub proof fn wait_starts_when_fired(s: SimState, id: OpId, event: EventId)
    requires
        s.events.contains_key(event),
        s.events[event].ipc_src is None,
    ensures
        ({
            let (t, r) = s.start_event_wait(id, event, false);
            let by = s.events[event].recorded_by;
            &&& by is Some && s.ops.contains_key(by->0) && s.ops[by->0].cancelled ==> r == Err::<
                bool,
                SimError,
            >(SimError::Cancelled { stream: s.ops[by->0].stream, n: 1 })
            &&& by is Some && s.ops.contains_key(by->0) && !s.ops[by->0].cancelled ==> r == Ok::<
                bool,
                SimError,
            >(has_fired(s, s.ops[by->0], event))
            &&& by is None ==> r != Ok::<bool, SimError>(true)
            &&& r == Ok::<bool, SimError>(true) ==> put_in_flight(s, t, id, 1)
            &&& r != Ok::<bool, SimError>(true) ==> t == s
        }),
{
    if s.events[event].recorded_by is None {
        lemma_no_gate(s, event, false, false, 0, StreamId(0), 0);
    }
}

proof fn lemma_no_gate(
    s: SimState,
    root: EventId,
    skip: bool,
    pending: bool,
    n: u32,
    stream: StreamId,
    i: int,
)
    ensures
        s.unrecorded_gate_from(root, skip, pending, n, stream, i) is Err
            || s.unrecorded_gate_from(root, skip, pending, n, stream, i) == Ok::<
            Option<OpId>,
            SimError,
        >(None),
    decreases order_of(s.ops.dom()).len() - i,
{
    if 0 <= i < order_of(s.ops.dom()).len() {
        let op = s.ops[order_of(s.ops.dom())[i]];
        if s.op_records(op, root, skip) {
            if op.cancelled {
                lemma_no_gate(s, root, skip, pending, n.saturating_add(1), op.stream, i + 1);
            } else if !op.done {
                lemma_no_gate(s, root, skip, true, n, stream, i + 1);
            } else {
                lemma_no_gate(s, root, skip, pending, n, stream, i + 1);
            }
        } else {
            lemma_no_gate(s, root, skip, pending, n, stream, i + 1);
        }
    }
}

/// A new event was never recorded, has timing or not as asked for, and can be shared between
/// processes only without timing. One that exists is not made again.
pub proof fn events_are_created(s: SimState, event: EventId)
    requires
        s.capturing is None,
    ensures
        ({
            let (t, r) = s.create_event(event);
            &&& r is Ok <==> !s.events.contains_key(event)
            &&& r is Ok ==> t.events.contains_key(event) && t.events[event].timing
                && !t.events[event].interprocess && t.events[event].recorded_by is None
                && t.events[event].ipc_src is None && !t.event_complete(event)
            &&& r is Err ==> t == s
        }),
        ({
            let (t, r) = s.create_event_disable_timing(event);
            r is Ok ==> !t.events[event].timing && !t.events[event].interprocess
        }),
        ({
            let (t, r) = s.create_event_interprocess(event);
            r is Ok ==> !t.events[event].timing && t.events[event].interprocess
        }),
        s.create_event_with_flags(event, 4).1 is Err,
{
    assert(0u32 & !(2u32 | 4u32) == 0 && 2u32 & !(2u32 | 4u32) == 0 && (2u32 | 4u32) & !(2u32
        | 4u32) == 0 && 4u32 & !(2u32 | 4u32) == 0 && 0u32 & 2u32 == 0 && 0u32 & 4u32 == 0 && 2u32
        & 2u32 == 2 && 2u32 & 4u32 == 0 && (2u32 | 4u32) & 2u32 == 2 && (2u32 | 4u32) & 4u32 == 4
        && 4u32 & 2u32 == 0 && 4u32 & 4u32 == 4) by (bit_vector);
}

/// Whether a dependency is over for an operation: it has ended; or it is a kernel before it on its
/// stream whose programmatic trigger has come, where the operation waits for that; or the operation
/// waits for an event that the dependency has fired early.
pub open spec fn is_over(s: SimState, o: OpView, d: OpId) -> bool {
    let p = s.ops[d];
    &&& s.ops.contains_key(d)
    &&& {
        ||| p.done
        ||| o.attrs.pdl.wait && p.attrs.pdl.trigger && p.device == o.device && p.stream == o.stream
            && p.pdl_trigger_ns is Some && p.pdl_trigger_ns->0 <= s.clock
        ||| o.kind matches GpuOpView::EventWait { event, .. } && (p.attrs.programmatic_event is Some
            && s.event_root(p.attrs.programmatic_event->0.event) == s.event_root(event)
            && p.attrs.pdl.trigger && p.pdl_trigger_ns is Some && p.pdl_trigger_ns->0 <= s.clock
            || p.attrs.launch_completion is Some && s.event_root(
            p.attrs.launch_completion->0.event,
        ) == s.event_root(event) && p.start_ns is Some)
    }
}

/// An operation is startable exactly where it has not ended, is not in flight, and everything that
/// it waits for is over.
pub proof fn startable_when_all_is_over(s: SimState, id: OpId)
    requires
        s.ops.contains_key(id),
    ensures
        s.startable(id) <==> !s.ops[id].done && !s.is_running(id) && forall|i: int|
            0 <= i < s.ops[id].deps.len() ==> is_over(s, s.ops[id], #[trigger] s.ops[id].deps[i]),
{
    let o = s.ops[id];
    assert forall|i: int| 0 <= i < o.deps.len() implies s.dep_satisfied(o, #[trigger] o.deps[i])
        == is_over(s, o, o.deps[i]) by {}
}

/// A kernel that is to trigger does so after its share of its time, counted from its start.
pub proof fn trigger_comes_in_time(s: SimState, device: DeviceId, ns: u64, g: GpuProfile)
    requires
        s.profile.gpu(device) == Ok::<GpuProfile, SimError>(g),
    ensures
        s.trigger_at(device, ns) == held(
            s.clock + held(
                ns * (if g.pdl_trigger_permille > 1000 {
                    1000
                } else {
                    g.pdl_trigger_permille as int
                }),
            ) / 1000,
        ),
        ns * 1000 <= u64::MAX && s.clock + ns <= u64::MAX ==> s.clock <= s.trigger_at(device, ns)
            <= s.clock + ns,
{
    let p = if g.pdl_trigger_permille > 1000 {
        1000int
    } else {
        g.pdl_trigger_permille as int
    };
    assert(0 <= ns * p <= ns * 1000) by (nonlinear_arith)
        requires
            0 <= p <= 1000,
            ns >= 0,
    ;
}

/// Whether a word meets a condition: at least the value, equal to it, with a bit in common, or with
/// a bit that is clear in both. Half words go by their lower half.
pub open spec fn word_meets(word: u64, value: u64, bits32: bool, how: WaitValueCmp) -> bool {
    let w = if bits32 {
        word & 0xffff_ffff
    } else {
        word
    };
    let v = if bits32 {
        value & 0xffff_ffff
    } else {
        value
    };
    match how {
        WaitValueCmp::Geq => w >= v,
        WaitValueCmp::Eq => w == v,
        WaitValueCmp::And => w & v != 0,
        WaitValueCmp::Nor => !(w | v) != 0,
    }
}

/// A wait for a word starts exactly where the word meets the condition, and a write when it can be
/// reached. Each takes a nanosecond.
pub proof fn word_wait_starts_when_met(
    s: SimState,
    op: OpId,
    device: DeviceId,
    id: AllocId,
    offset: u64,
    value: u64,
    bits32: bool,
    how: WaitValueCmp,
)
    requires
        s.require_wait_value_resident(device, id, offset, bits32) is Ok,
    ensures
        ({
            let ops = seq![BatchMemOp::Wait { id, offset, value, bits32, cmp: how }];
            let (t, r) = s.start_batch_mem_ops(op, device, ops);
            &&& r == Ok::<bool, SimError>(
                word_meets(s.mailbox_word(id, offset), value, bits32, how),
            )
            &&& r == Ok::<bool, SimError>(true) ==> put_in_flight(s, t, op, 1)
            &&& r == Ok::<bool, SimError>(false) ==> t == s
        }),
        ({
            let ops = seq![BatchMemOp::Write { id, offset, value, bits32 }];
            let (t, r) = s.start_batch_mem_ops(op, device, ops);
            r == Ok::<bool, SimError>(true) && put_in_flight(s, t, op, 1)
        }),
{
    reveal_with_fuel(SimState::batch_mem_ready_from, 3);
    let w = s.mailbox_word(id, offset);
    assert(w & u64::MAX == w && value & u64::MAX == value) by (bit_vector);
}

/// In a batch a wait sees what the writes before it in the batch will have written.
pub proof fn batch_sees_its_own_writes(
    s: SimState,
    op: OpId,
    device: DeviceId,
    id: AllocId,
    offset: u64,
    written: u64,
    value: u64,
    how: WaitValueCmp,
)
    requires
        s.require_wait_value_resident(device, id, offset, false) is Ok,
    ensures
        ({
            let ops = seq![
                BatchMemOp::Write { id, offset, value: written, bits32: false },
                BatchMemOp::Wait { id, offset, value, bits32: false, cmp: how },
            ];
            s.start_batch_mem_ops(op, device, ops).1 == Ok::<bool, SimError>(
                word_meets(written, value, false, how),
            )
        }),
{
    reveal_with_fuel(SimState::batch_mem_ready_from, 4);
    let prev = s.mailbox_word(id, offset);
    assert((prev & !u64::MAX) | (written & u64::MAX) == written && value & u64::MAX == value
        && written & u64::MAX == written) by (bit_vector);
}

/// A word that is written by an operation is there when the operation ends: the whole word, or its
/// lower half with the upper half as it was.
pub proof fn written_word_arrives(
    s: SimState,
    op: OpId,
    id: AllocId,
    offset: u64,
    value: u64,
    bits32: bool,
)
    requires
        ends_as(s, op, (GpuOpView::WriteValue { id, offset, value, bits32 })),
    ensures
        ({
            let t = s.complete(op).0;
            let w = t.mailbox_word(id, offset);
            &&& !bits32 ==> w == value
            &&& bits32 ==> w & 0xffff_ffff == value & 0xffff_ffff && w >> 32 == s.mailbox_word(
                id,
                offset,
            ) >> 32
            &&& forall|a: AllocId, o: u64|
                Word(a, o) != Word(id, offset) ==> #[trigger] t.mailbox_word(a, o)
                    == s.mailbox_word(a, o)
        }),
{
    reveal(SimState::complete);
    reveal(SimState::finish_kind);
    reveal(SimState::finish_device_launch);
    reveal(SimState::continue_while);
    reveal_with_fuel(SimState::apply_mailbox_writes_from, 2);
    let prev = s.mailbox_word(id, offset);
    assert((prev & !u64::MAX) | (value & u64::MAX) == value && ((prev & !0xffff_ffffu64) | (value
        & 0xffff_ffff)) & 0xffff_ffff == value & 0xffff_ffff && ((prev & !0xffff_ffffu64) | (value
        & 0xffff_ffff)) >> 32 == prev >> 32) by (bit_vector);
}

/// Waiting on a stream costs what its policy says, on top of the wait itself.
pub proof fn waiting_costs_policy(s: SimState, device: DeviceId, stream: StreamId, g: GpuProfile)
    requires
        s.profile.gpu(device) == Ok::<GpuProfile, SimError>(g),
        s.synchronize_stream(device, stream).1 is Ok,
    ensures
        ({
            let u = s.drive_until(Goal::Stream(device, stream)).0;
            let t = s.synchronize_stream(device, stream).0;
            let policy = if u.stream_sync_policy.contains_key(Lane(device, stream)) {
                u.stream_sync_policy[Lane(device, stream)]
            } else {
                SynchronizationPolicy::Auto
            };
            u.profile == s.profile ==> t.clock == held(
                u.clock + match policy {
                    SynchronizationPolicy::Auto => 0,
                    SynchronizationPolicy::Spin => g.host_sync_spin_ns as int,
                    SynchronizationPolicy::Yield => g.host_sync_yield_ns as int,
                    SynchronizationPolicy::BlockingSync => g.host_sync_blocking_ns as int,
                },
            )
        }),
{
}

/// Waiting for an event costs what the policy of the stream that recorded it says.
pub proof fn awaited_event_costs_policy(s: SimState, event: EventId, id: OpId, g: GpuProfile)
    requires
        s.event_recorded_by(event) == Some(id),
        s.ops.contains_key(id),
        s.profile.gpu(s.ops[id].device) == Ok::<GpuProfile, SimError>(g),
    ensures
        ({
            let lane = Lane(s.ops[id].device, s.ops[id].stream);
            let policy = if s.stream_sync_policy.contains_key(lane) {
                s.stream_sync_policy[lane]
            } else {
                SynchronizationPolicy::Auto
            };
            s.apply_event_sync_policy_tax(event).clock == held(
                s.clock + match policy {
                    SynchronizationPolicy::Auto => 0,
                    SynchronizationPolicy::Spin => g.host_sync_spin_ns as int,
                    SynchronizationPolicy::Yield => g.host_sync_yield_ns as int,
                    SynchronizationPolicy::BlockingSync => g.host_sync_blocking_ns as int,
                },
            )
        }),
{
}

/// An operation that is put in flight is stamped with the time, once.
pub proof fn start_is_stamped(s: SimState, id: OpId)
    requires
        s.ops.contains_key(id),
    ensures
        ({
            let t = s.note_start(id);
            let o = s.ops[id];
            &&& s.is_running(id) && o.start_ns is None && !o.cancelled ==> t.ops[id] == (OpView {
                start_ns: Some(s.clock),
                ..o
            })
            &&& o.start_ns is Some ==> t == s
        }),
{
}

/// Settings of streams read back, and concern that stream alone.
pub proof fn stream_settings_read_back(
    s: SimState,
    device: DeviceId,
    stream: StreamId,
    priority: i32,
    yes: bool,
    extra: u64,
)
    requires
        s.profile.gpu(device) is Ok,
        stream.0 != 0,
        s.capturing is None,
    ensures
        ({
            let (t, r) = s.set_stream_priority(device, stream, priority);
            &&& r is Ok
            &&& t.stream_get_priority(device, stream) == Ok::<i32, SimError>(priority)
        }),
        ({
            let (t, r) = s.set_stream_blocking(device, stream, yes);
            &&& r is Ok
            &&& t.stream_is_blocking(device, stream) == yes
            &&& t.stream_get_flags(device, stream) == Ok::<u32, SimError>(
                if yes {
                    0
                } else {
                    1
                },
            )
        }),
        ({
            let (t, r) = s.stream_create_with_priority(device, stream, 1, priority);
            &&& r is Ok
            &&& !t.stream_is_blocking(device, stream)
            &&& t.stream_get_priority(device, stream) == Ok::<i32, SimError>(priority)
        }),
        ({
            let (t, r) = s.stream_create_with_flags(device, stream, 0);
            r is Ok && t.stream_is_blocking(device, stream)
        }),
        s.set_legacy_null_stream(yes).legacy_null_stream() == yes,
        s.set_legacy_null_stream(yes).stream_get_flags(device, StreamId(0)) == Ok::<
            u32,
            SimError,
        >(
            if yes {
                0
            } else {
                1
            },
        ),
        s.set_extra_transfer_ns(extra) == (SimState { extra_transfer_ns: extra, ..s }),
{
    assert(0u32 & !1u32 == 0 && 1u32 & !1u32 == 0 && 0u32 & 1u32 == 0 && 1u32 & 1u32 == 1)
        by (bit_vector);
}

/// A cluster takes a slot for each of its blocks, no more than there are: those of the preferred
/// shape where they all fit, else those of the required one. One that is spread takes all slots.
pub proof fn cluster_takes_slots(
    s: SimState,
    device: DeviceId,
    c: ClusterDim,
    policy: ClusterSchedulingPolicy,
    g: GpuProfile,
)
    requires
        s.profile.gpu(device) == Ok::<GpuProfile, SimError>(g),
        g.compute_slots > 0,
        c.x > 0,
        c.y > 0,
        c.z > 0,
        c.x * c.y <= u32::MAX,
        1 < c.x * c.y * c.z <= u32::MAX,
        g.max_blocks_per_cluster > 0,
    ensures
        ({
            let r = s.kernel_slots(
                device,
                false,
                Some(c),
                None,
                policy,
                SharedMemCarveout::Default,
            );
            let n = c.x * c.y * c.z;
            &&& n > g.max_blocks_per_cluster ==> r is Err
            &&& n <= g.max_blocks_per_cluster && policy is Spread ==> r == Ok::<u8, SimError>(
                g.compute_slots,
            )
            &&& n <= g.max_blocks_per_cluster && !(policy is Spread) ==> r is Ok && r->Ok_0 == (
            if n > g.compute_slots {
                g.compute_slots as int
            } else {
                n
            })
        }),
{
}

/// A copy between GPUs needs access to be enabled in that direction where a link joins them, and its
/// memory at its source.
pub proof fn copies_are_refused(s: SimState, m: MemcpyOp, a: DeviceId, b: DeviceId)
    requires
        s.allocs.contains_key(m.alloc),
        !s.allocs[m.alloc].vmm,
        m.height <= 1,
        m.depth <= 1,
        m.offset == 0,
        m.src == Place::Device(a),
        m.dst == Place::Device(b),
        a != b,
        !(s.allocs[m.alloc].managed && s.allocs[m.alloc].leases > 0),
    ensures
        !s.allocs[m.alloc].live ==> s.memcpy_precheck(m) == Err::<(), SimError>(
            SimError::UnknownAlloc { alloc: m.alloc },
        ),
        s.allocs[m.alloc].live && s.profile.link(Some(a), Some(b)) is Ok
            && !s.peer_enabled.contains(Peer(a, b)) ==> s.memcpy_precheck(m) == Err::<(), SimError>(
            SimError::PeerDisabled { src: a, dst: b },
        ),
        s.allocs[m.alloc].live && (s.peer_enabled.contains(Peer(a, b)) || s.profile.link(
            Some(a),
            Some(b),
        ) is Err) ==> (if s.allocs[m.alloc].devices.contains(a) {
            s.memcpy_precheck(m) is Ok
        } else {
            s.memcpy_precheck(m) == Err::<(), SimError>(
                SimError::NotResident { alloc: m.alloc, device: a },
            )
        }),
{
}

/// A transfer that is told to fail is cancelled at once and fails alone.
pub proof fn failed_transfer_is_cancelled(s: SimState, id: OpId, m: MemcpyOp)
    requires
        s.ops.contains_key(id),
        s.ops[id].kind == GpuOpView::Memcpy(m),
        s.fail_next_memcpy,
        !s.cond_skip(s.ops[id].preds),
        !s.unavailable.contains(s.ops[id].device),
    ensures
        s.try_start(id) == (
            SimState {
                fail_next_memcpy: false,
                ops: s.ops.insert(
                    id,
                    OpView {
                        cancelled: true,
                        done: true,
                        done_ns: Some(s.clock),
                        ..s.ops[id]
                    },
                ),
                ..s
            },
            Err::<bool, SimError>(SimError::TransferFailed { alloc: m.alloc }),
        ),
{
    reveal(SimState::try_start);
    reveal(SimState::start_kind);
    reveal(SimState::start_memcpy);
}

} // verus!
