//! Histories of the operations in `sim::run`.
use vstd::prelude::*;
use crate::error::invalid;
use crate::history::{
    alloc_follows, counted, follows, gpu_follows, graph_follows, later_follows, op_end_follows,
    op_start_follows, rest_follows, touched,
};
use crate::history::access::tick_follows;
use crate::history::charge::{apply_mailbox_write_follows, finish_memcpy_follows};
use crate::history::launch::{enqueue_pred_graph_follows, enqueue_root_follows, submit_tick_follows};
use crate::history::order::{
    advance_to_next_completion_follows, drop_running_follows, pay_fence_follows,
    schedule_rounds_follows,
};
use crate::history::shape::{event_follows, event_gone_follows};
use crate::history::streams::{drop_compute_follows, drop_compute_n_follows};
use crate::history::timeline::{in_flight, unended};
use crate::history::tree::reset_graph_tree_conds_follows;
use crate::ids::{AllocId, DeviceId, EventId, Lane, OpId, StreamId};
use crate::laws::frames::finish_kind_keeps_work;
use crate::list::with_new;
use crate::num::max_u64;
use crate::ops::{GpuOpView, KernelBuf, MemAttach};
use crate::sim::SimState;
use crate::sim::run::{attach_state, Goal};
use crate::state::{AllocView, CondPred, Ev, GpuRtView, GraphView, OpView};
use crate::table::without_value;

verus! {

/// [`Sim::note_start`] continues the history.
pub proof fn note_start_follows(z: SimState, s0: SimState, id: OpId)
    requires
        follows(z, s0),
    ensures
        follows(z, s0.note_start(id)),
        touched(z, s0, id) ==> touched(z, s0.note_start(id), id),
{
    let s = s0;
    let fresh = s.is_running(id) && (
        match s.ops.get(id) { Some(o) => o.start_ns.is_none() && !o.cancelled, None => false, }
    );
    if fresh {
        let now = s.clock;
        match s.ops.get(id) {
            Some(op) => {
                let op = OpView { start_ns: Some(now), ..op };
                op_start_follows(z, s, id, op);
            },
            _ => {},
        }
    }
}

/// [`Sim::schedule`] continues the history.
pub proof fn schedule_follows(z: SimState, s0: SimState)
    requires
        follows(z, s0),
    ensures
        follows(z, s0.schedule().0),
{
    reveal(SimState::schedule);
    schedule_rounds_follows(z, s0, u64::MAX as nat);
}

/// [`Sim::start_ready`] continues the history.
pub proof fn start_ready_follows(z: SimState, s0: SimState)
    requires
        follows(z, s0),
    ensures
        follows(z, s0.start_ready().0),
{
    let s = s0;
    schedule_follows(z, s);
}

/// [`Sim::fence_each`] continues the history.
pub proof fn fence_each_follows(z: SimState, s0: SimState, ids: Seq<OpId>)
    requires
        follows(z, s0),
    ensures
        follows(z, s0.fence_each(ids)),
{
    let s = s0;
    fence_each_from_follows(z, s, ids, 0);
}

/// [`Sim::fence_each`] continues the history, from position `i` on.
pub proof fn fence_each_from_follows(z: SimState, s0: SimState, ids: Seq<OpId>, i: int)
    requires
        follows(z, s0),
    ensures
        follows(z, s0.fence_each_from(ids, i)),
    decreases ids.len() - i,
{
    let s = s0;
    if 0 <= i < ids.len() {
        let extra = s.same_domain_fence_extra(ids[i]);
        if extra != 0 {
            pay_fence_follows(z, s, ids[i], extra);
        }
        let s = if extra != 0 {
            let s = s.pay_fence(ids[i], extra);
            s
        } else {
            s
        };
        fence_each_from_follows(z, s, ids, i + 1);
    }
}

/// [`Sim::apply_domain_fences`] continues the history.
pub proof fn apply_domain_fences_follows(z: SimState, s0: SimState)
    requires
        follows(z, s0),
    ensures
        follows(z, s0.apply_domain_fences()),
{
    let s = s0;
    let ids = s.finished();
    fence_each_follows(z, s, ids);
}

/// [`Sim::bump_graph_mem_high`] continues the history.
pub proof fn bump_graph_mem_high_follows(z: SimState, s0: SimState, device: DeviceId)
    requires
        follows(z, s0),
    ensures
        follows(z, s0.bump_graph_mem_high(device).0),
{
    let s = s0;
    match s.graph_mem_used_reserved(device) {
        Err(e) => {},
        Ok((used, reserved)) => match s.gpu_rt(device) {
            Err(e) => {},
            Ok(rt) => {
                let rt = GpuRtView {
                    graph_used_high: max_u64(rt.graph_used_high, used),
                    graph_reserved_high: max_u64(rt.graph_reserved_high, reserved),
                    ..rt
                };
                gpu_follows(z, s, device, rt);
            },
        },
    }
}

/// [`Sim::bump_graph_mem_from_op`] continues the history.
pub proof fn bump_graph_mem_from_op_follows(
    z: SimState,
    s0: SimState,
    device: DeviceId,
    kind: GpuOpView,
)
    requires
        follows(z, s0),
    ensures
        follows(z, s0.bump_graph_mem_from_op(device, kind).0),
{
    let s = s0;
    let alloc = match kind {
        GpuOpView::Alloc { id, bytes } => Some(id),
        GpuOpView::Free { id } => Some(id),
        _ => None,
    };
    match alloc {
        Some(id) => {
            if s.is_graph_alloc(id) {
                bump_graph_mem_high_follows(z, s, device);
            }
        },
        None => {},
    }
}

/// [`Sim::unlease`] continues the history.
pub proof fn unlease_follows(z: SimState, s0: SimState, id: AllocId)
    requires
        follows(z, s0),
    ensures
        follows(z, s0.unlease(id).0),
{
    let s = s0;
    match s.alloc_ref(id) {
        Err(e) => {},
        Ok(a) => {
            let a = AllocView { leases: a.leases.saturating_sub(1), ..a };
            alloc_follows(z, s, id, a);
        },
    }
}

/// [`Sim::unlease_bufs`] continues the history.
pub proof fn unlease_bufs_follows(z: SimState, s0: SimState, bufs: Seq<KernelBuf>)
    requires
        follows(z, s0),
    ensures
        follows(z, s0.unlease_bufs(bufs).0),
{
    let s = s0;
    unlease_bufs_from_follows(z, s, bufs, 0);
}

/// [`Sim::unlease_bufs`] continues the history, from position `i` on.
pub proof fn unlease_bufs_from_follows(z: SimState, s0: SimState, bufs: Seq<KernelBuf>, i: int)
    requires
        follows(z, s0),
    ensures
        follows(z, s0.unlease_bufs_from(bufs, i).0),
    decreases bufs.len() - i,
{
    let s = s0;
    if 0 <= i < bufs.len() {
        unlease_follows(z, s, bufs[i].id);
        match s.unlease(bufs[i].id) {
            (s, Err(e)) => {},
            (s, Ok(_v)) => {
                unlease_bufs_from_follows(z, s, bufs, i + 1);
            },
        }
    }
}

/// [`Sim::unlease_parts`] continues the history.
pub proof fn unlease_parts_follows(z: SimState, s0: SimState, parts: Seq<(DeviceId, AllocId)>)
    requires
        follows(z, s0),
    ensures
        follows(z, s0.unlease_parts(parts).0),
{
    let s = s0;
    unlease_parts_from_follows(z, s, parts, 0);
}

/// [`Sim::unlease_parts`] continues the history, from position `i` on.
pub proof fn unlease_parts_from_follows(
    z: SimState,
    s0: SimState,
    parts: Seq<(DeviceId, AllocId)>,
    i: int,
)
    requires
        follows(z, s0),
    ensures
        follows(z, s0.unlease_parts_from(parts, i).0),
    decreases parts.len() - i,
{
    let s = s0;
    if 0 <= i < parts.len() {
        unlease_follows(z, s, parts[i].1);
        match s.unlease(parts[i].1) {
            (s, Err(e)) => {},
            (s, Ok(_v)) => {
                unlease_parts_from_follows(z, s, parts, i + 1);
            },
        }
    }
}

/// [`Sim::apply_mailbox_writes`] continues the history.
pub proof fn apply_mailbox_writes_follows(
    z: SimState,
    s0: SimState,
    writes: Seq<(AllocId, u64, u64, bool)>,
)
    requires
        follows(z, s0),
    ensures
        follows(z, s0.apply_mailbox_writes(writes)),
{
    let s = s0;
    apply_mailbox_writes_from_follows(z, s, writes, 0);
}

/// [`Sim::apply_mailbox_writes`] continues the history, from position `i` on.
pub proof fn apply_mailbox_writes_from_follows(
    z: SimState,
    s0: SimState,
    writes: Seq<(AllocId, u64, u64, bool)>,
    i: int,
)
    requires
        follows(z, s0),
    ensures
        follows(z, s0.apply_mailbox_writes_from(writes, i)),
    decreases writes.len() - i,
{
    let s = s0;
    if 0 <= i < writes.len() {
        let (id, offset, value, bits32) = writes[i];
        apply_mailbox_write_follows(z, s, id, offset, value, bits32);
        let s = s.apply_mailbox_write(id, offset, value, bits32);
        apply_mailbox_writes_from_follows(z, s, writes, i + 1);
    }
}

/// [`Sim::finish_kernel`] continues the history.
pub proof fn finish_kernel_follows(
    z: SimState,
    s0: SimState,
    id: OpId,
    device: DeviceId,
    reads: Seq<KernelBuf>,
    writes: Seq<KernelBuf>,
)
    requires
        follows(z, s0),
    ensures
        follows(z, s0.finish_kernel(id, device, reads, writes).0),
{
    reveal(SimState::finish_kernel);
    let s = s0;
    let moved = s.multicast_write_bytes(writes);
    match s.slots_of(id) {
        Err(e) => {},
        Ok(slots) => {
            drop_compute_n_follows(z, s, device, slots);
            match s.drop_compute_n(device, slots) {
                (s, Err(e)) => {},
                (s, Ok(_v)) => {
                    unlease_bufs_follows(z, s, reads);
                    match s.unlease_bufs(reads) {
                        (s, Err(e)) => {},
                        (s, Ok(_v)) => {
                            unlease_bufs_follows(z, s, writes);
                            match s.unlease_bufs(writes) {
                                (s, Err(e)) => {},
                                (s, Ok(_v)) => {
                                    assert(
                                        follows(
                                            z,
                                            SimState {
                                                bytes_moved: s.bytes_moved.saturating_add(moved),
                                                ..s
                                            },
                                        )
                                    ) by {
                                        reveal(follows);
                                    }
                                },
                            }
                        },
                    }
                },
            }
        },
    }
}

/// [`Sim::finish_alloc`] continues the history.
pub proof fn finish_alloc_follows(z: SimState, s0: SimState, alloc: AllocId, device: DeviceId)
    requires
        follows(z, s0),
    ensures
        follows(z, s0.finish_alloc(alloc, device).0),
{
    reveal(SimState::finish_alloc);
    let s = s0;
    match s.alloc_ref(alloc) {
        Err(e) => {},
        Ok(a) => {
            let a = AllocView { live: true, ..a };
            let a = AllocView { devices: with_new(a.devices, device), ..a };
            alloc_follows(z, s, alloc, a);
        },
    }
}

/// [`Sim::finish_memset`] continues the history.
pub proof fn finish_memset_follows(z: SimState, s0: SimState, device: DeviceId, id: AllocId)
    requires
        follows(z, s0),
    ensures
        follows(z, s0.finish_memset(device, id).0),
{
    reveal(SimState::finish_memset);
    let s = s0;
    drop_compute_follows(z, s, device);
    match s.drop_compute(device) {
        (s, Err(e)) => {},
        (s, Ok(_v)) => {
            unlease_follows(z, s, id);
        },
    }
}

/// [`Sim::finish_allreduce`] continues the history.
pub proof fn finish_allreduce_follows(
    z: SimState,
    s0: SimState,
    device: DeviceId,
    parts: Seq<(DeviceId, AllocId)>,
)
    requires
        follows(z, s0),
    ensures
        follows(z, s0.finish_allreduce(device, parts).0),
{
    reveal(SimState::finish_allreduce);
    let s = s0;
    drop_compute_follows(z, s, device);
    match s.drop_compute(device) {
        (s, Err(e)) => {},
        (s, Ok(_v)) => {
            unlease_parts_follows(z, s, parts);
        },
    }
}

/// [`Sim::finish_attach`] continues the history.
pub proof fn finish_attach_follows(
    z: SimState,
    s0: SimState,
    alloc: AllocId,
    flags: MemAttach,
    stream: StreamId,
)
    requires
        follows(z, s0),
    ensures
        follows(z, s0.finish_attach(alloc, flags, stream).0),
{
    reveal(SimState::finish_attach);
    let s = s0;
    match s.alloc_ref(alloc) {
        Err(e) => {},
        Ok(a) => {
            alloc_follows(z, s, alloc, AllocView { attach: attach_state(flags, stream), ..a });
        },
    }
}

/// [`Sim::finish_kind`] continues the history.
pub proof fn finish_kind_follows(
    z: SimState,
    s0: SimState,
    id: OpId,
    device: DeviceId,
    stream: StreamId,
    dma: bool,
    kind: GpuOpView,
)
    requires
        follows(z, s0),
    ensures
        follows(z, s0.finish_kind(id, device, stream, dma, kind).0),
{
    reveal(SimState::finish_kind);
    let s = s0;
    match kind {
        GpuOpView::Alloc { id: alloc, bytes } => {
            finish_alloc_follows(z, s, alloc, device);
        },
        GpuOpView::Kernel { kind: k, reads, writes, cooperative } => {
            finish_kernel_follows(z, s, id, device, reads, writes);
        },
        GpuOpView::Memset(op) => {
            finish_memset_follows(z, s, device, op.id);
        },
        GpuOpView::AllReduce { parts, bytes } => {
            finish_allreduce_follows(z, s, device, parts);
        },
        GpuOpView::DeviceLaunch { graph } => {
            drop_compute_follows(z, s, device);
        },
        GpuOpView::Memcpy(m) => {
            finish_memcpy_follows(z, s, device, m, dma);
        },
        GpuOpView::Attach { id: alloc, flags } => {
            finish_attach_follows(z, s, alloc, flags, stream);
        },
        _ => {
            let writes = kind.mailbox_writes();
            apply_mailbox_writes_follows(z, s, writes);
        },
    }
}

/// [`Sim::finish_op`] continues the history.
pub proof fn finish_op_follows(z: SimState, s0: SimState, id: OpId)
    requires
        follows(z, s0),
        counted(z, s0) ==> !in_flight(s0.running, id) && unended(s0.ops, s0.clock, id),
    ensures
        follows(z, s0.finish_op(id)),
{
    let s = s0;
    let now = s.clock;
    match s.ops.get(id) {
        Some(op) => {
            let op = OpView { done: true, done_ns: Some(now), ..op };
            op_end_follows(z, s, id, op);
        },
        _ => {},
    }
}

/// [`Sim::finish_device_launch`] continues the history.
pub proof fn finish_device_launch_follows(
    z: SimState,
    s0: SimState,
    id: OpId,
    device: DeviceId,
    stream: StreamId,
    kind: GpuOpView,
)
    requires
        follows(z, s0),
    ensures
        follows(z, s0.finish_device_launch(id, device, stream, kind).0),
{
    reveal(SimState::finish_device_launch);
    let s = s0;
    match kind {
        GpuOpView::DeviceLaunch { graph } => {
            reset_graph_tree_conds_follows(z, s, graph);
            let s = s.reset_graph_tree_conds(graph);
            let wait = seq![id];
            enqueue_root_follows(z, s, graph, stream, false, wait);
            match s.enqueue_root(graph, stream, false, wait) {
                (s, Err(e)) => {},
                (s, Ok(n)) => {
                    let last = s.tail_of(Lane(device, stream));
                    let tail = if n == 0 { id } else { (match last { Some(x) => x, None => id }) };
                    match s.graph_ref(graph) {
                        Err(e) => {},
                        Ok(g) => {
                            graph_follows(
                                z,
                                s,
                                graph,
                                GraphView { device_launch_tail: Some(tail), ..g },
                            );
                        },
                    }
                },
            }
        },
        _ => {},
    }
}

/// [`Sim::continue_while`] continues the history.
pub proof fn continue_while_follows(
    z: SimState,
    s0: SimState,
    id: OpId,
    device: DeviceId,
    stream: StreamId,
    kind: GpuOpView,
)
    requires
        follows(z, s0),
    ensures
        follows(z, s0.continue_while(id, device, stream, kind).0),
{
    reveal(SimState::continue_while);
    let s = s0;
    match kind {
        GpuOpView::WhileTick { handle, body, iter } => match s.conds.get(handle) {
            Some(c) => {
                let value = c.value;
                if !(value == 0) {
                    if !(iter >= 64) {
                        let wait = seq![id];
                        let none = Seq::empty();
                        let fuel = s.tree_fuel();
                        enqueue_pred_graph_follows(
                            z,
                            s,
                            CondPred::Nonzero(handle),
                            body,
                            stream,
                            false,
                            none,
                            wait,
                            fuel,
                        );
                        match s.enqueue_pred_graph(
                            CondPred::Nonzero(handle),
                            body,
                            stream,
                            false,
                            none,
                            wait,
                            fuel,
                        ) {
                            (s, Err(e)) => {},
                            (s, Ok(_n)) => {
                                submit_tick_follows(
                                    z,
                                    s,
                                    device,
                                    stream,
                                    handle,
                                    body,
                                    iter.saturating_add(1),
                                    wait,
                                );
                            },
                        }
                    }
                }
            },
            None => {},
        },
        _ => {},
    }
}

/// [`Sim::complete`] continues the history.
pub proof fn complete_follows(z: SimState, s0: SimState, id: OpId)
    requires
        follows(z, s0),
        counted(z, s0) ==> unended(s0.ops, s0.clock, id),
    ensures
        follows(z, s0.complete(id).0),
{
    reveal(SimState::complete);
    let s = s0;
    let dma = s.on_link(id);
    drop_running_follows(z, s, id);
    let s = s.drop_running(id);
    match (match s.ops.get(id) { Some(x) => Ok(x), None => Err(invalid("complete unknown op")) }) {
        Err(e) => {},
        Ok(op) => {
            let device = op.device;
            let stream = op.stream;
            let kind = op.kind;
            if op.skipped {
                finish_op_follows(z, s, id);
            } else {
                finish_kind_follows(z, s, id, device, stream, dma, kind);
                finish_kind_keeps_work(s, id, device, stream, dma, kind);
                match s.finish_kind(id, device, stream, dma, kind) {
                    (s, Err(e)) => {},
                    (s, Ok(_v)) => {
                        finish_op_follows(z, s, id);
                        let s = s.finish_op(id);
                        bump_graph_mem_from_op_follows(z, s, device, kind);
                        match s.bump_graph_mem_from_op(device, kind) {
                            (s, Err(e)) => {},
                            (s, Ok(_v)) => {
                                finish_device_launch_follows(z, s, id, device, stream, kind);
                                match s.finish_device_launch(id, device, stream, kind) {
                                    (s, Err(e)) => {},
                                    (s, Ok(_v)) => {
                                        continue_while_follows(z, s, id, device, stream, kind);
                                    },
                                }
                            },
                        }
                    },
                }
            }
        },
    }
}

/// [`Sim::drive`] continues the history.
pub proof fn drive_follows(z: SimState, s0: SimState, goal: Goal, left: nat)
    requires
        follows(z, s0),
    ensures
        follows(z, s0.drive(goal, left).0),
    decreases left,
{
    if !(s0.goal_reached(goal)) {
        schedule_follows(z, s0);
        match s0.schedule() {
            (s, Err(e)) => {},
            (s, Ok(_v)) => {
                if !(s.goal_reached(goal) || s.running.len() == 0) {
                    advance_to_next_completion_follows(z, s);
                    match s.advance_to_next_completion() {
                        (s, Err(e)) => {},
                        (s, Ok(_v)) => {
                            if !(left == 0) {
                                drive_follows(z, s, goal, (left - 1)as nat);
                            }
                        },
                    }
                }
            },
        }
    }
}

/// [`Sim::drive_until`] continues the history.
pub proof fn drive_until_follows(z: SimState, s0: SimState, goal: Goal)
    requires
        follows(z, s0),
    ensures
        follows(z, s0.drive_until(goal).0),
{
    reveal(SimState::drive_until);
    drive_follows(z, s0, goal, 10_000_000);
}

/// [`Sim::apply_stream_sync_policy_tax`] continues the history.
pub proof fn apply_stream_sync_policy_tax_follows(
    z: SimState,
    s0: SimState,
    device: DeviceId,
    stream: StreamId,
)
    requires
        follows(z, s0),
    ensures
        follows(z, s0.apply_stream_sync_policy_tax(device, stream)),
{
    let s = s0;
    let policy = s.stream_sync_policy(device, stream);
    let tax = s.host_sync_policy_tax_ns(device, policy);
    tick_follows(z, s, tax);
}

/// [`Sim::apply_event_sync_policy_tax`] continues the history.
pub proof fn apply_event_sync_policy_tax_follows(z: SimState, s0: SimState, event: EventId)
    requires
        follows(z, s0),
    ensures
        follows(z, s0.apply_event_sync_policy_tax(event)),
{
    let s = s0;
    let lane = match s.event_recorded_by(event) {
        Some(id) => {
            (match s.ops.get(id) { Some(row) => Some(Lane(row.device, row.stream)), None => None, })
        },
        None => None,
    };
    match lane {
        Some(l) => {
            apply_stream_sync_policy_tax_follows(z, s, l.0, l.1);
        },
        _ => {},
    }
}

/// [`Sim::synchronize`] continues the history.
pub proof fn synchronize_follows(z: SimState, s0: SimState)
    requires
        follows(z, s0),
    ensures
        follows(z, s0.synchronize().0),
{
    let s = s0;
    match s.fail_if_capturing("cannot synchronize during capture") {
        Err(e) => {},
        Ok(_v) => {
            drive_until_follows(z, s, Goal::Node);
        },
    }
}

/// [`Sim::synchronize_device`] continues the history.
pub proof fn synchronize_device_follows(z: SimState, s0: SimState, device: DeviceId)
    requires
        follows(z, s0),
    ensures
        follows(z, s0.synchronize_device(device).0),
{
    reveal(SimState::synchronize_device);
    let s = s0;
    match s.fail_if_capturing("cannot synchronize device during capture") {
        Err(e) => {},
        Ok(_v) => match s.profile.gpu(device) {
            Err(e) => {},
            Ok(_gpu) => {
                drive_until_follows(z, s, Goal::Device(device));
            },
        },
    }
}

/// [`Sim::synchronize_stream`] continues the history.
pub proof fn synchronize_stream_follows(
    z: SimState,
    s0: SimState,
    device: DeviceId,
    stream: StreamId,
)
    requires
        follows(z, s0),
    ensures
        follows(z, s0.synchronize_stream(device, stream).0),
{
    let s = s0;
    match s.profile.gpu(device) {
        Err(e) => {},
        Ok(_gpu) => {
            if !(s.in_capture(device, stream)) {
                drive_until_follows(z, s, Goal::Stream(device, stream));
                match s.drive_until(Goal::Stream(device, stream)) {
                    (s, Err(e)) => {},
                    (s, Ok(_v)) => {
                        if !(!s.stream_idle(device, stream)) {
                            match s.stream_sync_outcome(device, stream) {
                                Err(e) => {},
                                Ok(_v) => {
                                    apply_stream_sync_policy_tax_follows(z, s, device, stream);
                                },
                            }
                        }
                    },
                }
            }
        },
    }
}

/// [`Sim::synchronize_event`] continues the history.
pub proof fn synchronize_event_follows(z: SimState, s0: SimState, event: EventId)
    requires
        follows(z, s0),
    ensures
        follows(z, s0.synchronize_event(event).0),
{
    let s = s0;
    if !(!s.events.contains_key(event)) {
        drive_until_follows(z, s, Goal::Event(event));
        match s.drive_until(Goal::Event(event)) {
            (s, Err(e)) => {},
            (s, Ok(_v)) => {
                if !(!s.event_complete(event)) {
                    match s.event_sync_outcome(event) {
                        Err(e) => {},
                        Ok(_v) => {
                            apply_event_sync_policy_tax_follows(z, s, event);
                        },
                    }
                }
            },
        }
    }
}

/// [`Sim::idle_until`] continues the history.
pub proof fn idle_until_follows(z: SimState, s0: SimState, ns: u64)
    requires
        follows(z, s0),
    ensures
        follows(z, s0.idle_until(ns).0),
{
    let s = s0;
    synchronize_follows(z, s);
    match s.synchronize() {
        (s, Err(e)) => {},
        (s, Ok(_v)) => {
            if ns > s.clock {
                let jumped = ns.saturating_sub(s.clock);
                later_follows(z, s, ns);
            }
        },
    }
}

/// [`Sim::destroy_event`] continues the history.
pub proof fn destroy_event_follows(z: SimState, s0: SimState, event: EventId)
    requires
        follows(z, s0),
    ensures
        follows(z, s0.destroy_event(event).0),
{
    let s = s0;
    match s.fail_if_capturing("cannot capture event destroy") {
        Err(e) => {},
        Ok(_v) => match s.event_ref(event) {
            Err(e) => {},
            Ok(ev) => {
                let src = ev.ipc_src;
                if !(ev.ipc_opens > 0) {
                    if s.event_recorded_by(event).is_some() {
                        synchronize_event_follows(z, s, event);
                        match s.synchronize_event(event) {
                            (s, Err(e)) => {},
                            (s, Ok(_v)) => {
                                drop_event_follows(z, s, event, src);
                            },
                        }
                    } else {
                        drop_event_follows(z, s, event, src);
                    }
                }
            },
        },
    }
}

/// [`Sim::drop_event`] continues the history.
pub proof fn drop_event_follows(z: SimState, s0: SimState, event: EventId, src: Option<EventId>)
    requires
        follows(z, s0),
    ensures
        follows(z, s0.drop_event(event, src)),
{
    reveal(SimState::drop_event);
    let s = s0;
    match src {
        Some(from) => {
            event_gone_follows(z, s, event);
            let s = SimState { events: s.events.remove(event), ..s };
            match s.events.get(from) {
                Some(ev) => {
                    let ev = Ev { ipc_opens: ev.ipc_opens.saturating_sub(1), ..ev };
                    event_follows(z, s, from, ev);
                },
                _ => {},
            }
        },
        None => {
            rest_follows(
                z,
                s,
                SimState { ipc_event_handles: without_value(s.ipc_event_handles, event), ..s },
            );
            let s = SimState { ipc_event_handles: without_value(s.ipc_event_handles, event), ..s };
            event_gone_follows(z, s, event);
        },
    }
}

} // verus!
