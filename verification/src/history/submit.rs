//! Histories of the operations in `sim::submit`.
use vstd::prelude::*;
use crate::history::{
    add_op_dep_follows, counted, follows, next_ids_new, op_new_follows, rest_follows,
};
use crate::history::events::{ensure_event_follows, mark_recorded_follows};
use crate::history::shape::{capture_note_follows, record_captured_follows};
use crate::history::timeline::unstarted;
use crate::ids::{AllocId, DeviceId, EventId, Lane, OpId, StreamId};
use crate::laws::frames::{ensure_launch_events_keeps_work, mark_launch_events_keeps_work};
use crate::ops::{GpuOpView, LaunchCompletionEvent, ProgrammaticEvent};
use crate::sim::SimState;
use crate::state::{CaptureView, LaunchCost, NextIds, OpView};

verus! {

/// [`Sim::add_op_deps`] continues the history.
pub proof fn add_op_deps_follows(z: SimState, s0: SimState, id: OpId, deps: Seq<OpId>)
    requires
        follows(z, s0),
        counted(z, s0) ==> unstarted(s0.ops, s0.running, id),
    ensures
        follows(z, s0.add_op_deps(id, deps)),
        counted(z, s0) ==> unstarted(
            s0.add_op_deps(id, deps).ops,
            s0.add_op_deps(id, deps).running,
            id,
        ),
        s0.add_op_deps(id, deps).next == s0.next,
{
    let s = s0;
    add_op_deps_from_follows(z, s, id, deps, 0);
}

/// [`Sim::add_op_deps`] continues the history, from position `i` on.
pub proof fn add_op_deps_from_follows(z: SimState, s0: SimState, id: OpId, deps: Seq<OpId>, i: int)
    requires
        follows(z, s0),
        counted(z, s0) ==> unstarted(s0.ops, s0.running, id),
    ensures
        follows(z, s0.add_op_deps_from(id, deps, i)),
        counted(z, s0) ==> unstarted(
            s0.add_op_deps_from(id, deps, i).ops,
            s0.add_op_deps_from(id, deps, i).running,
            id,
        ),
        s0.add_op_deps_from(id, deps, i).next == s0.next,
    decreases deps.len() - i,
{
    let s = s0;
    if 0 <= i < deps.len() {
        add_op_dep_follows(z, s, id, deps[i]);
        let s = s.add_op_dep(id, deps[i]);
        add_op_deps_from_follows(z, s, id, deps, i + 1);
    }
}

/// [`Sim::ensure_launch_events`] continues the history.
pub proof fn ensure_launch_events_follows(z: SimState, s0: SimState)
    requires
        follows(z, s0),
    ensures
        follows(z, s0.ensure_launch_events()),
{
    let s = s0;
    match s.enq.programmatic_event {
        Some(pe) => {
            ensure_event_follows(z, s, pe.event);
        },
        _ => {},
    }
    let s = match s.enq.programmatic_event {
        Some(pe) => {
            let s = s.ensure_event(pe.event);
            s
        },
        _ => s,
    };
    match s.enq.launch_completion {
        Some(lc) => {
            ensure_event_follows(z, s, lc.event);
        },
        _ => {},
    }
}

/// [`Sim::mark_launch_events`] continues the history.
pub proof fn mark_launch_events_follows(
    z: SimState,
    s0: SimState,
    pde: Option<ProgrammaticEvent>,
    lce: Option<LaunchCompletionEvent>,
    id: OpId,
)
    requires
        follows(z, s0),
    ensures
        follows(z, s0.mark_launch_events(pde, lce, id)),
{
    let s = s0;
    match pde {
        Some(pe) => {
            let root = s.event_root(pe.event);
            mark_recorded_follows(z, s, root, id);
        },
        _ => {},
    }
    let s = match pde {
        Some(pe) => {
            let root = s.event_root(pe.event);
            let s = s.mark_recorded(root, id);
            s
        },
        _ => s,
    };
    match lce {
        Some(lc) => {
            let root = s.event_root(lc.event);
            mark_recorded_follows(z, s, root, id);
        },
        _ => {},
    }
}

/// [`Sim::take_op_id`] continues the history.
pub proof fn take_op_id_follows(z: SimState, s0: SimState)
    requires
        follows(z, s0),
    ensures
        follows(z, s0.take_op_id().0),
{
    let s = s0;
    let id = OpId(s.next.op);
    assert(
        follows(z, SimState { next: NextIds { op: s.next.op.saturating_add(1), ..s.next }, ..s })
    ) by {
        reveal(follows);
    }
}

/// [`Sim::submit_live`] continues the history.
pub proof fn submit_live_follows(
    z: SimState,
    s0: SimState,
    device: DeviceId,
    stream: StreamId,
    kind: GpuOpView,
    launch: LaunchCost,
)
    requires
        follows(z, s0),
    ensures
        follows(z, s0.submit_live(device, stream, kind, launch).0),
        s0.submit_live(device, stream, kind, launch).1 is Ok && counted(z, s0.submit_live(device, stream, kind, launch).0) ==> unstarted(
            s0.submit_live(device, stream, kind, launch).0.ops,
            s0.submit_live(device, stream, kind, launch).0.running,
            s0.submit_live(device, stream, kind, launch).1->Ok_0,
        ),
{
    reveal(SimState::submit_live);
    next_ids_new(z, s0);
    let s = s0;
    match s.profile.gpu(device) {
        Err(e) => {},
        Ok(_gpu) => match s.validate_kernel_launch(device, kind) {
            Err(e) => {},
            Ok(_v) => {
                take_op_id_follows(z, s);
                let (s, id) = s.take_op_id();
                ensure_launch_events_follows(z, s);
                ensure_launch_events_keeps_work(s);
                let s = s.ensure_launch_events();
                let deps = s.submit_deps(device, stream, kind);
                let priority = s.snap_priority(device, stream);
                match s.snap_mem_sync(device, stream, kind) {
                    Err(e) => {},
                    Ok((domain, map)) => {
                        let attrs = s.op_attrs(priority, map.physical(domain));
                        let op = OpView {
                            device,
                            stream,
                            kind,
                            deps,
                            done: false,
                            cancelled: false,
                            launch,
                            submit_ns: s.clock,
                            start_ns: None,
                            done_ns: None,
                            preds: s.enqueue_preds,
                            skipped: false,
                            attrs,
                            pdl_trigger_ns: None,
                            domain_fence_paid: false,
                        };
                        op_new_follows(z, s, id, op);
                        let s = SimState { ops: s.ops.insert(id, op), ..s };
                        mark_launch_events_follows(
                            z,
                            s,
                            attrs.programmatic_event,
                            attrs.launch_completion,
                            id,
                        );
                        mark_launch_events_keeps_work(
                            s,
                            attrs.programmatic_event,
                            attrs.launch_completion,
                            id,
                        );
                        let s = s.mark_launch_events(
                            attrs.programmatic_event,
                            attrs.launch_completion,
                            id,
                        );
                        rest_follows(
                            z,
                            s,
                            SimState { tail: s.tail.insert(Lane(device, stream), id), ..s },
                        );
                    },
                }
            },
        },
    }
}

/// [`Sim::capture_event`] continues the history.
pub proof fn capture_event_follows(z: SimState, s0: SimState, event: EventId)
    requires
        follows(z, s0),
    ensures
        follows(z, s0.capture_event(event)),
{
    let s = s0;
    let root = s.event_root(event);
    match s.capturing {
        Some(cap) => {
            let cap = CaptureView { events: cap.events.insert(root), ..cap };
            capture_note_follows(z, s, cap);
        },
        _ => {},
    }
}

/// [`Sim::capture_fork`] continues the history.
pub proof fn capture_fork_follows(
    z: SimState,
    s0: SimState,
    device: DeviceId,
    stream: StreamId,
    kind: GpuOpView,
)
    requires
        follows(z, s0),
    ensures
        follows(z, s0.capture_fork(device, stream, kind).0),
{
    reveal(SimState::capture_fork);
    let s = s0;
    match kind {
        GpuOpView::EventWait { event, external } => {
            let root = s.event_root(event);
            let (join, same) = match s.capturing {
                Some(c) => (!external && c.events.contains(root), c.origin.0 == device),
                None => (false, false),
            };
            if join && !s.in_capture(device, stream) {
                if !(!same) {
                    if !(!s.stream_idle(device, stream)) {
                        match s.capturing {
                            Some(cap) => {
                                let cap = CaptureView {
                                    streams: cap.streams.insert(Lane(device, stream)),
                                    ..cap
                                };
                                capture_note_follows(z, s, cap);
                            },
                            _ => {},
                        }
                    }
                }
            }
        },
        _ => {},
    }
}

/// [`Sim::capture_events`] continues the history.
pub proof fn capture_events_follows(z: SimState, s0: SimState, kind: GpuOpView)
    requires
        follows(z, s0),
    ensures
        follows(z, s0.capture_events(kind)),
{
    reveal(SimState::capture_events);
    let s = s0;
    match kind {
        GpuOpView::EventRecord { event, external } => {
            if !external {
                capture_event_follows(z, s, event);
            }
        },
        _ => {},
    }
    let s = match kind {
        GpuOpView::EventRecord { event, external } => {
            let s = if !external {
                let s = s.capture_event(event);
                s
            } else {
                s
            };
            s
        },
        _ => s,
    };
    match s.enq.programmatic_event {
        Some(pe) => {
            ensure_event_follows(z, s, pe.event);
            let s = s.ensure_event(pe.event);
            if !pe.external {
                capture_event_follows(z, s, pe.event);
            }
        },
        _ => {},
    }
    let s = match s.enq.programmatic_event {
        Some(pe) => {
            let s = s.ensure_event(pe.event);
            let s = if !pe.external {
                let s = s.capture_event(pe.event);
                s
            } else {
                s
            };
            s
        },
        _ => s,
    };
    match s.enq.launch_completion {
        Some(lc) => {
            ensure_event_follows(z, s, lc.event);
            let s = s.ensure_event(lc.event);
            if !lc.external {
                capture_event_follows(z, s, lc.event);
            }
        },
        _ => {},
    }
}

/// [`Sim::take_pending`] continues the history.
pub proof fn take_pending_follows(z: SimState, s0: SimState, device: DeviceId, stream: StreamId)
    requires
        follows(z, s0),
    ensures
        follows(z, s0.take_pending(device, stream).0),
{
    let s = s0;
    match s.capturing {
        Some(cap) => {
            let taken = cap.pending.get(Lane(device, stream));
            let cap = CaptureView { pending: cap.pending.remove(Lane(device, stream)), ..cap };
            capture_note_follows(z, s, cap);
        },
        _ => {},
    }
}

/// [`Sim::submit_captured`] continues the history.
pub proof fn submit_captured_follows(
    z: SimState,
    s0: SimState,
    device: DeviceId,
    stream: StreamId,
    kind: GpuOpView,
)
    requires
        follows(z, s0),
    ensures
        follows(z, s0.submit_captured(device, stream, kind).0),
        s0.submit_captured(device, stream, kind).1 is Ok && counted(z, s0.submit_captured(device, stream, kind).0) ==> unstarted(
            s0.submit_captured(device, stream, kind).0.ops,
            s0.submit_captured(device, stream, kind).0.running,
            s0.submit_captured(device, stream, kind).1->Ok_0,
        ),
{
    reveal(SimState::submit_captured);
    let s = s0;
    capture_fork_follows(z, s, device, stream, kind);
    match s.capture_fork(device, stream, kind) {
        (s, Err(e)) => {},
        (s, Ok(_v)) => if !s.in_capture(device, stream) {
            let live = (match s.capturing { Some(c) => c.mode.live_uncaptured(), None => false, });
            if live {
                submit_live_follows(z, s, device, stream, kind, LaunchCost::Kernel);
            }
        } else {
            record_captured_follows(z, s, device, stream, kind);
        },
    }
}

/// [`Sim::submit_launch`] continues the history.
pub proof fn submit_launch_follows(
    z: SimState,
    s0: SimState,
    device: DeviceId,
    stream: StreamId,
    kind: GpuOpView,
    launch: LaunchCost,
)
    requires
        follows(z, s0),
    ensures
        follows(z, s0.submit_launch(device, stream, kind, launch).0),
        s0.submit_launch(device, stream, kind, launch).1 is Ok && counted(z, s0.submit_launch(device, stream, kind, launch).0) ==> unstarted(
            s0.submit_launch(device, stream, kind, launch).0.ops,
            s0.submit_launch(device, stream, kind, launch).0.running,
            s0.submit_launch(device, stream, kind, launch).1->Ok_0,
        ),
{
    let s = s0;
    if !(s.unavailable.contains(device)) {
        if s.capturing.is_some() {
            submit_captured_follows(z, s, device, stream, kind);
        } else {
            submit_live_follows(z, s, device, stream, kind, launch);
        }
    }
}

/// [`Sim::submit`] continues the history.
pub proof fn submit_follows(
    z: SimState,
    s0: SimState,
    device: DeviceId,
    stream: StreamId,
    kind: GpuOpView,
)
    requires
        follows(z, s0),
    ensures
        follows(z, s0.submit(device, stream, kind).0),
{
    let s = s0;
    submit_launch_follows(z, s, device, stream, kind, LaunchCost::Kernel);
}

/// [`Sim::allreduce`] continues the history.
pub proof fn allreduce_follows(
    z: SimState,
    s0: SimState,
    parts: Seq<(DeviceId, AllocId)>,
    bytes: u64,
    stream: StreamId,
)
    requires
        follows(z, s0),
    ensures
        follows(z, s0.allreduce(parts, bytes, stream).0),
{
    let s = s0;
    if !(parts.len() < 2) {
        let device = parts[0].0;
        submit_follows(z, s, device, stream, GpuOpView::AllReduce { parts, bytes });
    }
}

} // verus!
