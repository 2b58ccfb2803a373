//! Histories of the operations in `sim::start`.
use vstd::prelude::*;
use crate::history::{
    able_is_idle, add_op_dep_follows, alloc_follows, counted, follows, gpu_follows, known_is_older,
    next_ids_new, op_end_follows, op_new_follows, op_note_follows, replica_keeps_engines,
    reserve_hbm_follows, rest_follows, run_follows, touched,
};
use crate::history::charge::{
    charge_replica_hbm_follows, clear_mailbox_follows, drop_ipc_import_follows,
    drop_share_import_follows, migrate_off_except_follows, pool_acquire_follows,
    refund_device_follows,
};
use crate::history::events::mark_recorded_follows;
use crate::history::streams::{
    drop_compute_follows, drop_compute_n_follows, take_compute_follows, take_compute_n_follows,
};
use crate::history::submit::take_op_id_follows;
use crate::history::timeline::{able, in_flight};
use crate::ids::{AllocId, CondId, DeviceId, EventId, OpId, StreamId};
use crate::laws::frames::{
    bill_kernel_keeps_work, bill_memset_keeps_work, charge_replica_hbm_keeps_work,
    drop_compute_keeps_work, drop_compute_n_keeps_work, drop_copy_keeps_work,
    drop_ipc_import_keeps_work, drop_share_import_keeps_work, lease_parts_keeps_work,
    mark_recorded_keeps_work, pool_acquire_keeps_work, reserve_hbm_keeps_work,
    take_compute_keeps_work, take_compute_n_keeps_work,
};
use crate::list::without;
use crate::num::{max_u64, min_u16, min_u64, mul_sat};
use crate::ops::{
    AccessPolicyWindow, AccessProperty, BatchMemOp, GpuOpView, KernelBuf, KernelKind, MemcpyOp,
    MemsetOp, Place,
};
use crate::persist::{lines_filled, lines_overlap, lines_used, persist_discount};
use crate::sim::SimState;
use crate::spans::kernel_span;
use crate::state::{AllocView, Cond, GpuRtView, LaunchCost, OpView, Running, Share};
use crate::table::order_of;

verus! {

/// [`Sim::run_solo`] continues the history.
pub proof fn run_solo_follows(z: SimState, s0: SimState, op: OpId, ns: u64)
    requires
        follows(z, s0),
        counted(z, s0) ==> able(s0.ops, s0.running, op),
    ensures
        follows(z, s0.run_solo(op, ns)),
        touched(z, s0, op) ==> touched(z, s0.run_solo(op, ns), op),
{
    let s = s0;
    run_follows(z, s, Running { op, remaining_ns: max_u64(ns, 1), share: Share::Solo });
}

/// [`Sim::inject_fault_memcpy`] continues the history.
pub proof fn inject_fault_memcpy_follows(
    z: SimState,
    s0: SimState,
    kernel: OpId,
    device: DeviceId,
    alloc: AllocId,
    deps: Seq<OpId>,
)
    requires
        follows(z, s0),
        counted(z, s0) ==> !in_flight(s0.running, kernel),
    ensures
        follows(z, s0.inject_fault_memcpy(kernel, device, alloc, deps).0),
        touched(z, s0, kernel) ==> touched(
            z,
            s0.inject_fault_memcpy(kernel, device, alloc, deps).0,
            kernel,
        ),
        s0.inject_fault_memcpy(kernel, device, alloc, deps).0.running == s0.running,
        s0.next.op <= s0.inject_fault_memcpy(kernel, device, alloc, deps).0.next.op,
{
    reveal(SimState::inject_fault_memcpy);
    next_ids_new(z, s0);
    known_is_older(z, s0, kernel);
    let s = s0;
    match s.op_ref(kernel) {
        Err(e) => {},
        Ok(row) => {
            let stream = row.stream;
            let priority = row.attrs.priority;
            match s.managed_move_src(alloc, Some(device)) {
                Err(e) => {},
                Ok((bytes, src)) => {
                    let attrs = s.fault_attrs(priority);
                    take_op_id_follows(z, s);
                    let (s, id) = s.take_op_id();
                    let op = OpView {
                        device,
                        stream,
                        kind: GpuOpView::Memcpy(
                            MemcpyOp::packed_1d(src, Place::Device(device), alloc, bytes),
                        ),
                        deps,
                        done: false,
                        cancelled: false,
                        launch: LaunchCost::Kernel,
                        submit_ns: s.clock,
                        start_ns: None,
                        done_ns: None,
                        preds: Seq::empty(),
                        skipped: false,
                        attrs,
                        pdl_trigger_ns: None,
                        domain_fence_paid: false,
                    };
                    op_new_follows(z, s, id, op);
                    let s = SimState { ops: s.ops.insert(id, op), ..s };
                    add_op_dep_follows(z, s, kernel, id);
                },
            }
        },
    }
}

/// [`Sim::inject_faults`] continues the history.
pub proof fn inject_faults_follows(
    z: SimState,
    s0: SimState,
    kernel: OpId,
    device: DeviceId,
    wait: Seq<AllocId>,
    deps: Seq<OpId>,
)
    requires
        follows(z, s0),
        counted(z, s0) ==> !in_flight(s0.running, kernel),
    ensures
        follows(z, s0.inject_faults(kernel, device, wait, deps).0),
        touched(z, s0, kernel) ==> touched(
            z,
            s0.inject_faults(kernel, device, wait, deps).0,
            kernel,
        ),
        s0.inject_faults(kernel, device, wait, deps).0.running == s0.running,
        s0.next.op <= s0.inject_faults(kernel, device, wait, deps).0.next.op,
{
    let s = s0;
    inject_faults_from_follows(z, s, kernel, device, wait, deps, 0);
}

/// [`Sim::inject_faults`] continues the history, from position `i` on.
pub proof fn inject_faults_from_follows(
    z: SimState,
    s0: SimState,
    kernel: OpId,
    device: DeviceId,
    wait: Seq<AllocId>,
    deps: Seq<OpId>,
    i: int,
)
    requires
        follows(z, s0),
        counted(z, s0) ==> !in_flight(s0.running, kernel),
    ensures
        follows(z, s0.inject_faults_from(kernel, device, wait, deps, i).0),
        touched(z, s0, kernel) ==> touched(
            z,
            s0.inject_faults_from(kernel, device, wait, deps, i).0,
            kernel,
        ),
        s0.inject_faults_from(kernel, device, wait, deps, i).0.running == s0.running,
        s0.next.op <= s0.inject_faults_from(kernel, device, wait, deps, i).0.next.op,
    decreases wait.len() - i,
{
    let s = s0;
    if 0 <= i < wait.len() {
        inject_fault_memcpy_follows(z, s, kernel, device, wait[i], deps);
        match s.inject_fault_memcpy(kernel, device, wait[i], deps) {
            (s, Err(e)) => {},
            (s, Ok(_v)) => {
                inject_faults_from_follows(z, s, kernel, device, wait, deps, i + 1);
            },
        }
    }
}

/// [`Sim::inject_managed_faults`] continues the history.
pub proof fn inject_managed_faults_follows(
    z: SimState,
    s0: SimState,
    kernel: OpId,
    device: DeviceId,
    reads: Seq<KernelBuf>,
    writes: Seq<KernelBuf>,
)
    requires
        follows(z, s0),
        counted(z, s0) ==> !in_flight(s0.running, kernel),
    ensures
        follows(z, s0.inject_managed_faults(kernel, device, reads, writes).0),
        touched(z, s0, kernel) ==> touched(
            z,
            s0.inject_managed_faults(kernel, device, reads, writes).0,
            kernel,
        ),
        s0.inject_managed_faults(kernel, device, reads, writes).0.running == s0.running,
        s0.next.op <= s0.inject_managed_faults(kernel, device, reads, writes).0.next.op,
{
    let s = s0;
    match s.managed_fault_ids(device, reads, writes) {
        Err(e) => {},
        Ok(wait) => {
            if !(wait.len() == 0) {
                match s.op_ref(kernel) {
                    Err(e) => {},
                    Ok(row) => {
                        let deps = row.deps;
                        inject_faults_follows(z, s, kernel, device, wait, deps);
                    },
                }
            }
        },
    }
}

/// [`Sim::lease_bufs`] continues the history.
pub proof fn lease_bufs_follows(z: SimState, s0: SimState, bufs: Seq<KernelBuf>)
    requires
        follows(z, s0),
    ensures
        follows(z, s0.lease_bufs(bufs).0),
{
    let s = s0;
    lease_bufs_from_follows(z, s, bufs, 0);
}

/// [`Sim::lease_bufs`] continues the history, from position `i` on.
pub proof fn lease_bufs_from_follows(z: SimState, s0: SimState, bufs: Seq<KernelBuf>, i: int)
    requires
        follows(z, s0),
    ensures
        follows(z, s0.lease_bufs_from(bufs, i).0),
    decreases bufs.len() - i,
{
    let s = s0;
    if 0 <= i < bufs.len() {
        match s.alloc_ref(bufs[i].id) {
            Err(e) => {},
            Ok(a) => {
                let a = AllocView { leases: a.leases.saturating_add(1), ..a };
                alloc_follows(z, s, bufs[i].id, a);
                let s = SimState { allocs: s.allocs.insert(bufs[i].id, a), ..s };
                lease_bufs_from_follows(z, s, bufs, i + 1);
            },
        }
    }
}

/// [`Sim::lease_kernel`] continues the history.
pub proof fn lease_kernel_follows(
    z: SimState,
    s0: SimState,
    device: DeviceId,
    reads: Seq<KernelBuf>,
    writes: Seq<KernelBuf>,
    mapped_ok: bool,
)
    requires
        follows(z, s0),
    ensures
        follows(z, s0.lease_kernel(device, reads, writes, mapped_ok).0),
{
    let s = s0;
    match s.require_bufs_on_device(device, reads, mapped_ok, true) {
        Err(e) => {},
        Ok(_v) => match s.require_bufs_on_device(device, writes, mapped_ok, false) {
            Err(e) => {},
            Ok(_v) => {
                lease_bufs_follows(z, s, reads);
                match s.lease_bufs(reads) {
                    (s, Err(e)) => {},
                    (s, Ok(_v)) => {
                        lease_bufs_follows(z, s, writes);
                    },
                }
            },
        },
    }
}

/// [`Sim::migrate_each`] continues the history.
pub proof fn migrate_each_follows(z: SimState, s0: SimState, ids: Seq<AllocId>, keep: DeviceId)
    requires
        follows(z, s0),
    ensures
        follows(z, s0.migrate_each(ids, keep).0),
{
    let s = s0;
    migrate_each_from_follows(z, s, ids, keep, 0);
}

/// [`Sim::migrate_each`] continues the history, from position `i` on.
pub proof fn migrate_each_from_follows(
    z: SimState,
    s0: SimState,
    ids: Seq<AllocId>,
    keep: DeviceId,
    i: int,
)
    requires
        follows(z, s0),
    ensures
        follows(z, s0.migrate_each_from(ids, keep, i).0),
    decreases ids.len() - i,
{
    let s = s0;
    if 0 <= i < ids.len() {
        migrate_off_except_follows(z, s, ids[i], keep);
        match s.migrate_off_except(ids[i], keep) {
            (s, Err(e)) => {},
            (s, Ok(_v)) => {
                migrate_each_from_follows(z, s, ids, keep, i + 1);
            },
        }
    }
}

/// [`Sim::invalidate_read_mostly_writes`] continues the history.
pub proof fn invalidate_read_mostly_writes_follows(
    z: SimState,
    s0: SimState,
    device: DeviceId,
    writes: Seq<KernelBuf>,
)
    requires
        follows(z, s0),
    ensures
        follows(z, s0.invalidate_read_mostly_writes(device, writes).0),
{
    let s = s0;
    match s.replicated_writes(writes) {
        Err(e) => {},
        Ok(ids) => {
            let list = order_of(ids);
            migrate_each_follows(z, s, list, device);
        },
    }
}

/// [`Sim::persist_kernel_bytes`] continues the history.
pub proof fn persist_kernel_bytes_follows(
    z: SimState,
    s0: SimState,
    device: DeviceId,
    window: Option<AccessPolicyWindow>,
    kind: KernelKind,
    bufs: Seq<KernelBuf>,
)
    requires
        follows(z, s0),
    ensures
        follows(z, s0.persist_kernel_bytes(device, window, kind, bufs).0),
{
    reveal(SimState::persist_kernel_bytes);
    let s = s0;
    let kind_bytes = kind.traffic();
    match window {
        None => {},
        Some(w) => match s.validate_access_policy_window(device, w) {
            Err(e) => {},
            Ok(_v) => {
                if !(w.hit != AccessProperty::Persisting) {
                    match s.profile.gpu(device) {
                        Err(e) => {},
                        Ok(gpu) => {
                            let persist_hit = min_u16(gpu.l2_persist_hit_permille, 1000)as u64;
                            match s.alloc_ref(w.buf.id) {
                                Err(e) => {},
                                Ok(a) => match kernel_span(a.bytes, w.buf) {
                                    Err(e) => {},
                                    Ok((off, n)) => match s.kernel_touch_spans(bufs) {
                                        Err(e) => {},
                                        Ok(touch) => {
                                            let overlap = lines_overlap(touch, w.buf.id, off, n);
                                            if !(overlap == 0) {
                                                match s.gpu_rt(device) {
                                                    Err(e) => {},
                                                    Ok(rt0) => {
                                                        let limit = rt0.persist_limit;
                                                        if !(limit == 0) {
                                                            let want = mul_sat(
                                                                overlap,
                                                                min_u16(
                                                                    w.hit_ratio_permille,
                                                                    1000,
                                                                )as u64,
                                                            ) / 1000;
                                                            let cap = min_u64(want, limit);
                                                            let cached = min_u64(
                                                                lines_overlap(
                                                                    rt0.persist_lines,
                                                                    w.buf.id,
                                                                    off,
                                                                    n,
                                                                ),
                                                                overlap,
                                                            );
                                                            let billed = persist_discount(
                                                                kind_bytes,
                                                                min_u64(cached, cap),
                                                                lines_used(touch),
                                                                persist_hit,
                                                            );
                                                            match s.gpu_rt(device) {
                                                                Err(e) => {},
                                                                Ok(rt) => {
                                                                    let rt = GpuRtView {
                                                                        persist_lines: lines_filled(
                                                                            rt.persist_lines,
                                                                            limit,
                                                                            w.buf.id,
                                                                            off,
                                                                            cap,
                                                                        ),
                                                                        ..rt
                                                                    };
                                                                    gpu_follows(z, s, device, rt);
                                                                },
                                                            }
                                                        }
                                                    },
                                                }
                                            }
                                        },
                                    },
                                },
                            }
                        },
                    }
                }
            },
        },
    }
}

/// [`Sim::bill_kernel`] continues the history.
pub proof fn bill_kernel_follows(
    z: SimState,
    s0: SimState,
    id: OpId,
    device: DeviceId,
    stream: StreamId,
    launch: LaunchCost,
    kind: KernelKind,
    reads: Seq<KernelBuf>,
    writes: Seq<KernelBuf>,
    mem_bps: u64,
)
    requires
        follows(z, s0),
    ensures
        follows(z, s0.bill_kernel(id, device, stream, launch, kind, reads, writes, mem_bps).0),
{
    reveal(SimState::bill_kernel);
    let s = s0;
    lease_kernel_follows(z, s, device, reads, writes, true);
    match s.lease_kernel(device, reads, writes, true) {
        (s, Err(e)) => {},
        (s, Ok(_v)) => {
            invalidate_read_mostly_writes_follows(z, s, device, writes);
            match s.invalidate_read_mostly_writes(device, writes) {
                (s, Err(e)) => {},
                (s, Ok(_v)) => match s.op_ref(id) {
                    Err(e) => {},
                    Ok(row) => {
                        let window = row.attrs.access_policy;
                        let shared_mem = row.attrs.shared_mem;
                        let bufs = (reads + writes);
                        persist_kernel_bytes_follows(z, s, device, window, kind, bufs);
                    },
                },
            }
        },
    }
}

/// [`Sim::start_kernel`] continues the history.
#[verifier::rlimit(60)]
pub proof fn start_kernel_follows(
    z: SimState,
    s0: SimState,
    id: OpId,
    device: DeviceId,
    stream: StreamId,
    launch: LaunchCost,
    kind: KernelKind,
    reads: Seq<KernelBuf>,
    writes: Seq<KernelBuf>,
)
    requires
        follows(z, s0),
        counted(z, s0) ==> able(s0.ops, s0.running, id),
    ensures
        follows(z, s0.start_kernel(id, device, stream, launch, kind, reads, writes).0),
        touched(z, s0, id) ==> touched(
            z,
            s0.start_kernel(id, device, stream, launch, kind, reads, writes).0,
            id,
        ),
{
    reveal(SimState::start_kernel);
    able_is_idle(s0.ops, s0.running, id);
    let s = s0;
    match s.require_bufs_attached(stream, reads) {
        Err(e) => {},
        Ok(_v) => match s.require_bufs_attached(stream, writes) {
            Err(e) => {},
            Ok(_v) => if launch == LaunchCost::Kernel {
                inject_managed_faults_follows(z, s, id, device, reads, writes);
                match s.inject_managed_faults(id, device, reads, writes) {
                    (s, Err(e)) => {},
                    (s, Ok(fetched)) => {
                        if !(fetched) {
                            match s.slots_of(id) {
                                Err(e) => {},
                                Ok(slots) => {
                                    take_compute_n_follows(z, s, device, slots);
                                    take_compute_n_keeps_work(s, device, slots);
                                    match s.take_compute_n(device, slots) {
                                        (s, Err(e)) => {},
                                        (s, Ok(free)) => {
                                            if !(!free) {
                                                let bufs = (reads + writes);
                                                match s.kernel_mem_bps(device, bufs) {
                                                    Err(e) => {},
                                                    Ok(mem_bps) => {
                                                        bill_kernel_follows(
                                                            z,
                                                            s,
                                                            id,
                                                            device,
                                                            stream,
                                                            launch,
                                                            kind,
                                                            reads,
                                                            writes,
                                                            mem_bps,
                                                        );
                                                        bill_kernel_keeps_work(
                                                            s,
                                                            id,
                                                            device,
                                                            stream,
                                                            launch,
                                                            kind,
                                                            reads,
                                                            writes,
                                                            mem_bps,
                                                        );
                                                        let (s, v1) = s.bill_kernel(
                                                            id,
                                                            device,
                                                            stream,
                                                            launch,
                                                            kind,
                                                            reads,
                                                            writes,
                                                            mem_bps,
                                                        );
                                                        match v1 {
                                                            Err(e) => {
                                                                drop_compute_n_follows(
                                                                    z,
                                                                    s,
                                                                    device,
                                                                    slots,
                                                                );
                                                                drop_compute_n_keeps_work(
                                                                    s,
                                                                    device,
                                                                    slots,
                                                                );
                                                            },
                                                            Ok(ns) => {
                                                                run_solo_follows(z, s, id, ns);
                                                                let s = s.run_solo(id, ns);
                                                                match s.op_ref(id) {
                                                                    Err(e) => {},
                                                                    Ok(row) => {
                                                                        if row.attrs.pdl.trigger {
                                                                            let at = s.trigger_at(device, ns);
                                                                            match s.op_ref(id) {
                                                                                Err(e) => {},
                                                                                Ok(o) => {
                                                                                    op_note_follows(
                                                                                        z,
                                                                                        s,
                                                                                        id,
                                                                                        OpView {
                                                                                            pdl_trigger_ns: Some(at),
                                                                                            ..o
                                                                                        },
                                                                                    );
                                                                                },
                                                                            }
                                                                        }
                                                                    },
                                                                }
                                                            },
                                                        }
                                                    },
                                                }
                                            }
                                        },
                                    }
                                },
                            }
                        }
                    },
                }
            } else {
                match s.slots_of(id) {
                    Err(e) => {},
                    Ok(slots) => {
                        take_compute_n_follows(z, s, device, slots);
                        take_compute_n_keeps_work(s, device, slots);
                        match s.take_compute_n(device, slots) {
                            (s, Err(e)) => {},
                            (s, Ok(free)) => {
                                if !(!free) {
                                    let bufs = (reads + writes);
                                    match s.kernel_mem_bps(device, bufs) {
                                        Err(e) => {},
                                        Ok(mem_bps) => {
                                            bill_kernel_follows(
                                                z,
                                                s,
                                                id,
                                                device,
                                                stream,
                                                launch,
                                                kind,
                                                reads,
                                                writes,
                                                mem_bps,
                                            );
                                            bill_kernel_keeps_work(
                                                s,
                                                id,
                                                device,
                                                stream,
                                                launch,
                                                kind,
                                                reads,
                                                writes,
                                                mem_bps,
                                            );
                                            let (s, v2) = s.bill_kernel(
                                                id,
                                                device,
                                                stream,
                                                launch,
                                                kind,
                                                reads,
                                                writes,
                                                mem_bps,
                                            );
                                            match v2 {
                                                Err(e) => {
                                                    drop_compute_n_follows(z, s, device, slots);
                                                    drop_compute_n_keeps_work(s, device, slots);
                                                },
                                                Ok(ns) => {
                                                    run_solo_follows(z, s, id, ns);
                                                    let s = s.run_solo(id, ns);
                                                    match s.op_ref(id) {
                                                        Err(e) => {},
                                                        Ok(row) => {
                                                            if row.attrs.pdl.trigger {
                                                                let at = s.trigger_at(device, ns);
                                                                match s.op_ref(id) {
                                                                    Err(e) => {},
                                                                    Ok(o) => {
                                                                        op_note_follows(
                                                                            z,
                                                                            s,
                                                                            id,
                                                                            OpView {
                                                                                pdl_trigger_ns: Some(at),
                                                                                ..o
                                                                            },
                                                                        );
                                                                    },
                                                                }
                                                            }
                                                        },
                                                    }
                                                },
                                            }
                                        },
                                    }
                                }
                            },
                        }
                    },
                }
            },
        },
    }
}

/// [`Sim::bill_memset`] continues the history.
pub proof fn bill_memset_follows(
    z: SimState,
    s0: SimState,
    device: DeviceId,
    launch: LaunchCost,
    op: MemsetOp,
)
    requires
        follows(z, s0),
    ensures
        follows(z, s0.bill_memset(device, launch, op).0),
{
    reveal(SimState::bill_memset);
    let s = s0;
    let none = Seq::empty();
    let writes = seq![KernelBuf::span(op.id, op.offset, op.extent_bytes())];
    lease_kernel_follows(z, s, device, none, writes, false);
    match s.lease_kernel(device, none, writes, false) {
        (s, Err(e)) => {},
        (s, Ok(_v)) => {
            invalidate_read_mostly_writes_follows(z, s, device, writes);
        },
    }
}

/// [`Sim::start_memset`] continues the history.
pub proof fn start_memset_follows(
    z: SimState,
    s0: SimState,
    id: OpId,
    device: DeviceId,
    stream: StreamId,
    launch: LaunchCost,
    op: MemsetOp,
)
    requires
        follows(z, s0),
        counted(z, s0) ==> able(s0.ops, s0.running, id),
    ensures
        follows(z, s0.start_memset(id, device, stream, launch, op).0),
        touched(z, s0, id) ==> touched(z, s0.start_memset(id, device, stream, launch, op).0, id),
{
    let s = s0;
    match s.require_device_attach(op.id, stream) {
        Err(e) => {},
        Ok(_v) => {
            take_compute_follows(z, s, device);
            take_compute_keeps_work(s, device);
            match s.take_compute(device) {
                (s, Err(e)) => {},
                (s, Ok(free)) => {
                    if !(!free) {
                        bill_memset_follows(z, s, device, launch, op);
                        bill_memset_keeps_work(s, device, launch, op);
                        let (s, v1) = s.bill_memset(device, launch, op);
                        match v1 {
                            Err(e) => {
                                drop_compute_follows(z, s, device);
                                drop_compute_keeps_work(s, device);
                            },
                            Ok(ns) => {
                                run_solo_follows(z, s, id, ns);
                            },
                        }
                    }
                },
            }
        },
    }
}

/// [`Sim::start_alloc`] continues the history.
pub proof fn start_alloc_follows(
    z: SimState,
    s0: SimState,
    op: OpId,
    device: DeviceId,
    alloc: AllocId,
    bytes: u64,
)
    requires
        follows(z, s0),
        counted(z, s0) ==> able(s0.ops, s0.running, op),
    ensures
        follows(z, s0.start_alloc(op, device, alloc, bytes).0),
        touched(z, s0, op) ==> touched(z, s0.start_alloc(op, device, alloc, bytes).0, op),
{
    reveal(SimState::start_alloc);
    let s = s0;
    match s.alloc_ref(alloc) {
        Err(e) => {},
        Ok(a) => {
            let pool = a.pool;
            let already = a.live && a.devices.contains(device);
            let gpu = s.profile.gpu(device);
            match pool {
                Some(p) => if already {
                    match gpu {
                        Err(e) => {},
                        Ok(g) => {
                            let ns = g.pool_reuse_ns;
                            run_solo_follows(z, s, op, ns);
                        },
                    }
                } else {
                    match s.pool_ref(p) {
                        Err(e) => {},
                        Ok(owner) => {
                            if !(owner.device != device) {
                                pool_acquire_follows(z, s, p, bytes);
                                pool_acquire_keeps_work(s, p, bytes);
                                match s.pool_acquire(p, bytes) {
                                    (s, Err(e)) => {},
                                    (s, Ok(ns)) => {
                                        run_solo_follows(z, s, op, ns);
                                    },
                                }
                            }
                        },
                    }
                },
                None => if already {
                    let ns = 1;
                    run_solo_follows(z, s, op, ns);
                } else {
                    reserve_hbm_follows(z, s, device, bytes);
                    reserve_hbm_keeps_work(s, device, bytes);
                    match s.reserve_hbm(device, bytes) {
                        (s, Err(e)) => {},
                        (s, Ok(_v)) => match gpu {
                            Err(e) => {},
                            Ok(g) => {
                                let ns = g.alloc_overhead_ns;
                                run_solo_follows(z, s, op, ns);
                            },
                        },
                    }
                },
            }
        },
    }
}

/// [`Sim::drop_copy`] continues the history.
pub proof fn drop_copy_follows(
    z: SimState,
    s0: SimState,
    device: DeviceId,
    alloc: AllocId,
    bytes: u64,
)
    requires
        follows(z, s0),
    ensures
        follows(z, s0.drop_copy(device, alloc, bytes).0),
{
    reveal(SimState::drop_copy);
    let s = s0;
    refund_device_follows(z, s, device, alloc, bytes);
    match s.refund_device(device, alloc, bytes) {
        (s, Err(e)) => {},
        (s, Ok(_v)) => match s.alloc_ref(alloc) {
            Err(e) => {},
            Ok(a) => {
                let a = AllocView { devices: without(a.devices, device), ..a };
                let gone = a.devices.len() == 0 && !a.host_pinned;
                let a = AllocView { live: a.live && !gone, ..a };
                alloc_follows(z, s, alloc, a);
                let s = SimState { allocs: s.allocs.insert(alloc, a), ..s };
                if gone {
                    clear_mailbox_follows(z, s, alloc);
                }
            },
        },
    }
}

/// [`Sim::start_free`] continues the history.
pub proof fn start_free_follows(
    z: SimState,
    s0: SimState,
    op: OpId,
    device: DeviceId,
    alloc: AllocId,
)
    requires
        follows(z, s0),
        counted(z, s0) ==> able(s0.ops, s0.running, op),
    ensures
        follows(z, s0.start_free(op, device, alloc).0),
        touched(z, s0, op) ==> touched(z, s0.start_free(op, device, alloc).0, op),
{
    reveal(SimState::start_free);
    let s = s0;
    match s.alloc_ref(alloc) {
        Err(e) => {},
        Ok(a) => {
            let bytes = a.bytes;
            if !(a.leases > 0) {
                if a.ipc_src.is_some() {
                    drop_ipc_import_follows(z, s, alloc);
                    drop_ipc_import_keeps_work(s, alloc);
                    match s.drop_ipc_import(alloc) {
                        (s, Err(e)) => {},
                        (s, Ok(_v)) => {
                            run_solo_follows(z, s, op, 1);
                        },
                    }
                } else if a.share_src.is_some() {
                    drop_share_import_follows(z, s, alloc);
                    drop_share_import_keeps_work(s, alloc);
                    match s.drop_share_import(alloc) {
                        (s, Err(e)) => {},
                        (s, Ok(_v)) => {
                            run_solo_follows(z, s, op, 1);
                        },
                    }
                } else if !(a.ipc_opens > 0) {
                    if !(a.share_opens > 0) {
                        if !(!a.live || !a.devices.contains(device)) {
                            drop_copy_follows(z, s, device, alloc, bytes);
                            drop_copy_keeps_work(s, device, alloc, bytes);
                            match s.drop_copy(device, alloc, bytes) {
                                (s, Err(e)) => {},
                                (s, Ok(_v)) => {
                                    run_solo_follows(z, s, op, 1);
                                },
                            }
                        }
                    }
                }
            }
        },
    }
}

/// [`Sim::fail_transfer`] continues the history.
pub proof fn fail_transfer_follows(z: SimState, s0: SimState, id: OpId)
    requires
        follows(z, s0),
        counted(z, s0) ==> able(s0.ops, s0.running, id),
    ensures
        follows(z, s0.fail_transfer(id)),
        touched(z, s0, id) ==> touched(z, s0.fail_transfer(id), id),
{
    able_is_idle(s0.ops, s0.running, id);
    let s = s0;
    rest_follows(z, s, SimState { fail_next_memcpy: false, ..s });
    let s = SimState { fail_next_memcpy: false, ..s };
    let now = s.clock;
    match s.ops.get(id) {
        Some(op) => {
            let op = OpView { cancelled: true, done: true, done_ns: Some(now), ..op };
            op_end_follows(z, s, id, op);
        },
        _ => {},
    }
}

/// [`Sim::start_memcpy`] continues the history.
pub proof fn start_memcpy_follows(
    z: SimState,
    s0: SimState,
    id: OpId,
    device: DeviceId,
    stream: StreamId,
    launch: LaunchCost,
    m: MemcpyOp,
)
    requires
        follows(z, s0),
        counted(z, s0) ==> able(s0.ops, s0.running, id),
    ensures
        follows(z, s0.start_memcpy(id, device, stream, launch, m).0),
        touched(z, s0, id) ==> touched(z, s0.start_memcpy(id, device, stream, launch, m).0, id),
{
    reveal(SimState::start_memcpy);
    let s = s0;
    if s.fail_next_memcpy {
        fail_transfer_follows(z, s, id);
    } else {
        match s.require_memcpy_attach(stream, m) {
            Err(e) => {},
            Ok(_v) => match s.memcpy_precheck(m) {
                Err(e) => {},
                Ok(_v) => match s.managed_local_copy(m) {
                    Err(e) => {},
                    Ok(local) => if local {
                        run_solo_follows(z, s, id, 1);
                    } else {
                        match s.profile.gpu(device) {
                            Err(e) => {},
                            Ok(gp) => match s.gpu_rt(device) {
                                Err(e) => {},
                                Ok(rt0) => {
                                    if !(rt0.copies >= gp.copy_engines) {
                                        charge_replica_hbm_follows(z, s, m);
                                        charge_replica_hbm_keeps_work(s, m);
                                        replica_keeps_engines(s, m);
                                        match s.charge_replica_hbm(m) {
                                            (s, Err(e)) => {},
                                            (s, Ok(_v)) => match s.memcpy_ns(m) {
                                                Err(e) => {},
                                                Ok((ns, link)) => match s.graph_head_ns(device, launch) {
                                                    Err(e) => {},
                                                    Ok(head) => match s.gpu_rt(device) {
                                                        Err(e) => {},
                                                        Ok(rt) => {
                                                            let rt = GpuRtView {
                                                                copies: rt.copies.saturating_add(1),
                                                                ..rt
                                                            };
                                                            gpu_follows(z, s, device, rt);
                                                            let s = SimState {
                                                                gpus: s.gpus.insert(device, rt),
                                                                ..s
                                                            };
                                                            run_follows(
                                                                z,
                                                                s,
                                                                Running {
                                                                    op: id,
                                                                    remaining_ns: max_u64(
                                                                        ns.saturating_add(head),
                                                                        1,
                                                                    ),
                                                                    share: Share::Link(link),
                                                                },
                                                            );
                                                        },
                                                    },
                                                },
                                            },
                                        }
                                    }
                                },
                            },
                        }
                    },
                },
            },
        }
    }
}

/// [`Sim::lease_parts`] continues the history.
pub proof fn lease_parts_follows(z: SimState, s0: SimState, parts: Seq<(DeviceId, AllocId)>)
    requires
        follows(z, s0),
    ensures
        follows(z, s0.lease_parts(parts).0),
{
    let s = s0;
    lease_parts_from_follows(z, s, parts, 0);
}

/// [`Sim::lease_parts`] continues the history, from position `i` on.
pub proof fn lease_parts_from_follows(
    z: SimState,
    s0: SimState,
    parts: Seq<(DeviceId, AllocId)>,
    i: int,
)
    requires
        follows(z, s0),
    ensures
        follows(z, s0.lease_parts_from(parts, i).0),
    decreases parts.len() - i,
{
    let s = s0;
    if 0 <= i < parts.len() {
        match s.alloc_ref(parts[i].1) {
            Err(e) => {},
            Ok(a) => {
                let a = AllocView { leases: a.leases.saturating_add(1), ..a };
                alloc_follows(z, s, parts[i].1, a);
                let s = SimState { allocs: s.allocs.insert(parts[i].1, a), ..s };
                lease_parts_from_follows(z, s, parts, i + 1);
            },
        }
    }
}

/// [`Sim::start_allreduce`] continues the history.
pub proof fn start_allreduce_follows(
    z: SimState,
    s0: SimState,
    id: OpId,
    device: DeviceId,
    parts: Seq<(DeviceId, AllocId)>,
    bytes: u64,
)
    requires
        follows(z, s0),
        counted(z, s0) ==> able(s0.ops, s0.running, id),
    ensures
        follows(z, s0.start_allreduce(id, device, parts, bytes).0),
        touched(z, s0, id) ==> touched(z, s0.start_allreduce(id, device, parts, bytes).0, id),
{
    let s = s0;
    match s.require_parts(parts) {
        Err(e) => {},
        Ok(_v) => match s.allreduce_ns(parts, bytes) {
            Err(e) => {},
            Ok(ns) => {
                take_compute_follows(z, s, device);
                take_compute_keeps_work(s, device);
                match s.take_compute(device) {
                    (s, Err(e)) => {},
                    (s, Ok(free)) => {
                        if !(!free) {
                            lease_parts_follows(z, s, parts);
                            lease_parts_keeps_work(s, parts);
                            match s.lease_parts(parts) {
                                (s, Err(e)) => {},
                                (s, Ok(_v)) => {
                                    run_solo_follows(z, s, id, ns);
                                },
                            }
                        }
                    },
                }
            },
        },
    }
}

/// [`Sim::start_batch_mem_ops`] continues the history.
pub proof fn start_batch_mem_ops_follows(
    z: SimState,
    s0: SimState,
    op: OpId,
    device: DeviceId,
    ops: Seq<BatchMemOp>,
)
    requires
        follows(z, s0),
        counted(z, s0) ==> able(s0.ops, s0.running, op),
    ensures
        follows(z, s0.start_batch_mem_ops(op, device, ops).0),
        touched(z, s0, op) ==> touched(z, s0.start_batch_mem_ops(op, device, ops).0, op),
{
    let s = s0;
    match s.batch_mem_ready(device, ops) {
        Err(e) => {},
        Ok(ready) => {
            if !(!ready) {
                run_solo_follows(z, s, op, 1);
            }
        },
    }
}

/// [`Sim::start_device_launch`] continues the history.
pub proof fn start_device_launch_follows(z: SimState, s0: SimState, op: OpId, device: DeviceId)
    requires
        follows(z, s0),
        counted(z, s0) ==> able(s0.ops, s0.running, op),
    ensures
        follows(z, s0.start_device_launch(op, device).0),
        touched(z, s0, op) ==> touched(z, s0.start_device_launch(op, device).0, op),
{
    let s = s0;
    take_compute_follows(z, s, device);
    take_compute_keeps_work(s, device);
    match s.take_compute(device) {
        (s, Err(e)) => {},
        (s, Ok(free)) => {
            if !(!free) {
                match s.profile.gpu(device) {
                    Err(e) => {},
                    Ok(gpu) => {
                        run_solo_follows(z, s, op, gpu.graph_launch_ns);
                    },
                }
            }
        },
    }
}

/// [`Sim::start_event_wait`] continues the history.
pub proof fn start_event_wait_follows(
    z: SimState,
    s0: SimState,
    id: OpId,
    event: EventId,
    skip_graph: bool,
)
    requires
        follows(z, s0),
        counted(z, s0) ==> able(s0.ops, s0.running, id),
    ensures
        follows(z, s0.start_event_wait(id, event, skip_graph).0),
        touched(z, s0, id) ==> touched(z, s0.start_event_wait(id, event, skip_graph).0, id),
{
    let s = s0;
    match s.event_wait_gate(event, skip_graph) {
        Err(e) => {},
        Ok(gate) => {
            if !(gate.is_none()) {
                run_solo_follows(z, s, id, 1);
            }
        },
    }
}

/// [`Sim::start_set_conditional`] continues the history.
pub proof fn start_set_conditional_follows(
    z: SimState,
    s0: SimState,
    id: OpId,
    handle: CondId,
    value: u32,
)
    requires
        follows(z, s0),
        counted(z, s0) ==> able(s0.ops, s0.running, id),
    ensures
        follows(z, s0.start_set_conditional(id, handle, value).0),
        touched(z, s0, id) ==> touched(z, s0.start_set_conditional(id, handle, value).0, id),
{
    let s = s0;
    match s.conds.get(handle) {
        None => {},
        Some(c) => {
            let c = Cond { value: value, ..c };
            assert(follows(z, SimState { conds: s.conds.insert(handle, c), ..s })) by {
                reveal(follows);
            }
            let s = SimState { conds: s.conds.insert(handle, c), ..s };
            run_solo_follows(z, s, id, 1);
        },
    }
}

/// [`Sim::start_skipped`] continues the history.
pub proof fn start_skipped_follows(z: SimState, s0: SimState, id: OpId)
    requires
        follows(z, s0),
        counted(z, s0) ==> able(s0.ops, s0.running, id),
    ensures
        follows(z, s0.start_skipped(id)),
        touched(z, s0, id) ==> touched(z, s0.start_skipped(id), id),
{
    let s = s0;
    match s.ops.get(id) {
        Some(op) => {
            let op = OpView { skipped: true, ..op };
            op_note_follows(z, s, id, op);
        },
        _ => {},
    }
    let s = match s.ops.get(id) {
        Some(op) => {
            let op = OpView { skipped: true, ..op };
            let s = SimState { ops: s.ops.insert(id, op), ..s };
            s
        },
        _ => s,
    };
    run_solo_follows(z, s, id, 1);
}

/// [`Sim::start_kind`] continues the history.
pub proof fn start_kind_follows(
    z: SimState,
    s0: SimState,
    id: OpId,
    device: DeviceId,
    stream: StreamId,
    launch: LaunchCost,
    kind: GpuOpView,
)
    requires
        follows(z, s0),
        counted(z, s0) ==> able(s0.ops, s0.running, id),
    ensures
        follows(z, s0.start_kind(id, device, stream, launch, kind).0),
        touched(z, s0, id) ==> touched(z, s0.start_kind(id, device, stream, launch, kind).0, id),
{
    reveal(SimState::start_kind);
    let s = s0;
    match kind {
        GpuOpView::Alloc { id: alloc, bytes } => {
            start_alloc_follows(z, s, id, device, alloc, bytes);
        },
        GpuOpView::Free { id: alloc } => {
            start_free_follows(z, s, id, device, alloc);
        },
        GpuOpView::Kernel { kind, reads, writes, cooperative } => {
            start_kernel_follows(z, s, id, device, stream, launch, kind, reads, writes);
        },
        GpuOpView::Memset(op) => {
            start_memset_follows(z, s, id, device, stream, launch, op);
        },
        GpuOpView::HostFunc { fn_id, user_data } => match s.host_func_ns(device, launch) {
            Err(e) => {},
            Ok(ns) => {
                run_solo_follows(z, s, id, ns);
            },
        },
        GpuOpView::Empty | GpuOpView::Attach { .. } | GpuOpView::WhileTick { .. } => {
            run_solo_follows(z, s, id, 1);
        },
        GpuOpView::Memcpy(m) => {
            start_memcpy_follows(z, s, id, device, stream, launch, m);
        },
        GpuOpView::EventRecord { event, external } => {
            let root = s.event_root(event);
            mark_recorded_follows(z, s, root, id);
            mark_recorded_keeps_work(s, root, id);
            let s = s.mark_recorded(root, id);
            run_solo_follows(z, s, id, 1);
        },
        GpuOpView::EventWait { event, external } => {
            start_event_wait_follows(z, s, id, event, external && launch != LaunchCost::Kernel);
        },
        GpuOpView::AllReduce { parts, bytes } => {
            start_allreduce_follows(z, s, id, device, parts, bytes);
        },
        GpuOpView::ChildGraph { graph } => {},
        GpuOpView::If { handle, body } => {},
        GpuOpView::While { handle, body } => {},
        GpuOpView::Switch { handle, bodies } => {},
        GpuOpView::SetConditional { handle, value } => {
            start_set_conditional_follows(z, s, id, handle, value);
        },
        GpuOpView::WriteValue { id: alloc, offset, value, bits32 } => {
            let ops = seq![BatchMemOp::Write { id: alloc, offset, value, bits32 }];
            start_batch_mem_ops_follows(z, s, id, device, ops);
        },
        GpuOpView::WaitValue { id: alloc, offset, value, bits32, cmp } => {
            let ops = seq![BatchMemOp::Wait { id: alloc, offset, value, bits32, cmp }];
            start_batch_mem_ops_follows(z, s, id, device, ops);
        },
        GpuOpView::BatchMem { ops } => {
            start_batch_mem_ops_follows(z, s, id, device, ops);
        },
        GpuOpView::DeviceLaunch { graph } => {
            start_device_launch_follows(z, s, id, device);
        },
    }
}

/// [`Sim::try_start`] continues the history.
pub proof fn try_start_follows(z: SimState, s0: SimState, id: OpId)
    requires
        follows(z, s0),
        counted(z, s0) ==> able(s0.ops, s0.running, id),
    ensures
        follows(z, s0.try_start(id).0),
        touched(z, s0, id) ==> touched(z, s0.try_start(id).0, id),
{
    reveal(SimState::try_start);
    let s = s0;
    match s.op_ref(id) {
        Err(e) => {},
        Ok(op) => {
            let device = op.device;
            let stream = op.stream;
            let launch = op.launch;
            let kind = op.kind;
            if !(s.unavailable.contains(device)) {
                if s.cond_skip(op.preds) {
                    start_skipped_follows(z, s, id);
                } else {
                    start_kind_follows(z, s, id, device, stream, launch, kind);
                }
            }
        },
    }
}

} // verus!
