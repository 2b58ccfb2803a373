//! Histories of the operations in `sim::transfer`.
use vstd::prelude::*;
use crate::history::{follows, rest_follows};
use crate::history::events::ensure_event_follows;
use crate::history::run::synchronize_stream_follows;
use crate::history::submit::submit_follows;
use crate::ids::{AllocId, DeviceId, EventId, StreamId};
use crate::kinds::batch_node;
use crate::ops::{
    AccessPolicyWindow, BatchMemOp, EventRecordFlags, EventWaitFlags, GpuOpView, HostNodeParams,
    KernelAttrs, KernelBuf, KernelKind, LaunchCompletionEvent, MemAttach, MemcpyOp, MemsetOp,
    PdlLaunch, Place, ProgrammaticLaunch, WaitValueCmp,
};
use crate::sim::SimState;
use crate::spans::memcpy_2d_check;
use crate::state::Enq;

verus! {

/// [`Sim::memcpy`] continues the history.
pub proof fn memcpy_follows(
    z: SimState,
    s0: SimState,
    device: DeviceId,
    op: MemcpyOp,
    stream: StreamId,
)
    requires
        follows(z, s0),
    ensures
        follows(z, s0.memcpy(device, op, stream).0),
{
    let s = s0;
    let pageable = op.src.is_pageable() || op.dst.is_pageable();
    if !(pageable && s.in_capture(device, stream)) {
        match memcpy_2d_check(op) {
            Err(e) => {},
            Ok(_v) => {
                submit_follows(z, s, device, stream, GpuOpView::Memcpy(op));
                match s.submit(device, stream, GpuOpView::Memcpy(op)) {
                    (s, Err(e)) => {},
                    (s, Ok(id)) => {
                        if pageable {
                            synchronize_stream_follows(z, s, device, stream);
                        }
                    },
                }
            },
        }
    }
}

/// [`Sim::memcpy_sync`] continues the history.
pub proof fn memcpy_sync_follows(
    z: SimState,
    s0: SimState,
    device: DeviceId,
    op: MemcpyOp,
    stream: StreamId,
)
    requires
        follows(z, s0),
    ensures
        follows(z, s0.memcpy_sync(device, op, stream).0),
{
    let s = s0;
    match s.fail_if_capturing("cannot capture host-sync memcpy") {
        Err(e) => {},
        Ok(_v) => {
            memcpy_follows(z, s, device, op, stream);
            match s.memcpy(device, op, stream) {
                (s, Err(e)) => {},
                (s, Ok(id)) => {
                    synchronize_stream_follows(z, s, device, stream);
                },
            }
        },
    }
}

/// [`Sim::memcpy_host_to_device`] continues the history.
pub proof fn memcpy_host_to_device_follows(
    z: SimState,
    s0: SimState,
    device: DeviceId,
    alloc: AllocId,
    bytes: u64,
    stream: StreamId,
)
    requires
        follows(z, s0),
    ensures
        follows(z, s0.memcpy_host_to_device(device, alloc, bytes, stream).0),
{
    let s = s0;
    memcpy_follows(
        z,
        s,
        device,
        MemcpyOp::packed_1d(Place::Host, Place::Device(device), alloc, bytes),
        stream,
    );
}

/// [`Sim::memcpy_pinned_to_device`] continues the history.
pub proof fn memcpy_pinned_to_device_follows(
    z: SimState,
    s0: SimState,
    device: DeviceId,
    alloc: AllocId,
    bytes: u64,
    stream: StreamId,
)
    requires
        follows(z, s0),
    ensures
        follows(z, s0.memcpy_pinned_to_device(device, alloc, bytes, stream).0),
{
    let s = s0;
    memcpy_follows(
        z,
        s,
        device,
        MemcpyOp::packed_1d(Place::HostPinned, Place::Device(device), alloc, bytes),
        stream,
    );
}

/// [`Sim::memcpy_device_to_host`] continues the history.
pub proof fn memcpy_device_to_host_follows(
    z: SimState,
    s0: SimState,
    device: DeviceId,
    alloc: AllocId,
    bytes: u64,
    stream: StreamId,
)
    requires
        follows(z, s0),
    ensures
        follows(z, s0.memcpy_device_to_host(device, alloc, bytes, stream).0),
{
    let s = s0;
    memcpy_follows(
        z,
        s,
        device,
        MemcpyOp::packed_1d(Place::Device(device), Place::Host, alloc, bytes),
        stream,
    );
}

/// [`Sim::memcpy_device_to_pinned`] continues the history.
pub proof fn memcpy_device_to_pinned_follows(
    z: SimState,
    s0: SimState,
    device: DeviceId,
    alloc: AllocId,
    bytes: u64,
    stream: StreamId,
)
    requires
        follows(z, s0),
    ensures
        follows(z, s0.memcpy_device_to_pinned(device, alloc, bytes, stream).0),
{
    let s = s0;
    memcpy_follows(
        z,
        s,
        device,
        MemcpyOp::packed_1d(Place::Device(device), Place::HostPinned, alloc, bytes),
        stream,
    );
}

/// [`Sim::memcpy_device_to_device`] continues the history.
pub proof fn memcpy_device_to_device_follows(
    z: SimState,
    s0: SimState,
    src: DeviceId,
    dst: DeviceId,
    alloc: AllocId,
    bytes: u64,
    stream: StreamId,
)
    requires
        follows(z, s0),
    ensures
        follows(z, s0.memcpy_device_to_device(src, dst, alloc, bytes, stream).0),
{
    let s = s0;
    memcpy_follows(
        z,
        s,
        src,
        MemcpyOp::packed_1d(Place::Device(src), Place::Device(dst), alloc, bytes),
        stream,
    );
}

/// [`Sim::prefetch`] continues the history.
pub proof fn prefetch_follows(
    z: SimState,
    s0: SimState,
    device: DeviceId,
    alloc: AllocId,
    stream: StreamId,
)
    requires
        follows(z, s0),
    ensures
        follows(z, s0.prefetch(device, alloc, stream).0),
{
    let s = s0;
    match s.managed_move_src(alloc, Some(device)) {
        Err(e) => {},
        Ok((bytes, src)) => {
            memcpy_follows(
                z,
                s,
                device,
                MemcpyOp::packed_1d(src, Place::Device(device), alloc, bytes),
                stream,
            );
        },
    }
}

/// [`Sim::prefetch_host`] continues the history.
pub proof fn prefetch_host_follows(
    z: SimState,
    s0: SimState,
    device: DeviceId,
    alloc: AllocId,
    stream: StreamId,
)
    requires
        follows(z, s0),
    ensures
        follows(z, s0.prefetch_host(device, alloc, stream).0),
{
    let s = s0;
    match s.managed_move_src(alloc, None) {
        Err(e) => {},
        Ok((bytes, src)) => {
            let on = (match src { Place::Device(d) => d, _ => device, });
            memcpy_follows(
                z,
                s,
                on,
                MemcpyOp::packed_1d(src, Place::HostPinned, alloc, bytes),
                stream,
            );
        },
    }
}

/// [`Sim::submit_kernel`] continues the history.
pub proof fn submit_kernel_follows(
    z: SimState,
    s0: SimState,
    device: DeviceId,
    kind: KernelKind,
    reads: Seq<KernelBuf>,
    writes: Seq<KernelBuf>,
    stream: StreamId,
    cooperative: bool,
)
    requires
        follows(z, s0),
    ensures
        follows(z, s0.submit_kernel(device, kind, reads, writes, stream, cooperative).0),
{
    let s = s0;
    match s.resolve_bufs(reads) {
        Err(e) => {},
        Ok(r) => match s.resolve_bufs(writes) {
            Err(e) => {},
            Ok(w) => {
                submit_follows(
                    z,
                    s,
                    device,
                    stream,
                    GpuOpView::Kernel { kind, reads: r, writes: w, cooperative },
                );
            },
        },
    }
}

/// [`Sim::submit_kernel_under`] continues the history.
pub proof fn submit_kernel_under_follows(
    z: SimState,
    s0: SimState,
    enq: Enq,
    device: DeviceId,
    kind: KernelKind,
    reads: Seq<KernelBuf>,
    writes: Seq<KernelBuf>,
    stream: StreamId,
    cooperative: bool,
)
    requires
        follows(z, s0),
    ensures
        follows(z, s0.submit_kernel_under(enq, device, kind, reads, writes, stream, cooperative).0),
{
    let s = s0;
    let prev = s.enq;
    rest_follows(z, s, SimState { enq: enq, ..s });
    let s = SimState { enq: enq, ..s };
    submit_kernel_follows(z, s, device, kind, reads, writes, stream, cooperative);
    let (s, out) = s.submit_kernel(device, kind, reads, writes, stream, cooperative);
    rest_follows(z, s, SimState { enq: prev, ..s });
}

/// [`Sim::kernel_bufs`] continues the history.
pub proof fn kernel_bufs_follows(
    z: SimState,
    s0: SimState,
    device: DeviceId,
    kind: KernelKind,
    reads: Seq<KernelBuf>,
    writes: Seq<KernelBuf>,
    stream: StreamId,
)
    requires
        follows(z, s0),
    ensures
        follows(z, s0.kernel_bufs(device, kind, reads, writes, stream).0),
{
    let s = s0;
    let enq = s.enq;
    let enq = Enq { nvlink_util_centric: s.stream_nvlink_util_centric(device, stream), ..enq };
    submit_kernel_under_follows(z, s, enq, device, kind, reads, writes, stream, false);
}

/// [`Sim::kernel_pdl_bufs`] continues the history.
pub proof fn kernel_pdl_bufs_follows(
    z: SimState,
    s0: SimState,
    device: DeviceId,
    kind: KernelKind,
    reads: Seq<KernelBuf>,
    writes: Seq<KernelBuf>,
    stream: StreamId,
    pdl: ProgrammaticLaunch,
)
    requires
        follows(z, s0),
    ensures
        follows(z, s0.kernel_pdl_bufs(device, kind, reads, writes, stream, pdl).0),
{
    let s = s0;
    let enq = s.enq;
    let enq = Enq { pdl: pdl, ..enq };
    submit_kernel_under_follows(z, s, enq, device, kind, reads, writes, stream, false);
}

/// [`Sim::kernel_pdl_event_bufs`] continues the history.
pub proof fn kernel_pdl_event_bufs_follows(
    z: SimState,
    s0: SimState,
    device: DeviceId,
    kind: KernelKind,
    reads: Seq<KernelBuf>,
    writes: Seq<KernelBuf>,
    stream: StreamId,
    launch: PdlLaunch,
)
    requires
        follows(z, s0),
    ensures
        follows(z, s0.kernel_pdl_event_bufs(device, kind, reads, writes, stream, launch).0),
{
    let s = s0;
    let enq = s.enq;
    let enq = Enq { pdl: launch.pdl, ..enq };
    let enq = Enq { programmatic_event: launch.event, ..enq };
    submit_kernel_under_follows(z, s, enq, device, kind, reads, writes, stream, false);
}

/// [`Sim::kernel_launch_completion_bufs`] continues the history.
pub proof fn kernel_launch_completion_bufs_follows(
    z: SimState,
    s0: SimState,
    device: DeviceId,
    kind: KernelKind,
    reads: Seq<KernelBuf>,
    writes: Seq<KernelBuf>,
    stream: StreamId,
    event: LaunchCompletionEvent,
)
    requires
        follows(z, s0),
    ensures
        follows(z, s0.kernel_launch_completion_bufs(device, kind, reads, writes, stream, event).0),
{
    let s = s0;
    let enq = s.enq;
    let enq = Enq { launch_completion: Some(event), ..enq };
    submit_kernel_under_follows(z, s, enq, device, kind, reads, writes, stream, false);
}

/// [`Sim::cooperative_kernel_bufs`] continues the history.
pub proof fn cooperative_kernel_bufs_follows(
    z: SimState,
    s0: SimState,
    device: DeviceId,
    kind: KernelKind,
    reads: Seq<KernelBuf>,
    writes: Seq<KernelBuf>,
    stream: StreamId,
)
    requires
        follows(z, s0),
    ensures
        follows(z, s0.cooperative_kernel_bufs(device, kind, reads, writes, stream).0),
{
    let s = s0;
    match s.require_cooperative(device) {
        Err(e) => {},
        Ok(_v) => {
            submit_kernel_follows(z, s, device, kind, reads, writes, stream, true);
        },
    }
}

/// [`Sim::kernel_bufs_with`] continues the history.
pub proof fn kernel_bufs_with_follows(
    z: SimState,
    s0: SimState,
    device: DeviceId,
    kind: KernelKind,
    reads: Seq<KernelBuf>,
    writes: Seq<KernelBuf>,
    stream: StreamId,
    attrs: KernelAttrs,
)
    requires
        follows(z, s0),
    ensures
        follows(z, s0.kernel_bufs_with(device, kind, reads, writes, stream, attrs).0),
{
    let s = s0;
    match s.kernel_attrs_ok(device, attrs) {
        Err(e) => {},
        Ok(_v) => {
            let enq = s.enq_with(attrs);
            submit_kernel_under_follows(
                z,
                s,
                enq,
                device,
                kind,
                reads,
                writes,
                stream,
                attrs.cooperative,
            );
        },
    }
}

/// [`Sim::kernel_access_policy_bufs`] continues the history.
pub proof fn kernel_access_policy_bufs_follows(
    z: SimState,
    s0: SimState,
    device: DeviceId,
    kind: KernelKind,
    reads: Seq<KernelBuf>,
    writes: Seq<KernelBuf>,
    stream: StreamId,
    window: AccessPolicyWindow,
)
    requires
        follows(z, s0),
    ensures
        follows(z, s0.kernel_access_policy_bufs(device, kind, reads, writes, stream, window).0),
{
    let s = s0;
    let attrs = KernelAttrs::plain();
    let attrs = KernelAttrs { access_policy: Some(window), ..attrs };
    kernel_bufs_with_follows(z, s, device, kind, reads, writes, stream, attrs);
}

/// [`Sim::kernel`] continues the history.
pub proof fn kernel_follows(
    z: SimState,
    s0: SimState,
    device: DeviceId,
    kind: KernelKind,
    reads: Seq<AllocId>,
    writes: Seq<AllocId>,
    stream: StreamId,
)
    requires
        follows(z, s0),
    ensures
        follows(z, s0.kernel(device, kind, reads, writes, stream).0),
{
    let s = s0;
    let r = s.whole_bufs(reads);
    let w = s.whole_bufs(writes);
    kernel_bufs_follows(z, s, device, kind, r, w, stream);
}

/// [`Sim::kernel_pdl`] continues the history.
pub proof fn kernel_pdl_follows(
    z: SimState,
    s0: SimState,
    device: DeviceId,
    kind: KernelKind,
    reads: Seq<AllocId>,
    writes: Seq<AllocId>,
    stream: StreamId,
    pdl: ProgrammaticLaunch,
)
    requires
        follows(z, s0),
    ensures
        follows(z, s0.kernel_pdl(device, kind, reads, writes, stream, pdl).0),
{
    let s = s0;
    let r = s.whole_bufs(reads);
    let w = s.whole_bufs(writes);
    kernel_pdl_bufs_follows(z, s, device, kind, r, w, stream, pdl);
}

/// [`Sim::kernel_pdl_event`] continues the history.
pub proof fn kernel_pdl_event_follows(
    z: SimState,
    s0: SimState,
    device: DeviceId,
    kind: KernelKind,
    reads: Seq<AllocId>,
    writes: Seq<AllocId>,
    stream: StreamId,
    launch: PdlLaunch,
)
    requires
        follows(z, s0),
    ensures
        follows(z, s0.kernel_pdl_event(device, kind, reads, writes, stream, launch).0),
{
    let s = s0;
    let r = s.whole_bufs(reads);
    let w = s.whole_bufs(writes);
    kernel_pdl_event_bufs_follows(z, s, device, kind, r, w, stream, launch);
}

/// [`Sim::kernel_launch_completion`] continues the history.
pub proof fn kernel_launch_completion_follows(
    z: SimState,
    s0: SimState,
    device: DeviceId,
    kind: KernelKind,
    reads: Seq<AllocId>,
    writes: Seq<AllocId>,
    stream: StreamId,
    event: LaunchCompletionEvent,
)
    requires
        follows(z, s0),
    ensures
        follows(z, s0.kernel_launch_completion(device, kind, reads, writes, stream, event).0),
{
    let s = s0;
    let r = s.whole_bufs(reads);
    let w = s.whole_bufs(writes);
    kernel_launch_completion_bufs_follows(z, s, device, kind, r, w, stream, event);
}

/// [`Sim::kernel_with`] continues the history.
pub proof fn kernel_with_follows(
    z: SimState,
    s0: SimState,
    device: DeviceId,
    kind: KernelKind,
    reads: Seq<AllocId>,
    writes: Seq<AllocId>,
    stream: StreamId,
    attrs: KernelAttrs,
)
    requires
        follows(z, s0),
    ensures
        follows(z, s0.kernel_with(device, kind, reads, writes, stream, attrs).0),
{
    let s = s0;
    let r = s.whole_bufs(reads);
    let w = s.whole_bufs(writes);
    kernel_bufs_with_follows(z, s, device, kind, r, w, stream, attrs);
}

/// [`Sim::kernel_access_policy`] continues the history.
pub proof fn kernel_access_policy_follows(
    z: SimState,
    s0: SimState,
    device: DeviceId,
    kind: KernelKind,
    reads: Seq<AllocId>,
    writes: Seq<AllocId>,
    stream: StreamId,
    window: AccessPolicyWindow,
)
    requires
        follows(z, s0),
    ensures
        follows(z, s0.kernel_access_policy(device, kind, reads, writes, stream, window).0),
{
    let s = s0;
    let r = s.whole_bufs(reads);
    let w = s.whole_bufs(writes);
    kernel_access_policy_bufs_follows(z, s, device, kind, r, w, stream, window);
}

/// [`Sim::cooperative_kernel`] continues the history.
pub proof fn cooperative_kernel_follows(
    z: SimState,
    s0: SimState,
    device: DeviceId,
    kind: KernelKind,
    reads: Seq<AllocId>,
    writes: Seq<AllocId>,
    stream: StreamId,
)
    requires
        follows(z, s0),
    ensures
        follows(z, s0.cooperative_kernel(device, kind, reads, writes, stream).0),
{
    let s = s0;
    let r = s.whole_bufs(reads);
    let w = s.whole_bufs(writes);
    cooperative_kernel_bufs_follows(z, s, device, kind, r, w, stream);
}

/// [`Sim::memset`] continues the history.
pub proof fn memset_follows(
    z: SimState,
    s0: SimState,
    device: DeviceId,
    alloc: AllocId,
    bytes: u64,
    stream: StreamId,
)
    requires
        follows(z, s0),
    ensures
        follows(z, s0.memset(device, alloc, bytes, stream).0),
{
    let s = s0;
    if !(bytes == 0) {
        memset_buf_follows(z, s, device, KernelBuf::span(alloc, 0, bytes), stream);
    }
}

/// [`Sim::memset_buf`] continues the history.
pub proof fn memset_buf_follows(
    z: SimState,
    s0: SimState,
    device: DeviceId,
    buf: KernelBuf,
    stream: StreamId,
)
    requires
        follows(z, s0),
    ensures
        follows(z, s0.memset_buf(device, buf, stream).0),
{
    let s = s0;
    memset_op_follows(z, s, device, MemsetOp::from_buf(buf), stream);
}

/// [`Sim::memset_op`] continues the history.
pub proof fn memset_op_follows(
    z: SimState,
    s0: SimState,
    device: DeviceId,
    op: MemsetOp,
    stream: StreamId,
)
    requires
        follows(z, s0),
    ensures
        follows(z, s0.memset_op(device, op, stream).0),
{
    let s = s0;
    match s.resolve_memset_op(op) {
        Err(e) => {},
        Ok(full) => {
            submit_follows(z, s, device, stream, GpuOpView::Memset(full));
        },
    }
}

/// [`Sim::host_func`] continues the history.
pub proof fn host_func_follows(z: SimState, s0: SimState, device: DeviceId, stream: StreamId)
    requires
        follows(z, s0),
    ensures
        follows(z, s0.host_func(device, stream).0),
{
    let s = s0;
    host_func_params_follows(z, s, device, stream, HostNodeParams { fn_id: 0, user_data: 0 });
}

/// [`Sim::host_func_params`] continues the history.
pub proof fn host_func_params_follows(
    z: SimState,
    s0: SimState,
    device: DeviceId,
    stream: StreamId,
    params: HostNodeParams,
)
    requires
        follows(z, s0),
    ensures
        follows(z, s0.host_func_params(device, stream, params).0),
{
    let s = s0;
    submit_follows(
        z,
        s,
        device,
        stream,
        GpuOpView::HostFunc { fn_id: params.fn_id, user_data: params.user_data },
    );
}

/// [`Sim::write_value64`] continues the history.
pub proof fn write_value64_follows(
    z: SimState,
    s0: SimState,
    device: DeviceId,
    id: AllocId,
    offset: u64,
    value: u64,
    stream: StreamId,
)
    requires
        follows(z, s0),
    ensures
        follows(z, s0.write_value64(device, id, offset, value, stream).0),
{
    let s = s0;
    submit_batch_mem_follows(
        z,
        s,
        device,
        stream,
        BatchMemOp::Write { id, offset, value, bits32: false },
    );
}

/// [`Sim::write_value32`] continues the history.
pub proof fn write_value32_follows(
    z: SimState,
    s0: SimState,
    device: DeviceId,
    id: AllocId,
    offset: u64,
    value: u64,
    stream: StreamId,
)
    requires
        follows(z, s0),
    ensures
        follows(z, s0.write_value32(device, id, offset, value, stream).0),
{
    let s = s0;
    submit_batch_mem_follows(
        z,
        s,
        device,
        stream,
        BatchMemOp::Write { id, offset, value, bits32: true },
    );
}

/// [`Sim::wait_value64`] continues the history.
pub proof fn wait_value64_follows(
    z: SimState,
    s0: SimState,
    device: DeviceId,
    id: AllocId,
    offset: u64,
    value: u64,
    cmp: WaitValueCmp,
    stream: StreamId,
)
    requires
        follows(z, s0),
    ensures
        follows(z, s0.wait_value64(device, id, offset, value, cmp, stream).0),
{
    let s = s0;
    submit_batch_mem_follows(
        z,
        s,
        device,
        stream,
        BatchMemOp::Wait { id, offset, value, bits32: false, cmp },
    );
}

/// [`Sim::wait_value32`] continues the history.
pub proof fn wait_value32_follows(
    z: SimState,
    s0: SimState,
    device: DeviceId,
    id: AllocId,
    offset: u64,
    value: u64,
    cmp: WaitValueCmp,
    stream: StreamId,
)
    requires
        follows(z, s0),
    ensures
        follows(z, s0.wait_value32(device, id, offset, value, cmp, stream).0),
{
    let s = s0;
    submit_batch_mem_follows(
        z,
        s,
        device,
        stream,
        BatchMemOp::Wait { id, offset, value, bits32: true, cmp },
    );
}

/// [`Sim::batch_mem_op`] continues the history.
pub proof fn batch_mem_op_follows(
    z: SimState,
    s0: SimState,
    device: DeviceId,
    stream: StreamId,
    ops: Seq<BatchMemOp>,
)
    requires
        follows(z, s0),
    ensures
        follows(z, s0.batch_mem_op(device, stream, ops).0),
{
    let s = s0;
    match s.check_batch_mem_ops(ops) {
        Err(e) => {},
        Ok(_v) => if ops.len() == 1 {
            submit_follows(z, s, device, stream, batch_node(ops[0]));
        } else {
            submit_follows(z, s, device, stream, GpuOpView::BatchMem { ops });
        },
    }
}

/// [`Sim::submit_batch_mem`] continues the history.
pub proof fn submit_batch_mem_follows(
    z: SimState,
    s0: SimState,
    device: DeviceId,
    stream: StreamId,
    op: BatchMemOp,
)
    requires
        follows(z, s0),
    ensures
        follows(z, s0.submit_batch_mem(device, stream, op).0),
{
    let s = s0;
    match s.check_batch_mem(op) {
        Err(e) => {},
        Ok(_v) => {
            submit_follows(z, s, device, stream, batch_node(op));
        },
    }
}

/// [`Sim::stream_attach`] continues the history.
pub proof fn stream_attach_follows(
    z: SimState,
    s0: SimState,
    device: DeviceId,
    id: AllocId,
    stream: StreamId,
    flags: MemAttach,
)
    requires
        follows(z, s0),
    ensures
        follows(z, s0.stream_attach(device, id, stream, flags).0),
{
    let s = s0;
    match s.fail_if_capturing("cannot capture stream attach") {
        Err(e) => {},
        Ok(_v) => match s.alloc_ref(id) {
            Err(e) => {},
            Ok(a) => {
                if !(!a.live) {
                    if !(!a.managed) {
                        if !(flags == MemAttach::Single && stream.is_null()) {
                            submit_follows(z, s, device, stream, GpuOpView::Attach { id, flags });
                        }
                    }
                }
            },
        },
    }
}

/// [`Sim::record_event`] continues the history.
pub proof fn record_event_follows(
    z: SimState,
    s0: SimState,
    device: DeviceId,
    event: EventId,
    stream: StreamId,
)
    requires
        follows(z, s0),
    ensures
        follows(z, s0.record_event(device, event, stream).0),
{
    let s = s0;
    record_event_with_flags_follows(z, s, device, event, stream, EventRecordFlags::DEFAULT);
}

/// [`Sim::record_event_external`] continues the history.
pub proof fn record_event_external_follows(
    z: SimState,
    s0: SimState,
    device: DeviceId,
    event: EventId,
    stream: StreamId,
)
    requires
        follows(z, s0),
    ensures
        follows(z, s0.record_event_external(device, event, stream).0),
{
    let s = s0;
    record_event_with_flags_follows(z, s, device, event, stream, EventRecordFlags::EXTERNAL);
}

/// [`Sim::record_event_with_flags`] continues the history.
pub proof fn record_event_with_flags_follows(
    z: SimState,
    s0: SimState,
    device: DeviceId,
    event: EventId,
    stream: StreamId,
    flags: u32,
)
    requires
        follows(z, s0),
    ensures
        follows(z, s0.record_event_with_flags(device, event, stream, flags).0),
{
    let s = s0;
    if !(flags&!EventRecordFlags::EXTERNAL != 0) {
        ensure_event_follows(z, s, event);
        let s = s.ensure_event(event);
        let external = flags&EventRecordFlags::EXTERNAL != 0;
        submit_follows(z, s, device, stream, GpuOpView::EventRecord { event, external });
    }
}

/// [`Sim::wait_event`] continues the history.
pub proof fn wait_event_follows(
    z: SimState,
    s0: SimState,
    device: DeviceId,
    event: EventId,
    stream: StreamId,
)
    requires
        follows(z, s0),
    ensures
        follows(z, s0.wait_event(device, event, stream).0),
{
    let s = s0;
    wait_event_with_flags_follows(z, s, device, event, stream, EventWaitFlags::DEFAULT);
}

/// [`Sim::wait_event_external`] continues the history.
pub proof fn wait_event_external_follows(
    z: SimState,
    s0: SimState,
    device: DeviceId,
    event: EventId,
    stream: StreamId,
)
    requires
        follows(z, s0),
    ensures
        follows(z, s0.wait_event_external(device, event, stream).0),
{
    let s = s0;
    wait_event_with_flags_follows(z, s, device, event, stream, EventWaitFlags::EXTERNAL);
}

/// [`Sim::wait_event_with_flags`] continues the history.
pub proof fn wait_event_with_flags_follows(
    z: SimState,
    s0: SimState,
    device: DeviceId,
    event: EventId,
    stream: StreamId,
    flags: u32,
)
    requires
        follows(z, s0),
    ensures
        follows(z, s0.wait_event_with_flags(device, event, stream, flags).0),
{
    let s = s0;
    if !(flags&!EventWaitFlags::EXTERNAL != 0) {
        ensure_event_follows(z, s, event);
        let s = s.ensure_event(event);
        let external = flags&EventWaitFlags::EXTERNAL != 0;
        submit_follows(z, s, device, stream, GpuOpView::EventWait { event, external });
    }
}

/// [`Sim::free`] continues the history.
pub proof fn free_follows(
    z: SimState,
    s0: SimState,
    device: DeviceId,
    id: AllocId,
    stream: StreamId,
)
    requires
        follows(z, s0),
    ensures
        follows(z, s0.free(device, id, stream).0),
{
    let s = s0;
    submit_follows(z, s, device, stream, GpuOpView::Free { id });
}

} // verus!
