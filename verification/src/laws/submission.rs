//! What calls put on a stream.
use vstd::prelude::*;
use crate::error::SimError;
use crate::history::{follows_itself, history};
use crate::history::run::synchronize_stream_follows;
use crate::history::submit::submit_follows;
use crate::ids::{AllocId, DeviceId, EventId, Lane, OpId, StreamId};
use crate::laws::sync::synchronized_stream_is_idle;
use crate::list::lemma_all_ok;
use crate::ops::{
    GpuOpView, HostNodeParams, KernelAttrs, KernelBuf, KernelKind, LaunchCompletionEvent, MemAttach,
    MemcpyOp, PdlLaunch, Place, ProgrammaticLaunch, WaitValueCmp,
};
use crate::sim::SimState;
use crate::state::{Enq, OpView};

verus! {

/// A new operation is on a stream, behind all that was there, and has not begun.
pub open spec fn queued(
    s: SimState,
    t: SimState,
    id: OpId,
    device: DeviceId,
    stream: StreamId,
    kind: GpuOpView,
) -> bool {
    let o = t.ops[id];
    &&& id == OpId(s.next.op)
    &&& t.ops == s.ops.insert(id, o)
    &&& o.device == device
    &&& o.stream == stream
    &&& o.kind == kind
    &&& !o.done
    &&& !o.cancelled
    &&& !o.skipped
    &&& o.launch is Kernel
    &&& o.submit_ns == s.clock
    &&& o.start_ns is None
    &&& o.done_ns is None
    &&& o.preds == s.enqueue_preds
    &&& t.tail == s.tail.insert(Lane(device, stream), id)
    &&& t.clock == s.clock
    &&& t.running == s.running
    &&& t.allocs == s.allocs
    &&& t.gpus == s.gpus
    &&& t.enq == s.enq
}

/// The attributes of an operation are those in force for it, with the priority asked for or else that
/// of its stream.
pub open spec fn attributed(s: SimState, e: Enq, o: OpView) -> bool {
    &&& o.attrs.pdl == e.pdl
    &&& o.attrs.programmatic_event == e.programmatic_event
    &&& o.attrs.launch_completion == e.launch_completion
    &&& o.attrs.access_policy == e.access_policy
    &&& o.attrs.cluster == e.cluster
    &&& o.attrs.cluster_policy == e.cluster_policy
    &&& o.attrs.preferred_cluster == e.preferred_cluster
    &&& o.attrs.carveout == e.carveout
    &&& o.attrs.shared_mem == e.shared_mem
    &&& o.attrs.nvlink_util_centric == e.nvlink_util_centric
    &&& o.attrs.priority == match e.priority {
        Some(p) => p,
        None => s.stream_priority(o.device, o.stream),
    }
}

/// What is submitted outside a capture is queued, with the attributes in force.
pub proof fn submitted_is_queued(
    s: SimState,
    device: DeviceId,
    stream: StreamId,
    kind: GpuOpView,
)
    requires
        s.capturing is None,
        s.submit(device, stream, kind).1 is Ok,
    ensures
        ({
            let (t, r) = s.submit(device, stream, kind);
            &&& queued(s, t, r->Ok_0, device, stream, kind)
            &&& attributed(s, s.enq, t.ops[r->Ok_0])
            &&& s.profile.gpu(device) is Ok
            &&& !s.unavailable.contains(device)
        }),
{
    reveal(SimState::submit_live);
}

/// Copies between the host and a GPU, and between GPUs, are queued as such, whole and from the start
/// of the allocation. A copy with a pageable end has ended on return.
pub proof fn copies_are_queued(
    s: SimState,
    device: DeviceId,
    other: DeviceId,
    alloc: AllocId,
    bytes: u64,
    stream: StreamId,
)
    requires
        s.capturing is None,
    ensures
        ({
            let (t, r) = s.memcpy_pinned_to_device(device, alloc, bytes, stream);
            r is Ok ==> queued(
                s,
                t,
                r->Ok_0,
                device,
                stream,
                GpuOpView::Memcpy(
                    whole_copy(Place::HostPinned, Place::Device(device), alloc, bytes),
                ),
            )
        }),
        ({
            let (t, r) = s.memcpy_device_to_pinned(device, alloc, bytes, stream);
            r is Ok ==> queued(
                s,
                t,
                r->Ok_0,
                device,
                stream,
                GpuOpView::Memcpy(
                    whole_copy(Place::Device(device), Place::HostPinned, alloc, bytes),
                ),
            )
        }),
        ({
            let (t, r) = s.memcpy_device_to_device(device, other, alloc, bytes, stream);
            r is Ok ==> queued(
                s,
                t,
                r->Ok_0,
                device,
                stream,
                GpuOpView::Memcpy(
                    whole_copy(Place::Device(device), Place::Device(other), alloc, bytes),
                ),
            )
        }),
{
    let a = whole_copy(Place::HostPinned, Place::Device(device), alloc, bytes);
    let b = whole_copy(Place::Device(device), Place::HostPinned, alloc, bytes);
    let c = whole_copy(Place::Device(device), Place::Device(other), alloc, bytes);
    lemma_queued(s, device, stream, GpuOpView::Memcpy(a));
    lemma_queued(s, device, stream, GpuOpView::Memcpy(b));
    lemma_queued(s, device, stream, GpuOpView::Memcpy(c));
}

/// A copy of bytes from the start of an allocation.
pub open spec fn whole_copy(src: Place, dst: Place, alloc: AllocId, bytes: u64) -> MemcpyOp {
    MemcpyOp {
        src,
        dst,
        alloc,
        bytes,
        offset: 0,
        height: 0,
        src_pitch: 0,
        dst_pitch: 0,
        depth: 0,
        src_height: 0,
        dst_height: 0,
    }
}

/// A copy with a pageable end is queued, and the call waits for its stream.
pub proof fn pageable_copies_are_awaited(
    s: SimState,
    device: DeviceId,
    alloc: AllocId,
    bytes: u64,
    stream: StreamId,
)
    requires
        s.capturing is None,
        s.numbered(),
    ensures
        ({
            let (t, r) = s.memcpy_host_to_device(device, alloc, bytes, stream);
            r is Ok && t.next.op < u64::MAX ==> t.ops.contains_key(r->Ok_0)
                && t.ops[r->Ok_0].device == device && t.ops[r->Ok_0].stream == stream
                && t.ops[r->Ok_0].kind == GpuOpView::Memcpy(
                whole_copy(Place::Host, Place::Device(device), alloc, bytes),
            ) && t.ops[r->Ok_0].done
        }),
        ({
            let (t, r) = s.memcpy_device_to_host(device, alloc, bytes, stream);
            r is Ok && t.next.op < u64::MAX ==> t.ops.contains_key(r->Ok_0)
                && t.ops[r->Ok_0].device == device && t.ops[r->Ok_0].stream == stream
                && t.ops[r->Ok_0].kind == GpuOpView::Memcpy(
                whole_copy(Place::Device(device), Place::Host, alloc, bytes),
            ) && t.ops[r->Ok_0].done
        }),
{
    lemma_awaited(s, device, stream, whole_copy(Place::Host, Place::Device(device), alloc, bytes));
    lemma_awaited(s, device, stream, whole_copy(Place::Device(device), Place::Host, alloc, bytes));
}

proof fn lemma_awaited(s: SimState, device: DeviceId, stream: StreamId, op: MemcpyOp)
    requires
        s.capturing is None,
        s.numbered(),
        op.src is Host || op.dst is Host,
    ensures
        ({
            let (t, r) = s.memcpy(device, op, stream);
            r is Ok && t.next.op < u64::MAX ==> t.ops.contains_key(r->Ok_0)
                && t.ops[r->Ok_0].device == device && t.ops[r->Ok_0].stream == stream
                && t.ops[r->Ok_0].kind == GpuOpView::Memcpy(op) && t.ops[r->Ok_0].done
        }),
{
    let (t, r) = s.memcpy(device, op, stream);
    if r is Ok && t.next.op < u64::MAX {
        let kind = GpuOpView::Memcpy(op);
        submitted_is_queued(s, device, stream, kind);
        let s1 = s.submit(device, stream, kind).0;
        follows_itself(s);
        submit_follows(s, s, device, stream, kind);
        history(s, s1);
        follows_itself(s1);
        synchronize_stream_follows(s1, s1, device, stream);
        history(s1, t);
        assert(s1.ops.contains_key(r->Ok_0));
        synchronized_stream_is_idle(s1, device, stream);
        assert(t == s1.synchronize_stream(device, stream).0);
        if !t.ops[r->Ok_0].done {
            assert(t.op_pending_on_at(r->Ok_0, device, stream));
        }
    }
}

/// Managed memory is prefetched whole: to a GPU from the first GPU that holds it or else from the
/// host, and to the host from the first GPU that holds it.
pub proof fn prefetch_moves_the_whole(
    s: SimState,
    device: DeviceId,
    alloc: AllocId,
    stream: StreamId,
)
    requires
        s.capturing is None,
        s.allocs.contains_key(alloc),
    ensures
        ({
            let (t, r) = s.prefetch(device, alloc, stream);
            let a = s.allocs[alloc];
            let from = if a.devices.contains(device) || a.devices.len() == 0 {
                Place::HostPinned
            } else {
                Place::Device(a.devices[0])
            };
            &&& !(a.live && a.managed) ==> r is Err && t == s
            &&& r is Ok ==> queued(
                s,
                t,
                r->Ok_0,
                device,
                stream,
                GpuOpView::Memcpy(whole_copy(from, Place::Device(device), alloc, a.bytes)),
            )
        }),
        ({
            let (t, r) = s.prefetch_host(device, alloc, stream);
            let a = s.allocs[alloc];
            let from = if a.devices.len() == 0 {
                Place::HostPinned
            } else {
                Place::Device(a.devices[0])
            };
            let on = if a.devices.len() == 0 {
                device
            } else {
                a.devices[0]
            };
            &&& !(a.live && a.managed) ==> r is Err && t == s
            &&& r is Ok ==> queued(
                s,
                t,
                r->Ok_0,
                on,
                stream,
                GpuOpView::Memcpy(whole_copy(from, Place::HostPinned, alloc, a.bytes)),
            )
        }),
{
    let a = s.allocs[alloc];
    let here = whole_copy(Place::HostPinned, Place::Device(device), alloc, a.bytes);
    let there = whole_copy(Place::HostPinned, Place::HostPinned, alloc, a.bytes);
    lemma_queued(s, device, stream, GpuOpView::Memcpy(here));
    lemma_queued(s, device, stream, GpuOpView::Memcpy(there));
    if a.devices.len() > 0 {
        let from = Place::Device(a.devices[0]);
        let over = whole_copy(from, Place::Device(device), alloc, a.bytes);
        let back = whole_copy(from, Place::HostPinned, alloc, a.bytes);
        lemma_queued(s, device, stream, GpuOpView::Memcpy(over));
        lemma_queued(s, a.devices[0], stream, GpuOpView::Memcpy(back));
    }
}

/// Whether an operation is a kernel that reads and writes resolved buffers.
pub open spec fn kernel_of(
    s: SimState,
    o: GpuOpView,
    kind: KernelKind,
    reads: Seq<KernelBuf>,
    writes: Seq<KernelBuf>,
    cooperative: bool,
) -> bool {
    &&& o == (GpuOpView::Kernel {
        kind,
        reads: o->Kernel_reads,
        writes: o->Kernel_writes,
        cooperative,
    })
    &&& s.resolve_bufs(reads) == Ok::<Seq<KernelBuf>, SimError>(o->Kernel_reads)
    &&& s.resolve_bufs(writes) == Ok::<Seq<KernelBuf>, SimError>(o->Kernel_writes)
}

proof fn lemma_kernel_under(
    s: SimState,
    e: Enq,
    device: DeviceId,
    kind: KernelKind,
    reads: Seq<KernelBuf>,
    writes: Seq<KernelBuf>,
    stream: StreamId,
    cooperative: bool,
)
    requires
        s.capturing is None,
        s.submit_kernel_under(e, device, kind, reads, writes, stream, cooperative).1 is Ok,
    ensures
        ({
            let (t, r) = s.submit_kernel_under(
                e,
                device,
                kind,
                reads,
                writes,
                stream,
                cooperative,
            );
            let o = t.ops[r->Ok_0];
            &&& queued(s, t, r->Ok_0, device, stream, o.kind)
            &&& kernel_of(s, o.kind, kind, reads, writes, cooperative)
            &&& attributed(s, e, o)
        }),
{
    let u = SimState { enq: e, ..s };
    lemma_same_bufs(s, u, reads);
    lemma_same_bufs(s, u, writes);
    let rd = s.resolve_bufs(reads)->Ok_0;
    let wr = s.resolve_bufs(writes)->Ok_0;
    let op = GpuOpView::Kernel { kind, reads: rd, writes: wr, cooperative };
    submitted_is_queued(u, device, stream, op);
}

proof fn lemma_same_bufs(s: SimState, u: SimState, bufs: Seq<KernelBuf>)
    requires
        u.allocs == s.allocs,
    ensures
        u.resolve_bufs(bufs) == s.resolve_bufs(bufs),
{
    assert((|i: int| u.resolve_bufs_at(bufs, i)) =~= (|i: int| s.resolve_bufs_at(bufs, i)));
}

/// Kernels are queued with what they compute, read and write, and with the attributes of the call:
/// those of the stream, a programmatic launch, an event, a window, all attributes together, or
/// cooperatively.
pub proof fn kernels_are_queued(
    s: SimState,
    device: DeviceId,
    kind: KernelKind,
    reads: Seq<KernelBuf>,
    writes: Seq<KernelBuf>,
    stream: StreamId,
    pdl: ProgrammaticLaunch,
    launch: PdlLaunch,
    event: LaunchCompletionEvent,
    attrs: KernelAttrs,
)
    requires
        s.capturing is None,
    ensures
        ({
            let (t, r) = s.kernel_bufs(device, kind, reads, writes, stream);
            let o = t.ops[r->Ok_0];
            r is Ok ==> queued(s, t, r->Ok_0, device, stream, o.kind) && kernel_of(
                s,
                o.kind,
                kind,
                reads,
                writes,
                false,
            ) && attributed(
                s,
                Enq { nvlink_util_centric: s.stream_nvlink_util_centric(device, stream), ..s.enq },
                o,
            )
        }),
        ({
            let (t, r) = s.kernel_pdl_bufs(device, kind, reads, writes, stream, pdl);
            let o = t.ops[r->Ok_0];
            r is Ok ==> queued(s, t, r->Ok_0, device, stream, o.kind) && kernel_of(
                s,
                o.kind,
                kind,
                reads,
                writes,
                false,
            ) && attributed(s, Enq { pdl, ..s.enq }, o)
        }),
        ({
            let (t, r) = s.kernel_pdl_event_bufs(device, kind, reads, writes, stream, launch);
            let o = t.ops[r->Ok_0];
            r is Ok ==> queued(s, t, r->Ok_0, device, stream, o.kind) && kernel_of(
                s,
                o.kind,
                kind,
                reads,
                writes,
                false,
            ) && attributed(
                s,
                Enq { pdl: launch.pdl, programmatic_event: launch.event, ..s.enq },
                o,
            )
        }),
        ({
            let (t, r) = s.kernel_launch_completion_bufs(
                device,
                kind,
                reads,
                writes,
                stream,
                event,
            );
            let o = t.ops[r->Ok_0];
            r is Ok ==> queued(s, t, r->Ok_0, device, stream, o.kind) && kernel_of(
                s,
                o.kind,
                kind,
                reads,
                writes,
                false,
            ) && attributed(s, Enq { launch_completion: Some(event), ..s.enq }, o)
        }),
        ({
            let (t, r) = s.cooperative_kernel_bufs(device, kind, reads, writes, stream);
            let o = t.ops[r->Ok_0];
            r is Ok ==> queued(s, t, r->Ok_0, device, stream, o.kind) && kernel_of(
                s,
                o.kind,
                kind,
                reads,
                writes,
                true,
            ) && attributed(s, s.enq, o) && s.profile.gpu(device)->Ok_0.cooperative_launch
        }),
        ({
            let (t, r) = s.kernel_bufs_with(device, kind, reads, writes, stream, attrs);
            let o = t.ops[r->Ok_0];
            r is Ok ==> queued(s, t, r->Ok_0, device, stream, o.kind) && kernel_of(
                s,
                o.kind,
                kind,
                reads,
                writes,
                attrs.cooperative,
            ) && o.attrs.pdl == attrs.pdl && o.attrs.access_policy == attrs.access_policy
                && o.attrs.cluster == attrs.cluster && o.attrs.cluster_policy
                == attrs.cluster_policy && o.attrs.preferred_cluster == attrs.preferred_cluster
                && o.attrs.carveout == attrs.carveout && o.attrs.shared_mem == attrs.shared_mem
                && o.attrs.nvlink_util_centric == attrs.nvlink_util_centric && o.attrs.priority
                == match attrs.priority {
                Some(p) => p,
                None => s.stream_priority(device, stream),
            }
        }),
{
    let e1 = Enq {
        nvlink_util_centric: s.stream_nvlink_util_centric(device, stream),
        ..s.enq
    };
    if s.kernel_bufs(device, kind, reads, writes, stream).1 is Ok {
        lemma_kernel_under(s, e1, device, kind, reads, writes, stream, false);
    }
    if s.kernel_pdl_bufs(device, kind, reads, writes, stream, pdl).1 is Ok {
        lemma_kernel_under(s, Enq { pdl, ..s.enq }, device, kind, reads, writes, stream, false);
    }
    if s.kernel_pdl_event_bufs(device, kind, reads, writes, stream, launch).1 is Ok {
        lemma_kernel_under(
            s,
            Enq { pdl: launch.pdl, programmatic_event: launch.event, ..s.enq },
            device,
            kind,
            reads,
            writes,
            stream,
            false,
        );
    }
    if s.kernel_launch_completion_bufs(device, kind, reads, writes, stream, event).1 is Ok {
        lemma_kernel_under(
            s,
            Enq { launch_completion: Some(event), ..s.enq },
            device,
            kind,
            reads,
            writes,
            stream,
            false,
        );
    }
    if s.cooperative_kernel_bufs(device, kind, reads, writes, stream).1 is Ok {
        let rd = s.resolve_bufs(reads)->Ok_0;
        let wr = s.resolve_bufs(writes)->Ok_0;
        submitted_is_queued(
            s,
            device,
            stream,
            GpuOpView::Kernel { kind, reads: rd, writes: wr, cooperative: true },
        );
    }
    if s.kernel_bufs_with(device, kind, reads, writes, stream, attrs).1 is Ok {
        lemma_kernel_under(
            s,
            s.enq_with(attrs),
            device,
            kind,
            reads,
            writes,
            stream,
            attrs.cooperative,
        );
    }
}

/// A kernel that is given allocations reads and writes the whole of each.
pub proof fn whole_allocations_are_touched(s: SimState, ids: Seq<AllocId>)
    requires
        forall|i: int|
            0 <= i < ids.len() ==> s.allocs.contains_key(
                #[trigger] ids[i],
            ) && s.allocs[ids[i]].bytes
                > 0,
    ensures
        s.whole_bufs(ids).len() == ids.len(),
        s.resolve_bufs(s.whole_bufs(ids)) is Ok,
        s.resolve_bufs(s.whole_bufs(ids))->Ok_0.len() == ids.len(),
        forall|i: int|
            0 <= i < ids.len() ==> (#[trigger] s.resolve_bufs(s.whole_bufs(ids))->Ok_0[i]) == (
            KernelBuf { id: ids[i], offset: 0, bytes: s.allocs[ids[i]].bytes }),
{
    let bufs = s.whole_bufs(ids);
    let f = |i: int| s.resolve_bufs_at(bufs, i);
    assert forall|i: int| 0 <= i < bufs.len() implies #[trigger] f(i) == Ok::<KernelBuf, SimError>(
        KernelBuf { id: ids[i], offset: 0, bytes: s.allocs[ids[i]].bytes },
    ) by {
        assert(s.allocs.contains_key(ids[i]));
        assert(bufs[i].id == ids[i]);
    }
    lemma_all_ok(bufs.len(), f, bufs.len() as int);
}

/// Records and waits of events, host functions, frees and attachments are queued as such. An event
/// that was never created is made by its first record or wait, with timing.
pub proof fn other_work_is_queued(
    s: SimState,
    device: DeviceId,
    stream: StreamId,
    event: EventId,
    id: AllocId,
    flags: MemAttach,
    params: HostNodeParams,
)
    requires
        s.capturing is None,
    ensures
        ({
            let (t, r) = s.record_event(device, event, stream);
            r is Ok ==> queued(
                s,
                t,
                r->Ok_0,
                device,
                stream,
                GpuOpView::EventRecord { event, external: false },
            ) && t.events.contains_key(event) && (!s.events.contains_key(event)
                ==> t.events[event].timing && t.events[event].ipc_src is None)
        }),
        ({
            let (t, r) = s.record_event_external(device, event, stream);
            r is Ok ==> queued(
                s,
                t,
                r->Ok_0,
                device,
                stream,
                GpuOpView::EventRecord { event, external: true },
            )
        }),
        ({
            let (t, r) = s.wait_event(device, event, stream);
            r is Ok ==> queued(
                s,
                t,
                r->Ok_0,
                device,
                stream,
                GpuOpView::EventWait { event, external: false },
            ) && t.events.contains_key(event)
        }),
        ({
            let (t, r) = s.wait_event_external(device, event, stream);
            r is Ok ==> queued(
                s,
                t,
                r->Ok_0,
                device,
                stream,
                GpuOpView::EventWait { event, external: true },
            )
        }),
        ({
            let (t, r) = s.host_func_params(device, stream, params);
            r is Ok ==> queued(
                s,
                t,
                r->Ok_0,
                device,
                stream,
                GpuOpView::HostFunc { fn_id: params.fn_id, user_data: params.user_data },
            )
        }),
        ({
            let (t, r) = s.free(device, id, stream);
            r is Ok ==> queued(s, t, OpId(s.next.op), device, stream, GpuOpView::Free { id })
        }),
        ({
            let (t, r) = s.stream_attach(device, id, stream, flags);
            r is Ok ==> queued(s, t, r->Ok_0, device, stream, GpuOpView::Attach { id, flags })
                && s.allocs.contains_key(id) && s.allocs[id].live && s.allocs[id].managed
        }),
{
    assert(0u32 & !1u32 == 0 && 1u32 & !1u32 == 0 && 0u32 & 1u32 == 0 && 1u32 & 1u32 == 1)
        by (bit_vector);
    let u = s.ensure_event(event);
    assert(u == SimState { events: u.events, ..s });
    lemma_queued(u, device, stream, GpuOpView::EventRecord { event, external: false });
    lemma_queued(u, device, stream, GpuOpView::EventRecord { event, external: true });
    lemma_queued(u, device, stream, GpuOpView::EventWait { event, external: false });
    lemma_queued(u, device, stream, GpuOpView::EventWait { event, external: true });
    lemma_queued(
        s,
        device,
        stream,
        GpuOpView::HostFunc { fn_id: params.fn_id, user_data: params.user_data },
    );
    lemma_queued(s, device, stream, GpuOpView::Free { id });
    lemma_queued(s, device, stream, GpuOpView::Attach { id, flags });
    lemma_event_stays(u, device, stream, GpuOpView::EventRecord { event, external: false }, event);
    lemma_event_stays(u, device, stream, GpuOpView::EventWait { event, external: false }, event);
}

proof fn lemma_queued(s: SimState, device: DeviceId, stream: StreamId, kind: GpuOpView)
    requires
        s.capturing is None,
    ensures
        ({
            let (t, r) = s.submit(device, stream, kind);
            r is Ok ==> queued(s, t, r->Ok_0, device, stream, kind)
        }),
{
    if s.submit(device, stream, kind).1 is Ok {
        submitted_is_queued(s, device, stream, kind);
    }
}

proof fn lemma_event_stays(
    s: SimState,
    device: DeviceId,
    stream: StreamId,
    kind: GpuOpView,
    event: EventId,
)
    requires
        s.capturing is None,
        s.events.contains_key(event),
    ensures
        ({
            let t = s.submit(device, stream, kind).0;
            &&& t.events.contains_key(event)
            &&& t.events[event].timing == s.events[event].timing
            &&& t.events[event].ipc_src == s.events[event].ipc_src
        }),
{
    reveal(SimState::submit_live);
}

/// Writes of and waits for words are queued as such, of four or eight bytes.
pub proof fn word_operations_are_queued(
    s: SimState,
    device: DeviceId,
    id: AllocId,
    offset: u64,
    value: u64,
    cmp: WaitValueCmp,
    stream: StreamId,
)
    requires
        s.capturing is None,
    ensures
        ({
            let (t, r) = s.write_value64(device, id, offset, value, stream);
            r is Ok ==> queued(
                s,
                t,
                r->Ok_0,
                device,
                stream,
                GpuOpView::WriteValue { id, offset, value, bits32: false },
            )
        }),
        ({
            let (t, r) = s.write_value32(device, id, offset, value, stream);
            r is Ok ==> queued(
                s,
                t,
                r->Ok_0,
                device,
                stream,
                GpuOpView::WriteValue { id, offset, value, bits32: true },
            )
        }),
        ({
            let (t, r) = s.wait_value64(device, id, offset, value, cmp, stream);
            r is Ok ==> queued(
                s,
                t,
                r->Ok_0,
                device,
                stream,
                GpuOpView::WaitValue { id, offset, value, bits32: false, cmp },
            )
        }),
        ({
            let (t, r) = s.wait_value32(device, id, offset, value, cmp, stream);
            r is Ok ==> queued(
                s,
                t,
                r->Ok_0,
                device,
                stream,
                GpuOpView::WaitValue { id, offset, value, bits32: true, cmp },
            )
        }),
{
    lemma_queued(s, device, stream, GpuOpView::WriteValue { id, offset, value, bits32: false });
    lemma_queued(s, device, stream, GpuOpView::WriteValue { id, offset, value, bits32: true });
    lemma_queued(s, device, stream, GpuOpView::WaitValue { id, offset, value, bits32: false, cmp });
    lemma_queued(s, device, stream, GpuOpView::WaitValue { id, offset, value, bits32: true, cmp });
}

} // verus!
