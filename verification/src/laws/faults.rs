//! Managed memory: what a kernel touches is brought to its GPU first.
use vstd::prelude::*;
use crate::error::SimError;
use crate::ids::{AllocId, DeviceId, OpId};
use crate::list::{first_where, lemma_each_ok, lemma_first_where, lemma_ok_each, with_new};
use crate::ops::{GpuOpView, KernelBuf, KernelKind, Place};
use crate::sim::SimState;
use crate::state::{AllocView, OpView, Preferred};
use crate::table::lemma_order_exists;

verus! {

/// Whether reading needs managed memory to be brought to a device: it is not there, and may not be
/// read from afar.
pub open spec fn read_misses(s: SimState, device: DeviceId, id: AllocId) -> bool {
    let a = s.allocs[id];
    &&& s.allocs.contains_key(id)
    &&& a.live
    &&& a.managed
    &&& !a.devices.contains(device)
    &&& !a.accessed_by.contains(device)
    &&& !(a.preferred matches Preferred::Gpu(p) && a.devices.contains(p) && p != device)
}

/// Whether writing needs managed memory to be brought to a device: it is not there.
pub open spec fn write_misses(s: SimState, device: DeviceId, id: AllocId) -> bool {
    let a = s.allocs[id];
    &&& s.allocs.contains_key(id)
    &&& a.live
    &&& a.managed
    &&& !a.devices.contains(device)
}

/// Whether a buffer of a list is of an allocation.
pub open spec fn touches(bufs: Seq<KernelBuf>, id: AllocId) -> bool {
    exists|i: int| 0 <= i < bufs.len() && (#[trigger] bufs[i]).id == id
}

/// Whether a kernel faults on an allocation.
pub open spec fn faults_on(
    s: SimState,
    device: DeviceId,
    reads: Seq<KernelBuf>,
    writes: Seq<KernelBuf>,
    id: AllocId,
) -> bool {
    (touches(reads, id) && read_misses(s, device, id)) || (touches(writes, id) && write_misses(
        s,
        device,
        id,
    ))
}

proof fn lemma_reads(
    s: SimState,
    device: DeviceId,
    reads: Seq<KernelBuf>,
    wait: Set<AllocId>,
    i: int,
    id: AllocId,
)
    requires
        0 <= i <= reads.len(),
        wait.finite(),
        s.read_faults_from(device, reads, wait, i) is Ok,
    ensures
        s.read_faults_from(device, reads, wait, i)->Ok_0.finite(),
        s.read_faults_from(device, reads, wait, i)->Ok_0.contains(id) <==> wait.contains(id) || (
        exists|j: int| i <= j < reads.len() && (#[trigger] reads[j]).id == id) && read_misses(
            s,
            device,
            id,
        ),
    decreases reads.len() - i,
{
    if i < reads.len() {
        let next = if read_misses(s, device, reads[i].id) {
            wait.insert(reads[i].id)
        } else {
            wait
        };
        lemma_reads(s, device, reads, next, i + 1, id);
        assert(s.read_faults_from(device, reads, wait, i) == s.read_faults_from(
            device,
            reads,
            next,
            i + 1,
        ));
        if reads[i].id == id {
            assert(exists|j: int| i <= j < reads.len() && (#[trigger] reads[j]).id == id);
        }
        if exists|j: int| i <= j < reads.len() && (#[trigger] reads[j]).id == id {
            let j = choose|j: int| i <= j < reads.len() && (#[trigger] reads[j]).id == id;
            if j > i {
                assert(i + 1 <= j < reads.len() && reads[j].id == id);
            }
        }
    }
}

proof fn lemma_writes(
    s: SimState,
    device: DeviceId,
    writes: Seq<KernelBuf>,
    wait: Set<AllocId>,
    i: int,
    id: AllocId,
)
    requires
        0 <= i <= writes.len(),
        wait.finite(),
        s.write_faults_from(device, writes, wait, i) is Ok,
    ensures
        s.write_faults_from(device, writes, wait, i)->Ok_0.finite(),
        s.write_faults_from(device, writes, wait, i)->Ok_0.contains(id) <==> wait.contains(id) || (
        exists|j: int| i <= j < writes.len() && (#[trigger] writes[j]).id == id) && write_misses(
            s,
            device,
            id,
        ),
    decreases writes.len() - i,
{
    if i < writes.len() {
        let next = if write_misses(s, device, writes[i].id) {
            wait.insert(writes[i].id)
        } else {
            wait
        };
        lemma_writes(s, device, writes, next, i + 1, id);
        assert(s.write_faults_from(device, writes, wait, i) == s.write_faults_from(
            device,
            writes,
            next,
            i + 1,
        ));
        if writes[i].id == id {
            assert(exists|j: int| i <= j < writes.len() && (#[trigger] writes[j]).id == id);
        }
        if exists|j: int| i <= j < writes.len() && (#[trigger] writes[j]).id == id {
            let j = choose|j: int| i <= j < writes.len() && (#[trigger] writes[j]).id == id;
            if j > i {
                assert(i + 1 <= j < writes.len() && writes[j].id == id);
            }
        }
    }
}

/// A kernel faults on each live managed allocation that it reads or writes without a copy on its
/// GPU, unless it only reads it and may do so from afar. Each is listed once.
pub proof fn faults_are_listed(
    s: SimState,
    device: DeviceId,
    reads: Seq<KernelBuf>,
    writes: Seq<KernelBuf>,
)
    requires
        s.managed_fault_ids(device, reads, writes) is Ok,
    ensures
        forall|id: AllocId| #[trigger]
            s.managed_fault_ids(device, reads, writes)->Ok_0.contains(id) <==> faults_on(
                s,
                device,
                reads,
                writes,
                id,
            ),
        s.managed_fault_ids(device, reads, writes)->Ok_0.no_duplicates(),
{
    let none = Set::<AllocId>::empty();
    let first = s.read_faults(device, reads)->Ok_0;
    let all = s.write_faults(device, writes, first)->Ok_0;
    let q = s.managed_fault_ids(device, reads, writes)->Ok_0;
    lemma_reads(s, device, reads, none, 0, AllocId(0));
    lemma_writes(s, device, writes, first, 0, AllocId(0));
    lemma_order_exists(all);
    assert forall|id: AllocId| #[trigger] q.contains(id) <==> faults_on(
        s,
        device,
        reads,
        writes,
        id,
    ) by {
        lemma_reads(s, device, reads, none, 0, id);
        lemma_writes(s, device, writes, first, 0, id);
        assert(q.contains(id) <==> all.contains(id));
    }
}

/// Whether an operation brings a whole allocation to a device, from another GPU that holds it or
/// from the host.
pub open spec fn brings(s: SimState, o: OpView, device: DeviceId, id: AllocId) -> bool {
    &&& o.device == device
    &&& !o.done
    &&& !o.cancelled
    &&& o.start_ns is None
    &&& o.submit_ns == s.clock
    &&& o.preds.len() == 0
    &&& o.kind matches GpuOpView::Memcpy(m) && m.alloc == id && m.dst == Place::Device(device)
        && m.bytes == s.allocs[id].bytes && m.offset == 0 && m.height == 0 && m.depth == 0 && m.src
        == (if s.allocs[id].devices.len() == 0 {
        Place::HostPinned
    } else {
        Place::Device(s.allocs[id].devices[0])
    })
}

proof fn lemma_fault_queued(
    s: SimState,
    kernel: OpId,
    device: DeviceId,
    id: AllocId,
    deps: Seq<OpId>,
)
    requires
        s.ops.contains_key(kernel),
        kernel.0 < s.next.op < u64::MAX,
        s.allocs.contains_key(id),
        !s.allocs[id].devices.contains(device),
        s.inject_fault_memcpy(kernel, device, id, deps).1 is Ok,
    ensures
        ({
            let t = s.inject_fault_memcpy(kernel, device, id, deps).0;
            let k = OpId(s.next.op);
            &&& t.ops.contains_key(k)
            &&& brings(s, t.ops[k], device, id)
            &&& t.ops[k].deps == deps
            &&& t.ops[k].stream == s.ops[kernel].stream
            &&& t.ops.contains_key(kernel)
            &&& t.ops[kernel].deps.contains(k)
            &&& forall|x: OpId| #[trigger]
                s.ops[kernel].deps.contains(x) ==> t.ops[kernel].deps.contains(x)
            &&& t.ops[kernel] == (OpView { deps: t.ops[kernel].deps, ..s.ops[kernel] })
            &&& forall|x: OpId|
                x != k && x != kernel ==> (#[trigger] t.ops.contains_key(x) <==> s.ops.contains_key(
                    x,
                )) && t.ops[x] == s.ops[x]
            &&& t.next.op == s.next.op + 1
            &&& t.allocs == s.allocs
            &&& t.clock == s.clock
            &&& t.running == s.running
        }),
{
    reveal(SimState::inject_fault_memcpy);
    let q = s.ops[kernel].deps;
    let k = OpId(s.next.op);
    let r = with_new(q, k);
    assert(r.contains(k)) by {
        if !q.contains(k) {
            assert(r[q.len() as int] == k);
        }
    }
    assert forall|x: OpId| #[trigger] q.contains(x) implies r.contains(x) by {
        let j = choose|j: int| 0 <= j < q.len() && q[j] == x;
        assert(r[j] == x);
    }
}

/// Whether an allocation is on its way to a device, ahead of a kernel.
pub open spec fn on_its_way(
    s: SimState,
    t: SimState,
    kernel: OpId,
    device: DeviceId,
    id: AllocId,
) -> bool {
    exists|k: OpId| #[trigger]
        t.ops.contains_key(k) && s.next.op <= k.0 < t.next.op && brings(s, t.ops[k], device, id)
            && t.ops[kernel].deps.contains(k)
}

proof fn lemma_all_queued(
    z: SimState,
    s: SimState,
    kernel: OpId,
    device: DeviceId,
    wait: Seq<AllocId>,
    deps: Seq<OpId>,
    i: int,
)
    requires
        0 <= i <= wait.len(),
        s.ops.contains_key(kernel),
        kernel.0 < z.next.op <= s.next.op,
        s.next.op + (wait.len() - i) < u64::MAX,
        s.allocs == z.allocs,
        s.clock == z.clock,
        s.running == z.running,
        forall|j: int|
            0 <= j < wait.len() ==> s.allocs.contains_key(#[trigger] wait[j])
                && !s.allocs[wait[j]].devices.contains(device),
        forall|j: int| 0 <= j < i ==> on_its_way(z, s, kernel, device, #[trigger] wait[j]),
        s.inject_faults_from(kernel, device, wait, deps, i).1 is Ok,
    ensures
        ({
            let t = s.inject_faults_from(kernel, device, wait, deps, i).0;
            &&& forall|j: int|
                0 <= j < wait.len() ==> on_its_way(z, t, kernel, device, #[trigger] wait[j])
            &&& t.running == z.running
            &&& t.allocs == z.allocs
        }),
    decreases wait.len() - i,
{
    if i < wait.len() {
        lemma_fault_queued(s, kernel, device, wait[i], deps);
        let u = s.inject_fault_memcpy(kernel, device, wait[i], deps).0;
        assert forall|j: int| 0 <= j < i + 1 implies on_its_way(
            z,
            u,
            kernel,
            device,
            #[trigger] wait[j],
        ) by {
            if j < i {
                assert(on_its_way(z, s, kernel, device, wait[j]));
                let k = choose|k: OpId| #[trigger]
                    s.ops.contains_key(k) && z.next.op <= k.0 < s.next.op && brings(
                        z,
                        s.ops[k],
                        device,
                        wait[j],
                    ) && s.ops[kernel].deps.contains(k);
                assert(k != kernel && k != OpId(s.next.op));
                assert(u.ops.contains_key(k) == s.ops.contains_key(k));
                assert(u.ops[k] == s.ops[k]);
                assert(u.ops[kernel].deps.contains(k));
            } else {
                let k = OpId(s.next.op);
                assert(u.ops.contains_key(k));
                assert(brings(z, u.ops[k], device, wait[i]));
            }
        }
        lemma_all_queued(z, u, kernel, device, wait, deps, i + 1);
    }
}

/// A kernel launched on a stream does not start while managed memory that it touches is missing on
/// its GPU: each missing allocation is queued to be brought there whole, behind what the kernel
/// waits for, and the kernel waits for all of them.
pub proof fn missing_memory_is_brought_first(
    s: SimState,
    id: OpId,
    kind: KernelKind,
    reads: Seq<KernelBuf>,
    writes: Seq<KernelBuf>,
    missing: AllocId,
)
    requires
        s.ops.contains_key(id),
        id.0 < s.next.op,
        s.ops[id].kind matches GpuOpView::Kernel { kind: k, reads: r, writes: w, .. } && k == kind
            && r == reads && w == writes,
        s.ops[id].launch is Kernel,
        !s.cond_skip(s.ops[id].preds),
        s.try_start(id).1 is Ok,
        s.next.op + s.managed_fault_ids(s.ops[id].device, reads, writes)->Ok_0.len() < u64::MAX,
        faults_on(s, s.ops[id].device, reads, writes, missing),
    ensures
        ({
            let (t, r) = s.try_start(id);
            &&& r == Ok::<bool, SimError>(true)
            &&& t.running == s.running
            &&& t.allocs == s.allocs
            &&& forall|a: AllocId|
                faults_on(s, s.ops[id].device, reads, writes, a) ==> #[trigger] on_its_way(
                    s,
                    t,
                    id,
                    s.ops[id].device,
                    a,
                )
        }),
{
    reveal(SimState::try_start);
    reveal(SimState::start_kind);
    reveal(SimState::start_kernel);
    let device = s.ops[id].device;
    faults_are_listed(s, device, reads, writes);
    let wait = s.managed_fault_ids(device, reads, writes)->Ok_0;
    assert(wait.contains(missing));
    assert(wait.len() > 0);
    assert forall|j: int| 0 <= j < wait.len() implies s.allocs.contains_key(#[trigger] wait[j])
        && !s.allocs[wait[j]].devices.contains(device) by {
        assert(wait.contains(wait[j]));
    }
    lemma_all_queued(s, s, id, device, wait, s.ops[id].deps, 0);
    let t = s.try_start(id).0;
    assert forall|a: AllocId| faults_on(s, device, reads, writes, a) implies #[trigger] on_its_way(
        s,
        t,
        id,
        device,
        a,
    ) by {
        assert(wait.contains(a));
        let j = choose|j: int| 0 <= j < wait.len() && wait[j] == a;
        assert(on_its_way(s, t, id, device, wait[j]));
    }
}

/// Whether managed memory is live and no alias of other memory.
pub open spec fn live_managed(s: SimState, id: AllocId) -> bool {
    let a = s.allocs[id];
    &&& s.allocs.contains_key(id)
    &&& a.live
    &&& a.managed
    &&& !a.vmm
    &&& a.share_src is None
    &&& a.ipc_src is None
}

proof fn lemma_first_refused(
    s: SimState,
    device: DeviceId,
    bufs: Seq<KernelBuf>,
    mapped: bool,
    remote: bool,
) -> (i: int)
    requires
        s.require_bufs_on_device(device, bufs, mapped, remote) is Err,
    ensures
        0 <= i < bufs.len(),
        s.require_bufs_on_device_at(device, bufs, mapped, remote, i) is Err,
        s.require_bufs_on_device(device, bufs, mapped, remote)->Err_0
            == s.require_bufs_on_device_at(device, bufs, mapped, remote, i)->Err_0,
{
    let f = |i: int| s.require_bufs_on_device_at(device, bufs, mapped, remote, i);
    let p = |i: int| f(i) is Err;
    lemma_first_where(bufs.len(), p);
    lemma_ok_each(bufs.len(), f);
    let i = choose|i: int|
        0 <= i < bufs.len() && #[trigger] p(i) && forall|j: int| 0 <= j < i ==> !#[trigger] p(j);
    assert(exists|i: int|
        0 <= i < bufs.len() && #[trigger] p(i) && forall|j: int| 0 <= j < i ==> !#[trigger] p(j))
        by {
        match first_where(bufs.len(), p) {
            Some(k) => {
                assert(p(k));
            },
            None => {
                assert forall|k: int| 0 <= k < bufs.len() implies #[trigger] f(k) is Ok by {
                    assert(!p(k));
                }
            },
        }
    }
    assert forall|j: int| 0 <= j < i implies #[trigger] f(j) is Ok by {
        assert(!p(j));
    }
    lemma_each_ok(bufs.len(), f, i);
    i
}

/// A kernel on whose GPU nothing is missing is never refused for managed memory that is not there.
pub proof fn managed_memory_is_at_hand(
    s: SimState,
    device: DeviceId,
    reads: Seq<KernelBuf>,
    writes: Seq<KernelBuf>,
    id: AllocId,
)
    requires
        forall|a: AllocId| !#[trigger] faults_on(s, device, reads, writes, a),
        live_managed(s, id),
    ensures
        s.lease_kernel(device, reads, writes, true).1 != Err::<(), SimError>(
            SimError::NotResident { alloc: id, device },
        ),
{
    assert(!faults_on(s, device, reads, writes, id));
    if s.require_bufs_on_device(device, reads, true, true) is Err {
        let i = lemma_first_refused(s, device, reads, true, true);
        if reads[i].id == id {
            assert(touches(reads, id));
            assert(!read_misses(s, device, id));
        }
    } else if s.require_bufs_on_device(device, writes, true, false) is Err {
        let i = lemma_first_refused(s, device, writes, true, false);
        if writes[i].id == id {
            assert(touches(writes, id));
            assert(!write_misses(s, device, id));
        }
    } else {
        lemma_lease_error(s, reads, 0);
        lemma_lease_error(s.lease_bufs(reads).0, writes, 0);
    }
}

proof fn lemma_lease_error(s: SimState, bufs: Seq<KernelBuf>, i: int)
    ensures
        s.lease_bufs_from(bufs, i).1 is Err ==> s.lease_bufs_from(bufs, i).1->Err_0 is UnknownAlloc,
    decreases bufs.len() - i,
{
    if 0 <= i < bufs.len() && s.allocs.contains_key(bufs[i].id) {
        let a = s.allocs[bufs[i].id];
        let b = AllocView { leases: a.leases.saturating_add(1), ..a };
        lemma_lease_error(SimState { allocs: s.allocs.insert(bufs[i].id, b), ..s }, bufs, i + 1);
    }
}

/// Where nothing is missing, a kernel is not held back to bring memory.
pub proof fn nothing_missing_brings_nothing(
    s: SimState,
    kernel: OpId,
    device: DeviceId,
    reads: Seq<KernelBuf>,
    writes: Seq<KernelBuf>,
)
    requires
        s.managed_fault_ids(device, reads, writes) is Ok,
        forall|a: AllocId| !#[trigger] faults_on(s, device, reads, writes, a),
    ensures
        s.inject_managed_faults(kernel, device, reads, writes) == (s, Ok::<bool, SimError>(false)),
{
    faults_are_listed(s, device, reads, writes);
    let wait = s.managed_fault_ids(device, reads, writes)->Ok_0;
    if wait.len() > 0 {
        assert(wait.contains(wait[0]));
    }
}

} // verus!
