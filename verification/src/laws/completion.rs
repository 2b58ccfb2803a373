//! What operations leave behind when they start and when they end.
use vstd::prelude::*;
use crate::error::SimError;
use crate::ids::{AllocId, DeviceId, OpId};
use crate::laws::costs::{held, moved_bytes};
use crate::laws::frames::{
    finish_kernel_keeps_work, finish_memcpy_keeps_work, migrate_off_all_keeps_moved,
    migrate_off_except_keeps_moved, refund_device_keeps_allocs, unlease_bufs_keeps_gpus,
};
use crate::list::{with_new, without};
use crate::ops::{GpuOpView, KernelBuf, KernelKind, MemAttach, MemcpyOp, Place};
use crate::profile::GpuProfile;
use crate::sim::SimState;
use crate::state::{AllocView, Attach, GpuRtView, OpView, Running};

verus! {

/// An operation has ended, at the time of the state, and is no longer in flight.
pub open spec fn ended_now(s: SimState, t: SimState, id: OpId) -> bool {
    &&& t.ops.contains_key(id)
    &&& t.ops[id] == (OpView { done: true, done_ns: Some(s.clock), ..s.ops[id] })
    &&& !t.is_running(id)
    &&& t.clock == s.clock
}

proof fn lemma_out_of_flight(q: Seq<Running>, id: OpId)
    ensures
        forall|i: int|
            0 <= i < SimState::runs_apart(q, id).len() ==> (#[trigger] SimState::runs_apart(
                q,
                id,
            )[i]).op != id,
    decreases q.len(),
{
    if q.len() > 0 {
        lemma_out_of_flight(q.drop_last(), id);
    }
}

/// Whether an operation is about to end as what it is.
pub open spec fn ends_as(s: SimState, id: OpId, kind: GpuOpView) -> bool {
    &&& s.ops.contains_key(id)
    &&& s.ops[id].kind == kind
    &&& !s.ops[id].skipped
    &&& s.complete(id).1 is Ok
}

proof fn lemma_copies_left(
    s: SimState,
    id: AllocId,
    keep: DeviceId,
    bytes: u64,
    holders: Seq<DeviceId>,
    i: int,
    x: DeviceId,
)
    requires
        0 <= i,
        s.allocs.contains_key(id),
        s.migrate_off_except_from(id, keep, bytes, holders, i).1 is Ok,
    ensures
        ({
            let t = s.migrate_off_except_from(id, keep, bytes, holders, i).0;
            &&& t.allocs.contains_key(id)
            &&& t.allocs[id] == (AllocView { devices: t.allocs[id].devices, ..s.allocs[id] })
            &&& t.allocs[id].devices.contains(x) <==> s.allocs[id].devices.contains(x) && (x == keep
                || !exists|j: int| i <= j < holders.len() && #[trigger] holders[j] == x)
        }),
    decreases holders.len() - i,
{
    if i < holders.len() {
        let d = holders[i];
        if d == keep {
            lemma_copies_left(s, id, keep, bytes, holders, i + 1, x);
        } else {
            refund_device_keeps_allocs(s, d, id, bytes);
            let u = s.refund_device(d, id, bytes).0;
            let a = AllocView { devices: without(u.allocs[id].devices, d), ..u.allocs[id] };
            let v = SimState { allocs: u.allocs.insert(id, a), ..u };
            lemma_copies_left(v, id, keep, bytes, holders, i + 1, x);
            lemma_without(u.allocs[id].devices, d, x);
        }
        if x != keep && exists|j: int| i <= j < holders.len() && #[trigger] holders[j] == x {
            let j = choose|j: int| i <= j < holders.len() && #[trigger] holders[j] == x;
            if j > i {
                assert(holders[j] == x && i + 1 <= j);
            }
        }
    }
}

proof fn lemma_without<K>(q: Seq<K>, d: K, x: K)
    ensures
        without(q, d).contains(x) <==> q.contains(x) && x != d,
    decreases q.len(),
{
    if q.len() > 0 {
        let p = q.drop_last();
        lemma_without(p, d, x);
        assert(q =~= p.push(q.last()));
        lemma_push_holds(p, q.last(), x);
        lemma_push_holds(without(p, d), q.last(), x);
    }
}

proof fn lemma_push_holds<K>(q: Seq<K>, y: K, x: K)
    ensures
        q.push(y).contains(x) <==> q.contains(x) || x == y,
{
    if q.contains(x) {
        let j = choose|j: int| 0 <= j < q.len() && q[j] == x;
        assert(q.push(y)[j] == x);
    }
    assert(q.push(y)[q.len() as int] == y);
    if q.push(y).contains(x) {
        let j = choose|j: int| 0 <= j < q.push(y).len() && q.push(y)[j] == x;
        if j < q.len() {
            assert(q[j] == x);
        }
    }
}

proof fn lemma_no_copies_left(
    s: SimState,
    id: AllocId,
    bytes: u64,
    holders: Seq<DeviceId>,
    i: int,
)
    requires
        s.allocs.contains_key(id),
        s.migrate_off_all_from(id, bytes, holders, i).1 is Ok,
    ensures
        ({
            let t = s.migrate_off_all_from(id, bytes, holders, i).0;
            &&& t.allocs.contains_key(id)
            &&& t.allocs[id] == (AllocView { devices: Seq::empty(), ..s.allocs[id] })
        }),
    decreases holders.len() - i,
{
    if 0 <= i < holders.len() {
        refund_device_keeps_allocs(s, holders[i], id, bytes);
        lemma_no_copies_left(s.refund_device(holders[i], id, bytes).0, id, bytes, holders, i + 1);
    }
}

/// A copy that ends leaves its memory where it went. On a GPU it is there besides where it was, but
/// managed memory that is not read-mostly is there alone. On the host managed memory has no other
/// place left. What went over a link counts as moved.
pub proof fn copy_arrives(s: SimState, id: OpId, m: MemcpyOp, x: DeviceId)
    requires
        ends_as(s, id, GpuOpView::Memcpy(m)),
        s.allocs.contains_key(m.alloc),
    ensures
        ({
            let t = s.complete(id).0;
            let a = s.allocs[m.alloc];
            let b = t.allocs[m.alloc];
            &&& ended_now(s, t, id)
            &&& t.allocs.contains_key(m.alloc)
            &&& b == (AllocView { devices: b.devices, host_pinned: b.host_pinned, ..a })
            &&& m.dst matches Place::Device(d) ==> b.host_pinned == a.host_pinned && (
            b.devices.contains(x) <==> x == d || (a.devices.contains(x) && !(a.managed
                && !a.read_mostly)))
            &&& a.managed && !(m.dst is Device) ==> b.devices.len() == 0 && b.host_pinned
                == a.host_pinned
            &&& !a.managed && m.dst is Host ==> b == a
            &&& !a.managed && m.dst is HostPinned ==> b == (AllocView { host_pinned: true, ..a })
            &&& t.bytes_moved == if s.on_link(id) {
                held(s.bytes_moved + moved_bytes(m.bytes, m.height, m.depth))
            } else {
                s.bytes_moved as int
            }
        }),
{
    reveal(SimState::complete);
    reveal(SimState::finish_kind);
    reveal(SimState::finish_memcpy);
    reveal(SimState::finish_device_launch);
    reveal(SimState::continue_while);
    lemma_out_of_flight(s.running, id);
    let dma = s.on_link(id);
    let device = s.ops[id].device;
    let s1 = s.drop_running(id);
    let s2 = if dma {
        let rt = s1.gpus[device];
        SimState {
            gpus: s1.gpus.insert(
                device,
                GpuRtView { copies: rt.copies.saturating_sub(1), ..rt },
            ),
            bytes_moved: s1.bytes_moved.saturating_add(m.payload_bytes()),
            ..s1
        }
    } else {
        s1
    };
    let a = s.allocs[m.alloc];
    finish_memcpy_keeps_work(s1, device, m, dma);
    match m.dst {
        Place::Device(d) => {
            let b = AllocView { devices: with_new(a.devices, d), ..a };
            let s3 = SimState { allocs: s2.allocs.insert(m.alloc, b), ..s2 };
            if !a.devices.contains(d) {
                lemma_push_holds(a.devices, d, x);
            }
            assert(b.devices.contains(x) <==> a.devices.contains(x) || x == d);
            if a.managed && !a.read_mostly {
                migrate_off_except_keeps_moved(s3, m.alloc, d);
                lemma_copies_left(s3, m.alloc, d, a.bytes, b.devices, 0, x);
                if b.devices.contains(x) {
                    let j = choose|j: int| 0 <= j < b.devices.len() && b.devices[j] == x;
                    assert(b.devices[j] == x);
                }
            }
        },
        _ => {
            if a.managed {
                migrate_off_all_keeps_moved(s2, m.alloc);
                lemma_no_copies_left(s2, m.alloc, a.bytes, a.devices, 0);
            }
        },
    }
    lemma_moved(m);
}

proof fn lemma_moved(m: MemcpyOp)
    ensures
        m.payload_bytes() == moved_bytes(m.bytes, m.height, m.depth),
{
}

/// An allocation that ends is live on its GPU.
pub proof fn allocation_goes_live(s: SimState, id: OpId, alloc: AllocId, bytes: u64, x: DeviceId)
    requires
        ends_as(s, id, (GpuOpView::Alloc { id: alloc, bytes })),
        s.allocs.contains_key(alloc),
    ensures
        ({
            let t = s.complete(id).0;
            let a = s.allocs[alloc];
            let b = t.allocs[alloc];
            &&& ended_now(s, t, id)
            &&& b == (AllocView { live: true, devices: b.devices, ..a })
            &&& b.devices.contains(x) <==> a.devices.contains(x) || x == s.ops[id].device
        }),
{
    reveal(SimState::complete);
    reveal(SimState::finish_kind);
    reveal(SimState::finish_alloc);
    reveal(SimState::finish_device_launch);
    reveal(SimState::continue_while);
    lemma_out_of_flight(s.running, id);
    let a = s.allocs[alloc];
    if !a.devices.contains(s.ops[id].device) {
        lemma_push_holds(a.devices, s.ops[id].device, x);
    }
}

/// An attachment that ends makes managed memory visible as asked: to all streams, to none, or to the
/// stream of the attachment.
pub proof fn attachment_takes_effect(s: SimState, id: OpId, alloc: AllocId, flags: MemAttach)
    requires
        ends_as(s, id, (GpuOpView::Attach { id: alloc, flags })),
        s.allocs.contains_key(alloc),
    ensures
        ({
            let t = s.complete(id).0;
            let to = match flags {
                MemAttach::Global => Attach::Global,
                MemAttach::Host => Attach::Host,
                MemAttach::Single => Attach::Single(s.ops[id].stream),
            };
            &&& ended_now(s, t, id)
            &&& t.allocs == s.allocs.insert(alloc, AllocView { attach: to, ..s.allocs[alloc] })
        }),
{
    reveal(SimState::complete);
    reveal(SimState::finish_kind);
    reveal(SimState::finish_attach);
    reveal(SimState::finish_device_launch);
    reveal(SimState::continue_while);
    lemma_out_of_flight(s.running, id);
}

/// How often an allocation occurs in a list of buffers.
pub open spec fn uses(bufs: Seq<KernelBuf>, n: int, id: AllocId) -> nat
    decreases n,
{
    if n <= 0 {
        0
    } else {
        uses(bufs, n - 1, id) + if bufs[n - 1].id == id {
            1nat
        } else {
            0nat
        }
    }
}

proof fn lemma_leased(z: SimState, s: SimState, bufs: Seq<KernelBuf>, i: int, id: AllocId)
    requires
        0 <= i <= bufs.len(),
        z.allocs.contains_key(id),
        s.allocs.contains_key(id),
        z.allocs[id].leases + uses(bufs, bufs.len() as int, id) <= u32::MAX,
        s.allocs[id] == (AllocView {
            leases: (z.allocs[id].leases + uses(bufs, i, id)) as u32,
            ..z.allocs[id]
        }),
        s.lease_bufs_from(bufs, i).1 is Ok,
    ensures
        ({
            let t = s.lease_bufs_from(bufs, i).0;
            &&& t.allocs.contains_key(id)
            &&& t.allocs[id] == (AllocView {
                leases: (z.allocs[id].leases + uses(bufs, bufs.len() as int, id)) as u32,
                ..z.allocs[id]
            })
        }),
    decreases bufs.len() - i,
{
    lemma_uses_grow(bufs, i, bufs.len() as int, id);
    if i < bufs.len() {
        lemma_uses_grow(bufs, i + 1, bufs.len() as int, id);
        let a = s.allocs[bufs[i].id];
        let b = AllocView { leases: a.leases.saturating_add(1), ..a };
        let u = SimState { allocs: s.allocs.insert(bufs[i].id, b), ..s };
        lemma_leased(z, u, bufs, i + 1, id);
    }
}

proof fn lemma_uses_grow(bufs: Seq<KernelBuf>, i: int, j: int, id: AllocId)
    requires
        i <= j,
    ensures
        uses(bufs, i, id) <= uses(bufs, j, id),
    decreases j - i,
{
    if i < j {
        lemma_uses_grow(bufs, i, j - 1, id);
    }
}

proof fn lemma_unleased(z: SimState, s: SimState, bufs: Seq<KernelBuf>, i: int, id: AllocId)
    requires
        0 <= i <= bufs.len(),
        z.allocs.contains_key(id),
        s.allocs.contains_key(id),
        uses(bufs, bufs.len() as int, id) <= z.allocs[id].leases,
        s.allocs[id] == (AllocView {
            leases: (z.allocs[id].leases - uses(bufs, i, id)) as u32,
            ..z.allocs[id]
        }),
        s.unlease_bufs_from(bufs, i).1 is Ok,
    ensures
        ({
            let t = s.unlease_bufs_from(bufs, i).0;
            &&& t.allocs.contains_key(id)
            &&& t.allocs[id] == (AllocView {
                leases: (z.allocs[id].leases - uses(bufs, bufs.len() as int, id)) as u32,
                ..z.allocs[id]
            })
        }),
    decreases bufs.len() - i,
{
    lemma_uses_grow(bufs, i, bufs.len() as int, id);
    if i < bufs.len() {
        lemma_uses_grow(bufs, i + 1, bufs.len() as int, id);
        let u = s.unlease(bufs[i].id).0;
        lemma_unleased(z, u, bufs, i + 1, id);
    }
}

/// A kernel leases each buffer that it reads or writes, once for each use, and gives the leases back
/// when it ends: nothing else about the memory changes.
pub proof fn leases_are_given_back(
    s: SimState,
    device: DeviceId,
    reads: Seq<KernelBuf>,
    writes: Seq<KernelBuf>,
    id: AllocId,
)
    requires
        s.allocs.contains_key(id),
        s.allocs[id].leases + uses(reads, reads.len() as int, id) + uses(
            writes,
            writes.len() as int,
            id,
        ) <= u32::MAX,
        s.lease_kernel(device, reads, writes, true).1 is Ok,
        s.lease_kernel(device, reads, writes, true).0.unlease_bufs(reads).1 is Ok,
        s.lease_kernel(device, reads, writes, true).0.unlease_bufs(reads).0.unlease_bufs(
            writes,
        ).1 is Ok,
    ensures
        ({
            let t = s.lease_kernel(device, reads, writes, true).0;
            let u = t.unlease_bufs(reads).0.unlease_bufs(writes).0;
            &&& t.allocs.contains_key(id)
            &&& t.allocs[id] == (AllocView { leases: t.allocs[id].leases, ..s.allocs[id] })
            &&& t.allocs[id].leases == s.allocs[id].leases + uses(reads, reads.len() as int, id)
                + uses(writes, writes.len() as int, id)
            &&& u.allocs.contains_key(id)
            &&& u.allocs[id] == s.allocs[id]
        }),
{
    let t1 = s.lease_bufs(reads).0;
    lemma_leased(s, s, reads, 0, id);
    lemma_leased(t1, t1, writes, 0, id);
    let t = s.lease_kernel(device, reads, writes, true).0;
    lemma_unleased(t, t, reads, 0, id);
    let u1 = t.unlease_bufs(reads).0;
    lemma_unleased(u1, u1, writes, 0, id);
}

/// A kernel that ends gives back its compute slots and its leases.
pub proof fn kernel_gives_back(
    s: SimState,
    id: OpId,
    kind: KernelKind,
    reads: Seq<KernelBuf>,
    writes: Seq<KernelBuf>,
    cooperative: bool,
    a: AllocId,
)
    requires
        ends_as(s, id, (GpuOpView::Kernel { kind, reads, writes, cooperative })),
        s.allocs.contains_key(a),
        s.gpus.contains_key(s.ops[id].device),
        uses(reads, reads.len() as int, a) + uses(writes, writes.len() as int, a)
            <= s.allocs[a].leases,
    ensures
        ({
            let t = s.complete(id).0;
            let d = s.ops[id].device;
            let slots = s.slots_of(id)->Ok_0;
            &&& ended_now(s, t, id)
            &&& t.allocs[a] == (AllocView {
                leases: (s.allocs[a].leases - uses(reads, reads.len() as int, a) - uses(
                    writes,
                    writes.len() as int,
                    a,
                )) as u32,
                ..s.allocs[a]
            })
            &&& s.gpus[d].compute >= slots && slots >= 1 ==> t.gpus[d].compute == s.gpus[d].compute
                - slots
        }),
{
    reveal(SimState::complete);
    reveal(SimState::finish_kind);
    reveal(SimState::finish_kernel);
    reveal(SimState::drop_compute_n);
    reveal(SimState::finish_device_launch);
    reveal(SimState::continue_while);
    lemma_out_of_flight(s.running, id);
    let s1 = s.drop_running(id);
    let d = s.ops[id].device;
    let slots = s1.slots_of(id)->Ok_0;
    let s2 = s1.drop_compute_n(d, slots).0;
    finish_kernel_keeps_work(s1, id, d, reads, writes);
    assert(s2.allocs == s.allocs);
    lemma_unleased(s2, s2, reads, 0, a);
    let s3 = s2.unlease_bufs(reads).0;
    unlease_bufs_keeps_gpus(s2, reads);
    unlease_bufs_keeps_gpus(s3, writes);
    lemma_unleased(s3, s3, writes, 0, a);
}

/// A cooperative kernel, one with the largest shared memory, one that is spread over clusters, and
/// one that minds NVLink on a node that has it, take every compute slot of the GPU; any other takes
/// one for each block of its cluster, as far as there are that many, and one without a cluster.
pub proof fn kernel_takes_its_slots(s: SimState, id: OpId, g: GpuProfile)
    requires
        s.ops.contains_key(id),
        s.ops[id].kind is Kernel,
        s.profile.gpu(s.ops[id].device) == Ok::<GpuProfile, SimError>(g),
        s.slots_of(id) is Ok,
    ensures
        ({
            let o = s.ops[id];
            let n = s.slots_of(id)->Ok_0;
            let all = if g.compute_slots == 0 {
                1
            } else {
                g.compute_slots as int
            };
            &&& 1 <= n <= all
            &&& o.kind->Kernel_cooperative ==> n == all
            &&& o.attrs.nvlink_util_centric && s.profile.has_nvlink() ==> n == all
            &&& o.attrs.carveout.occupies_all_slots() ==> n == all
            &&& !o.kind->Kernel_cooperative && !o.attrs.nvlink_util_centric
                && !o.attrs.carveout.occupies_all_slots() && o.attrs.cluster is None
                && o.attrs.preferred_cluster is None ==> n == 1
        }),
{
}

} // verus!
