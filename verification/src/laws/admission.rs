//! What lets work start: memory in its place, attached, and in one copy where it is written.
use vstd::prelude::*;
use crate::error::SimError;
use crate::ids::{AllocId, DeviceId, OpId, PoolId, StreamId};
use crate::laws::frames::refund_device_keeps_allocs;
use crate::laws::holdings::removed_is_gone;
use crate::laws::upkeep::moved_memory_leaves_others;
use crate::list::{lemma_ok_each, without};
use crate::ops::{KernelBuf, KernelKind};
use crate::sim::SimState;
use crate::state::{AllocView, Attach, LaunchCost};
use crate::table::{lemma_order_exists, order_of};

verus! {

proof fn lemma_others_stay(
    s: SimState,
    alloc: AllocId,
    keep: DeviceId,
    bytes: u64,
    holders: Seq<DeviceId>,
    i: int,
    id: AllocId,
)
    requires
        0 <= i,
        id != alloc,
        s.allocs.contains_key(id),
        s.migrate_off_except_from(alloc, keep, bytes, holders, i).1 is Ok,
    ensures
        ({
            let t = s.migrate_off_except_from(alloc, keep, bytes, holders, i).0;
            t.allocs.contains_key(id) && t.allocs[id] == s.allocs[id]
        }),
    decreases holders.len() - i,
{
    if i < holders.len() {
        let d = holders[i];
        if d == keep {
            lemma_others_stay(s, alloc, keep, bytes, holders, i + 1, id);
        } else {
            refund_device_keeps_allocs(s, d, alloc, bytes);
            let t = s.refund_device(d, alloc, bytes).0;
            let a = t.allocs[alloc];
            let u = SimState {
                allocs: t.allocs.insert(alloc, AllocView { devices: without(a.devices, d), ..a }),
                ..t
            };
            lemma_others_stay(u, alloc, keep, bytes, holders, i + 1, id);
        }
    }
}

proof fn lemma_nothing_comes_back(
    s: SimState,
    alloc: AllocId,
    keep: DeviceId,
    bytes: u64,
    holders: Seq<DeviceId>,
    i: int,
    x: DeviceId,
)
    requires
        0 <= i,
        s.allocs.contains_key(alloc),
        s.migrate_off_except_from(alloc, keep, bytes, holders, i).1 is Ok,
    ensures
        ({
            let t = s.migrate_off_except_from(alloc, keep, bytes, holders, i).0;
            &&& t.allocs.contains_key(alloc)
            &&& t.allocs[alloc].live == s.allocs[alloc].live
            &&& t.allocs[alloc].devices.contains(x) ==> s.allocs[alloc].devices.contains(x)
            &&& s.allocs[alloc].devices.contains(keep) ==> t.allocs[alloc].devices.contains(keep)
        }),
    decreases holders.len() - i,
{
    if i < holders.len() {
        let d = holders[i];
        if d == keep {
            lemma_nothing_comes_back(s, alloc, keep, bytes, holders, i + 1, x);
        } else {
            refund_device_keeps_allocs(s, d, alloc, bytes);
            let t = s.refund_device(d, alloc, bytes).0;
            let a = t.allocs[alloc];
            let u = SimState {
                allocs: t.allocs.insert(alloc, AllocView { devices: without(a.devices, d), ..a }),
                ..t
            };
            removed_is_gone(a.devices, d, x);
            removed_is_gone(a.devices, d, keep);
            lemma_nothing_comes_back(u, alloc, keep, bytes, holders, i + 1, x);
        }
    }
}

proof fn lemma_each_moves_off(
    s: SimState,
    ids: Seq<AllocId>,
    keep: DeviceId,
    i: int,
    j: int,
    x: DeviceId,
)
    requires
        0 <= i,
        0 <= j < ids.len(),
        s.allocs.contains_key(ids[j]),
        x != keep,
        i <= j || !s.allocs[ids[j]].devices.contains(x),
        s.migrate_each_from(ids, keep, i).1 is Ok,
    ensures
        ({
            let t = s.migrate_each_from(ids, keep, i).0;
            &&& !t.allocs[ids[j]].devices.contains(x)
            &&& s.allocs[ids[j]].devices.contains(keep) ==> t.allocs[ids[j]].devices.contains(keep)
            &&& t.allocs[ids[j]].live == s.allocs[ids[j]].live
        }),
    decreases ids.len() - i,
{
    if i < ids.len() {
        let a = s.allocs[ids[i]];
        let t = s.migrate_off_except(ids[i], keep).0;
        if ids[i] == ids[j] {
            lemma_nothing_comes_back(s, ids[j], keep, a.bytes, a.devices, 0, x);
            if a.devices.contains(x) {
                moved_memory_leaves_others(s, ids[j], keep, x);
            }
        } else {
            lemma_others_stay(s, ids[i], keep, a.bytes, a.devices, 0, ids[j]);
        }
        lemma_each_moves_off(t, ids, keep, i + 1, j, x);
    }
}

proof fn lemma_replicated(
    s: SimState,
    writes: Seq<KernelBuf>,
    ids: Set<AllocId>,
    i: int,
    j: int,
)
    requires
        0 <= i,
        0 <= j < writes.len(),
        ids.finite(),
        i <= j || ids.contains(writes[j].id),
        s.allocs[writes[j].id].live,
        s.allocs[writes[j].id].managed,
        s.allocs[writes[j].id].read_mostly,
        s.replicated_writes_from(writes, ids, i) is Ok,
    ensures
        s.replicated_writes_from(writes, ids, i)->Ok_0.contains(writes[j].id),
        s.replicated_writes_from(writes, ids, i)->Ok_0.finite(),
    decreases writes.len() - i,
{
    if i < writes.len() {
        let a = s.allocs[writes[i].id];
        let next = if a.live && a.managed && a.read_mostly {
            ids.insert(writes[i].id)
        } else {
            ids
        };
        lemma_replicated(s, writes, next, i + 1, j);
    }
}

/// Memory that is mostly read has one copy where it is written: the others are dropped before.
pub proof fn written_memory_has_one_copy(
    s: SimState,
    device: DeviceId,
    writes: Seq<KernelBuf>,
    i: int,
    x: DeviceId,
)
    requires
        s.invalidate_read_mostly_writes(device, writes).1 is Ok,
        0 <= i < writes.len(),
        s.allocs.contains_key(writes[i].id),
        s.allocs[writes[i].id].live,
        s.allocs[writes[i].id].managed,
        s.allocs[writes[i].id].read_mostly,
        x != device,
    ensures
        ({
            let t = s.invalidate_read_mostly_writes(device, writes).0;
            let id = writes[i].id;
            &&& !t.allocs[id].devices.contains(x)
            &&& s.allocs[id].devices.contains(device) ==> t.allocs[id].devices.contains(device)
            &&& t.allocs[id].live
        }),
{
    lemma_replicated(s, writes, Set::empty(), 0, i);
    let ids = s.replicated_writes(writes)->Ok_0;
    lemma_order_exists(ids);
    let q = order_of(ids);
    assert(q.contains(writes[i].id));
    let j = choose|j: int| 0 <= j < q.len() && q[j] == writes[i].id;
    lemma_each_moves_off(s, q, device, 0, j, x);
}

/// Whether work on a stream may use memory of a GPU: managed memory must not belong to the host or to
/// another stream.
pub open spec fn usable_on(a: AllocView, stream: StreamId) -> bool {
    !a.managed || a.attach is Global || a.attach == Attach::Single(stream)
}

/// A kernel starts only on memory that its stream may use.
pub proof fn kernels_need_attached_memory(
    s: SimState,
    id: OpId,
    device: DeviceId,
    stream: StreamId,
    launch: LaunchCost,
    kind: KernelKind,
    reads: Seq<KernelBuf>,
    writes: Seq<KernelBuf>,
    i: int,
)
    requires
        s.start_kernel(id, device, stream, launch, kind, reads, writes).1 is Ok,
    ensures
        0 <= i < reads.len() ==> usable_on(s.allocs[reads[i].id], stream),
        0 <= i < writes.len() ==> usable_on(s.allocs[writes[i].id], stream),
{
    reveal(SimState::start_kernel);
    let f = |k: int| s.require_bufs_attached_at(stream, reads, k);
    let g = |k: int| s.require_bufs_attached_at(stream, writes, k);
    lemma_ok_each(reads.len(), f);
    lemma_ok_each(writes.len(), g);
    if 0 <= i < reads.len() {
        assert(f(i) is Ok);
    }
    if 0 <= i < writes.len() {
        assert(g(i) is Ok);
    }
}

/// A reduction starts only where each rank holds its part.
pub proof fn reductions_need_their_parts(
    s: SimState,
    id: OpId,
    device: DeviceId,
    parts: Seq<(DeviceId, AllocId)>,
    bytes: u64,
    i: int,
)
    requires
        s.start_allreduce(id, device, parts, bytes).1 is Ok,
        0 <= i < parts.len(),
    ensures
        parts.len() >= 2,
        s.allocs.contains_key(parts[i].1),
        s.allocs[parts[i].1].live,
        s.allocs[parts[i].1].devices.contains(parts[i].0),
{
    let f = |k: int| s.require_parts_at(parts, k);
    lemma_ok_each(parts.len(), f);
    assert(f(i) is Ok);
}

/// A part of a reduction is refused by name where its rank does not hold it.
pub proof fn missing_part_is_named(s: SimState, parts: Seq<(DeviceId, AllocId)>, i: int)
    requires
        0 <= i < parts.len(),
        s.allocs.contains_key(parts[i].1),
    ensures
        !s.allocs[parts[i].1].live || !s.allocs[parts[i].1].devices.contains(parts[i].0)
            ==> s.require_parts_at(parts, i) == Err::<(), SimError>(
            SimError::NotResident { alloc: parts[i].1, device: parts[i].0 },
        ),
{
}

/// Memory of its own, that is not of a pool and not managed, is at hand for a GPU exactly where it is
/// on that GPU, or where it is host memory that is mapped and may be used as such.
pub proof fn own_memory_is_at_hand(
    s: SimState,
    buf: KernelBuf,
    device: DeviceId,
    mapped_ok: bool,
    allow_remote: bool,
)
    requires
        s.allocs.contains_key(buf.id),
        s.allocs[buf.id].ipc_src is None,
        s.allocs[buf.id].share_src is None,
        !s.allocs[buf.id].vmm,
        !s.allocs[buf.id].managed,
        s.allocs[buf.id].pool is None,
        s.buf_on_device(buf, device, mapped_ok, allow_remote) is Ok,
    ensures
        s.buf_on_device(buf, device, mapped_ok, allow_remote)->Ok_0 <==> s.allocs[buf.id].live && (
        s.allocs[buf.id].devices.contains(device) || (mapped_ok && s.allocs[buf.id].host_mapped)),
{
}

/// Memory of a pool is at hand for another GPU exactly where the pool gave that GPU access.
pub proof fn pool_memory_is_at_hand(
    s: SimState,
    buf: KernelBuf,
    device: DeviceId,
    pool: PoolId,
    allow_remote: bool,
)
    requires
        s.allocs.contains_key(buf.id),
        s.allocs[buf.id].ipc_src is None,
        s.allocs[buf.id].share_src is None,
        !s.allocs[buf.id].vmm,
        !s.allocs[buf.id].managed,
        !s.allocs[buf.id].host_mapped,
        s.allocs[buf.id].live,
        s.allocs[buf.id].pool == Some(pool),
        s.pools.contains_key(pool),
        s.pools[pool].share_root is None,
        s.pools[pool].device != device,
        s.allocs[buf.id].devices == seq![s.pools[pool].device],
        s.buf_on_device(buf, device, true, allow_remote) is Ok,
    ensures
        s.buf_on_device(buf, device, true, allow_remote)->Ok_0
            <==> s.pools[pool].accessed_by.contains(device),
{
    let q = s.allocs[buf.id].devices;
    assert(q[0] == s.pools[pool].device);
    assert(q.contains(s.pools[pool].device));
    assert(!q.contains(device));
}

} // verus!
