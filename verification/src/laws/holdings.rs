//! Memory as callers hold it: what a new allocation is, and what giving it back undoes.
use vstd::prelude::*;
use crate::error::SimError;
use crate::ids::{
    AllocId, DeviceId, IpcHandleId, MemHandleId, MulticastId, OpId, PoolId, PtrExportId,
    ShareableHandleId, StreamId,
};
use crate::laws::costs::{held, put_in_flight};
use crate::laws::frames::{
    drop_copy_keeps_work, pool_acquire_keeps_work, refund_device_keeps_allocs,
    reserve_hbm_keeps_work,
};
use crate::laws::submission::submitted_is_queued;
use crate::list::{lemma_ok_each, with_new, without};
use crate::num::mul_sat;
use crate::ops::{GpuOpView, MemAttach};
use crate::profile::{align_up, GpuProfile};
use crate::sim::SimState;
use crate::spans::overlaps_map;
use crate::state::{AllocView, MemHandle};

verus! {

/// Whether an allocation is fresh: of its size, live, nowhere, and in no other way special.
pub open spec fn fresh_memory(a: AllocView, bytes: u64) -> bool {
    &&& a.bytes == bytes
    &&& a.live
    &&& a.leases == 0
    &&& a.attach is Global
    &&& !a.read_mostly
    &&& a.accessed_by == Set::<DeviceId>::empty()
    &&& a.vmm_write_by == Set::<DeviceId>::empty()
    &&& a.preferred is Nowhere
    &&& a.vmm_maps.len() == 0
    &&& a.ipc_src is None
    &&& a.ipc_opens == 0
    &&& a.share_src is None
    &&& a.share_opens == 0
}

/// Only one allocation differs between two states, and it has the next number.
pub open spec fn one_more(s: SimState, t: SimState, id: AllocId) -> bool {
    &&& id == AllocId(s.next.alloc)
    &&& t.next.alloc == s.next.alloc.saturating_add(1)
    &&& t.allocs == s.allocs.insert(id, t.allocs[id])
    &&& t.ops == s.ops
    &&& t.running == s.running
}

/// Host memory is page-locked where it fits the budget, which it then takes up; pageable memory
/// takes up none of it. Mapped memory is page-locked memory that kernels can reach. None is on a
/// GPU.
pub proof fn host_memory_is_made(s: SimState, bytes: u64)
    requires
        s.capturing is None,
        s.pinned_used <= s.profile.host_pin_bytes,
    ensures
        ({
            let (t, r) = s.alloc_host(bytes);
            &&& r is Ok <==> bytes > 0
            &&& r is Ok ==> one_more(s, t, r->Ok_0) && fresh_memory(t.allocs[r->Ok_0], bytes)
                && t.allocs[r->Ok_0].host_pageable && !t.allocs[r->Ok_0].host_pinned
                && !t.allocs[r->Ok_0].host_mapped && t.allocs[r->Ok_0].devices.len() == 0
                && !t.allocs[r->Ok_0].managed && !t.allocs[r->Ok_0].vmm && t.pinned_used
                == s.pinned_used && t.gpus == s.gpus
        }),
        ({
            let (t, r) = s.alloc_host_pinned(bytes);
            &&& r is Ok <==> bytes > 0 && s.pinned_used + bytes <= s.profile.host_pin_bytes
            &&& r is Ok ==> one_more(s, t, r->Ok_0) && fresh_memory(t.allocs[r->Ok_0], bytes)
                && t.allocs[r->Ok_0].host_pinned && !t.allocs[r->Ok_0].host_pageable
                && !t.allocs[r->Ok_0].host_mapped && t.allocs[r->Ok_0].devices.len() == 0
                && !t.allocs[r->Ok_0].managed && !t.allocs[r->Ok_0].vmm && t.pinned_used
                == s.pinned_used + bytes && t.gpus == s.gpus
        }),
        ({
            let (t, r) = s.alloc_host_mapped(bytes);
            &&& r is Ok <==> bytes > 0 && s.pinned_used + bytes <= s.profile.host_pin_bytes
            &&& r is Ok ==> one_more(s, t, r->Ok_0) && fresh_memory(t.allocs[r->Ok_0], bytes)
                && t.allocs[r->Ok_0].host_pinned && t.allocs[r->Ok_0].host_mapped
                && t.pinned_used == s.pinned_used + bytes && t.gpus == s.gpus
        }),
{
    reveal(SimState::insert_host);
    assert(0u32 & !2u32 == 0 && 2u32 & !2u32 == 0 && 0u32 & 2u32 == 0 && 2u32 & 2u32 == 2)
        by (bit_vector);
}

/// Managed memory takes up nothing until it is touched: it is nowhere, attached to all streams or,
/// where asked for, to none.
pub proof fn managed_memory_is_made(s: SimState, bytes: u64)
    requires
        s.capturing is None,
    ensures
        ({
            let (t, r) = s.alloc_managed(bytes);
            &&& r is Ok <==> bytes > 0
            &&& r is Ok ==> one_more(s, t, r->Ok_0) && fresh_memory(t.allocs[r->Ok_0], bytes)
                && t.allocs[r->Ok_0].managed && t.allocs[r->Ok_0].devices.len() == 0
                && !t.allocs[r->Ok_0].host_pinned && !t.allocs[r->Ok_0].vmm && t.gpus == s.gpus
                && t.pinned_used == s.pinned_used && t.clock >= s.clock
            &&& r is Ok ==> t.is_managed(r->Ok_0) == Ok::<bool, SimError>(true) && t.mem_attach(
                r->Ok_0,
            ) == Ok::<MemAttach, SimError>(MemAttach::Global)
        }),
        ({
            let (t, r) = s.alloc_managed_host(bytes);
            &&& r is Ok <==> bytes > 0
            &&& r is Ok ==> t.allocs[r->Ok_0].managed && t.allocs[r->Ok_0].live
                && t.allocs[r->Ok_0].attach is Host && t.gpus == s.gpus
        }),
{
}

/// Memory that is registered becomes page-locked and takes up the budget; one that is unregistered
/// is pageable again and gives it back.
pub proof fn registered_memory_is_pinned(s: SimState, id: AllocId)
    requires
        s.capturing is None,
        s.allocs.contains_key(id),
        s.pinned_used <= s.profile.host_pin_bytes,
    ensures
        ({
            let (t, r) = s.host_register(id);
            let a = s.allocs[id];
            &&& r is Ok <==> a.leases == 0 && a.live && a.host_pageable && !a.host_pinned
                && s.pinned_used + a.bytes <= s.profile.host_pin_bytes
            &&& r is Ok ==> t.pinned_used == s.pinned_used + a.bytes && t.allocs == s.allocs.insert(
                id,
                AllocView {
                    host_pageable: false,
                    host_pinned: true,
                    host_mapped: false,
                    host_registered: true,
                    ..a
                },
            )
            &&& r is Err ==> t.allocs == s.allocs && t.pinned_used == s.pinned_used
        }),
        ({
            let (t, r) = s.host_register_mapped(id);
            r is Ok ==> t.allocs[id].host_mapped && t.allocs[id].host_pinned
                && !t.allocs[id].host_pageable
        }),
{
    reveal(SimState::host_register_flags);
    assert(0u32 & !2u32 == 0 && 2u32 & !2u32 == 0 && 0u32 & 2u32 == 0 && 2u32 & 2u32 == 2)
        by (bit_vector);
}

/// Page-locked memory that is given back dies, gives its budget back and takes its words with it. It
/// stays where it is leased, was registered, or is on a GPU.
pub proof fn pinned_memory_is_given_back(s: SimState, id: AllocId)
    requires
        s.capturing is None,
        s.synchronize() == (s, Ok::<(), SimError>(())),
        s.allocs.contains_key(id),
    ensures
        ({
            let (t, r) = s.free_host_pinned(id);
            let a = s.allocs[id];
            &&& r is Ok <==> a.leases == 0 && a.live && a.host_pinned && !a.host_registered
                && a.devices.len() == 0
            &&& r is Ok ==> !t.allocs[id].live && t.pinned_used == (if s.pinned_used >= a.bytes {
                s.pinned_used - a.bytes
            } else {
                0
            })
            &&& r is Err ==> t == s
        }),
        ({
            let (t, r) = s.free_host(id);
            let a = s.allocs[id];
            &&& r is Ok <==> a.leases == 0 && a.live && a.host_pageable && !a.host_pinned
                && a.devices.len() == 0
            &&& r is Ok ==> !t.allocs[id].live && t.pinned_used == s.pinned_used
            &&& r is Err ==> t == s
        }),
        ({
            let (t, r) = s.host_unregister(id);
            let a = s.allocs[id];
            &&& r is Ok <==> a.leases == 0 && a.live && a.host_registered && a.devices.len() == 0
            &&& r is Ok ==> t.allocs[id].host_pageable && !t.allocs[id].host_pinned
                && !t.allocs[id].host_mapped && !t.allocs[id].host_registered && t.pinned_used == (
            if s.pinned_used >= a.bytes {
                s.pinned_used - a.bytes
            } else {
                0
            })
        }),
{
}

/// A pitched allocation has rows of a multiple of 512 bytes, the least that holds the width, and as
/// many of them as asked for.
pub proof fn pitched_rows_are_aligned(s: SimState, device: DeviceId, width: u64, height: u64)
    requires
        s.malloc_pitch(device, width, height).1 is Ok,
        width <= u64::MAX - 512,
        (width + 512) * height <= u64::MAX,
    ensures
        ({
            let (t, r) = s.malloc_pitch(device, width, height);
            let (id, pitch) = r->Ok_0;
            &&& pitch % 512 == 0
            &&& width <= pitch < width + 512
            &&& t.allocs.contains_key(id)
            &&& t.allocs[id].bytes == pitch * height
            &&& t.allocs[id].live
            &&& t.allocs[id].devices.contains(device)
        }),
{
    let pitch = align_up(width, 512);
    assert(pitch * height <= (width + 512) * height) by (nonlinear_arith)
        requires
            pitch <= width + 512,
            height >= 0,
    ;
    let (t, r) = s.malloc(device, mul_sat(pitch, height));
    assert(t.allocs[r->Ok_0].devices[0] == device);
}

/// An import is a live alias of live memory on a GPU that holds it, of the same size and on the same
/// GPUs, and charges nothing. The source cannot be freed while it is imported, and closing the alias
/// gives that back.
pub proof fn import_is_an_alias(s: SimState, device: DeviceId, handle: IpcHandleId)
    requires
        s.ipc_open(device, handle).1 is Ok,
        s.numbered(),
        s.next.alloc < u64::MAX,
    ensures
        ({
            let (t, r) = s.ipc_open(device, handle);
            let src = s.ipc_handles[handle];
            let id = r->Ok_0;
            &&& s.ipc_handles.contains_key(handle)
            &&& s.allocs.contains_key(src)
            &&& s.allocs[src].live
            &&& s.allocs[src].devices.contains(device)
            &&& id != src
            &&& t.allocs.contains_key(id)
            &&& t.allocs[id].live
            &&& t.allocs[id].bytes == s.allocs[src].bytes
            &&& t.allocs[id].devices == s.allocs[src].devices
            &&& t.allocs[id].ipc_src == Some(src)
            &&& t.allocs[src].ipc_opens == s.allocs[src].ipc_opens.saturating_add(1)
            &&& t.gpus == s.gpus
            &&& t.is_ipc_import(id) == Ok::<bool, SimError>(true)
            &&& s.allocs[src].leases == 0 && s.allocs[src].ipc_src is None
                && s.allocs[src].share_src is None ==> t.free_now(src).1 is Err
            &&& s.allocs[src].ipc_opens < u32::MAX ==> {
                let (u, v) = t.ipc_close(id);
                &&& v is Ok
                &&& !u.allocs[id].live
                &&& u.allocs[id].devices.len() == 0
                &&& u.allocs[src] == s.allocs[src]
                &&& u.gpus == s.gpus
            }
        }),
{
    reveal(SimState::free_now);
    reveal(SimState::drop_ipc_import);
}

/// An imported pointer is a live alias of live memory of the pool that was imported, and closing it
/// gives that back. It charges nothing.
pub proof fn imported_pointer_is_an_alias(s: SimState, pool: PoolId, export: PtrExportId)
    requires
        s.pool_import_ptr(pool, export).1 is Ok,
        s.numbered(),
        s.next.alloc < u64::MAX,
    ensures
        ({
            let (t, r) = s.pool_import_ptr(pool, export);
            let src = s.ptr_exports[export];
            let id = r->Ok_0;
            &&& s.ptr_exports.contains_key(export)
            &&& s.allocs[src].live
            &&& s.pools[pool].share_root is Some
            &&& id != src
            &&& t.allocs[id].live
            &&& t.allocs[id].bytes == s.allocs[src].bytes
            &&& t.allocs[id].devices == s.allocs[src].devices
            &&& t.allocs[id].pool == Some(pool)
            &&& t.allocs[id].share_src == Some(src)
            &&& t.allocs[src].share_opens == s.allocs[src].share_opens.saturating_add(1)
            &&& t.gpus == s.gpus
            &&& t.pools == s.pools
            &&& t.is_share_import(id) == Ok::<bool, SimError>(true)
            &&& s.allocs[src].share_opens < u32::MAX && t.drop_share_import(id).1 is Ok ==> {
                let u = t.drop_share_import(id).0;
                &&& !u.allocs[id].live
                &&& u.allocs[src] == s.allocs[src]
                &&& u.gpus == s.gpus
            }
        }),
{
    reveal(SimState::drop_share_import);
}

/// Memory that is freed at once dies everywhere.
pub proof fn freed_memory_is_dead(s: SimState, id: AllocId)
    requires
        s.free_now(id).1 is Ok,
        s.allocs.contains_key(id),
        s.allocs[id].ipc_src is None,
        s.allocs[id].share_src is None,
    ensures
        ({
            let t = s.free_now(id).0;
            &&& s.allocs[id].leases == 0
            &&& s.allocs[id].live
            &&& s.allocs[id].ipc_opens == 0
            &&& s.allocs[id].share_opens == 0
            &&& !t.allocs[id].live
            &&& t.allocs[id].devices.len() == 0
            &&& t.free_now(id).1 is Err
        }),
{
    reveal(SimState::free_now);
    lemma_refunds_keep_flags(s, s.allocs[id].devices, id, s.allocs[id].bytes, 0);
}

proof fn lemma_refunds_keep_flags(
    s: SimState,
    devices: Seq<DeviceId>,
    id: AllocId,
    bytes: u64,
    i: int,
)
    ensures
        s.refund_devices_from(devices, id, bytes, i).0.allocs == s.allocs,
    decreases devices.len() - i,
{
    if 0 <= i < devices.len() {
        refund_device_keeps_allocs(s, devices[i], id, bytes);
        lemma_refunds_keep_flags(
            s.refund_device(devices[i], id, bytes).0,
            devices,
            id,
            bytes,
            i + 1,
        );
    }
}

/// A free on a stream takes the memory off its GPU; where it was the last place of memory that is
/// not page-locked, it dies. Leased memory and imported memory stay.
pub proof fn free_takes_memory_off(
    s: SimState,
    op: OpId,
    device: DeviceId,
    id: AllocId,
    x: DeviceId,
)
    requires
        s.allocs.contains_key(id),
        s.allocs[id].ipc_src is None,
        s.allocs[id].share_src is None,
        s.start_free(op, device, id).1 is Ok,
    ensures
        ({
            let (t, r) = s.start_free(op, device, id);
            let a = s.allocs[id];
            let b = t.allocs[id];
            &&& r == Ok::<bool, SimError>(true)
            &&& a.leases == 0
            &&& a.live
            &&& a.devices.contains(device)
            &&& a.ipc_opens == 0
            &&& a.share_opens == 0
            &&& b == (AllocView { devices: b.devices, live: b.live, ..a })
            &&& b.devices.contains(x) <==> a.devices.contains(x) && x != device
            &&& b.live <==> b.devices.len() > 0 || a.host_pinned
            &&& put_in_flight(s, t, op, 1)
        }),
{
    reveal(SimState::start_free);
    reveal(SimState::drop_copy);
    drop_copy_keeps_work(s, device, id, s.allocs[id].bytes);
    refund_device_keeps_allocs(s, device, id, s.allocs[id].bytes);
    removed_is_gone(s.allocs[id].devices, device, x);
}

/// What is taken out of a list is the only thing that is gone from it.
pub proof fn removed_is_gone(q: Seq<DeviceId>, d: DeviceId, x: DeviceId)
    ensures
        without(q, d).contains(x) <==> q.contains(x) && x != d,
    decreases q.len(),
{
    if q.len() > 0 {
        let p = q.drop_last();
        let w = without(p, d);
        removed_is_gone(p, d, x);
        if q.contains(x) {
            let j = choose|j: int| 0 <= j < q.len() && q[j] == x;
            if j < p.len() {
                assert(p[j] == x);
            }
        }
        if p.contains(x) {
            let j = choose|j: int| 0 <= j < p.len() && p[j] == x;
            assert(q[j] == x);
        }
        assert(q[q.len() - 1] == q.last());
        if q.last() != d {
            let v = w.push(q.last());
            if w.contains(x) {
                let j = choose|j: int| 0 <= j < w.len() && w[j] == x;
                assert(v[j] == x);
            }
            assert(v[w.len() as int] == q.last());
            if v.contains(x) {
                let j = choose|j: int| 0 <= j < v.len() && v[j] == x;
                if j < w.len() {
                    assert(w[j] == x);
                }
            }
        }
    }
}

/// An allocation that starts takes memory of its GPU, or of its pool, unless it is already there; in
/// a pool, what is cached there is used first and takes the shorter time.
pub proof fn allocation_takes_memory(
    s: SimState,
    op: OpId,
    device: DeviceId,
    id: AllocId,
    bytes: u64,
    g: GpuProfile,
)
    requires
        s.allocs.contains_key(id),
        s.profile.gpu(device) == Ok::<GpuProfile, SimError>(g),
        s.gpus.contains_key(device),
        s.gpus[device].used <= g.hbm_bytes,
        s.start_alloc(op, device, id, bytes).1 is Ok,
    ensures
        ({
            let t = s.start_alloc(op, device, id, bytes).0;
            let a = s.allocs[id];
            let there = a.live && a.devices.contains(device);
            &&& there ==> t.gpus == s.gpus && t.pools == s.pools && put_in_flight(
                s,
                t,
                op,
                if a.pool is Some {
                    g.pool_reuse_ns as int
                } else {
                    1
                },
            )
            &&& !there && a.pool is None ==> t.gpus[device].used == s.gpus[device].used + bytes
                && put_in_flight(s, t, op, g.alloc_overhead_ns as int)
            &&& !there && a.pool is Some ==> {
                let root = s.pool_root(a.pool->0)->Ok_0;
                let p = s.pools[root];
                &&& s.pools[a.pool->0].device == device
                &&& p.device == device ==> t.gpus[device].used == s.gpus[device].used + (if bytes
                    > p.cached {
                    bytes - p.cached
                } else {
                    0
                })
                &&& t.pools[root].cached == (if bytes > p.cached {
                    0
                } else {
                    p.cached - bytes
                })
                &&& t.pools[root].live == held(p.live + bytes)
                &&& p.device == device ==> put_in_flight(
                    s,
                    t,
                    op,
                    if bytes > p.cached {
                        g.alloc_overhead_ns as int
                    } else {
                        g.pool_reuse_ns as int
                    },
                )
            }
            &&& t.allocs == s.allocs
        }),
{
    reveal(SimState::start_alloc);
    reveal(SimState::reserve_hbm);
    reveal(SimState::pool_acquire);
    reserve_hbm_keeps_work(s, device, bytes);
    if s.allocs[id].pool is Some {
        pool_acquire_keeps_work(s, s.allocs[id].pool->0, bytes);
    }
}

/// A pool that is new is empty, of its GPU, keeps nothing cached, and is shareable as asked for.
pub proof fn new_pool_is_empty(s: SimState, device: DeviceId)
    requires
        s.capturing is None,
        s.profile.gpu(device) is Ok,
    ensures
        ({
            let (t, r) = s.create_pool(device);
            let p = t.pools[r->Ok_0];
            &&& r is Ok
            &&& p.device == device
            &&& p.live == 0
            &&& p.cached == 0
            &&& p.release_threshold == 0
            &&& !p.shareable
            &&& !p.graph
            &&& !p.destroyed
            &&& p.share_root is None
            &&& t.pools == s.pools.insert(r->Ok_0, p)
        }),
        ({
            let (t, r) = s.create_shareable_pool(device);
            &&& r is Ok
            &&& t.is_pool_shareable(r->Ok_0) == Ok::<bool, SimError>(true)
            &&& t.is_pool_imported(r->Ok_0) == Ok::<bool, SimError>(false)
        }),
{
}

/// An imported pool leads to the pool that was exported and shares its memory: what is cached and in
/// use is that of the exporter.
pub proof fn imported_pool_shares_memory(s: SimState, device: DeviceId, handle: ShareableHandleId)
    requires
        s.pool_import(device, handle).1 is Ok,
        s.numbered(),
        s.next.pool < u32::MAX,
    ensures
        ({
            let (t, r) = s.pool_import(device, handle);
            let src = s.share_handles[handle];
            &&& s.share_handles.contains_key(handle)
            &&& t.is_pool_imported(r->Ok_0) == Ok::<bool, SimError>(true)
            &&& t.pool_root(r->Ok_0) == s.pool_root(src)
            &&& t.pool_cached(r->Ok_0) == s.pool_cached(src)
            &&& t.pool_live(r->Ok_0) == s.pool_live(src)
            &&& t.gpus == s.gpus
        }),
{
}

/// The current pool of a GPU is the one that was set, and is used by allocations on its streams
/// outside a capture.
pub proof fn current_pool_is_used(s: SimState, device: DeviceId, pool: PoolId, stream: StreamId)
    requires
        s.set_device_mempool(device, pool).1 is Ok,
    ensures
        ({
            let t = s.set_device_mempool(device, pool).0;
            &&& t.device_mempool(device) == Ok::<PoolId, SimError>(pool)
            &&& t.stream_pool(device, stream) == Ok::<PoolId, SimError>(pool)
            &&& s.pools[pool].device == device
            &&& forall|d: DeviceId|
                d != device ==> #[trigger] t.device_mempool(d) == s.device_mempool(d)
        }),
{
}

/// An allocation on a stream is queued for memory of the pool that is in force.
pub proof fn allocation_is_queued(s: SimState, device: DeviceId, bytes: u64, stream: StreamId)
    requires
        s.capturing is None,
        s.alloc_async(device, bytes, stream).1 is Ok,
    ensures
        ({
            let (t, r) = s.alloc_async(device, bytes, stream);
            let id = r->Ok_0;
            let k = OpId(s.next.op);
            &&& bytes > 0
            &&& id == AllocId(s.next.alloc)
            &&& t.allocs.contains_key(id)
            &&& t.allocs[id].bytes == bytes
            &&& !t.allocs[id].live
            &&& t.allocs[id].devices.len() == 0
            &&& t.allocs[id].pool == Some(s.current_pools[device])
            &&& t.ops.contains_key(k)
            &&& t.ops[k].kind == (GpuOpView::Alloc { id, bytes })
            &&& t.ops[k].device == device
            &&& t.ops[k].stream == stream
            &&& t.gpus == s.gpus
        }),
{
    reveal(SimState::alloc_from_pool_inner);
    let u = s.insert_pool_alloc(s.current_pools[device], bytes).0;
    submitted_is_queued(
        u,
        device,
        stream,
        GpuOpView::Alloc { id: AllocId(s.next.alloc), bytes },
    );
}

/// A reserved range is aligned, takes up no memory and is nowhere.
pub proof fn reserved_range_is_empty(s: SimState, bytes: u64)
    requires
        s.capturing is None,
    ensures
        ({
            let (t, r) = s.va_reserve(bytes);
            let n = s.profile.va_granularity_bytes;
            &&& r is Ok <==> bytes > 0 && (n <= 1 || bytes % n == 0)
            &&& r is Ok ==> one_more(s, t, r->Ok_0) && fresh_memory(t.allocs[r->Ok_0], bytes)
                && t.allocs[r->Ok_0].vmm && t.allocs[r->Ok_0].devices.len() == 0 && t.gpus == s.gpus
                && t.vmm_mapped_bytes(r->Ok_0, DeviceId(0)) == Ok::<u64, SimError>(0)
            &&& r is Err ==> t == s
        }),
{
}

/// A mapped span is aligned, lies in its range and overlaps no other map on that GPU. It charges its
/// bytes, or nothing where it is a handle of its own that is mapped.
#[verifier::rlimit(60)]
pub proof fn span_is_mapped(s: SimState, id: AllocId, device: DeviceId, offset: u64, bytes: u64)
    requires
        s.va_map_range(id, device, offset, bytes).1 is Ok,
        s.gpus[device].used <= s.profile.gpu(device)->Ok_0.hbm_bytes,
        s.allocs[id].bytes < u64::MAX,
    ensures
        ({
            let t = s.va_map_range(id, device, offset, bytes).0;
            let a = s.allocs[id];
            let n = s.profile.va_granularity_bytes;
            &&& a.live && a.vmm && a.leases == 0
            &&& bytes > 0
            &&& offset + bytes <= a.bytes
            &&& n <= 1 || (offset % n == 0 && bytes % n == 0)
            &&& forall|i: int|
                0 <= i < a.vmm_maps.len() && (#[trigger] a.vmm_maps[i]).0 == device
                    && a.vmm_maps[i].1 + a.vmm_maps[i].2 <= u64::MAX ==> a.vmm_maps[i].1
                    + a.vmm_maps[i].2 <= offset || offset + bytes <= a.vmm_maps[i].1
            &&& t.allocs[id].vmm_maps == a.vmm_maps.push((device, offset, bytes))
            &&& t.allocs[id].devices.contains(device)
            &&& t.gpus[device].used == s.gpus[device].used + bytes
        }),
{
    reveal(SimState::reserve_hbm);
    let a = s.allocs[id];
    let q = with_new(a.devices, device);
    if !a.devices.contains(device) {
        assert(q[a.devices.len() as int] == device);
    }
    assert(s.span_mappable(id, device, offset, bytes) is Ok);
    lemma_apart(a.vmm_maps, device, offset, bytes);
}

proof fn lemma_apart(
    maps: Seq<(DeviceId, u64, u64)>,
    device: DeviceId,
    offset: u64,
    bytes: u64,
)
    requires
        !overlaps_map(maps, device, offset, bytes),
        offset + bytes <= u64::MAX,
    ensures
        forall|i: int|
            0 <= i < maps.len() && (#[trigger] maps[i]).0 == device && maps[i].1 + maps[i].2
                <= u64::MAX ==> maps[i].1 + maps[i].2 <= offset || offset + bytes <= maps[i].1,
{
    assert forall|i: int|
        0 <= i < maps.len() && (#[trigger] maps[i]).0 == device && maps[i].1 + maps[i].2
            <= u64::MAX implies maps[i].1 + maps[i].2 <= offset || offset + bytes <= maps[i].1 by {
        assert(maps[i].1.saturating_add(maps[i].2) == maps[i].1 + maps[i].2);
        assert(offset.saturating_add(bytes) == offset + bytes);
    }
}

/// A handle is mapped on its own GPU, with its own size, and counts its maps. This charges nothing.
pub proof fn handle_is_mapped(
    s: SimState,
    id: AllocId,
    device: DeviceId,
    offset: u64,
    handle: MemHandleId,
)
    requires
        s.va_map_handle(id, device, offset, handle).1 is Ok,
    ensures
        ({
            let t = s.va_map_handle(id, device, offset, handle).0;
            let h = s.mem_handles[handle];
            &&& h.refs > 0
            &&& h.device == device
            &&& t.allocs[id].vmm_maps == s.allocs[id].vmm_maps.push((device, offset, h.bytes))
            &&& t.mem_handles == s.mem_handles.insert(
                handle,
                MemHandle { maps: h.maps.saturating_add(1), ..h },
            )
            &&& t.gpus == s.gpus
        }),
{
}

/// Access to a mapped range is granted to a GPU that can reach its home, for reading or for writing
/// too, and is taken back.
pub proof fn range_access_is_granted(s: SimState, id: AllocId, device: DeviceId)
    ensures
        ({
            let (t, r) = s.va_set_access(id, device);
            r is Ok ==> t.allocs[id].accessed_by.contains(device) && !t.allocs[id].vmm_write_by.contains(
                device,
            ) && t.is_va_write_accessed_by(id, device) == Ok::<bool, SimError>(false)
                && s.allocs[id].vmm_maps.len() > 0 && s.peer_access(
                s.allocs[id].vmm_maps[0].0,
                device,
            )
        }),
        ({
            let (t, r) = s.va_set_access_write(id, device);
            r is Ok ==> t.allocs[id].accessed_by.contains(device) && t.is_va_write_accessed_by(
                id,
                device,
            ) == Ok::<bool, SimError>(true) && s.allocs[id].vmm_maps.len() > 0 && s.peer_access(
                s.allocs[id].vmm_maps[0].0,
                device,
            )
        }),
        ({
            let (t, r) = s.va_unset_access(id, device);
            r is Ok ==> !t.allocs[id].accessed_by.contains(device) && t.is_va_write_accessed_by(
                id,
                device,
            ) == Ok::<bool, SimError>(false)
        }),
{
    reveal(SimState::va_set_access_inner);
    reveal(SimState::grant_va);
}

/// A team of a multicast object takes each GPU once and no more than it was made for, and a full one
/// is joined by NVLink throughout.
pub proof fn team_is_joined(s: SimState, mc: MulticastId, device: DeviceId)
    requires
        s.multicast_add_device(mc, device).1 is Ok,
        s.multicasts[mc].devices.len() < u32::MAX,
    ensures
        ({
            let t = s.multicast_add_device(mc, device).0;
            let q = s.multicasts[mc].devices.push(device);
            &&& s.multicasts.contains_key(mc)
            &&& !s.multicasts[mc].devices.contains(device)
            &&& t.multicasts[mc].devices == q
            &&& q.len() <= s.multicasts[mc].n_dev
            &&& q.len() == s.multicasts[mc].n_dev ==> forall|i: int, j: int|
                0 <= i < j < q.len() ==> s.profile.link(
                    Some(#[trigger] q[i]),
                    Some(#[trigger] q[j]),
                )
                    is Ok && s.profile.link(Some(q[i]), Some(q[j]))->Ok_0.kind is Nvlink
        }),
{
    let q = s.multicasts[mc].devices.push(device);
    let t = s.multicast_add_device(mc, device).0;
    if q.len() == s.multicasts[mc].n_dev {
        let f = |i: int| t.nvlink_clique_at(q, i);
        lemma_ok_each(q.len(), f);
        assert forall|i: int, j: int| 0 <= i < j < q.len() implies s.profile.link(
            Some(#[trigger] q[i]),
            Some(#[trigger] q[j]),
        ) is Ok && s.profile.link(Some(q[i]), Some(q[j]))->Ok_0.kind is Nvlink by {
            assert(f(i) is Ok);
            assert(t.nvlinked_from_at(q[i], q, (i as usize).saturating_add(1), j));
        }
    }
}

} // verus!
