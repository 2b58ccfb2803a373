//! Upkeep of memory: what handles, maps, pools and words hold after each call, and what it costs.
use vstd::prelude::*;
use crate::error::SimError;
use crate::ids::{AllocId, DeviceId, MemHandleId, MulticastId, Piece, PoolId, Word};
use crate::laws::costs::{held, no_less};
use crate::laws::frames::refund_device_keeps_allocs;
use crate::laws::holdings::removed_is_gone;
use crate::laws::shorthand::taken_is_gone;
use crate::laws::streams::trimmed_lines_fit;
use crate::list::{lemma_first_where, without};
use crate::num::mul_sat;
use crate::ops::HostAllocFlags;
use crate::persist::{lines_apart, lines_filled, lines_overlap, lines_trimmed, lines_used};
use crate::profile::{align_up, GpuProfile};
use crate::sim::SimState;
use crate::state::{AllocView, MemHandle, PersistLine};
use crate::table::{lemma_order_exists, order_of};

verus! {

/// The time that an allocation takes on a GPU.
pub open spec fn allocation_time(g: GpuProfile) -> int {
    no_less(g.alloc_overhead_ns as int, 1)
}

/// A mapped span can be retained as a handle. The first time the handle is made, with one reference
/// and one map; each time after that it has one reference more. It costs an allocation.
pub proof fn piece_is_retained(
    s: SimState,
    id: AllocId,
    device: DeviceId,
    offset: u64,
    bytes: u64,
    g: GpuProfile,
)
    requires
        s.retain_piece(id, device, offset, bytes).1 is Ok,
        s.profile.gpu(device) == Ok::<GpuProfile, SimError>(g),
    ensures
        ({
            let (t, r) = s.retain_piece(id, device, offset, bytes);
            let p = Piece(id, device, offset, bytes);
            let h = r->Ok_0;
            &&& t.vmm_handle_at.contains_key(p) && t.vmm_handle_at[p] == h
            &&& t.mem_handles.contains_key(h)
            &&& t.clock == held(s.clock + allocation_time(g))
            &&& t.gpus == s.gpus
            &&& s.vmm_handle_at.contains_key(p) ==> h == s.vmm_handle_at[p] && t.mem_handles[h] == (
            MemHandle {
                refs: s.mem_handles[h].refs.saturating_add(1),
                ..s.mem_handles[h]
            })
            &&& !s.vmm_handle_at.contains_key(p) ==> t.mem_handles[h] == (MemHandle {
                device,
                bytes,
                refs: 1,
                maps: 1,
                charged: !s.mc_at.contains(p),
            })
        }),
{
    reveal(SimState::retain_piece);
}

/// A span that is unmapped is gone from its range. With the last span of a GPU the range is gone from
/// that GPU, and with the last of all no GPU may access it any more.
pub proof fn span_is_forgotten(
    s: SimState,
    id: AllocId,
    device: DeviceId,
    offset: u64,
    bytes: u64,
    x: DeviceId,
)
    requires
        s.forget_map(id, device, offset, bytes).1 is Ok,
        s.allocs[id].vmm_maps.contains((device, offset, bytes)),
    ensures
        ({
            let t = s.forget_map(id, device, offset, bytes).0;
            let a = s.allocs[id];
            let b = t.allocs[id];
            &&& b.vmm_maps.len() == a.vmm_maps.len() - 1
            &&& b.live == a.live && b.bytes == a.bytes && b.vmm == a.vmm
            &&& x != device ==> (b.devices.contains(x) <==> a.devices.contains(x))
            &&& (
                forall|i: int| 0 <= i < b.vmm_maps.len() ==> (#[trigger] b.vmm_maps[i]).0 != device
            )
                ==> !b.devices.contains(device)
            &&& b.vmm_maps.len() == 0 ==> {
                &&& b.accessed_by == Set::<DeviceId>::empty()
                &&& b.vmm_write_by == Set::<DeviceId>::empty()
                &&& !t.mc_vas.contains_key(id)
            }
            &&& b.vmm_maps.len() > 0 ==> b.accessed_by == a.accessed_by && b.vmm_write_by
                == a.vmm_write_by
        }),
{
    reveal(SimState::forget_map);
    reveal(SimState::maps_without);
    let a = s.allocs[id];
    let span = (device, offset, bytes);
    let f = |i: int| s.maps_without_at(a.vmm_maps, span, i);
    lemma_first_where(a.vmm_maps.len(), f);
    let j = choose|j: int| 0 <= j < a.vmm_maps.len() && a.vmm_maps[j] == span;
    assert(f(j));
    removed_is_gone(a.devices, device, x);
    removed_is_gone(a.devices, device, device);
    let maps = s.maps_without(a.vmm_maps, span);
    if s.maps_on(maps, device) {
        let k = choose|k: int| 0 <= k < maps.len() && #[trigger] s.maps_on_at(maps, device, k);
        assert(maps[k].0 == device);
    }
    let t = s.forget_map(id, device, offset, bytes).0;
    let b = t.allocs[id];
    assert(b.vmm_maps == maps);
    assert(maps.len() == a.vmm_maps.len() - 1);
    assert(b.vmm_maps.len() > 0 ==> b.accessed_by == a.accessed_by);
    assert(x != device ==> (b.devices.contains(x) <==> a.devices.contains(x)));
    if (forall|i: int| 0 <= i < b.vmm_maps.len() ==> (#[trigger] b.vmm_maps[i]).0 != device) {
        assert(!s.maps_on(maps, device));
        assert(!b.devices.contains(device));
    }
}

/// A range that is mapped is not idle.
pub proof fn mapped_range_is_not_idle(
    s: SimState,
    id: AllocId,
    device: DeviceId,
    offset: u64,
    bytes: u64,
    x: AllocId,
)
    requires
        s.add_map(id, device, offset, bytes).1 is Ok,
    ensures
        s.add_map(id, device, offset, bytes).0.vmm_idle.contains(x) <==> s.vmm_idle.contains(x) && x
            != id,
{
    taken_is_gone(s.vmm_idle, id, x);
}

/// A handle is bound to a multicast object only when its team is complete, on its own GPU, once, and
/// in the size of the object.
pub proof fn handle_is_bound(s: SimState, mc: MulticastId, device: DeviceId, handle: MemHandleId)
    requires
        s.multicast_bind_mem(mc, device, handle).1 is Ok,
        s.multicasts[mc].devices.len() <= u32::MAX,
    ensures
        ({
            let t = s.multicast_bind_mem(mc, device, handle).0;
            let m = s.multicasts[mc];
            let h = s.mem_handles[handle];
            &&& s.multicasts.contains_key(mc) && s.mem_handles.contains_key(handle)
            &&& h.refs > 0 && h.device == device && h.bytes == m.bytes
            &&& m.devices.len() == m.n_dev
            &&& m.devices.contains(device)
            &&& !m.binds.contains_key(device)
            &&& t.multicasts[mc].binds == m.binds.insert(device, handle)
            &&& t.multicasts[mc].devices == m.devices
            &&& t.mem_handles == s.mem_handles
        }),
{
}

/// A multicast object has the size and the number of members that were asked for, and no member yet.
pub proof fn multicast_is_made(s: SimState, bytes: u64, members: u32)
    requires
        s.multicast_create(bytes, members).1 is Ok,
    ensures
        ({
            let (t, r) = s.multicast_create(bytes, members);
            let m = t.multicasts[r->Ok_0];
            &&& bytes > 0 && members >= 2
            &&& r->Ok_0 == MulticastId(s.next.mc)
            &&& m.bytes == bytes
            &&& m.n_dev == members
            &&& m.devices.len() == 0
            &&& m.binds == Map::<DeviceId, MemHandleId>::empty()
            &&& m.maps == 0
            &&& t.gpus == s.gpus
        }),
{
}

/// Memory that is taken raises the peak to what is in use, and the peak never falls.
pub proof fn peak_is_kept(s: SimState, device: DeviceId, bytes: u64)
    requires
        s.reserve_hbm(device, bytes).1 is Ok,
    ensures
        ({
            let t = s.reserve_hbm(device, bytes).0;
            &&& t.hbm_peak == no_less(s.hbm_peak as int, t.gpus[device].used as int)
            &&& t.gpus[device].used == held(s.gpus[device].used + bytes)
        }),
{
    reveal(SimState::reserve_hbm);
}

/// An allocation outside a stream takes the memory at once, lives on its GPU alone, and costs an
/// allocation.
pub proof fn memory_is_taken_at_once(s: SimState, device: DeviceId, bytes: u64, g: GpuProfile)
    requires
        s.reserve_now(device, bytes).1 is Ok,
        s.profile.gpu(device) == Ok::<GpuProfile, SimError>(g),
    ensures
        ({
            let (t, r) = s.reserve_now(device, bytes);
            let a = t.allocs[r->Ok_0];
            &&& r->Ok_0 == AllocId(s.next.alloc)
            &&& a.live
            &&& a.bytes == bytes
            &&& a.devices == seq![device]
            &&& a.pool is None
            &&& t.gpus[device].used == held(s.gpus[device].used + bytes)
            &&& t.clock == held(s.clock + allocation_time(g))
        }),
{
    reveal(SimState::reserve_hbm);
}

/// Memory that is freed at once is dead, on no GPU, and none of its words is left.
pub proof fn freed_words_are_gone(s: SimState, id: AllocId, w: Word)
    requires
        s.free_now(id).1 is Ok,
        s.allocs[id].ipc_src is None,
        s.allocs[id].share_src is None,
    ensures
        ({
            let t = s.free_now(id).0;
            &&& s.allocs[id].leases == 0
            &&& !t.allocs[id].live
            &&& t.allocs[id].devices.len() == 0
            &&& t.mailbox.contains_key(w) <==> s.mailbox.contains_key(w) && w.0 != id
            &&& t.mailbox.contains_key(w) ==> t.mailbox[w] == s.mailbox[w]
        }),
{
    reveal(SimState::free_now);
    lemma_refunds_keep_words(s, s.allocs[id].devices, id, s.allocs[id].bytes, 0);
}

proof fn lemma_refund_keeps_words(s: SimState, device: DeviceId, id: AllocId, bytes: u64)
    ensures
        s.refund_device(device, id, bytes).0.mailbox == s.mailbox,
{
    reveal(SimState::pool_release);
}

proof fn lemma_refunds_keep_words(
    s: SimState,
    devices: Seq<DeviceId>,
    id: AllocId,
    bytes: u64,
    i: int,
)
    ensures
        s.refund_devices_from(devices, id, bytes, i).0.mailbox == s.mailbox,
    decreases devices.len() - i,
{
    if 0 <= i < devices.len() {
        lemma_refund_keeps_words(s, devices[i], id, bytes);
        lemma_refunds_keep_words(
            s.refund_device(devices[i], id, bytes).0,
            devices,
            id,
            bytes,
            i + 1,
        );
    }
}

/// Pitched memory of three sides has aligned rows, one for each line of each slice.
pub proof fn pitched_slices_are_aligned(
    s: SimState,
    device: DeviceId,
    width: u64,
    height: u64,
    depth: u64,
)
    requires
        s.malloc_3d(device, width, height, depth).1 is Ok,
        width <= u64::MAX - 512,
        (width + 512) * height <= u64::MAX,
        (width + 512) * height * depth <= u64::MAX,
    ensures
        ({
            let (t, r) = s.malloc_3d(device, width, height, depth);
            let (id, pitch) = r->Ok_0;
            &&& width > 0 && height > 0 && depth > 0
            &&& pitch % 512 == 0
            &&& width <= pitch < width + 512
            &&& t.allocs[id].bytes == pitch * height * depth
            &&& t.allocs[id].live
            &&& t.allocs[id].devices.contains(device)
        }),
{
    let pitch = align_up(width, 512);
    assert(pitch * height <= (width + 512) * height) by (nonlinear_arith)
        requires
            pitch <= width + 512,
            height >= 0,
    ;
    assert(pitch * height * depth <= (width + 512) * height * depth) by (nonlinear_arith)
        requires
            pitch * height <= (width + 512) * height,
            depth >= 0,
    ;
    let all = mul_sat(mul_sat(pitch, height), depth);
    let (t, r) = s.malloc(device, all);
    assert(t.allocs[r->Ok_0].devices[0] == device);
}

/// Flags of host memory say whether it is mapped, and no other flag is known.
pub proof fn host_flags_say_mapped(s: SimState, bytes: u64, id: AllocId, flags: u32)
    ensures
        s.alloc_host_with_flags(bytes, flags).1 is Ok ==> {
            let (t, r) = s.alloc_host_with_flags(bytes, flags);
            &&& flags == 0 || flags == HostAllocFlags::MAPPED
            &&& t.allocs[r->Ok_0].host_pinned
            &&& t.allocs[r->Ok_0].bytes == bytes
            &&& t.allocs[r->Ok_0].host_mapped <==> flags == HostAllocFlags::MAPPED
        },
        s.host_register_with_flags(id, flags).1 is Ok ==> {
            let t = s.host_register_with_flags(id, flags).0;
            &&& flags == 0 || flags == HostAllocFlags::MAPPED
            &&& t.allocs[id].host_pinned
            &&& t.allocs[id].host_mapped <==> flags == HostAllocFlags::MAPPED
        },
{
    reveal(SimState::insert_host);
    reveal(SimState::host_register_flags);
    assert(flags & !HostAllocFlags::MAPPED == 0 ==> flags == 0 || flags == HostAllocFlags::MAPPED)
        by (bit_vector);
    assert(0u32 & HostAllocFlags::MAPPED == 0) by (bit_vector);
    assert(HostAllocFlags::MAPPED & HostAllocFlags::MAPPED != 0) by (bit_vector);
}

proof fn lemma_thresholds(s: SimState, bytes: u64, ids: Seq<PoolId>, i: int, j: int)
    requires
        0 <= i,
        0 <= j < ids.len(),
        s.set_default_pool_release_threshold_from(bytes, ids, i).1 is Ok,
        j < i ==> s.pool_root(ids[j]) is Ok && s.pools[s.pool_root(ids[j])->Ok_0].release_threshold
            == bytes && s.pools.contains_key(s.pool_root(ids[j])->Ok_0),
    ensures
        ({
            let t = s.set_default_pool_release_threshold_from(bytes, ids, i).0;
            &&& t.pool_root(ids[j]) is Ok
            &&& t.pools[t.pool_root(ids[j])->Ok_0].release_threshold == bytes
        }),
    decreases ids.len() - i,
{
    if i < ids.len() {
        let t = s.set_pool_release_threshold(ids[i], bytes).0;
        assert(t.pool_root(ids[j]) == s.pool_root(ids[j]));
        lemma_thresholds(t, bytes, ids, i + 1, j);
    }
}

/// The default threshold is that of the pool in use on each GPU.
pub proof fn default_threshold_is_set_everywhere(s: SimState, bytes: u64, device: DeviceId)
    requires
        s.set_default_pool_release_threshold(bytes).1 is Ok,
        s.current_pools.dom().finite(),
        s.current_pools.contains_key(device),
    ensures
        ({
            let t = s.set_default_pool_release_threshold(bytes).0;
            let p = s.current_pools[device];
            &&& t.pool_root(p) is Ok
            &&& t.pools[t.pool_root(p)->Ok_0].release_threshold == bytes
        }),
{
    lemma_order_exists(s.current_pools.dom());
    let all = order_of(s.current_pools.dom());
    assert(all.contains(device));
    let j = choose|j: int| 0 <= j < all.len() && all[j] == device;
    let ids = s.pools_in_use();
    assert(ids[j] == s.current_pools[device]);
    lemma_thresholds(s, bytes, ids, 0, j);
}

/// Where memory moves to one GPU, it leaves every other.
pub proof fn moved_memory_leaves_others(s: SimState, alloc: AllocId, keep: DeviceId, x: DeviceId)
    requires
        s.migrate_off_except(alloc, keep).1 is Ok,
        s.allocs[alloc].devices.contains(x),
        x != keep,
    ensures
        ({
            let t = s.migrate_off_except(alloc, keep).0;
            &&& !t.allocs[alloc].devices.contains(x)
            &&& s.allocs[alloc].devices.contains(keep) ==> t.allocs[alloc].devices.contains(keep)
        }),
{
    let q = s.allocs[alloc].devices;
    let j = choose|j: int| 0 <= j < q.len() && q[j] == x;
    lemma_moved_off(s, alloc, keep, s.allocs[alloc].bytes, q, 0, j);
}

proof fn lemma_moved_off(
    s: SimState,
    alloc: AllocId,
    keep: DeviceId,
    bytes: u64,
    holders: Seq<DeviceId>,
    i: int,
    j: int,
)
    requires
        0 <= i,
        0 <= j < holders.len(),
        holders[j] != keep,
        s.allocs.contains_key(alloc),
        i <= j || !s.allocs[alloc].devices.contains(holders[j]),
        s.migrate_off_except_from(alloc, keep, bytes, holders, i).1 is Ok,
    ensures
        ({
            let t = s.migrate_off_except_from(alloc, keep, bytes, holders, i).0;
            &&& !t.allocs[alloc].devices.contains(holders[j])
            &&& s.allocs[alloc].devices.contains(keep) ==> t.allocs[alloc].devices.contains(keep)
        }),
    decreases holders.len() - i,
{
    if i < holders.len() {
        let d = holders[i];
        if d == keep {
            lemma_moved_off(s, alloc, keep, bytes, holders, i + 1, j);
        } else {
            refund_device_keeps_allocs(s, d, alloc, bytes);
            let t = s.refund_device(d, alloc, bytes).0;
            let a = t.allocs[alloc];
            let u = SimState {
                allocs: t.allocs.insert(alloc, AllocView { devices: without(a.devices, d), ..a }),
                ..t
            };
            removed_is_gone(a.devices, d, holders[j]);
            removed_is_gone(a.devices, d, keep);
            lemma_moved_off(u, alloc, keep, bytes, holders, i + 1, j);
        }
    }
}

/// Managed memory moves from a GPU that holds it, and from the host where none does or where the
/// target holds it already.
pub proof fn move_starts_where_memory_is(s: SimState, alloc: AllocId, dest: Option<DeviceId>)
    requires
        s.managed_move_src(alloc, dest) is Ok,
    ensures
        ({
            let (bytes, src) = s.managed_move_src(alloc, dest)->Ok_0;
            let a = s.allocs[alloc];
            &&& a.live && a.managed
            &&& bytes == a.bytes
            &&& src is Device ==> a.devices.contains(src->Device_0)
            &&& src is HostPinned <==> a.devices.len() == 0 || (dest is Some && a.devices.contains(
                dest->0,
            ))
            &&& !(src is Host)
        }),
{
    let a = s.allocs[alloc];
    if a.devices.len() > 0 {
        assert(a.devices.contains(a.devices[0]));
    }
}

/// Lines that are kept for a window hold all of it, up to the limit, and no more than the limit.
pub proof fn kept_lines_hold_the_window(
    q: Seq<PersistLine>,
    limit: u64,
    id: AllocId,
    off: u64,
    n: u64,
)
    requires
        0 < n <= limit,
        off + n <= u64::MAX,
    ensures
        ({
            let t = lines_filled(q, limit, id, off, n);
            &&& lines_overlap(t, id, off, n) >= n
            &&& lines_used(t) <= limit
        }),
{
    let a = lines_trimmed(lines_apart(q, id, off, n), 0, limit);
    let kept = lines_trimmed(a, n, limit);
    trimmed_lines_fit(a, n, limit);
    let x = PersistLine { id, offset: off, bytes: n };
    assert(kept.push(x).drop_last() =~= kept);
    assert(kept.push(x).last() == x);
}

} // verus!
