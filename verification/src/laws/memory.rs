//! Device memory, pools, exports and words.
use vstd::prelude::*;
use crate::error::SimError;
use crate::history::{follows, history};
use crate::history::ranges::has_piece;
use crate::ids::{AllocId, DeviceId, MemHandleId, MulticastId, OpId, Piece, PoolId, StreamId, Word};
use crate::laws::start::fresh_is_sound;
use crate::laws::sync::idle_node_stays;
use crate::num::{max_u64, min_u64};
use crate::ops::{MemAdvise, MemPoolAttr};
use crate::profile::ProfileView;
use crate::sim::SimState;
use crate::sim::run::Goal;
use crate::spans::{byte_mapped, overlaps_map};
use crate::state::{GpuRtView, MemHandle, PoolView};
use crate::table::order_of;

verus! {

/// Device memory is charged exactly when it fits.
pub proof fn reserve_fits(s: SimState, device: DeviceId, bytes: u64)
    requires
        s.profile.gpu(device) is Ok,
        s.gpus.contains_key(device),
        s.gpus[device].used <= s.profile.gpu(device)->Ok_0.hbm_bytes,
    ensures
        ({
            let (t, r) = s.reserve_hbm(device, bytes);
            let total = s.profile.gpu(device)->Ok_0.hbm_bytes;
            let used = s.gpus[device].used;
            &&& r is Ok <==> used + bytes <= total
            &&& r is Ok ==> t.gpus[device].used == used + bytes
            &&& r is Err ==> t == s && r->Err_0 == (SimError::Oom {
                device,
                need: bytes,
                free: (total - used) as u64,
            })
        }),
{
    reveal(SimState::reserve_hbm);
}

/// Memory that was charged and given back leaves the GPU as it was.
pub proof fn reserve_then_refund(s: SimState, device: DeviceId, bytes: u64)
    requires
        s.reserve_hbm(device, bytes).1 is Ok,
        s.gpus.contains_key(device),
        s.gpus[device].used <= s.profile.gpu(device)->Ok_0.hbm_bytes,
    ensures
        s.reserve_hbm(device, bytes).0.refund_hbm(device, bytes).0.gpus == s.gpus,
{
    reveal(SimState::reserve_hbm);
    let t = s.reserve_hbm(device, bytes).0.refund_hbm(device, bytes).0;
    assert(t.gpus[device] == s.gpus[device]);
    assert(t.gpus =~= s.gpus);
}

/// Page-locked memory is charged exactly when the budget allows, and giving it back undoes that.
pub proof fn pin_then_refund(s: SimState, bytes: u64)
    requires
        s.pinned_used <= s.profile.host_pin_bytes,
    ensures
        s.charge_pin(bytes).1 is Ok <==> s.pinned_used + bytes <= s.profile.host_pin_bytes,
        s.charge_pin(bytes).1 is Err ==> s.charge_pin(bytes).0 == s,
        s.charge_pin(bytes).1 is Ok ==> s.charge_pin(bytes).0.refund_pin(bytes) == s,
{
}

/// Free and used bytes make up the memory of a device.
pub proof fn memory_adds_up(s: SimState, device: DeviceId)
    requires
        s.mem_info(device) is Ok,
        s.gpus[device].used <= s.profile.gpu(device)->Ok_0.hbm_bytes,
    ensures
        ({
            let (free, total) = s.mem_info(device)->Ok_0;
            free + s.hbm_used(device)->Ok_0 == total
        }),
{
}

/// What a pool has charged to its device: live and cached bytes.
pub open spec fn pool_charge(p: PoolView) -> int {
    p.live + p.cached
}

/// Taking bytes from a pool charges the device by as much as the pool grows.
pub proof fn pool_take_conserves(s: SimState, pool: PoolId, root: PoolId, bytes: u64)
    requires
        s.pool_root(pool) == Ok::<PoolId, SimError>(root),
        s.pools.contains_key(root),
        s.pools[root].live + bytes <= u64::MAX,
        s.pool_acquire(pool, bytes).1 is Ok,
        s.gpus.contains_key(s.pools[root].device),
        s.gpus[s.pools[root].device].used <= s.profile.gpu(s.pools[root].device)->Ok_0.hbm_bytes,
    ensures
        ({
            let t = s.pool_acquire(pool, bytes).0;
            let d = s.pools[root].device;
            &&& t.pools[root].live == s.pools[root].live + bytes
            &&& t.gpus[d].used - pool_charge(t.pools[root]) == s.gpus[d].used - pool_charge(
                s.pools[root],
            )
        }),
{
    reveal(SimState::pool_acquire);
    reveal(SimState::reserve_hbm);
}

/// Giving bytes back to a pool frees as much of the device as the pool shrinks, and leaves no more
/// cached than the release threshold.
pub proof fn pool_give_conserves(s: SimState, pool: PoolId, root: PoolId, bytes: u64)
    requires
        s.pool_root(pool) == Ok::<PoolId, SimError>(root),
        s.pools.contains_key(root),
        s.pools[root].live >= bytes,
        s.pools[root].cached + bytes <= u64::MAX,
        s.gpus.contains_key(s.pools[root].device),
        s.gpus[s.pools[root].device].used >= pool_charge(s.pools[root]),
    ensures
        ({
            let (t, r) = s.pool_release(pool, bytes);
            let d = s.pools[root].device;
            &&& r is Ok
            &&& t.pools[root].live == s.pools[root].live - bytes
            &&& t.pools[root].cached <= t.pools[root].release_threshold
            &&& t.gpus[d].used - pool_charge(t.pools[root]) == s.gpus[d].used - pool_charge(
                s.pools[root],
            )
        }),
{
    reveal(SimState::pool_release);
}

/// Trimming gives back exactly the cached bytes above what is to stay. Trimming again finds nothing.
/// The device has as much less in use, as far as there is anything.
pub proof fn pool_trim_gives_back(s: SimState, pool: PoolId, root: PoolId, min_bytes: u64)
    requires
        s.capturing is None,
        s.pool_root(pool) == Ok::<PoolId, SimError>(root),
        s.pools.contains_key(root),
        s.refuse_destroyed_pool(root) is Ok,
        s.gpus.contains_key(s.pools[root].device),
    ensures
        ({
            let (t, r) = s.pool_trim_to(pool, min_bytes);
            let d = s.pools[root].device;
            let cached = s.pools[root].cached;
            let excess = max_u64(cached, min_bytes) - min_bytes;
            &&& r == Ok::<u64, SimError>(excess as u64)
            &&& t.pool_cached(pool) == Ok::<u64, SimError>(min_u64(cached, min_bytes))
            &&& t.pool_live(pool) == s.pool_live(pool)
            &&& t.clock == s.clock
            &&& t.gpus[d].used == if s.gpus[d].used >= excess {
                s.gpus[d].used - excess
            } else {
                0
            }
            &&& t.pool_trim_to(pool, min_bytes) == (t, Ok::<u64, SimError>(0))
        }),
{
    let (t, r) = s.pool_trim_to(pool, min_bytes);
    let p = s.pools[root];
    assert(t.pools.contains_key(pool) && t.pools[pool].share_root == s.pools[pool].share_root);
    assert(t.pool_root(pool) == Ok::<PoolId, SimError>(root));
    assert(t.pools[root].cached == min_u64(p.cached, min_bytes));
    assert(t.refuse_destroyed_pool(root) is Ok);
    assert(t.capturing is None);
    assert(r is Ok);
}

proof fn lemma_same_sync(s: SimState, t: SimState, n: u32, stream: StreamId, i: int)
    requires
        t.ops == s.ops,
    ensures
        t.sync_outcome_from(n, stream, i) == s.sync_outcome_from(n, stream, i),
    decreases order_of(s.ops.dom()).len() - i,
{
    if 0 <= i < order_of(s.ops.dom()).len() {
        let o = s.ops[order_of(s.ops.dom())[i]];
        if o.cancelled {
            lemma_same_sync(s, t, n.saturating_add(1), o.stream, i + 1);
        } else {
            lemma_same_sync(s, t, n, stream, i + 1);
        }
    }
}

/// Whatever is done to a new simulator, a piece of a range that has a handle or belongs to a
/// multicast object is one of the maps of that range.
pub proof fn pieces_are_mapped(profile: ProfileView, s: SimState, p: Piece)
    requires
        follows(SimState::fresh(profile), s),
        s.next.alloc < u64::MAX,
        s.vmm_handle_at.contains_key(p) || s.mc_at.contains(p),
    ensures
        s.allocs.contains_key(p.0),
        s.allocs[p.0].vmm_maps.contains((p.1, p.2, p.3)),
{
    fresh_is_sound(profile);
    history(SimState::fresh(profile), s);
    reveal(crate::history::ranges::pieces_mapped);
    assert(has_piece(s.vmm_handle_at, s.mc_at, p));
}

/// Whatever is done to a new simulator, only a handle with a reference or a map is charged.
pub proof fn charged_handles_are_held(profile: ProfileView, s: SimState, handle: MemHandleId)
    requires
        follows(SimState::fresh(profile), s),
        s.mem_handles.contains_key(handle),
        s.mem_handles[handle].charged,
    ensures
        s.mem_handles[handle].refs > 0 || s.mem_handles[handle].maps > 0,
        s.gpus.contains_key(s.mem_handles[handle].device),
{
    fresh_is_sound(profile);
    history(SimState::fresh(profile), s);
    reveal(crate::history::ranges::handles_held);
}

/// Releasing a handle takes one reference. With the last reference and no map left, a charged handle
/// gives its memory back and is charged no more; else the memory stays.
pub proof fn released_handle_gives_back_last(
    profile: ProfileView,
    s: SimState,
    handle: MemHandleId,
)
    requires
        follows(SimState::fresh(profile), s),
        s.capturing is None,
        s.mem_handles.contains_key(handle),
        s.mem_handles[handle].refs > 0,
    ensures
        ({
            let (t, r) = s.va_release_handle(handle);
            let h = s.mem_handles[handle];
            let last = h.refs == 1 && h.maps == 0;
            &&& r is Ok
            &&& t.mem_handles == s.mem_handles.insert(
                handle,
                MemHandle { refs: (h.refs - 1) as u32, charged: h.charged && !last, ..h },
            )
            &&& h.charged && last ==> t.gpus == s.gpus.insert(
                h.device,
                GpuRtView {
                    used: s.gpus[h.device].used.saturating_sub(h.bytes),
                    ..s.gpus[h.device]
                },
            )
            &&& !(h.charged && last) ==> t.gpus == s.gpus
            &&& t.clock == s.clock.saturating_add(1)
        }),
{
    reveal(SimState::maybe_refund_handle);
    let h = s.mem_handles[handle];
    if h.charged {
        charged_handles_are_held(profile, s, handle);
    }
    let t = s.va_release_handle(handle).0;
    let low = MemHandle { refs: (h.refs - 1) as u32, ..h };
    let last = h.refs == 1 && h.maps == 0;
    assert(t.mem_handles =~= s.mem_handles.insert(
        handle,
        MemHandle { charged: h.charged && !last, ..low },
    ));
}

/// A multicast map charges no memory, and unmapping it refunds none: on an idle node every device
/// has as much in use as before.
pub proof fn multicast_map_is_free(
    profile: ProfileView,
    s: SimState,
    id: AllocId,
    device: DeviceId,
    offset: u64,
    mc: MulticastId,
)
    requires
        s.running.len() == 0,
        !s.op_pending(),
        s.sync_outcome() is Ok,
        follows(SimState::fresh(profile), s),
        s.next.alloc < u64::MAX,
        s.allocs[id].vmm_maps.len() == 0,
        s.va_map_multicast(id, device, offset, mc).1 is Ok,
    ensures
        ({
            let t = s.va_map_multicast(id, device, offset, mc).0;
            let (u, r) = t.va_unmap(id);
            &&& t.gpus == s.gpus
            &&& t.is_multicast_va(id)
            &&& r is Ok
            &&& u.gpus == s.gpus
            &&& !u.is_multicast_va(id)
            &&& u.vmm_mapped_bytes(id, device) == Ok::<u64, SimError>(0)
        }),
{
    let t = s.va_map_multicast(id, device, offset, mc).0;
    let bytes = s.mc_mappable(mc, device)->Ok_0;
    reveal(SimState::drop_vmm_physical);
    reveal_with_fuel(SimState::drop_maps_from, 2);
    assert(t.ops == s.ops && t.running == s.running);
    assert(!t.op_pending()) by {
        if t.op_pending() {
            let k = choose|k: OpId| t.ops.contains_key(k) && #[trigger] t.op_pending_at(k);
            assert(s.op_pending_at(k));
        }
    }
    idle_node_stays(t);
    lemma_same_sync(s, t, 0, StreamId(0), 0);
    assert(t.capturing is None);
    assert(t.synchronize().1 is Ok) by {
        reveal(SimState::drive_until);
        assert(t.goal_reached(Goal::Node));
        assert(t.drive_until(Goal::Node) == (t, Ok::<(), SimError>(())));
        assert(t.sync_outcome() == s.sync_outcome());
    }
    let maps = t.allocs[id].vmm_maps;
    assert(maps =~= seq![(device, offset, bytes)]);
    let p = Piece(id, device, offset, bytes);
    assert(t.mc_at.contains(p));
    assert(!t.vmm_handle_at.contains_key(p)) by {
        if t.vmm_handle_at.contains_key(p) {
            pieces_are_mapped(profile, s, p);
        }
    }
    let u = t.va_unmap(id).0;
    assert(u.allocs[id].vmm_maps.len() == 0);
}

/// The release threshold reads back as it was set. What a pool was imported from is no import.
pub proof fn threshold_read_back(s: SimState, pool: PoolId, bytes: u64)
    requires
        s.set_pool_release_threshold(pool, bytes).1 is Ok,
        s.pool_root(s.pool_root(pool)->Ok_0) == s.pool_root(pool),
    ensures
        s.set_pool_release_threshold(pool, bytes).0.pool_get_attribute(
            pool,
            MemPoolAttr::ReleaseThreshold,
        ) == Ok::<u64, SimError>(bytes),
{
}

/// Access to a pool lasts until it is taken back.
pub proof fn pool_access_read_back(s: SimState, pool: PoolId, device: DeviceId)
    ensures
        s.pool_set_access(pool, device).1 is Ok ==> s.pool_set_access(
            pool,
            device,
        ).0.is_pool_accessed_by(pool, device) == Ok::<bool, SimError>(true),
        s.pool_unset_access(pool, device).1 is Ok ==> s.pool_unset_access(
            pool,
            device,
        ).0.is_pool_accessed_by(pool, device) == Ok::<bool, SimError>(false),
{
}

/// Hints on managed memory read back as they were given.
pub proof fn advice_read_back(s: SimState, alloc: AllocId, device: DeviceId)
    ensures
        s.mem_advise(alloc, MemAdvise::SetReadMostly, device).1 is Ok ==> s.mem_advise(
            alloc,
            MemAdvise::SetReadMostly,
            device,
        ).0.is_read_mostly(alloc) == Ok::<bool, SimError>(true),
        s.mem_advise(alloc, MemAdvise::UnsetReadMostly, device).1 is Ok ==> s.mem_advise(
            alloc,
            MemAdvise::UnsetReadMostly,
            device,
        ).0.is_read_mostly(alloc) == Ok::<bool, SimError>(false),
        s.mem_advise(alloc, MemAdvise::SetAccessedBy, device).1 is Ok ==> s.mem_advise(
            alloc,
            MemAdvise::SetAccessedBy,
            device,
        ).0.is_accessed_by(alloc, device) == Ok::<bool, SimError>(true),
        s.mem_advise(alloc, MemAdvise::SetPreferredLocation, device).1 is Ok ==> s.mem_advise(
            alloc,
            MemAdvise::SetPreferredLocation,
            device,
        ).0.is_preferred_location(alloc, device) == Ok::<bool, SimError>(true),
        s.mem_advise(alloc, MemAdvise::SetPreferredLocationHost, device).1 is Ok ==> s.mem_advise(
            alloc,
            MemAdvise::SetPreferredLocationHost,
            device,
        ).0.is_preferred_host(alloc) == Ok::<bool, SimError>(true),
{
    reveal(SimState::set_advice);
}

/// A word that was written reads back. A 32-bit write keeps the high half.
pub proof fn word_read_back(s: SimState, id: AllocId, offset: u64, value: u64)
    ensures
        s.apply_mailbox_write(id, offset, value, false).mailbox_word(id, offset) == value,
        s.apply_mailbox_write(id, offset, value, true).mailbox_word(id, offset) & 0xffff_ffff
            == value & 0xffff_ffff,
        s.apply_mailbox_write(id, offset, value, true).mailbox_word(id, offset) >> 32
            == s.mailbox_word(id, offset) >> 32,
{
    let prev = s.mailbox_word(id, offset);
    let all = 0xffff_ffff_ffff_ffffu64;
    let low = 0xffff_ffffu64;
    assert((prev & !all) | (value & all) == value) by (bit_vector)
        requires
            all == 0xffff_ffff_ffff_ffffu64,
    ;
    assert(((prev & !low) | (value & low)) & 0xffff_ffff == value & 0xffff_ffff) by (bit_vector)
        requires
            low == 0xffff_ffffu64,
    ;
    assert(((prev & !low) | (value & low)) >> 32 == prev >> 32) by (bit_vector)
        requires
            low == 0xffff_ffffu64,
    ;
}

/// Writing a word changes no other word, and forgetting an allocation forgets its words only.
pub proof fn words_are_apart(
    s: SimState,
    id: AllocId,
    offset: u64,
    value: u64,
    bits32: bool,
    other: AllocId,
    at: u64,
)
    ensures
        Word(other, at) != Word(id, offset) ==> s.apply_mailbox_write(
            id,
            offset,
            value,
            bits32,
        ).mailbox_word(other, at) == s.mailbox_word(other, at),
        s.clear_mailbox(id).mailbox_word(id, at) == 0,
        other != id ==> s.clear_mailbox(id).mailbox_word(other, at) == s.mailbox_word(other, at),
{
}

/// Physical memory that is released before it was mapped leaves the device as it was.
pub proof fn unmapped_memory_is_refunded(s: SimState, device: DeviceId, bytes: u64)
    requires
        s.va_create(device, bytes).1 is Ok,
        s.gpus.contains_key(device),
        s.gpus[device].used <= s.profile.gpu(device)->Ok_0.hbm_bytes,
    ensures
        ({
            let t = s.va_create(device, bytes).0;
            let h = s.va_create(device, bytes).1->Ok_0;
            &&& t.gpus[device].used == s.gpus[device].used + bytes
            &&& t.handle_refs(h) == Ok::<u32, SimError>(1)
            &&& t.va_release_handle(h).1 is Ok
            &&& t.va_release_handle(h).0.gpus == s.gpus
            &&& t.va_release_handle(h).0.is_handle_live(h) == Ok::<bool, SimError>(false)
        }),
{
    reveal(SimState::reserve_hbm);
    reveal(SimState::maybe_refund_handle);
    let t = s.va_create(device, bytes).0;
    let h = s.va_create(device, bytes).1->Ok_0;
    let u = t.va_release_handle(h).0;
    assert(u.gpus[device] == s.gpus[device]);
    assert(u.gpus =~= s.gpus);
}

/// A span that was mapped is resident, and its bytes are charged to the device.
pub proof fn mapped_span_is_resident(
    s: SimState,
    id: AllocId,
    device: DeviceId,
    offset: u64,
    bytes: u64,
)
    requires
        s.va_map_range(id, device, offset, bytes).1 is Ok,
        offset + bytes <= u64::MAX,
        s.gpus.contains_key(device),
        s.gpus[device].used <= s.profile.gpu(device)->Ok_0.hbm_bytes,
    ensures
        ({
            let t = s.va_map_range(id, device, offset, bytes).0;
            &&& t.is_range_resident(id, device, offset, bytes) == Ok::<bool, SimError>(true)
            &&& t.gpus[device].used == s.gpus[device].used + bytes
        }),
{
    reveal(SimState::reserve_hbm);
    let t = s.va_map_range(id, device, offset, bytes).0;
    let maps = t.allocs[id].vmm_maps;
    assert(maps.last() == (device, offset, bytes));
    assert forall|x: int| offset <= x < offset + bytes implies #[trigger] byte_mapped(
        maps,
        device,
        x,
    ) by {
        assert(maps[maps.len() - 1] == (device, offset, bytes));
    }
}

/// A span that overlaps a map of the device is not mapped again.
pub proof fn overlapping_map_refused(
    s: SimState,
    id: AllocId,
    device: DeviceId,
    offset: u64,
    bytes: u64,
)
    requires
        s.allocs.contains_key(id),
        overlaps_map(s.allocs[id].vmm_maps, device, offset, bytes),
    ensures
        s.va_map_range(id, device, offset, bytes).1 is Err,
        s.va_map_range(id, device, offset, bytes).0 == s,
{
}

/// A range that is parked is there to be taken again.
pub proof fn parked_range_is_reused(s: SimState, id: AllocId)
    ensures
        s.park_idle_va(id).vmm_idle.contains(id),
        s.park_idle_va(id).va_release(id) == (s.park_idle_va(id), Ok::<(), SimError>(())),
{
    let t = s.park_idle_va(id);
    if !s.vmm_idle.contains(id) {
        assert(t.vmm_idle.last() == id);
    }
}

proof fn lemma_idle_device_stays(s: SimState, device: DeviceId)
    requires
        s.capturing is None,
        s.profile.gpu(device) is Ok,
        s.device_idle(device),
    ensures
        s.synchronize_device(device) == (s, s.device_sync_outcome(device)),
{
    reveal(SimState::synchronize_device);
    reveal(SimState::drive_until);
}

proof fn lemma_same_outcome(
    s: SimState,
    t: SimState,
    device: DeviceId,
    n: u32,
    stream: StreamId,
    i: int,
)
    requires
        t.ops == s.ops,
    ensures
        t.device_sync_outcome_from(device, n, stream, i) == s.device_sync_outcome_from(
            device,
            n,
            stream,
            i,
        ),
    decreases order_of(s.ops.dom()).len() - i,
{
    if 0 <= i < order_of(s.ops.dom()).len() {
        let o = s.ops[order_of(s.ops.dom())[i]];
        if o.cancelled && o.device == device {
            lemma_same_outcome(s, t, device, n.saturating_add(1), o.stream, i + 1);
        } else {
            lemma_same_outcome(s, t, device, n, stream, i + 1);
        }
    }
}

proof fn lemma_same_idle(s: SimState, t: SimState, device: DeviceId)
    requires
        t.ops == s.ops,
        t.running == s.running,
        s.device_idle(device),
    ensures
        t.device_idle(device),
{
    if t.op_pending_on_device(device) {
        let k = choose|k: OpId|
            t.ops.contains_key(k) && #[trigger] t.op_pending_on_device_at(k, device);
        assert(s.op_pending_on_device_at(k, device));
    }
    if t.running_on_device(device) {
        let i = choose|i: int|
            0 <= i < t.running.len() && #[trigger] t.running_on_device_at(i, device);
        assert(s.running_on_device_at(i, device));
    }
}

/// Memory that was allocated can be freed, and the device then has as much as before. Nothing is
/// waited for a second time.
pub proof fn malloc_then_free(s: SimState, device: DeviceId, bytes: u64)
    requires
        s.malloc(device, bytes).1 is Ok,
        s.malloc(device, bytes).0.capturing is None,
    ensures
        ({
            let settled = s.synchronize_device(device).0;
            let t = s.malloc(device, bytes).0;
            let id = s.malloc(device, bytes).1->Ok_0;
            let u = t.free_sync(id).0;
            &&& t.gpus[device].used == settled.gpus[device].used + bytes
            &&& t.allocs[id].bytes == bytes
            &&& t.allocs[id].live
            &&& t.free_sync(id).1 is Ok
            &&& u.gpus[device].used == settled.gpus[device].used
            &&& !u.allocs[id].live
            &&& u.clock == t.clock
        }),
{
    reveal(SimState::synchronize_device);
    reveal(SimState::reserve_hbm);
    reveal(SimState::free_now);
    reveal_with_fuel(SimState::synchronize_holders_from, 2);
    reveal_with_fuel(SimState::refund_devices_from, 2);
    let s1 = s.synchronize_device(device).0;
    let t = s.malloc(device, bytes).0;
    let id = s.malloc(device, bytes).1->Ok_0;
    assert(t.ops == s1.ops);
    assert(t.running == s1.running);
    assert(t.profile == s1.profile);
    lemma_same_idle(s1, t, device);
    lemma_same_outcome(s1, t, device, 0, StreamId(0), 0);
    lemma_idle_device_stays(t, device);
    let a = t.allocs[id];
    assert(a.devices =~= seq![device]);
    assert(t.synchronize_holders(a.devices) == (t, Ok::<(), SimError>(())));
}

} // verus!
