//! Memory that pools and handles charge to the GPUs.
//!
//! Used memory covers it in a new simulator, and pools and handles keep it so. Only the release of
//! memory that neither of them holds can break it. A copy that ends on a GPU after its memory was
//! released there is resident without a charge, and gives back what was never taken. A range that
//! is mapped in part gives back its whole size when it is freed in stream order.
use vstd::prelude::*;
use crate::error::SimError;
use crate::history::{follows, history};
use crate::history::ranges::root_is_sound;
use crate::ids::{DeviceId, MemHandleId, PoolId};
use crate::laws::frames::rebind_current_pools_keeps_accounts;
use crate::laws::memory::{
    charged_handles_are_held, pool_trim_gives_back, released_handle_gives_back_last,
};
use crate::laws::start::fresh_is_sound;
use crate::num::{max_u64, min_u64};
use crate::profile::{GpuProfile, ProfileView};
use crate::sim::{seed_pools, Seeds, SimState};
use crate::state::{MemHandle, PoolView};

verus! {

/// Sum over the values of a finite map.
pub open spec fn sum_of<K, V>(m: Map<K, V>, f: spec_fn(V) -> nat) -> nat
    decreases m.dom().len(),
    when m.dom().finite()
    via sum_of_decreases::<K, V>
{
    if m.dom().len() == 0 {
        0
    } else {
        let k = choose|k: K| m.dom().contains(k);
        f(m[k]) + sum_of(m.remove(k), f)
    }
}

#[via_fn]
proof fn sum_of_decreases<K, V>(m: Map<K, V>, f: spec_fn(V) -> nat) {
    if m.dom().len() > 0 {
        let k = choose|k: K| m.dom().contains(k);
        lemma_some_key(m.dom());
        assert(m.remove(k).dom() =~= m.dom().remove(k));
    }
}

proof fn lemma_some_key<K>(d: Set<K>)
    requires
        d.finite(),
        d.len() > 0,
    ensures
        exists|k: K| d.contains(k),
{
    if forall|k: K| !d.contains(k) {
        assert(d =~= Set::empty());
    }
}

proof fn lemma_sum_without<K, V>(m: Map<K, V>, f: spec_fn(V) -> nat, k: K)
    requires
        m.dom().finite(),
        m.contains_key(k),
    ensures
        sum_of(m, f) == f(m[k]) + sum_of(m.remove(k), f),
    decreases m.dom().len(),
{
    lemma_some_key(m.dom());
    assert(m.dom().len() > 0) by {
        if m.dom().len() == 0 {
            assert(m.dom() =~= Set::empty());
        }
    }
    let c = choose|c: K| m.dom().contains(c);
    if c != k {
        let a = m.remove(c);
        let b = m.remove(k);
        assert(a.dom() =~= m.dom().remove(c));
        assert(b.dom() =~= m.dom().remove(k));
        lemma_sum_without(a, f, k);
        lemma_sum_without(b, f, c);
        assert(a.remove(k) =~= b.remove(c));
    }
}

proof fn lemma_sum_changed<K, V>(m: Map<K, V>, f: spec_fn(V) -> nat, k: K, v: V)
    requires
        m.dom().finite(),
        m.contains_key(k),
    ensures
        sum_of(m.insert(k, v), f) + f(m[k]) == sum_of(m, f) + f(v),
        sum_of(m, f) >= f(m[k]),
{
    let n = m.insert(k, v);
    assert(n.dom() =~= m.dom());
    lemma_sum_without(m, f, k);
    lemma_sum_without(n, f, k);
    assert(n.remove(k) =~= m.remove(k));
}

proof fn lemma_sum_added<K, V>(m: Map<K, V>, f: spec_fn(V) -> nat, k: K, v: V)
    requires
        m.dom().finite(),
        !m.contains_key(k),
    ensures
        sum_of(m.insert(k, v), f) == sum_of(m, f) + f(v),
{
    let n = m.insert(k, v);
    assert(n.dom() =~= m.dom().insert(k));
    lemma_sum_without(n, f, k);
    assert(n.remove(k) =~= m);
}

proof fn lemma_sum_nothing<K, V>(m: Map<K, V>, f: spec_fn(V) -> nat)
    requires
        m.dom().finite(),
        forall|k: K| #[trigger] m.contains_key(k) ==> f(m[k]) == 0,
    ensures
        sum_of(m, f) == 0,
    decreases m.dom().len(),
{
    if m.dom().len() > 0 {
        lemma_some_key(m.dom());
        let c = choose|c: K| m.dom().contains(c);
        assert(m.contains_key(c));
        assert(m.remove(c).dom() =~= m.dom().remove(c));
        assert forall|k: K| #[trigger] m.remove(c).contains_key(k) implies f(m.remove(c)[k])
            == 0 by {
            assert(m.contains_key(k));
        }
        lemma_sum_nothing(m.remove(c), f);
    }
}

/// What a pool that is no import charges to a GPU: what is in use and what is cached.
pub open spec fn pool_part(p: PoolView, d: DeviceId) -> nat {
    if p.device == d && p.share_root is None {
        p.live as nat + p.cached as nat
    } else {
        0
    }
}

/// What a handle charges to a GPU.
pub open spec fn handle_part(h: MemHandle, d: DeviceId) -> nat {
    if h.charged && h.device == d {
        h.bytes as nat
    } else {
        0
    }
}

/// What pools and handles charge to a GPU together.
pub open spec fn owed(s: SimState, d: DeviceId) -> nat {
    sum_of(s.pools, |p: PoolView| pool_part(p, d)) + sum_of(
        s.mem_handles,
        |h: MemHandle| handle_part(h, d),
    )
}

/// On each GPU used memory covers what pools and handles charge.
pub open spec fn covered(s: SimState) -> bool {
    &&& s.pools.dom().finite()
    &&& s.mem_handles.dom().finite()
    &&& forall|d: DeviceId| #[trigger]
        s.gpus.contains_key(d) ==> owed(s, d) <= s.gpus[d].used
}

proof fn lemma_pool_owed(s: SimState, t: SimState, k: PoolId, p: PoolView, d: DeviceId)
    requires
        s.pools.dom().finite(),
        s.pools.contains_key(k),
        t.pools == s.pools.insert(k, p),
        t.mem_handles == s.mem_handles,
    ensures
        t.pools.dom().finite(),
        owed(t, d) + pool_part(s.pools[k], d) == owed(s, d) + pool_part(p, d),
        owed(s, d) >= pool_part(s.pools[k], d),
{
    lemma_sum_changed(s.pools, |p: PoolView| pool_part(p, d), k, p);
    assert(t.pools.dom() =~= s.pools.dom());
}

proof fn lemma_handle_owed(s: SimState, t: SimState, k: MemHandleId, h: MemHandle, d: DeviceId)
    requires
        s.mem_handles.dom().finite(),
        s.mem_handles.contains_key(k),
        t.mem_handles == s.mem_handles.insert(k, h),
        t.pools == s.pools,
    ensures
        t.mem_handles.dom().finite(),
        owed(t, d) + handle_part(s.mem_handles[k], d) == owed(s, d) + handle_part(h, d),
        owed(s, d) >= handle_part(s.mem_handles[k], d),
{
    lemma_sum_changed(s.mem_handles, |h: MemHandle| handle_part(h, d), k, h);
    assert(t.mem_handles.dom() =~= s.mem_handles.dom());
}

proof fn lemma_seeds_empty(gpus: Seq<GpuProfile>, start: Seeds, graph: bool)
    requires
        start.pools.dom().finite(),
        forall|k: PoolId| #[trigger]
            start.pools.contains_key(k) ==> start.pools[k].live == 0 && start.pools[k].cached == 0,
    ensures
        ({
            let t = seed_pools(gpus, start, graph);
            &&& t.pools.dom().finite()
            &&& forall|k: PoolId| #[trigger]
                t.pools.contains_key(k) ==> t.pools[k].live == 0 && t.pools[k].cached == 0
        }),
    decreases gpus.len(),
{
    if gpus.len() > 0 {
        lemma_seeds_empty(gpus.drop_last(), start, graph);
        let s = seed_pools(gpus.drop_last(), start, graph);
        let t = seed_pools(gpus, start, graph);
        assert(t.pools.dom() =~= s.pools.dom().insert(PoolId(s.next)));
    }
}

/// In a new simulator used memory covers what pools and handles charge.
pub proof fn fresh_is_covered(profile: ProfileView)
    ensures
        covered(SimState::fresh(profile)),
{
    let s = SimState::fresh(profile);
    let none = Seeds { next: 1, pools: Map::empty(), by_device: Map::empty() };
    let user = seed_pools(profile.gpus, none, false);
    assert(none.pools.dom() =~= Set::empty());
    lemma_seeds_empty(profile.gpus, none, false);
    lemma_seeds_empty(profile.gpus, Seeds { by_device: Map::empty(), ..user }, true);
    assert(s.mem_handles.dom() =~= Set::empty());
    assert forall|d: DeviceId| #[trigger] s.gpus.contains_key(d) implies owed(s, d)
        <= s.gpus[d].used by {
        lemma_sum_nothing(s.pools, |p: PoolView| pool_part(p, d));
        lemma_sum_nothing(s.mem_handles, |h: MemHandle| handle_part(h, d));
    }
}

/// More used memory still covers what pools and handles charge.
pub proof fn reserve_stays_covered(s: SimState, device: DeviceId, bytes: u64)
    requires
        covered(s),
    ensures
        covered(s.reserve_hbm(device, bytes).0),
{
    reveal(SimState::reserve_hbm);
    let t = s.reserve_hbm(device, bytes).0;
    assert forall|d: DeviceId| #[trigger] t.gpus.contains_key(d) implies owed(t, d)
        <= t.gpus[d].used by {
        assert(s.gpus.contains_key(d));
    }
}

/// A new handle charges what it reserves.
pub proof fn created_handle_stays_covered(s: SimState, device: DeviceId, bytes: u64)
    requires
        covered(s),
        s.numbered(),
        s.next.handle < u64::MAX,
        s.within_limits(),
    ensures
        covered(s.va_create(device, bytes).0),
{
    reveal(SimState::reserve_hbm);
    reserve_stays_covered(s, device, bytes);
    let (t, r) = s.va_create(device, bytes);
    if r is Ok {
        let id = r->Ok_0;
        let h = MemHandle { device, bytes, refs: 1, maps: 0, charged: true };
        assert(t.mem_handles == s.mem_handles.insert(id, h));
        assert(t.pools == s.pools);
        assert(t.mem_handles.dom() =~= s.mem_handles.dom().insert(id));
        assert forall|d: DeviceId| #[trigger] t.gpus.contains_key(d) implies owed(t, d)
            <= t.gpus[d].used by {
            assert(s.gpus.contains_key(d));
            lemma_sum_added(s.mem_handles, |h: MemHandle| handle_part(h, d), id, h);
        }
    }
}

/// Taking bytes from a pool charges the GPU by as much as the pool grows.
pub proof fn pool_take_stays_covered(s: SimState, pool: PoolId, root: PoolId, bytes: u64)
    requires
        covered(s),
        s.within_limits(),
        s.pool_root(pool) == Ok::<PoolId, SimError>(root),
        s.pools.contains_key(root),
        s.pools[root].share_root is None,
        s.gpus.contains_key(s.pools[root].device),
    ensures
        covered(s.pool_acquire(pool, bytes).0),
{
    reveal(SimState::pool_acquire);
    reveal(SimState::reserve_hbm);
    let (t, r) = s.pool_acquire(pool, bytes);
    let dev = s.pools[root].device;
    if s.pools[root].cached < bytes {
        reserve_stays_covered(s, dev, bytes.saturating_sub(s.pools[root].cached));
    }
    if r is Ok {
        let p = t.pools[root];
        assert(t.pools =~= s.pools.insert(root, p));
        lemma_pool_owed(s, t, root, p, dev);
        assert forall|d: DeviceId| #[trigger] t.gpus.contains_key(d) implies owed(t, d)
            <= t.gpus[d].used by {
            assert(s.gpus.contains_key(d));
            lemma_pool_owed(s, t, root, p, d);
        }
    }
}

/// Giving bytes in use back to a pool refunds exactly what the pool does not keep.
pub proof fn pool_give_stays_covered(s: SimState, pool: PoolId, root: PoolId, bytes: u64)
    requires
        covered(s),
        s.pool_root(pool) == Ok::<PoolId, SimError>(root),
        s.pools.contains_key(root),
        s.pools[root].share_root is None,
        s.pools[root].live >= bytes,
        s.gpus.contains_key(s.pools[root].device),
    ensures
        ({
            let (t, r) = s.pool_release(pool, bytes);
            let d = s.pools[root].device;
            &&& r is Ok
            &&& covered(t)
            &&& t.gpus[d].used + (s.pools[root].live + s.pools[root].cached) == s.gpus[d].used + (
            t.pools[root].live + t.pools[root].cached)
        }),
{
    reveal(SimState::pool_release);
    let t = s.pool_release(pool, bytes).0;
    let dev = s.pools[root].device;
    let p = t.pools[root];
    assert(t.pools =~= s.pools.insert(root, p));
    lemma_pool_owed(s, t, root, p, dev);
    assert forall|d: DeviceId| #[trigger] t.gpus.contains_key(d) implies owed(t, d)
        <= t.gpus[d].used by {
        assert(s.gpus.contains_key(d));
        lemma_pool_owed(s, t, root, p, d);
    }
}

/// Where used memory covers what pools and handles charge, trimming a pool refunds exactly what it
/// gives up.
pub proof fn trim_is_exact(s: SimState, pool: PoolId, root: PoolId, min_bytes: u64)
    requires
        covered(s),
        s.capturing is None,
        s.pool_root(pool) == Ok::<PoolId, SimError>(root),
        s.pools.contains_key(root),
        s.pools[root].share_root is None,
        s.refuse_destroyed_pool(root) is Ok,
        s.gpus.contains_key(s.pools[root].device),
    ensures
        ({
            let (t, r) = s.pool_trim_to(pool, min_bytes);
            let d = s.pools[root].device;
            &&& r is Ok
            &&& r->Ok_0 == max_u64(s.pools[root].cached, min_bytes) - min_bytes
            &&& t.gpus[d].used == s.gpus[d].used - r->Ok_0
            &&& t.pools[root].cached == s.pools[root].cached - r->Ok_0
            &&& covered(t)
        }),
{
    pool_trim_gives_back(s, pool, root, min_bytes);
    let t = s.pool_trim_to(pool, min_bytes).0;
    let dev = s.pools[root].device;
    let p = t.pools[root];
    assert(t.pools =~= s.pools.insert(root, p));
    lemma_pool_owed(s, t, root, p, dev);
    assert forall|d: DeviceId| #[trigger] t.gpus.contains_key(d) implies owed(t, d)
        <= t.gpus[d].used by {
        assert(s.gpus.contains_key(d));
        lemma_pool_owed(s, t, root, p, d);
    }
}

/// Whatever is done to a new simulator, a known pool leads to a known pool of its GPU that is no
/// import, and the state of that GPU is known.
pub proof fn pools_lead_to_owners(profile: ProfileView, s: SimState, pool: PoolId)
    requires
        follows(SimState::fresh(profile), s),
        s.next.pool < u32::MAX,
        s.pools.contains_key(pool),
    ensures
        s.pool_root(pool) is Ok,
        s.pools.contains_key(s.pool_root(pool)->Ok_0),
        s.pools[s.pool_root(pool)->Ok_0].share_root is None,
        s.pools[s.pool_root(pool)->Ok_0].device == s.pools[pool].device,
        s.gpus.contains_key(s.pools[pool].device),
{
    fresh_is_sound(profile);
    history(SimState::fresh(profile), s);
    root_is_sound(SimState::fresh(profile), s, pool);
}

/// Whatever is done to a new simulator, trimming a pool that is not destroyed, nor the one it leads
/// to, gives up what is cached above the least to keep, and refunds it: exactly where used memory
/// covers it, and else all that is used. What is in use stays, no time passes, and a second call
/// changes nothing.
pub proof fn known_pool_is_trimmed(profile: ProfileView, s: SimState, pool: PoolId, min_bytes: u64)
    requires
        follows(SimState::fresh(profile), s),
        s.next.pool < u32::MAX,
        s.capturing is None,
        s.pools.contains_key(pool),
        s.refuse_destroyed_pool(pool) is Ok,
    ensures
        ({
            let (t, r) = s.pool_trim_to(pool, min_bytes);
            let d = s.pools[pool].device;
            let cached = s.pool_cached(pool)->Ok_0;
            let excess = max_u64(cached, min_bytes) - min_bytes;
            &&& r == Ok::<u64, SimError>(excess as u64)
            &&& t.pool_cached(pool) == Ok::<u64, SimError>(min_u64(cached, min_bytes))
            &&& t.pool_live(pool) == s.pool_live(pool)
            &&& t.clock == s.clock
            &&& t.gpus[d].used == if s.gpus[d].used >= excess {
                s.gpus[d].used - excess
            } else {
                0
            }
            &&& covered(s) ==> s.gpus[d].used >= excess && covered(t)
            &&& t.pool_trim_to(pool, min_bytes) == (t, Ok::<u64, SimError>(0))
        }),
{
    pools_lead_to_owners(profile, s, pool);
    let root = s.pool_root(pool)->Ok_0;
    pools_lead_to_owners(profile, s, root);
    pool_trim_gives_back(s, pool, root, min_bytes);
    if covered(s) {
        trim_is_exact(s, pool, root, min_bytes);
    }
}

/// Where used memory covers what pools and handles charge, destroying a pool that is no import
/// refunds exactly what it had cached.
pub proof fn destroyed_pool_is_exact(s: SimState, pool: PoolId)
    requires
        covered(s),
        s.pools.contains_key(pool),
        s.pools[pool].share_root is None,
        s.gpus.contains_key(s.pools[pool].device),
        s.destroy_pool(pool).1 is Ok,
    ensures
        ({
            let t = s.destroy_pool(pool).0;
            let d = s.pools[pool].device;
            &&& t.gpus[d].used == s.gpus[d].used - s.pools[pool].cached
            &&& t.pools[pool].cached == 0
            &&& t.pools[pool].live == s.pools[pool].live
            &&& covered(t)
        }),
{
    reveal(SimState::retire_pool);
    let u = s.rebind_current_pools(pool);
    rebind_current_pools_keeps_accounts(s, pool);
    assert forall|d: DeviceId| owed(u, d) == owed(s, d) by {}
    trim_is_exact(u, pool, pool, 0);
    let v = u.pool_trim_to(pool, 0).0;
    let t = s.destroy_pool(pool).0;
    let p = PoolView { release_threshold: 0, destroyed: true, ..v.pools[pool] };
    let w = u.retire_pool(pool, false).0;
    assert(u.retire_pool(pool, false).1 is Ok);
    assert(w.pools == v.pools.insert(pool, p) && w.gpus == v.gpus && w.mem_handles
        == v.mem_handles);
    assert(t == w.tick(w.first_alloc_ns()));
    assert(t.pools == v.pools.insert(pool, p));
    assert(t.gpus == v.gpus);
    assert(t.mem_handles == v.mem_handles);
    lemma_pool_owed(v, t, pool, p, s.pools[pool].device);
    assert forall|d: DeviceId| #[trigger] t.gpus.contains_key(d) implies owed(t, d)
        <= t.gpus[d].used by {
        assert(v.gpus.contains_key(d));
        lemma_pool_owed(v, t, pool, p, d);
    }
}

/// Where used memory covers what pools and handles charge, trimming the memory of graphs refunds
/// exactly what their pool had cached.
pub proof fn graph_trim_is_exact(s: SimState, device: DeviceId, pool: PoolId)
    requires
        covered(s),
        s.capturing is None,
        s.graph_pool(device) == Ok::<PoolId, SimError>(pool),
        s.pools.contains_key(pool),
        s.pools[pool].share_root is None,
        !s.pools[pool].destroyed,
        s.gpus.contains_key(s.pools[pool].device),
    ensures
        ({
            let (t, r) = s.graph_mem_trim(device);
            let d = s.pools[pool].device;
            &&& r is Ok
            &&& t.gpus[d].used == s.gpus[d].used - s.pools[pool].cached
            &&& t.pools[pool].cached == 0
            &&& covered(t)
        }),
{
    trim_is_exact(s, pool, pool, 0);
    let u = s.pool_trim_to(pool, 0).0;
    let t = s.graph_mem_trim(device).0;
    assert(t == u.tick(1));
    assert forall|d: DeviceId| #[trigger] t.gpus.contains_key(d) implies owed(t, d)
        <= t.gpus[d].used by {
        assert(u.gpus.contains_key(d));
    }
}

/// Where used memory covers what pools and handles charge, the last release of a charged handle
/// refunds exactly its memory.
pub proof fn released_handle_is_exact(profile: ProfileView, s: SimState, handle: MemHandleId)
    requires
        covered(s),
        follows(SimState::fresh(profile), s),
        s.capturing is None,
        s.mem_handles.contains_key(handle),
        s.mem_handles[handle].refs > 0,
    ensures
        ({
            let (t, r) = s.va_release_handle(handle);
            let h = s.mem_handles[handle];
            &&& r is Ok
            &&& h.charged && h.refs == 1 && h.maps == 0 ==> t.gpus[h.device].used
                == s.gpus[h.device].used - h.bytes
            &&& !(h.charged && h.refs == 1 && h.maps == 0) ==> t.gpus == s.gpus
            &&& covered(t)
        }),
{
    released_handle_gives_back_last(profile, s, handle);
    let t = s.va_release_handle(handle).0;
    let h = s.mem_handles[handle];
    let k = t.mem_handles[handle];
    assert(t.pools == s.pools) by {
        reveal(SimState::maybe_refund_handle);
    }
    lemma_handle_owed(s, t, handle, k, h.device);
    if h.charged {
        charged_handles_are_held(profile, s, handle);
    }
    assert forall|d: DeviceId| #[trigger] t.gpus.contains_key(d) implies owed(t, d)
        <= t.gpus[d].used by {
        assert(s.gpus.contains_key(d));
        lemma_handle_owed(s, t, handle, k, d);
    }
}

} // verus!
