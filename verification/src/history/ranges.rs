//! What ranges, handles and streams look like in a history: pieces of ranges that have a handle or
//! belong to a multicast object are mapped, a handle is charged only while it is held, an imported
//! pool leads to one that is no import, and what is stored for a stream is valid.
use vstd::prelude::*;
use crate::history::follows;
use crate::history::access::tick_follows;
use crate::history::charge::{refund_device_follows, refund_hbm_follows};
use crate::ids::{AllocId, DeviceId, Lane, MemHandleId, Piece, PoolId};
use crate::laws::frames::{
    drop_maps_keeps_allocs, drop_vmm_physical_keeps_allocs, maybe_refund_handle_keeps_pieces,
    refund_device_keeps_pieces,
};
use crate::list::{first_where, lemma_first_where};
use crate::num::max_u8;
use crate::ops::MemSyncDomainMap;
use crate::profile::ProfileView;
use crate::sim::SimState;
use crate::state::{AllocView, MemHandle, PoolView};

verus! {

/// Whether something is recorded for a piece of a range.
pub open spec fn has_piece(at: Map<Piece, MemHandleId>, mc: Set<Piece>, p: Piece) -> bool {
    at.contains_key(p) || mc.contains(p)
}

/// Whether a piece is one of the maps.
pub open spec fn is_mapped(maps: Seq<(DeviceId, u64, u64)>, p: Piece) -> bool {
    maps.contains((p.1, p.2, p.3))
}

/// What is recorded for pieces is recorded for maps of their ranges.
#[verifier::opaque]
pub open spec fn pieces_mapped(
    allocs: Map<AllocId, AllocView>,
    at: Map<Piece, MemHandleId>,
    mc: Set<Piece>,
) -> bool {
    forall|p: Piece| #[trigger]
        has_piece(at, mc, p) ==> allocs.contains_key(p.0) && is_mapped(allocs[p.0].vmm_maps, p)
}

/// Shares of the multiprocessors lie between one and a thousand.
#[verifier::opaque]
pub open spec fn shares_valid(shares: Map<Lane, u16>) -> bool {
    forall|k: Lane| #[trigger] shares.contains_key(k) ==> 1 <= shares[k] <= 1000
}

/// Maps of memory synchronization domains name domains that the GPU has.
#[verifier::opaque]
pub open spec fn domains_valid(p: ProfileView, maps: Map<Lane, MemSyncDomainMap>) -> bool {
    forall|k: Lane| #[trigger]
        maps.contains_key(k) ==> match p.gpu(k.0) {
            Ok(g) => maps[k].default < max_u8(g.mem_sync_domain_count, 1) && maps[k].remote
                < max_u8(g.mem_sync_domain_count, 1),
            Err(_e) => false,
        }
}

/// A charged handle has a reference or a map, on a known GPU.
pub open spec fn handle_held(p: ProfileView, h: MemHandle) -> bool {
    h.charged ==> (h.refs > 0 || h.maps > 0) && p.gpu(h.device) is Ok
}

/// Only handles with a reference or a map are charged.
#[verifier::opaque]
pub open spec fn handles_held(p: ProfileView, handles: Map<MemHandleId, MemHandle>) -> bool {
    forall|k: MemHandleId| #[trigger] handles.contains_key(k) ==> handle_held(p, handles[k])
}

/// A pool is on a known GPU. An imported one leads to a pool of its GPU that is no import.
pub open spec fn pool_sound(
    p: ProfileView,
    pools: Map<PoolId, PoolView>,
    v: PoolView,
) -> bool {
    &&& p.gpu(v.device) is Ok
    &&& v.share_root matches Some(r) ==> pools.contains_key(r) && pools[r].share_root is None
        && pools[r].device == v.device
}

/// Every pool is sound.
#[verifier::opaque]
pub open spec fn pools_sound(p: ProfileView, pools: Map<PoolId, PoolView>) -> bool {
    forall|k: PoolId| #[trigger] pools.contains_key(k) ==> pool_sound(p, pools, pools[k])
}

impl SimState {
    /// Every pool is sound.
    pub open spec fn rooted(self) -> bool {
        pools_sound(self.profile, self.pools)
    }

    /// Pieces of ranges are mapped.
    pub open spec fn ranged(self) -> bool {
        pieces_mapped(self.allocs, self.vmm_handle_at, self.mc_at)
    }

    /// What is stored for streams is valid.
    pub open spec fn tuned(self) -> bool {
        shares_valid(self.sm_permille) && domains_valid(self.profile, self.stream_mem_sync_map)
    }

    /// The state of each GPU of the profile is known.
    pub open spec fn staffed(self) -> bool {
        forall|d: DeviceId| #[trigger]
            self.profile.gpu(d) is Ok ==> self.gpus.contains_key(d)
    }

    /// Only handles with a reference or a map are charged.
    pub open spec fn held(self) -> bool {
        handles_held(self.profile, self.mem_handles)
    }
}

/// Pieces were mapped at `z`, and numbers of allocations have lasted until `s`.
pub open spec fn spread(z: SimState, s: SimState) -> bool {
    z.numbered() && z.ranged() && s.next.alloc < u64::MAX
}

/// Pools were sound at `z`, and numbers of pools have lasted until `s`.
pub open spec fn settled(z: SimState, s: SimState) -> bool {
    z.numbered() && z.rooted() && s.next.pool < u32::MAX
}

/// Whether a pool is a new sound one, or stays where it is and what it leads to.
pub open spec fn pool_fits(s: SimState, id: PoolId, v: PoolView) -> bool {
    if s.pools.contains_key(id) {
        v.device == s.pools[id].device && v.share_root == s.pools[id].share_root
    } else {
        pool_sound(s.profile, s.pools, v)
    }
}

/// What a known pool leads to is a known pool that is no import, on a known GPU.
pub proof fn root_is_sound(z: SimState, s: SimState, pool: PoolId)
    requires
        follows(z, s),
    ensures
        settled(z, s) && s.pools.contains_key(pool) ==> {
            let root = s.pool_root(pool)->Ok_0;
            &&& s.pool_root(pool) is Ok
            &&& s.pools.contains_key(root)
            &&& s.pools[root].share_root is None
            &&& s.pools[root].device == s.pools[pool].device
            &&& s.profile.gpu(s.pools[root].device) is Ok
        },
{
    reveal(follows);
    reveal(pools_sound);
}

/// Whether an allocation keeps the maps of the pieces recorded for it.
pub open spec fn maps_kept(s: SimState, id: AllocId, a: AllocView) -> bool {
    forall|p: Piece| #[trigger]
        has_piece(s.vmm_handle_at, s.mc_at, p) && p.0 == id ==> is_mapped(a.vmm_maps, p)
}

/// Nothing is recorded and stored in a new simulator.
pub proof fn nothing_is_recorded(p: ProfileView)
    ensures
        forall|allocs: Map<AllocId, AllocView>| #[trigger]
            pieces_mapped(allocs, Map::empty(), Set::empty()),
        shares_valid(Map::empty()),
        domains_valid(p, Map::empty()),
        handles_held(p, Map::empty()),
{
    reveal(pieces_mapped);
    reveal(shares_valid);
    reveal(domains_valid);
    reveal(handles_held);
}

/// A piece that was recorded for a map continues a history.
pub proof fn piece_follows(z: SimState, s: SimState, p: Piece, h: MemHandleId)
    requires
        follows(z, s),
        spread(z, s) ==> s.allocs.contains_key(p.0) && is_mapped(s.allocs[p.0].vmm_maps, p),
    ensures
        follows(z, (SimState { vmm_handle_at: s.vmm_handle_at.insert(p, h), ..s })),
{
    reveal(follows);
    reveal(pieces_mapped);
    assert forall|q: Piece| #[trigger]
        has_piece(s.vmm_handle_at.insert(p, h), s.mc_at, q) implies has_piece(
        s.vmm_handle_at,
        s.mc_at,
        q,
    ) || q == p by {}
}

/// A piece that was mapped to a multicast object continues a history.
pub proof fn team_piece_follows(z: SimState, s: SimState, p: Piece)
    requires
        follows(z, s),
        spread(z, s) ==> s.allocs.contains_key(p.0) && is_mapped(s.allocs[p.0].vmm_maps, p),
    ensures
        follows(z, (SimState { mc_at: s.mc_at.insert(p), ..s })),
{
    reveal(follows);
    reveal(pieces_mapped);
    assert forall|q: Piece| #[trigger]
        has_piece(s.vmm_handle_at, s.mc_at.insert(p), q) implies has_piece(
        s.vmm_handle_at,
        s.mc_at,
        q,
    ) || q == p by {}
}

/// Forgetting the handle of a piece continues a history.
pub proof fn piece_gone_follows(z: SimState, s: SimState, p: Piece)
    requires
        follows(z, s),
    ensures
        follows(z, (SimState { vmm_handle_at: s.vmm_handle_at.remove(p), ..s })),
{
    reveal(follows);
    reveal(pieces_mapped);
    assert forall|q: Piece| #[trigger]
        has_piece(s.vmm_handle_at.remove(p), s.mc_at, q) implies has_piece(
        s.vmm_handle_at,
        s.mc_at,
        q,
    ) by {}
}

/// Forgetting that a piece belongs to a multicast object continues a history.
pub proof fn team_piece_gone_follows(z: SimState, s: SimState, p: Piece)
    requires
        follows(z, s),
    ensures
        follows(z, (SimState { mc_at: s.mc_at.remove(p), ..s })),
{
    reveal(follows);
    reveal(pieces_mapped);
    assert forall|q: Piece| #[trigger]
        has_piece(s.vmm_handle_at, s.mc_at.remove(p), q) implies has_piece(
        s.vmm_handle_at,
        s.mc_at,
        q,
    ) by {}
}

/// One more map keeps the others, and is one of them.
pub proof fn map_added(z: SimState, s: SimState, id: AllocId, m: (DeviceId, u64, u64))
    requires
        follows(z, s),
    ensures
        s.allocs.contains_key(id) ==> s.allocs[id].vmm_maps.push(m).contains(m),
        spread(z, s) && s.allocs.contains_key(id) ==> forall|a: AllocView|
            a.vmm_maps == s.allocs[id].vmm_maps.push(m) ==> #[trigger] maps_kept(s, id, a),
{
    reveal(follows);
    reveal(pieces_mapped);
    if s.allocs.contains_key(id) {
        let q = s.allocs[id].vmm_maps;
        let r = q.push(m);
        assert(r[q.len() as int] == m);
        if spread(z, s) {
            assert forall|p: Piece| #[trigger]
                has_piece(s.vmm_handle_at, s.mc_at, p) && p.0 == id implies is_mapped(r, p) by {
                assert(is_mapped(q, p));
                let k = choose|k: int| 0 <= k < q.len() && q[k] == (p.1, p.2, p.3);
                assert(r[k] == q[k]);
            }
        }
    }
}

/// A map that is found is one of the maps.
pub proof fn map_found(s: SimState, maps: Seq<(DeviceId, u64, u64)>, device: DeviceId, offset: u64)
    ensures
        s.map_at(maps, device, offset) matches Some(n) ==> maps.contains((device, offset, n)),
{
    let f = |i: int| s.map_at_at(maps, device, offset, i);
    lemma_first_where(maps.len(), f);
    match first_where(maps.len(), f) {
        Some(i) => {
            assert(f(i));
            assert(maps[i] == (device, offset, maps[i].2));
        },
        None => {},
    }
}

/// A piece that was dropped is no longer recorded, and no other was added.
pub proof fn piece_dropped(s: SimState, id: AllocId, device: DeviceId, offset: u64, bytes: u64)
    ensures
        ({
            let t = s.drop_vmm_physical(id, device, offset, bytes).0;
            &&& !has_piece(t.vmm_handle_at, t.mc_at, Piece(id, device, offset, bytes))
            &&& forall|q: Piece| #[trigger]
                has_piece(t.vmm_handle_at, t.mc_at, q) ==> has_piece(s.vmm_handle_at, s.mc_at, q)
            &&& t.allocs == s.allocs
            &&& t.next == s.next
        }),
{
    reveal(SimState::drop_vmm_physical);
    drop_vmm_physical_keeps_allocs(s, id, device, offset, bytes);
    let p = Piece(id, device, offset, bytes);
    let u = SimState {
        mc_at: s.mc_at.remove(p),
        vmm_handle_at: s.vmm_handle_at.remove(p),
        ..s
    };
    match s.vmm_handle_at.get(p) {
        Some(h) => match u.handle_ref(h) {
            Err(_e) => {},
            Ok(x) => {
                let x = MemHandle { maps: x.maps.saturating_sub(1), ..x };
                maybe_refund_handle_keeps_pieces(
                    SimState { mem_handles: u.mem_handles.insert(h, x), ..u },
                    h,
                );
            },
        },
        None => {
            refund_device_keeps_pieces(u, device, id, bytes);
        },
    }
}

proof fn lemma_maps_dropped(s: SimState, id: AllocId, maps: Seq<(DeviceId, u64, u64)>, i: int)
    requires
        0 <= i <= maps.len(),
        s.drop_maps_from(id, maps, i).1 is Ok,
    ensures
        ({
            let t = s.drop_maps_from(id, maps, i).0;
            &&& forall|j: int|
                i <= j < maps.len() ==> !has_piece(
                    t.vmm_handle_at,
                    t.mc_at,
                    Piece(id, (#[trigger] maps[j]).0, maps[j].1, maps[j].2),
                )
            &&& forall|q: Piece| #[trigger]
                has_piece(t.vmm_handle_at, t.mc_at, q) ==> has_piece(s.vmm_handle_at, s.mc_at, q)
        }),
    decreases maps.len() - i,
{
    if i < maps.len() {
        piece_dropped(s, id, maps[i].0, maps[i].1, maps[i].2);
        lemma_maps_dropped(
            s.drop_vmm_physical(id, maps[i].0, maps[i].1, maps[i].2).0,
            id,
            maps,
            i + 1,
        );
    }
}

/// After all maps of a range were dropped, nothing is recorded for its pieces.
pub proof fn maps_dropped(z: SimState, s: SimState, id: AllocId, maps: Seq<(DeviceId, u64, u64)>)
    requires
        follows(z, s),
        s.allocs.contains_key(id),
        maps == s.allocs[id].vmm_maps,
    ensures
        s.drop_maps(id, maps).0.next == s.next,
        spread(z, s) && s.drop_maps(id, maps).1 is Ok ==> forall|a: AllocView| #[trigger]
            maps_kept(s.drop_maps(id, maps).0, id, a),
{
    drop_maps_keeps_allocs(s, id, maps);
    if spread(z, s) && s.drop_maps(id, maps).1 is Ok {
        lemma_maps_dropped(s, id, maps, 0);
        reveal(follows);
        reveal(pieces_mapped);
        let t = s.drop_maps(id, maps).0;
        assert forall|p: Piece| #[trigger]
            has_piece(t.vmm_handle_at, t.mc_at, p) && p.0 == id implies false by {
            assert(has_piece(s.vmm_handle_at, s.mc_at, p));
            assert(is_mapped(maps, p));
            let k = choose|k: int| 0 <= k < maps.len() && maps[k] == (p.1, p.2, p.3);
            assert(maps[k].0 == p.1 && maps[k].1 == p.2 && maps[k].2 == p.3);
        }
    }
}

/// Forgetting a map for which nothing is recorded keeps the others.
pub proof fn map_forgotten(z: SimState, s: SimState, id: AllocId, m: (DeviceId, u64, u64))
    requires
        follows(z, s),
        spread(z, s) ==> !has_piece(s.vmm_handle_at, s.mc_at, Piece(id, m.0, m.1, m.2)),
    ensures
        spread(z, s) && s.allocs.contains_key(id) ==> forall|a: AllocView|
            a.vmm_maps == s.maps_without(s.allocs[id].vmm_maps, m) ==> #[trigger] maps_kept(
                s,
                id,
                a,
            ),
{
    if spread(z, s) && s.allocs.contains_key(id) {
        reveal(follows);
        reveal(pieces_mapped);
        let q = s.allocs[id].vmm_maps;
        let r = s.maps_without(q, m);
        reveal(SimState::maps_without);
        let f = |i: int| s.maps_without_at(q, m, i);
        lemma_first_where(q.len(), f);
        assert forall|p: Piece| #[trigger]
            has_piece(s.vmm_handle_at, s.mc_at, p) && p.0 == id implies is_mapped(r, p) by {
            assert(is_mapped(q, p));
            let k = choose|k: int| 0 <= k < q.len() && q[k] == (p.1, p.2, p.3);
            match first_where(q.len(), f) {
                Some(i) => {
                    assert(f(i));
                    if k == i {
                        assert(p == Piece(id, m.0, m.1, m.2));
                    } else if k < i {
                        assert(r[k] == q[k]);
                    } else {
                        assert(r[k - 1] == q[k]);
                    }
                },
                None => {},
            }
        }
    }
}

/// Storing a valid share continues a history.
pub proof fn share_follows(z: SimState, s: SimState, lane: Lane, n: u16)
    requires
        follows(z, s),
        1 <= n <= 1000 || exists|k: Lane|
            s.sm_permille.contains_key(k) && #[trigger] s.sm_permille[k] == n,
    ensures
        follows(z, (SimState { sm_permille: s.sm_permille.insert(lane, n), ..s })),
{
    reveal(follows);
    reveal(shares_valid);
}

/// Forgetting a share continues a history.
pub proof fn share_gone_follows(z: SimState, s: SimState, lane: Lane)
    requires
        follows(z, s),
    ensures
        follows(z, (SimState { sm_permille: s.sm_permille.remove(lane), ..s })),
{
    reveal(follows);
    reveal(shares_valid);
}

/// Storing a valid map of domains continues a history.
pub proof fn domains_follows(z: SimState, s: SimState, lane: Lane, map: MemSyncDomainMap)
    requires
        follows(z, s),
        s.validate_mem_sync_map(lane.0, map) is Ok,
    ensures
        follows(
            z,
            (SimState { stream_mem_sync_map: s.stream_mem_sync_map.insert(lane, map), ..s }),
        ),
{
    reveal(follows);
    reveal(domains_valid);
}

/// Forgetting a map of domains continues a history.
pub proof fn domains_gone_follows(z: SimState, s: SimState, lane: Lane)
    requires
        follows(z, s),
    ensures
        follows(z, (SimState { stream_mem_sync_map: s.stream_mem_sync_map.remove(lane), ..s })),
{
    reveal(follows);
    reveal(domains_valid);
}

/// A new handle with a number before the next one, or a change of a handle that leaves it charged
/// only while it is held, continues a history.
pub proof fn handle_follows(z: SimState, s: SimState, id: MemHandleId, h: MemHandle)
    requires
        follows(z, s),
        s.mem_handles.contains_key(id) || (s.next.handle < u64::MAX ==> id.0 < s.next.handle),
        z.staffed() && z.held() ==> handle_held(s.profile, h) || (s.mem_handles.contains_key(id)
            && h.charged == s.mem_handles[id].charged && h.device == s.mem_handles[id].device
            && h.refs >= s.mem_handles[id].refs && h.maps >= s.mem_handles[id].maps),
    ensures
        follows(z, (SimState { mem_handles: s.mem_handles.insert(id, h), ..s })),
{
    reveal(follows);
    reveal(handles_held);
}

/// Charged handles are on known GPUs.
proof fn lemma_handle_known(z: SimState, s: SimState, id: MemHandleId)
    requires
        follows(z, s),
    ensures
        z.staffed() && z.held() && s.mem_handles.contains_key(id) ==> handle_held(
            s.profile,
            s.mem_handles[id],
        ),
        z.staffed() && z.held() && s.mem_handles.contains_key(id) && s.mem_handles[id].charged
            ==> s.gpus.contains_key(s.mem_handles[id].device),
{
    reveal(follows);
    reveal(handles_held);
}

/// A handle that is held less, and gives its memory back where nothing holds it any more, continues
/// a history.
pub proof fn lowered_handle_follows(z: SimState, s: SimState, id: MemHandleId, h: MemHandle)
    requires
        follows(z, s),
        s.mem_handles.contains_key(id),
        h.charged == s.mem_handles[id].charged,
        h.device == s.mem_handles[id].device,
    ensures
        follows(
            z,
            (SimState { mem_handles: s.mem_handles.insert(id, h), ..s }).maybe_refund_handle(id).0,
        ),
{
    reveal(SimState::maybe_refund_handle);
    lemma_handle_known(z, s, id);
    let low = SimState { mem_handles: s.mem_handles.insert(id, h), ..s };
    if h.refs == 0 && h.maps == 0 && h.charged {
        refund_hbm_follows(z, s, h.device, h.bytes);
        match s.refund_hbm(h.device, h.bytes) {
            (_t, Err(_e)) => {
                handle_follows(z, s, id, h);
                assert(low.maybe_refund_handle(id).0 == low);
            },
            (t, Ok(_v)) => {
                let free = MemHandle { charged: false, ..h };
                handle_follows(z, t, id, free);
                let out = low.maybe_refund_handle(id).0;
                assert(out.mem_handles =~= t.mem_handles.insert(id, free));
                assert(out == SimState { mem_handles: t.mem_handles.insert(id, free), ..t });
            },
        }
    } else {
        handle_follows(z, s, id, h);
    }
}

/// [`Sim::va_release_handle`] continues the history.
pub proof fn va_release_handle_follows(z: SimState, s0: SimState, handle: MemHandleId)
    requires
        follows(z, s0),
    ensures
        follows(z, s0.va_release_handle(handle).0),
{
    if s0.capturing is None && s0.mem_handles.contains_key(handle)
        && s0.mem_handles[handle].refs > 0 {
        let h = s0.mem_handles[handle];
        let low = MemHandle { refs: h.refs.saturating_sub(1), ..h };
        tick_follows(z, s0, 1);
        let t = s0.tick(1);
        lowered_handle_follows(z, t, handle, low);
        assert((SimState { mem_handles: s0.mem_handles.insert(handle, low), ..s0 }).tick(1)
            == SimState { mem_handles: t.mem_handles.insert(handle, low), ..t });
    }
}

/// [`Sim::drop_vmm_physical`] continues the history.
pub proof fn drop_vmm_physical_follows(
    z: SimState,
    s0: SimState,
    id: AllocId,
    device: DeviceId,
    offset: u64,
    bytes: u64,
)
    requires
        follows(z, s0),
    ensures
        follows(z, s0.drop_vmm_physical(id, device, offset, bytes).0),
{
    reveal(SimState::drop_vmm_physical);
    let p = Piece(id, device, offset, bytes);
    team_piece_gone_follows(z, s0, p);
    let s1 = SimState { mc_at: s0.mc_at.remove(p), ..s0 };
    piece_gone_follows(z, s1, p);
    let s = SimState { vmm_handle_at: s1.vmm_handle_at.remove(p), ..s1 };
    match s0.vmm_handle_at.get(p) {
        Some(h) => match s.handle_ref(h) {
            Err(_e) => {},
            Ok(x) => {
                lowered_handle_follows(
                    z,
                    s,
                    h,
                    MemHandle { maps: x.maps.saturating_sub(1), ..x },
                );
            },
        },
        None => {
            if !s0.mc_at.contains(p) {
                refund_device_follows(z, s, device, id, bytes);
            }
        },
    }
}

} // verus!
