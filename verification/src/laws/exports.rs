//! Exports of pools, pointers, memory and events.
use vstd::prelude::*;
use crate::error::SimError;
use crate::ids::{
    AllocId, EventId, IpcEventHandleId, IpcHandleId, PoolId, PtrExportId, ShareableHandleId,
};
use crate::list::{first_where, lemma_first_where};
use crate::sim::SimState;
use crate::table::{lemma_order_exists, lists, order_of};

verus! {

/// The search finds a handle of `pool` where there is one.
proof fn lemma_share_handle_of(s: SimState, pool: PoolId)
    requires
        lists(order_of(s.share_handles.dom()), s.share_handles.dom()),
    ensures
        match s.share_handle_of(pool) {
            Some(h) => s.share_handles.contains_key(h) && s.share_handles[h] == pool,
            None => forall|k| #[trigger] s.share_handles.contains_key(k) ==> s.share_handles[k] != pool,
        },
{
    let q = order_of(s.share_handles.dom());
    let p = |i: int| s.share_handle_of_at(pool, i);
    lemma_first_where(q.len(), p);
    match first_where(q.len(), p) {
        Some(i) => {
            assert(q.contains(q[i]));
        },
        None => {
            assert forall|k| #[trigger] s.share_handles.contains_key(k) implies s.share_handles[k] != pool by {
                assert(q.contains(k));
                let j = choose|j: int| 0 <= j < q.len() && q[j] == k;
                assert(!p(j));
            }
        },
    }
}

/// A pool is exported under one handle.
pub proof fn pool_export_gives_same_handle(s: SimState, pool: PoolId)
    requires
        s.pool_export(pool).1 is Ok,
        s.share_handles.dom().finite(),
    ensures
        ({
            let t = s.pool_export(pool).0;
            let h = s.pool_export(pool).1->Ok_0;
            &&& t.share_handles.contains_key(h) && t.share_handles[h] == pool
            &&& t.pool_export(pool) == (t, Ok::<ShareableHandleId, SimError>(h))
        }),
{
    lemma_order_exists(s.share_handles.dom());
    lemma_share_handle_of(s, pool);
    lemma_pool_exported(s, pool);
    let t = s.pool_export(pool).0;
    let h = s.pool_export(pool).1->Ok_0;
    lemma_order_exists(t.share_handles.dom());
    lemma_share_handle_of(t, pool);
    assert(t.share_handle_of(pool) == Some(h)) by {
        assert(s.share_handle_of(pool) is None ==> t.share_handles.contains_key(h));
        match t.share_handle_of(pool) {
            Some(k) => {
                assert(k == h || s.share_handles.contains_key(k));
            },
            None => {},
        }
    }
    lemma_pool_known(t, pool, h);
}

/// A pool that may be exported and has a handle is exported under it.
proof fn lemma_pool_known(t: SimState, pool: PoolId, h: ShareableHandleId)
    requires
        t.capturing is None,
        t.refuse_destroyed_pool(pool) is Ok,
        t.pools.contains_key(pool),
        t.pools[pool].shareable,
        t.share_handle_of(pool) == Some(h),
    ensures
        t.pool_export(pool) == (t, Ok::<ShareableHandleId, SimError>(h)),
{
}

/// What an export leaves.
proof fn lemma_pool_exported(s: SimState, pool: PoolId)
    requires
        s.pool_export(pool).1 is Ok,
    ensures
        ({
            let t = s.pool_export(pool).0;
            let h = s.pool_export(pool).1->Ok_0;
            &&& t.capturing is None
            &&& t.refuse_destroyed_pool(pool) is Ok
            &&& t.pools.contains_key(pool)
            &&& t.pools[pool].shareable
            &&& match s.share_handle_of(pool) {
                Some(k) => t == s && h == k,
                None => t.share_handles == s.share_handles.insert(h, pool),
            }
        }),
{
}

/// The search finds a handle of `id` where there is one.
proof fn lemma_ptr_export_of(s: SimState, id: AllocId)
    requires
        lists(order_of(s.ptr_exports.dom()), s.ptr_exports.dom()),
    ensures
        match s.ptr_export_of(id) {
            Some(h) => s.ptr_exports.contains_key(h) && s.ptr_exports[h] == id,
            None => forall|k| #[trigger] s.ptr_exports.contains_key(k) ==> s.ptr_exports[k] != id,
        },
{
    let q = order_of(s.ptr_exports.dom());
    let p = |i: int| s.ptr_export_of_at(id, i);
    lemma_first_where(q.len(), p);
    match first_where(q.len(), p) {
        Some(i) => {
            assert(q.contains(q[i]));
        },
        None => {
            assert forall|k| #[trigger] s.ptr_exports.contains_key(k) implies s.ptr_exports[k] != id by {
                assert(q.contains(k));
                let j = choose|j: int| 0 <= j < q.len() && q[j] == k;
                assert(!p(j));
            }
        },
    }
}

/// A pointer is exported under one handle.
pub proof fn pool_export_ptr_gives_same_handle(s: SimState, id: AllocId)
    requires
        s.pool_export_ptr(id).1 is Ok,
        s.ptr_exports.dom().finite(),
    ensures
        ({
            let t = s.pool_export_ptr(id).0;
            let h = s.pool_export_ptr(id).1->Ok_0;
            &&& t.ptr_exports.contains_key(h) && t.ptr_exports[h] == id
            &&& t.pool_export_ptr(id) == (t, Ok::<PtrExportId, SimError>(h))
        }),
{
    lemma_order_exists(s.ptr_exports.dom());
    lemma_ptr_export_of(s, id);
    let t = s.pool_export_ptr(id).0;
    let h = s.pool_export_ptr(id).1->Ok_0;
    lemma_order_exists(t.ptr_exports.dom());
    lemma_ptr_export_of(t, id);
    if s.ptr_export_of(id) is None {
        assert(t.ptr_exports.contains_key(h));
        match t.ptr_export_of(id) {
            Some(k) => {
                assert(k == h || s.ptr_exports.contains_key(k));
            },
            None => {},
        }
    }
}

/// The search finds a handle of `id` where there is one.
proof fn lemma_ipc_handle_of(s: SimState, id: AllocId)
    requires
        lists(order_of(s.ipc_handles.dom()), s.ipc_handles.dom()),
    ensures
        match s.ipc_handle_of(id) {
            Some(h) => s.ipc_handles.contains_key(h) && s.ipc_handles[h] == id,
            None => forall|k| #[trigger] s.ipc_handles.contains_key(k) ==> s.ipc_handles[k] != id,
        },
{
    let q = order_of(s.ipc_handles.dom());
    let p = |i: int| s.ipc_handle_of_at(id, i);
    lemma_first_where(q.len(), p);
    match first_where(q.len(), p) {
        Some(i) => {
            assert(q.contains(q[i]));
        },
        None => {
            assert forall|k| #[trigger] s.ipc_handles.contains_key(k) implies s.ipc_handles[k] != id by {
                assert(q.contains(k));
                let j = choose|j: int| 0 <= j < q.len() && q[j] == k;
                assert(!p(j));
            }
        },
    }
}

/// Device memory is exported to other processes under one handle.
pub proof fn ipc_get_gives_same_handle(s: SimState, id: AllocId)
    requires
        s.ipc_get(id).1 is Ok,
        s.ipc_handles.dom().finite(),
    ensures
        ({
            let t = s.ipc_get(id).0;
            let h = s.ipc_get(id).1->Ok_0;
            &&& t.ipc_handles.contains_key(h) && t.ipc_handles[h] == id
            &&& t.ipc_get(id) == (t, Ok::<IpcHandleId, SimError>(h))
        }),
{
    lemma_order_exists(s.ipc_handles.dom());
    lemma_ipc_handle_of(s, id);
    let t = s.ipc_get(id).0;
    let h = s.ipc_get(id).1->Ok_0;
    lemma_order_exists(t.ipc_handles.dom());
    lemma_ipc_handle_of(t, id);
    if s.ipc_handle_of(id) is None {
        assert(t.ipc_handles.contains_key(h));
        match t.ipc_handle_of(id) {
            Some(k) => {
                assert(k == h || s.ipc_handles.contains_key(k));
            },
            None => {},
        }
    }
}

/// The search finds a handle of `event` where there is one.
proof fn lemma_ipc_event_handle_of(s: SimState, event: EventId)
    requires
        lists(order_of(s.ipc_event_handles.dom()), s.ipc_event_handles.dom()),
    ensures
        match s.ipc_event_handle_of(event) {
            Some(h) => s.ipc_event_handles.contains_key(h) && s.ipc_event_handles[h] == event,
            None => forall|k| #[trigger] s.ipc_event_handles.contains_key(k) ==> s.ipc_event_handles[k] != event,
        },
{
    let q = order_of(s.ipc_event_handles.dom());
    let p = |i: int| s.ipc_event_handle_of_at(event, i);
    lemma_first_where(q.len(), p);
    match first_where(q.len(), p) {
        Some(i) => {
            assert(q.contains(q[i]));
        },
        None => {
            assert forall|k| #[trigger] s.ipc_event_handles.contains_key(k) implies s.ipc_event_handles[k] != event by {
                assert(q.contains(k));
                let j = choose|j: int| 0 <= j < q.len() && q[j] == k;
                assert(!p(j));
            }
        },
    }
}

/// An event is exported to other processes under one handle.
pub proof fn ipc_get_event_gives_same_handle(s: SimState, event: EventId)
    requires
        s.ipc_get_event(event).1 is Ok,
        s.ipc_event_handles.dom().finite(),
    ensures
        ({
            let t = s.ipc_get_event(event).0;
            let h = s.ipc_get_event(event).1->Ok_0;
            &&& t.ipc_event_handles.contains_key(h) && t.ipc_event_handles[h] == event
            &&& t.ipc_get_event(event) == (t, Ok::<IpcEventHandleId, SimError>(h))
        }),
{
    lemma_order_exists(s.ipc_event_handles.dom());
    lemma_ipc_event_handle_of(s, event);
    let t = s.ipc_get_event(event).0;
    let h = s.ipc_get_event(event).1->Ok_0;
    lemma_order_exists(t.ipc_event_handles.dom());
    lemma_ipc_event_handle_of(t, event);
    if s.ipc_event_handle_of(event) is None {
        assert(t.ipc_event_handles.contains_key(h));
        match t.ipc_event_handle_of(event) {
            Some(k) => {
                assert(k == h || s.ipc_event_handles.contains_key(k));
            },
            None => {},
        }
    }
}

} // verus!
