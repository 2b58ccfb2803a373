//! Histories of the operations in `sim::pools`.
use vstd::prelude::*;
use crate::history::{alloc_follows, follows, gpu_follows, next_ids_new, pool_follows, rest_follows};
use crate::history::access::tick_follows;
use crate::history::charge::{add_alloc_follows, refund_hbm_follows};
use crate::history::edit::insert_pool_alloc_follows;
use crate::history::ranges::root_is_sound;
use crate::history::shape::capture_note_follows;
use crate::history::submit::submit_follows;
use crate::ids::{AllocId, DeviceId, PoolId, PtrExportId, ShareableHandleId, StreamId};
use crate::num::max_u64;
use crate::ops::{GpuOpView, GraphMemAttr, MemPoolAttr};
use crate::sim::SimState;
use crate::state::{AllocView, CaptureView, GpuRtView, NextIds, PoolView};
use crate::table::without_value;

verus! {

/// [`Sim::alloc_async`] continues the history.
pub proof fn alloc_async_follows(
    z: SimState,
    s0: SimState,
    device: DeviceId,
    bytes: u64,
    stream: StreamId,
)
    requires
        follows(z, s0),
    ensures
        follows(z, s0.alloc_async(device, bytes, stream).0),
{
    let s = s0;
    match s.stream_pool(device, stream) {
        Err(e) => {},
        Ok(pool) => {
            alloc_from_pool_inner_follows(z, s, device, pool, bytes, stream);
        },
    }
}

/// [`Sim::rebind_current_pools`] continues the history.
pub proof fn rebind_current_pools_follows(z: SimState, s0: SimState, pool: PoolId)
    requires
        follows(z, s0),
    ensures
        follows(z, s0.rebind_current_pools(pool)),
{
    let s = s0;
    let users = s.users_of_pool(pool);
    rebind_current_pools_from_follows(z, s, users, 0);
}

/// [`Sim::rebind_current_pools`] continues the history, from position `i` on.
pub proof fn rebind_current_pools_from_follows(
    z: SimState,
    s0: SimState,
    users: Seq<DeviceId>,
    i: int,
)
    requires
        follows(z, s0),
    ensures
        follows(z, s0.rebind_current_pools_from(users, i)),
    decreases users.len() - i,
{
    let s = s0;
    if 0 <= i < users.len() {
        let d = users[i];
        let def = (match s.default_pools.get(d) { Some(p) => Some(p), None => None, });
        match def {
            Some(p) => {
                rest_follows(z, s, SimState { current_pools: s.current_pools.insert(d, p), ..s });
            },
            _ => {},
        }
        let s = match def {
            Some(p) => {
                let s = SimState { current_pools: s.current_pools.insert(d, p), ..s };
                s
            },
            _ => s,
        };
        rebind_current_pools_from_follows(z, s, users, i + 1);
    }
}

/// [`Sim::set_device_mempool`] continues the history.
pub proof fn set_device_mempool_follows(z: SimState, s0: SimState, device: DeviceId, pool: PoolId)
    requires
        follows(z, s0),
    ensures
        follows(z, s0.set_device_mempool(device, pool).0),
{
    let s = s0;
    match s.fail_if_capturing("cannot capture mempool") {
        Err(e) => {},
        Ok(_v) => match s.refuse_graph_pool(pool) {
            Err(e) => {},
            Ok(_v) => match s.refuse_destroyed_pool(pool) {
                Err(e) => {},
                Ok(_v) => match s.profile.gpu(device) {
                    Err(e) => {},
                    Ok(_gpu) => match s.pool_ref(pool) {
                        Err(e) => {},
                        Ok(p) => {
                            if !(p.device != device) {
                                rest_follows(
                                    z,
                                    s,
                                    SimState {
                                        current_pools: s.current_pools.insert(device, pool),
                                        ..s
                                    },
                                );
                                let s = SimState {
                                    current_pools: s.current_pools.insert(device, pool),
                                    ..s
                                };
                                tick_follows(z, s, s.first_alloc_ns());
                            }
                        },
                    },
                },
            },
        },
    }
}

/// [`Sim::create_pool`] continues the history.
pub proof fn create_pool_follows(z: SimState, s0: SimState, device: DeviceId)
    requires
        follows(z, s0),
    ensures
        follows(z, s0.create_pool(device).0),
{
    let s = s0;
    insert_pool_follows(z, s, device, false);
}

/// [`Sim::create_shareable_pool`] continues the history.
pub proof fn create_shareable_pool_follows(z: SimState, s0: SimState, device: DeviceId)
    requires
        follows(z, s0),
    ensures
        follows(z, s0.create_shareable_pool(device).0),
{
    let s = s0;
    insert_pool_follows(z, s, device, true);
}

/// [`Sim::insert_pool`] continues the history.
pub proof fn insert_pool_follows(z: SimState, s0: SimState, device: DeviceId, shareable: bool)
    requires
        follows(z, s0),
    ensures
        follows(z, s0.insert_pool(device, shareable).0),
{
    next_ids_new(z, s0);
    let s = s0;
    match s.fail_if_capturing("cannot capture mempool") {
        Err(e) => {},
        Ok(_v) => match s.profile.gpu(device) {
            Err(e) => {},
            Ok(_gpu) => {
                let id = PoolId(s.next.pool);
                assert(
                    follows(
                        z,
                        SimState {
                            next: NextIds { pool: s.next.pool.saturating_add(1), ..s.next },
                            ..s
                        },
                    )
                ) by {
                    reveal(follows);
                }
                let s = SimState {
                    next: NextIds { pool: s.next.pool.saturating_add(1), ..s.next },
                    ..s
                };
                let p = PoolView::fresh(device);
                let p = PoolView { shareable: shareable, ..p };
                pool_follows(z, s, id, p);
            },
        },
    }
}

/// [`Sim::destroy_pool`] continues the history.
pub proof fn destroy_pool_follows(z: SimState, s0: SimState, pool: PoolId)
    requires
        follows(z, s0),
    ensures
        follows(z, s0.destroy_pool(pool).0),
{
    let s = s0;
    match s.fail_if_capturing("cannot capture mempool") {
        Err(e) => {},
        Ok(_v) => match s.refuse_graph_pool(pool) {
            Err(e) => {},
            Ok(_v) => match s.pool_ref(pool) {
                Err(e) => {},
                Ok(p) => {
                    if !(p.destroyed) {
                        if !(s.is_default_pool(pool)) {
                            let imported = p.share_root.is_some();
                            rebind_current_pools_follows(z, s, pool);
                            let s = s.rebind_current_pools(pool);
                            retire_pool_follows(z, s, pool, imported);
                            match s.retire_pool(pool, imported) {
                                (s, Err(e)) => {},
                                (s, Ok(_v)) => {
                                    tick_follows(z, s, s.first_alloc_ns());
                                },
                            }
                        }
                    }
                },
            },
        },
    }
}

/// [`Sim::retire_pool`] continues the history.
pub proof fn retire_pool_follows(z: SimState, s0: SimState, pool: PoolId, imported: bool)
    requires
        follows(z, s0),
    ensures
        follows(z, s0.retire_pool(pool, imported).0),
{
    reveal(SimState::retire_pool);
    let s = s0;
    if imported {
        match s.pool_ref(pool) {
            Err(e) => {},
            Ok(p) => {
                pool_follows(z, s, pool, PoolView { destroyed: true, ..p });
            },
        }
    } else {
        pool_trim_to_follows(z, s, pool, 0);
        match s.pool_trim_to(pool, 0) {
            (s, Err(e)) => {},
            (s, Ok(_dropped)) => match s.pool_ref(pool) {
                Err(e) => {},
                Ok(p) => {
                    let p = PoolView { release_threshold: 0, destroyed: true, ..p };
                    pool_follows(z, s, pool, p);
                    let s = SimState { pools: s.pools.insert(pool, p), ..s };
                    rest_follows(
                        z,
                        s,
                        SimState { share_handles: without_value(s.share_handles, pool), ..s },
                    );
                },
            },
        }
    }
}

/// [`Sim::alloc_from_pool`] continues the history.
pub proof fn alloc_from_pool_follows(
    z: SimState,
    s0: SimState,
    device: DeviceId,
    pool: PoolId,
    bytes: u64,
    stream: StreamId,
)
    requires
        follows(z, s0),
    ensures
        follows(z, s0.alloc_from_pool(device, pool, bytes, stream).0),
{
    let s = s0;
    match s.refuse_graph_pool(pool) {
        Err(e) => {},
        Ok(_v) => match s.refuse_destroyed_pool(pool) {
            Err(e) => {},
            Ok(_v) => {
                alloc_from_pool_inner_follows(z, s, device, pool, bytes, stream);
            },
        },
    }
}

/// [`Sim::alloc_from_pool_inner`] continues the history.
pub proof fn alloc_from_pool_inner_follows(
    z: SimState,
    s0: SimState,
    device: DeviceId,
    pool: PoolId,
    bytes: u64,
    stream: StreamId,
)
    requires
        follows(z, s0),
    ensures
        follows(z, s0.alloc_from_pool_inner(device, pool, bytes, stream).0),
{
    reveal(SimState::alloc_from_pool_inner);
    let s = s0;
    if !(bytes == 0) {
        match s.pool_ref(pool) {
            Err(e) => {},
            Ok(p) => {
                if !(p.device != device) {
                    insert_pool_alloc_follows(z, s, pool, bytes);
                    let (s, id) = s.insert_pool_alloc(pool, bytes);
                    submit_follows(z, s, device, stream, GpuOpView::Alloc { id, bytes });
                    match s.submit(device, stream, GpuOpView::Alloc { id, bytes }) {
                        (s, Err(e)) => {},
                        (s, Ok(_op)) => {
                            if s.in_capture(device, stream) {
                                match s.capturing {
                                    Some(cap) => {
                                        let cap = CaptureView {
                                            mem_allocs: cap.mem_allocs.push(id),
                                            ..cap
                                        };
                                        capture_note_follows(z, s, cap);
                                    },
                                    _ => {},
                                }
                            }
                        },
                    }
                }
            },
        }
    }
}

/// [`Sim::set_pool_release_threshold`] continues the history.
pub proof fn set_pool_release_threshold_follows(z: SimState, s0: SimState, pool: PoolId, bytes: u64)
    requires
        follows(z, s0),
    ensures
        follows(z, s0.set_pool_release_threshold(pool, bytes).0),
{
    let s = s0;
    match s.fail_if_capturing("cannot capture mempool") {
        Err(e) => {},
        Ok(_v) => match s.pool_root(pool) {
            Err(e) => {},
            Ok(root) => match s.refuse_graph_pool(root) {
                Err(e) => {},
                Ok(_v) => match s.refuse_destroyed_pool(pool) {
                    Err(e) => {},
                    Ok(_v) => match s.refuse_destroyed_pool(root) {
                        Err(e) => {},
                        Ok(_v) => match s.pool_ref(root) {
                            Err(e) => {},
                            Ok(p) => {
                                pool_follows(
                                    z,
                                    s,
                                    root,
                                    PoolView { release_threshold: bytes, ..p },
                                );
                            },
                        },
                    },
                },
            },
        },
    }
}

/// [`Sim::pool_set_attribute`] continues the history.
pub proof fn pool_set_attribute_follows(
    z: SimState,
    s0: SimState,
    pool: PoolId,
    attr: MemPoolAttr,
    value: u64,
)
    requires
        follows(z, s0),
    ensures
        follows(z, s0.pool_set_attribute(pool, attr, value).0),
{
    let s = s0;
    if (match attr { MemPoolAttr::ReleaseThreshold => true, _ => false }) {
        set_pool_release_threshold_follows(z, s, pool, value);
    }
}

/// [`Sim::set_default_pool_release_threshold`] continues the history.
pub proof fn set_default_pool_release_threshold_follows(z: SimState, s0: SimState, bytes: u64)
    requires
        follows(z, s0),
    ensures
        follows(z, s0.set_default_pool_release_threshold(bytes).0),
{
    let s = s0;
    let ids = s.pools_in_use();
    set_default_pool_release_threshold_from_follows(z, s, bytes, ids, 0);
}

/// [`Sim::set_default_pool_release_threshold`] continues the history, from position `i` on.
pub proof fn set_default_pool_release_threshold_from_follows(
    z: SimState,
    s0: SimState,
    bytes: u64,
    ids: Seq<PoolId>,
    i: int,
)
    requires
        follows(z, s0),
    ensures
        follows(z, s0.set_default_pool_release_threshold_from(bytes, ids, i).0),
    decreases ids.len() - i,
{
    let s = s0;
    if 0 <= i < ids.len() {
        set_pool_release_threshold_follows(z, s, ids[i], bytes);
        match s.set_pool_release_threshold(ids[i], bytes) {
            (s, Err(e)) => {},
            (s, Ok(_v)) => {
                set_default_pool_release_threshold_from_follows(z, s, bytes, ids, i + 1);
            },
        }
    }
}

/// [`Sim::pool_trim_to`] continues the history.
pub proof fn pool_trim_to_follows(z: SimState, s0: SimState, pool: PoolId, min_bytes: u64)
    requires
        follows(z, s0),
    ensures
        follows(z, s0.pool_trim_to(pool, min_bytes).0),
{
    let s = s0;
    match s.fail_if_capturing("cannot capture mempool") {
        Err(e) => {},
        Ok(_v) => match s.pool_root(pool) {
            Err(e) => {},
            Ok(root) => match s.refuse_destroyed_pool(root) {
                Err(e) => {},
                Ok(_v) => {
                    let p = s.pools[root];
                    let excess = p.cached.saturating_sub(min_bytes);
                    if !(excess == 0) {
                        let p = PoolView { cached: min_bytes, ..p };
                        pool_follows(z, s, root, p);
                        let s = SimState { pools: s.pools.insert(root, p), ..s };
                        refund_hbm_follows(z, s, p.device, excess);
                    }
                },
            },
        },
    }
}

/// [`Sim::pool_set_access`] continues the history.
pub proof fn pool_set_access_follows(z: SimState, s0: SimState, pool: PoolId, device: DeviceId)
    requires
        follows(z, s0),
    ensures
        follows(z, s0.pool_set_access(pool, device).0),
{
    let s = s0;
    match s.fail_if_capturing("cannot capture mempool") {
        Err(e) => {},
        Ok(_v) => match s.refuse_graph_pool(pool) {
            Err(e) => {},
            Ok(_v) => match s.refuse_destroyed_pool(pool) {
                Err(e) => {},
                Ok(_v) => match s.profile.gpu(device) {
                    Err(e) => {},
                    Ok(_gpu) => match s.pool_ref(pool) {
                        Err(e) => {},
                        Ok(p) => match s.reachable_from(p.device, device) {
                            Err(e) => {},
                            Ok(_v) => match s.pool_ref(pool) {
                                Err(e) => {},
                                Ok(q) => {
                                    let q = PoolView {
                                        accessed_by: q.accessed_by.insert(device),
                                        ..q
                                    };
                                    pool_follows(z, s, pool, q);
                                    let s = SimState { pools: s.pools.insert(pool, q), ..s };
                                    tick_follows(z, s, s.first_alloc_ns());
                                },
                            },
                        },
                    },
                },
            },
        },
    }
}

/// [`Sim::pool_unset_access`] continues the history.
pub proof fn pool_unset_access_follows(z: SimState, s0: SimState, pool: PoolId, device: DeviceId)
    requires
        follows(z, s0),
    ensures
        follows(z, s0.pool_unset_access(pool, device).0),
{
    let s = s0;
    match s.fail_if_capturing("cannot capture mempool") {
        Err(e) => {},
        Ok(_v) => match s.refuse_destroyed_pool(pool) {
            Err(e) => {},
            Ok(_v) => match s.profile.gpu(device) {
                Err(e) => {},
                Ok(_gpu) => match s.pool_ref(pool) {
                    Err(e) => {},
                    Ok(q) => {
                        let q = PoolView { accessed_by: q.accessed_by.remove(device), ..q };
                        pool_follows(z, s, pool, q);
                        let s = SimState { pools: s.pools.insert(pool, q), ..s };
                        tick_follows(z, s, s.first_alloc_ns());
                    },
                },
            },
        },
    }
}

/// [`Sim::pay_alloc`] continues the history.
pub proof fn pay_alloc_follows(z: SimState, s0: SimState, device: DeviceId)
    requires
        follows(z, s0),
    ensures
        follows(z, s0.pay_alloc(device).0),
{
    let s = s0;
    match s.profile.gpu(device) {
        Err(e) => {},
        Ok(gpu) => {
            tick_follows(z, s, max_u64(gpu.alloc_overhead_ns, 1));
        },
    }
}

/// [`Sim::pool_export`] continues the history.
pub proof fn pool_export_follows(z: SimState, s0: SimState, pool: PoolId)
    requires
        follows(z, s0),
    ensures
        follows(z, s0.pool_export(pool).0),
{
    let s = s0;
    match s.fail_if_capturing("cannot capture mempool") {
        Err(e) => {},
        Ok(_v) => match s.refuse_destroyed_pool(pool) {
            Err(e) => {},
            Ok(_v) => match s.pool_ref(pool) {
                Err(e) => {},
                Ok(p) => {
                    let device = p.device;
                    if !(!p.shareable) {
                        match s.share_handle_of(pool) {
                            Some(h) => {},
                            _ => {
                                pay_alloc_follows(z, s, device);
                                match s.pay_alloc(device) {
                                    (s, Err(e)) => {},
                                    (s, Ok(_v)) => {
                                        let h = ShareableHandleId(s.next.share);
                                        assert(
                                            follows(
                                                z,
                                                SimState {
                                                    next: NextIds {
                                                        share: s.next.share.saturating_add(1),
                                                        ..s.next
                                                    },
                                                    ..s
                                                },
                                            )
                                        ) by {
                                            reveal(follows);
                                        }
                                        let s = SimState {
                                            next: NextIds {
                                                share: s.next.share.saturating_add(1),
                                                ..s.next
                                            },
                                            ..s
                                        };
                                        rest_follows(
                                            z,
                                            s,
                                            SimState {
                                                share_handles: s.share_handles.insert(h, pool),
                                                ..s
                                            },
                                        );
                                    },
                                }
                            },
                        }
                    }
                },
            },
        },
    }
}

/// [`Sim::pool_import`] continues the history.
pub proof fn pool_import_follows(
    z: SimState,
    s0: SimState,
    device: DeviceId,
    handle: ShareableHandleId,
)
    requires
        follows(z, s0),
    ensures
        follows(z, s0.pool_import(device, handle).0),
{
    next_ids_new(z, s0);
    let s = s0;
    match s.fail_if_capturing("cannot capture mempool") {
        Err(e) => {},
        Ok(_v) => match s.share_handles.get(handle) {
            Some(p) => {
                let src = p;
                match s.pool_root(src) {
                    Err(e) => {},
                    Ok(root) => match s.refuse_destroyed_pool(root) {
                        Err(e) => {},
                        Ok(_v) => match s.pool_ref(root) {
                            Err(e) => {},
                            Ok(r) => {
                                if !(r.device != device) {
                                    pay_alloc_follows(z, s, device);
                                    match s.pay_alloc(device) {
                                        (s, Err(e)) => {},
                                        (s, Ok(_v)) => {
                                            let id = PoolId(s.next.pool);
                                            assert(
                                                follows(
                                                    z,
                                                    SimState {
                                                        next: NextIds {
                                                            pool: s.next.pool.saturating_add(1),
                                                            ..s.next
                                                        },
                                                        ..s
                                                    },
                                                )
                                            ) by {
                                                reveal(follows);
                                            }
                                            let s = SimState {
                                                next: NextIds {
                                                    pool: s.next.pool.saturating_add(1),
                                                    ..s.next
                                                },
                                                ..s
                                            };
                                            let p = PoolView::fresh(device);
                                            let p = PoolView { share_root: Some(root), ..p };
                                            next_ids_new(z, s0);
                                            root_is_sound(z, s, src);
                                            pool_follows(z, s, id, p);
                                        },
                                    }
                                }
                            },
                        },
                    },
                }
            },
            None => {},
        },
    }
}

/// [`Sim::pool_export_ptr`] continues the history.
pub proof fn pool_export_ptr_follows(z: SimState, s0: SimState, id: AllocId)
    requires
        follows(z, s0),
    ensures
        follows(z, s0.pool_export_ptr(id).0),
{
    let s = s0;
    match s.fail_if_capturing("cannot capture mempool") {
        Err(e) => {},
        Ok(_v) => match s.shareable_ptr_pool(id) {
            Err(e) => {},
            Ok(pool) => match s.holder_of(id, "not shareable ptr") {
                Err(e) => {},
                Ok(device) => match s.pool_root(pool) {
                    Err(e) => {},
                    Ok(root) => match s.pool_ref(root) {
                        Err(e) => {},
                        Ok(r) => {
                            if !(!r.shareable) {
                                match s.ptr_export_of(id) {
                                    Some(h) => {},
                                    _ => {
                                        pay_alloc_follows(z, s, device);
                                        match s.pay_alloc(device) {
                                            (s, Err(e)) => {},
                                            (s, Ok(_v)) => {
                                                let h = PtrExportId(s.next.ptr);
                                                assert(
                                                    follows(
                                                        z,
                                                        SimState {
                                                            next: NextIds {
                                                                ptr: s.next.ptr.saturating_add(1),
                                                                ..s.next
                                                            },
                                                            ..s
                                                        },
                                                    )
                                                ) by {
                                                    reveal(follows);
                                                }
                                                let s = SimState {
                                                    next: NextIds {
                                                        ptr: s.next.ptr.saturating_add(1),
                                                        ..s.next
                                                    },
                                                    ..s
                                                };
                                                rest_follows(
                                                    z,
                                                    s,
                                                    SimState {
                                                        ptr_exports: s.ptr_exports.insert(h, id),
                                                        ..s
                                                    },
                                                );
                                            },
                                        }
                                    },
                                }
                            }
                        },
                    },
                },
            },
        },
    }
}

/// [`Sim::pool_import_ptr`] continues the history.
#[verifier::rlimit(60)]
pub proof fn pool_import_ptr_follows(z: SimState, s0: SimState, pool: PoolId, export: PtrExportId)
    requires
        follows(z, s0),
    ensures
        follows(z, s0.pool_import_ptr(pool, export).0),
{
    let s = s0;
    match s.fail_if_capturing("cannot capture mempool") {
        Err(e) => {},
        Ok(_v) => match s.importable_ptr(pool, export) {
            Err(e) => {},
            Ok(src) => match s.holder_of(src, "not shareable ptr") {
                Err(e) => {},
                Ok(device) => match s.alloc_ref(src) {
                    Err(e) => {},
                    Ok(a) => {
                        let opens = a.share_opens;
                        let alias = AllocView::blank(a.bytes);
                        let alias = AllocView { devices: a.devices, ..alias };
                        let alias = AllocView { live: true, ..alias };
                        let alias = AllocView { pool: Some(pool), ..alias };
                        let alias = AllocView { share_src: Some(src), ..alias };
                        pay_alloc_follows(z, s, device);
                        match s.pay_alloc(device) {
                            (s, Err(e)) => {},
                            (s, Ok(_v)) => match s.alloc_ref(src) {
                                Err(e) => {},
                                Ok(a) => {
                                    alloc_follows(
                                        z,
                                        s,
                                        src,
                                        AllocView { share_opens: opens.saturating_add(1), ..a },
                                    );
                                    let s = SimState {
                                        allocs: s.allocs.insert(
                                            src,
                                            AllocView { share_opens: opens.saturating_add(1), ..a },
                                        ),
                                        ..s
                                    };
                                    add_alloc_follows(z, s, alias);
                                },
                            },
                        }
                    },
                },
            },
        },
    }
}

/// [`Sim::graph_mem_set`] continues the history.
pub proof fn graph_mem_set_follows(
    z: SimState,
    s0: SimState,
    device: DeviceId,
    attr: GraphMemAttr,
    value: u64,
)
    requires
        follows(z, s0),
    ensures
        follows(z, s0.graph_mem_set(device, attr, value).0),
{
    let s = s0;
    match s.fail_if_capturing("cannot capture graph mem set") {
        Err(e) => {},
        Ok(_v) => match s.profile.gpu(device) {
            Err(e) => {},
            Ok(_gpu) => {
                if !(value != 0) {
                    match s.graph_mem_used_reserved(device) {
                        Err(e) => {},
                        Ok((used, reserved)) => match s.gpu_rt(device) {
                            Err(e) => {},
                            Ok(_rt) => match attr {
                                GraphMemAttr::UsedMemHigh => match s.gpu_rt(device) {
                                    Err(e) => {},
                                    Ok(rt) => {
                                        gpu_follows(
                                            z,
                                            s,
                                            device,
                                            GpuRtView { graph_used_high: used, ..rt },
                                        );
                                        let s = SimState {
                                            gpus: s.gpus.insert(
                                                device,
                                                GpuRtView { graph_used_high: used, ..rt },
                                            ),
                                            ..s
                                        };
                                        tick_follows(z, s, 1);
                                    },
                                },
                                GraphMemAttr::ReservedMemHigh => match s.gpu_rt(device) {
                                    Err(e) => {},
                                    Ok(rt) => {
                                        gpu_follows(
                                            z,
                                            s,
                                            device,
                                            GpuRtView { graph_reserved_high: reserved, ..rt },
                                        );
                                        let s = SimState {
                                            gpus: s.gpus.insert(
                                                device,
                                                GpuRtView { graph_reserved_high: reserved, ..rt },
                                            ),
                                            ..s
                                        };
                                        tick_follows(z, s, 1);
                                    },
                                },
                                _ => {},
                            },
                        },
                    }
                }
            },
        },
    }
}

/// [`Sim::graph_mem_trim`] continues the history.
pub proof fn graph_mem_trim_follows(z: SimState, s0: SimState, device: DeviceId)
    requires
        follows(z, s0),
    ensures
        follows(z, s0.graph_mem_trim(device).0),
{
    let s = s0;
    match s.fail_if_capturing("cannot capture graph mem trim") {
        Err(e) => {},
        Ok(_v) => match s.graph_pool(device) {
            Err(e) => {},
            Ok(pool) => {
                pool_trim_to_follows(z, s, pool, 0);
                match s.pool_trim_to(pool, 0) {
                    (s, Err(e)) => {},
                    (s, Ok(_dropped)) => {
                        tick_follows(z, s, 1);
                    },
                }
            },
        },
    }
}

} // verus!
