//! Histories of the operations in `sim::charge`.
use vstd::prelude::*;
use crate::error::invalid;
use crate::history::{
    alloc_follows, follows, gpu_follows, next_ids_new, pool_follows, reserve_hbm_follows,
    rest_follows,
};
use crate::history::access::tick_follows;
use crate::history::ranges::handle_follows;
use crate::ids::{AllocId, DeviceId, MemHandleId, PoolId, Word};
use crate::list::{with_new, without};
use crate::num::max_u64;
use crate::ops::{MemcpyOp, Place};
use crate::sim::SimState;
use crate::sim::charge::words_apart;
use crate::spans::wait_value_mask;
use crate::state::{AllocView, GpuRtView, MemHandle, NextIds, PoolView};

verus! {

/// [`Sim::bump_hbm_peak`] continues the history.
pub proof fn bump_hbm_peak_follows(z: SimState, s0: SimState, device: DeviceId)
    requires
        follows(z, s0),
    ensures
        follows(z, s0.bump_hbm_peak(device).0),
{
    let s = s0;
    match s.gpu_rt(device) {
        Err(e) => {},
        Ok(rt) => {
            let peak = rt.used;
            if peak > s.hbm_peak {
                assert(follows(z, SimState { hbm_peak: peak, ..s })) by {
                    reveal(follows);
                }
            }
        },
    }
}

/// [`Sim::refund_hbm`] continues the history.
pub proof fn refund_hbm_follows(z: SimState, s0: SimState, device: DeviceId, bytes: u64)
    requires
        follows(z, s0),
    ensures
        follows(z, s0.refund_hbm(device, bytes).0),
{
    let s = s0;
    match s.gpu_rt(device) {
        Err(e) => {},
        Ok(rt) => {
            let rt = GpuRtView { used: rt.used.saturating_sub(bytes), ..rt };
            gpu_follows(z, s, device, rt);
        },
    }
}

/// [`Sim::pool_acquire`] continues the history.
pub proof fn pool_acquire_follows(z: SimState, s0: SimState, pool: PoolId, bytes: u64)
    requires
        follows(z, s0),
    ensures
        follows(z, s0.pool_acquire(pool, bytes).0),
{
    reveal(SimState::pool_acquire);
    let s = s0;
    match s.pool_root(pool) {
        Err(e) => {},
        Ok(root) => match s.pool_ref(root) {
            Err(e) => {},
            Ok(p0) => {
                let device = p0.device;
                let cached = p0.cached;
                match s.profile.gpu(device) {
                    Err(e) => {},
                    Ok(gpu) => if cached >= bytes {
                        match s.pool_ref(root) {
                            Err(e) => {},
                            Ok(p) => {
                                let p = PoolView {
                                    cached: cached.saturating_sub(bytes),
                                    live: p.live.saturating_add(bytes),
                                    ..p
                                };
                                pool_follows(z, s, root, p);
                            },
                        }
                    } else {
                        reserve_hbm_follows(z, s, device, bytes.saturating_sub(cached));
                        match s.reserve_hbm(device, bytes.saturating_sub(cached)) {
                            (s, Err(e)) => {},
                            (s, Ok(_v)) => match s.pool_ref(root) {
                                Err(e) => {},
                                Ok(p) => {
                                    let p = PoolView {
                                        cached: 0,
                                        live: p.live.saturating_add(bytes),
                                        ..p
                                    };
                                    pool_follows(z, s, root, p);
                                },
                            },
                        }
                    },
                }
            },
        },
    }
}

/// [`Sim::pool_release`] continues the history.
pub proof fn pool_release_follows(z: SimState, s0: SimState, pool: PoolId, bytes: u64)
    requires
        follows(z, s0),
    ensures
        follows(z, s0.pool_release(pool, bytes).0),
{
    reveal(SimState::pool_release);
    let s = s0;
    match s.pool_root(pool) {
        Err(e) => {},
        Ok(root) => match s.pool_ref(root) {
            Err(e) => {},
            Ok(p0) => {
                let device = p0.device;
                let threshold = p0.release_threshold;
                let cached = p0.cached.saturating_add(bytes);
                let live = p0.live.saturating_sub(bytes);
                match s.pool_ref(root) {
                    Err(e) => {},
                    Ok(p) => {
                        let p = PoolView {
                            live: live,
                            cached: if cached > threshold { threshold } else { cached },
                            ..p
                        };
                        pool_follows(z, s, root, p);
                        let s = SimState { pools: s.pools.insert(root, p), ..s };
                        if cached > threshold {
                            refund_hbm_follows(z, s, device, cached.saturating_sub(threshold));
                        }
                    },
                }
            },
        },
    }
}

/// [`Sim::refund_device`] continues the history.
pub proof fn refund_device_follows(
    z: SimState,
    s0: SimState,
    device: DeviceId,
    alloc: AllocId,
    bytes: u64,
)
    requires
        follows(z, s0),
    ensures
        follows(z, s0.refund_device(device, alloc, bytes).0),
{
    let s = s0;
    match s.alloc_ref(alloc) {
        Err(e) => {},
        Ok(a) => match a.pool {
            Some(p) => match s.pool_ref(p) {
                Err(e) => {},
                Ok(owner) => if owner.device == device {
                    pool_release_follows(z, s, p, bytes);
                } else {
                    refund_hbm_follows(z, s, device, bytes);
                },
            },
            None => {
                refund_hbm_follows(z, s, device, bytes);
            },
        },
    }
}

/// [`Sim::maybe_refund_handle`] continues the history.
pub proof fn maybe_refund_handle_follows(z: SimState, s0: SimState, handle: MemHandleId)
    requires
        follows(z, s0),
    ensures
        follows(z, s0.maybe_refund_handle(handle).0),
{
    reveal(SimState::maybe_refund_handle);
    let s = s0;
    match s.handle_ref(handle) {
        Err(e) => {},
        Ok(h) => {
            let device = h.device;
            let bytes = h.bytes;
            if h.refs == 0 && h.maps == 0 && h.charged {
                refund_hbm_follows(z, s, device, bytes);
                match s.refund_hbm(device, bytes) {
                    (s, Err(e)) => {},
                    (s, Ok(_v)) => match s.handle_ref(handle) {
                        Err(e) => {},
                        Ok(h) => {
                            handle_follows(z, s, handle, MemHandle { charged: false, ..h });
                        },
                    },
                }
            }
        },
    }
}

/// [`Sim::charge_pin`] continues the history.
pub proof fn charge_pin_follows(z: SimState, s0: SimState, bytes: u64)
    requires
        follows(z, s0),
    ensures
        follows(z, s0.charge_pin(bytes).0),
{
    let s = s0;
    let used = s.pinned_used;
    let free = s.profile.host_pin_bytes.saturating_sub(used);
    if !(bytes > free) {
        assert(follows(z, SimState { pinned_used: used.saturating_add(bytes), ..s })) by {
            reveal(follows);
        }
    }
}

/// [`Sim::refund_pin`] continues the history.
pub proof fn refund_pin_follows(z: SimState, s0: SimState, bytes: u64)
    requires
        follows(z, s0),
    ensures
        follows(z, s0.refund_pin(bytes)),
{
    let s = s0;
    assert(follows(z, SimState { pinned_used: s.pinned_used.saturating_sub(bytes), ..s })) by {
        reveal(follows);
    }
}

/// [`Sim::add_alloc`] continues the history.
pub proof fn add_alloc_follows(z: SimState, s0: SimState, a: AllocView)
    requires
        follows(z, s0),
    ensures
        follows(z, s0.add_alloc(a).0),
{
    next_ids_new(z, s0);
    let s = s0;
    let id = AllocId(s.next.alloc);
    assert(
        follows(
            z,
            SimState { next: NextIds { alloc: s.next.alloc.saturating_add(1), ..s.next }, ..s },
        )
    ) by {
        reveal(follows);
    }
    let s = SimState { next: NextIds { alloc: s.next.alloc.saturating_add(1), ..s.next }, ..s };
    alloc_follows(z, s, id, a);
}

/// [`Sim::insert_host`] continues the history.
pub proof fn insert_host_follows(
    z: SimState,
    s0: SimState,
    bytes: u64,
    pageable: bool,
    pinned: bool,
    mapped: bool,
    registered: bool,
)
    requires
        follows(z, s0),
    ensures
        follows(z, s0.insert_host(bytes, pageable, pinned, mapped, registered).0),
{
    reveal(SimState::insert_host);
    let s = s0;
    if !(bytes == 0) {
        match s.fail_if_capturing("cannot capture alloc/free") {
            Err(e) => {},
            Ok(_v) => if pinned {
                charge_pin_follows(z, s, bytes);
                match s.charge_pin(bytes) {
                    (s, Err(e)) => {},
                    (s, Ok(_v)) => {
                        let a = AllocView::blank(bytes);
                        let a = AllocView { live: true, ..a };
                        let a = AllocView { host_pinned: pinned, ..a };
                        let a = AllocView { host_pageable: pageable, ..a };
                        let a = AllocView { host_mapped: mapped, ..a };
                        let a = AllocView { host_registered: registered, ..a };
                        add_alloc_follows(z, s, a);
                    },
                }
            } else {
                let a = AllocView::blank(bytes);
                let a = AllocView { live: true, ..a };
                let a = AllocView { host_pinned: pinned, ..a };
                let a = AllocView { host_pageable: pageable, ..a };
                let a = AllocView { host_mapped: mapped, ..a };
                let a = AllocView { host_registered: registered, ..a };
                add_alloc_follows(z, s, a);
            },
        }
    }
}

/// [`Sim::reserve_now`] continues the history.
pub proof fn reserve_now_follows(z: SimState, s0: SimState, device: DeviceId, bytes: u64)
    requires
        follows(z, s0),
    ensures
        follows(z, s0.reserve_now(device, bytes).0),
{
    let s = s0;
    reserve_hbm_follows(z, s, device, bytes);
    match s.reserve_hbm(device, bytes) {
        (s, Err(e)) => {},
        (s, Ok(_v)) => match s.profile.gpu(device) {
            Err(e) => {},
            Ok(gpu) => {
                tick_follows(z, s, max_u64(gpu.alloc_overhead_ns, 1));
                let s = s.tick(max_u64(gpu.alloc_overhead_ns, 1));
                let a = AllocView::blank(bytes);
                let a = AllocView { devices: a.devices.push(device), ..a };
                let a = AllocView { live: true, ..a };
                add_alloc_follows(z, s, a);
            },
        },
    }
}

/// [`Sim::apply_mailbox_write`] continues the history.
pub proof fn apply_mailbox_write_follows(
    z: SimState,
    s0: SimState,
    id: AllocId,
    offset: u64,
    value: u64,
    bits32: bool,
)
    requires
        follows(z, s0),
    ensures
        follows(z, s0.apply_mailbox_write(id, offset, value, bits32)),
{
    let s = s0;
    let mask = wait_value_mask(bits32);
    let prev = s.mailbox_word(id, offset);
    rest_follows(
        z,
        s,
        SimState { mailbox: s.mailbox.insert(Word(id, offset), (prev&!mask) | (value&mask)), ..s },
    );
}

/// [`Sim::clear_mailbox`] continues the history.
pub proof fn clear_mailbox_follows(z: SimState, s0: SimState, id: AllocId)
    requires
        follows(z, s0),
    ensures
        follows(z, s0.clear_mailbox(id)),
{
    let s = s0;
    rest_follows(z, s, SimState { mailbox: words_apart(s.mailbox, id), ..s });
}

/// [`Sim::close_alias`] continues the history.
pub proof fn close_alias_follows(z: SimState, s0: SimState, id: AllocId)
    requires
        follows(z, s0),
    ensures
        follows(z, s0.close_alias(id).0),
{
    let s = s0;
    match s.alloc_ref(id) {
        Err(e) => {},
        Ok(a) => {
            let a = AllocView { live: false, devices: Seq::empty(), ..a };
            alloc_follows(z, s, id, a);
            let s = SimState { allocs: s.allocs.insert(id, a), ..s };
            clear_mailbox_follows(z, s, id);
        },
    }
}

/// [`Sim::drop_ipc_import`] continues the history.
pub proof fn drop_ipc_import_follows(z: SimState, s0: SimState, id: AllocId)
    requires
        follows(z, s0),
    ensures
        follows(z, s0.drop_ipc_import(id).0),
{
    reveal(SimState::drop_ipc_import);
    let s = s0;
    match s.alloc_ref(id) {
        Err(e) => {},
        Ok(alias) => match (
            match alias.ipc_src { Some(x) => Ok(x), None => Err(invalid("not ipc import")) }
        ) {
            Err(e) => {},
            Ok(src) => {
                if !(alias.leases > 0) {
                    match s.alloc_ref(src) {
                        Err(e) => {},
                        Ok(from) => {
                            let from = AllocView {
                                ipc_opens: from.ipc_opens.saturating_sub(1),
                                ..from
                            };
                            alloc_follows(z, s, src, from);
                            let s = SimState { allocs: s.allocs.insert(src, from), ..s };
                            close_alias_follows(z, s, id);
                        },
                    }
                }
            },
        },
    }
}

/// [`Sim::drop_share_import`] continues the history.
pub proof fn drop_share_import_follows(z: SimState, s0: SimState, id: AllocId)
    requires
        follows(z, s0),
    ensures
        follows(z, s0.drop_share_import(id).0),
{
    reveal(SimState::drop_share_import);
    let s = s0;
    match s.alloc_ref(id) {
        Err(e) => {},
        Ok(alias) => match (
            match alias.share_src { Some(x) => Ok(x), None => Err(invalid("not share import")) }
        ) {
            Err(e) => {},
            Ok(src) => {
                if !(alias.leases > 0) {
                    match s.alloc_ref(src) {
                        Err(e) => {},
                        Ok(from) => {
                            let from = AllocView {
                                share_opens: from.share_opens.saturating_sub(1),
                                ..from
                            };
                            alloc_follows(z, s, src, from);
                            let s = SimState { allocs: s.allocs.insert(src, from), ..s };
                            close_alias_follows(z, s, id);
                        },
                    }
                }
            },
        },
    }
}

/// [`Sim::migrate_off_except`] continues the history.
pub proof fn migrate_off_except_follows(z: SimState, s0: SimState, alloc: AllocId, keep: DeviceId)
    requires
        follows(z, s0),
    ensures
        follows(z, s0.migrate_off_except(alloc, keep).0),
{
    let s = s0;
    match s.alloc_ref(alloc) {
        Err(e) => {},
        Ok(a0) => {
            let bytes = a0.bytes;
            let holders = a0.devices;
            migrate_off_except_from_follows(z, s, alloc, keep, bytes, holders, 0);
        },
    }
}

/// [`Sim::migrate_off_except`] continues the history, from position `i` on.
pub proof fn migrate_off_except_from_follows(
    z: SimState,
    s0: SimState,
    alloc: AllocId,
    keep: DeviceId,
    bytes: u64,
    holders: Seq<DeviceId>,
    i: int,
)
    requires
        follows(z, s0),
    ensures
        follows(z, s0.migrate_off_except_from(alloc, keep, bytes, holders, i).0),
    decreases holders.len() - i,
{
    let s = s0;
    if 0 <= i < holders.len() {
        let d = holders[i];
        if d == keep {
            migrate_off_except_from_follows(z, s, alloc, keep, bytes, holders, i + 1);
        } else {
            refund_device_follows(z, s, d, alloc, bytes);
            match s.refund_device(d, alloc, bytes) {
                (s, Err(e)) => {},
                (s, Ok(_v)) => match s.alloc_ref(alloc) {
                    Err(e) => {},
                    Ok(a) => {
                        let a = AllocView { devices: without(a.devices, d), ..a };
                        alloc_follows(z, s, alloc, a);
                        let s = SimState { allocs: s.allocs.insert(alloc, a), ..s };
                        migrate_off_except_from_follows(z, s, alloc, keep, bytes, holders, i + 1);
                    },
                },
            }
        }
    }
}

/// [`Sim::migrate_off_all`] continues the history.
pub proof fn migrate_off_all_follows(z: SimState, s0: SimState, alloc: AllocId)
    requires
        follows(z, s0),
    ensures
        follows(z, s0.migrate_off_all(alloc).0),
{
    let s = s0;
    match s.alloc_ref(alloc) {
        Err(e) => {},
        Ok(a0) => {
            let bytes = a0.bytes;
            let holders = a0.devices;
            migrate_off_all_from_follows(z, s, alloc, bytes, holders, 0);
        },
    }
}

/// [`Sim::migrate_off_all`] continues the history, from position `i` on.
pub proof fn migrate_off_all_from_follows(
    z: SimState,
    s0: SimState,
    alloc: AllocId,
    bytes: u64,
    holders: Seq<DeviceId>,
    i: int,
)
    requires
        follows(z, s0),
    ensures
        follows(z, s0.migrate_off_all_from(alloc, bytes, holders, i).0),
    decreases holders.len() - i,
{
    let s = s0;
    if 0 <= i < holders.len() {
        refund_device_follows(z, s, holders[i], alloc, bytes);
        match s.refund_device(holders[i], alloc, bytes) {
            (s, Err(e)) => {},
            (s, Ok(_v)) => {
                migrate_off_all_from_follows(z, s, alloc, bytes, holders, i + 1);
            },
        }
    } else {
        match s.alloc_ref(alloc) {
            Err(e) => {},
            Ok(a) => {
                alloc_follows(z, s, alloc, AllocView { devices: Seq::empty(), ..a });
            },
        }
    }
}

/// [`Sim::charge_replica_hbm`] continues the history.
pub proof fn charge_replica_hbm_follows(z: SimState, s0: SimState, m: MemcpyOp)
    requires
        follows(z, s0),
    ensures
        follows(z, s0.charge_replica_hbm(m).0),
{
    let s = s0;
    match m.dst {
        Place::Device(dst) => match s.alloc_ref(m.alloc) {
            Err(e) => {},
            Ok(a) => {
                if !(a.devices.contains(dst)) {
                    let bytes = a.bytes;
                    reserve_hbm_follows(z, s, dst, bytes);
                }
            },
        },
        Place::Host | Place::HostPinned => {},
    }
}

/// [`Sim::finish_memcpy`] continues the history.
pub proof fn finish_memcpy_follows(
    z: SimState,
    s0: SimState,
    device: DeviceId,
    m: MemcpyOp,
    dma: bool,
)
    requires
        follows(z, s0),
    ensures
        follows(z, s0.finish_memcpy(device, m, dma).0),
{
    reveal(SimState::finish_memcpy);
    let s = s0;
    if dma {
        match s.gpu_rt(device) {
            Err(e) => {},
            Ok(rt) => {
                let rt = GpuRtView { copies: rt.copies.saturating_sub(1), ..rt };
                gpu_follows(z, s, device, rt);
                let s = SimState { gpus: s.gpus.insert(device, rt), ..s };
                assert(
                    follows(
                        z,
                        SimState {
                            bytes_moved: s.bytes_moved.saturating_add(m.payload_bytes()),
                            ..s
                        },
                    )
                ) by {
                    reveal(follows);
                }
                let s = SimState {
                    bytes_moved: s.bytes_moved.saturating_add(m.payload_bytes()),
                    ..s
                };
                match s.alloc_ref(m.alloc) {
                    Err(e) => {},
                    Ok(a0) => {
                        let managed = a0.managed;
                        let read_mostly = a0.read_mostly;
                        match m.dst {
                            Place::Device(dst) => match s.alloc_ref(m.alloc) {
                                Err(e) => {},
                                Ok(a) => {
                                    let a = AllocView { devices: with_new(a.devices, dst), ..a };
                                    alloc_follows(z, s, m.alloc, a);
                                    let s = SimState { allocs: s.allocs.insert(m.alloc, a), ..s };
                                    if managed && !read_mostly {
                                        migrate_off_except_follows(z, s, m.alloc, dst);
                                    }
                                },
                            },
                            Place::Host => {
                                if managed {
                                    migrate_off_all_follows(z, s, m.alloc);
                                }
                            },
                            Place::HostPinned => if managed {
                                migrate_off_all_follows(z, s, m.alloc);
                            } else {
                                match s.alloc_ref(m.alloc) {
                                    Err(e) => {},
                                    Ok(a) => {
                                        alloc_follows(
                                            z,
                                            s,
                                            m.alloc,
                                            AllocView { host_pinned: true, ..a },
                                        );
                                    },
                                }
                            },
                        }
                    },
                }
            },
        }
    } else {
        match s.alloc_ref(m.alloc) {
            Err(e) => {},
            Ok(a0) => {
                let managed = a0.managed;
                let read_mostly = a0.read_mostly;
                match m.dst {
                    Place::Device(dst) => match s.alloc_ref(m.alloc) {
                        Err(e) => {},
                        Ok(a) => {
                            let a = AllocView { devices: with_new(a.devices, dst), ..a };
                            alloc_follows(z, s, m.alloc, a);
                            let s = SimState { allocs: s.allocs.insert(m.alloc, a), ..s };
                            if managed && !read_mostly {
                                migrate_off_except_follows(z, s, m.alloc, dst);
                            }
                        },
                    },
                    Place::Host => {
                        if managed {
                            migrate_off_all_follows(z, s, m.alloc);
                        }
                    },
                    Place::HostPinned => if managed {
                        migrate_off_all_follows(z, s, m.alloc);
                    } else {
                        match s.alloc_ref(m.alloc) {
                            Err(e) => {},
                            Ok(a) => {
                                alloc_follows(z, s, m.alloc, AllocView { host_pinned: true, ..a });
                            },
                        }
                    },
                }
            },
        }
    }
}

} // verus!
